use vstd::prelude::*;

verus! {

/// The row stored for an issued OTP: the value's bits as a signed integer,
/// the email it was sent for, and its expiry as a signed Unix timestamp.
pub struct OtpRecord {
    pub value: i32,
    pub user_email: String,
    pub exp_timestamp_unix: i64,
}

impl OtpRecord {
    /// The row for `otp`, issued for `email` and expiring at `exp_timestamp_unix`.
    pub fn new(otp: u32, email: &str, exp_timestamp_unix: u64) -> (record: Self)
        ensures
            record.value == otp as i32,
            record.value as u32 == otp,
            record.user_email@ == email@,
            record.exp_timestamp_unix == exp_timestamp_unix as i64,
    {
        let value = otp as i32;
        assert(value as u32 == otp) by (bit_vector)
            requires
                value == otp as i32,
        ;
        OtpRecord {
            value,
            user_email: email.to_owned(),
            exp_timestamp_unix: exp_timestamp_unix as i64,
        }
    }
}

} // verus!
