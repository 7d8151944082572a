use otp_auth::user::otp::Otp;

#[test]
fn to_string() {
    let otp = Otp(133742069);
    assert_eq!(otp.to_string(), "07158111");
}

#[test]
fn random() {
    let otp = Otp::random();
    assert_eq!(otp.to_string().len(), 8);
}

#[test]
fn decompose_gives_nibbles_most_significant_first() {
    let otp = Otp(0x07F8_BDF5);
    assert_eq!(otp.decompose(), [0, 7, 15, 8, 11, 13, 15, 5]);
    assert_eq!(Otp(0).decompose(), [0; 8]);
    assert_eq!(Otp(u32::MAX).decompose(), [15; 8]);
}

#[test]
fn to_string_of_small_nibbles_is_one_digit_each() {
    assert_eq!(Otp(0x1234_5678).to_string(), "12345678");
    assert_eq!(Otp(0).to_string(), "00000000");
}

#[test]
fn to_string_cuts_to_eight_characters() {
    // every nibble is 15, rendered "15": the text is cut after eight characters
    assert_eq!(Otp(u32::MAX).to_string(), "15151515");
    assert_eq!(Otp(0xA000_0000).to_string(), "10000000");
}

#[test]
fn as_u32_gives_the_value() {
    assert_eq!(Otp(42).as_u32(), 42);
}

#[test]
fn from_str_reads_one_nibble_per_digit() {
    let otp = Otp::from_str("12345678").unwrap();
    assert_eq!(otp.as_u32(), 0x1234_5678);
    assert_eq!(Otp::from_str("00000000").unwrap().as_u32(), 0);
}

#[test]
fn from_str_refuses_other_texts() {
    assert!(Otp::from_str("1234567").is_none());
    assert!(Otp::from_str("123456789").is_none());
    assert!(Otp::from_str("1234a678").is_none());
    assert!(Otp::from_str("").is_none());
    assert!(Otp::from_str("+1234567").is_none());
}

#[test]
fn from_str_then_to_string_gives_the_text_back() {
    let text = "90817263";
    assert_eq!(Otp::from_str(text).unwrap().to_string(), text);
}

#[test]
fn to_string_then_from_str_gives_the_otp_back() {
    let otp = Otp(0x9081_7263);
    assert_eq!(Otp::from_str(&otp.to_string()).unwrap().as_u32(), 0x9081_7263);
}
