pub mod jwt;
pub mod otp;
