# otp_auth

A small web service that signs users in with one-time passwords (OTPs) and
keeps the session in a signed token (JWT) stored in an `auth` cookie.

- `src/` is the verified library (Verus): the OTP type and its text
  (`user/otp.rs`), the session claims and user ids (`user/jwt.rs`), the
  configuration read from environment values (`config.rs`), the stored OTP
  row (`db_client.rs`), route errors and their responses (`error.rs`), and
  the decisions of the user routes (`routes/user.rs`).
- `app/` is the server around it: reading the environment, the database
  pool, email sending, token encoding and decoding, templates and routing.
- `tests/` runs the library on concrete values.
