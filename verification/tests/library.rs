use otp_auth::api::user::auth::{handle_get, handle_post};
use otp_auth::config::{Config, EnvError, EnvVars, VarFault};
use otp_auth::db_client::OtpRecord;
use otp_auth::error::{Error, RouteResult};
use otp_auth::routes::user::{
    applied_user, begin_auth, post_auth_step, read_form_otp, signed_in, user_page, PostAuth,
    PostAuthAction, PostAuthEvent,
};
use otp_auth::user::jwt::{claims_user, generate_claims};
use otp_auth::user::otp::Otp;

const USER: u128 = 0x936d_a01f_9abd_4d9d_80c7_02af_85c8_22a8;
const USER_TEXT: &str = "936da01f-9abd-4d9d-80c7-02af85c822a8";

#[test]
fn auth_route_bodies() {
    assert_eq!(handle_get(), "GET");
    assert_eq!(handle_post(), "POST");
}

#[test]
fn server_error_is_500_with_generic_message() {
    let e = Error::from(eyre::Report::msg("database down"));
    assert_eq!(e.status(), 500);
    assert_eq!(e.message(), "internal server error");
    let r = e.into_response();
    assert_eq!(r.status, 500);
    assert_eq!(r.body, "internal server error");
}

#[test]
fn client_errors_are_422() {
    let r = Error::InvalidOtp.into_response();
    assert_eq!(r.status, 422);
    assert_eq!(r.body, "invalid OTP code");
    let r = Error::InvalidEmail.into_response();
    assert_eq!(r.status, 422);
    assert_eq!(r.body, "invalid email");
}

#[test]
fn error_converts_into_failed_route_result() {
    let r: RouteResult<u8> = Error::InvalidOtp.into();
    assert!(matches!(r, Err(Error::InvalidOtp)));
}

fn vars(port: Result<&str, VarFault>, minutes: Result<&str, VarFault>, sender: Result<&str, VarFault>) -> EnvVars {
    let s = |v: &str| Ok(v.to_string());
    EnvVars {
        port: port.map(|v| v.to_string()),
        jwt_secret: s("secret"),
        jwt_expiration_minutes: minutes.map(|v| v.to_string()),
        database_url: s("postgres://db"),
        smtp_host: s("smtp.example.com"),
        smtp_username: s("mailer"),
        smtp_password: s("SECRET-REDACTED"),
        smtp_email_sender: sender.map(|v| v.to_string()),
    }
}

#[test]
fn config_reads_every_variable() {
    let c = Config::from_env(vars(Ok("8080"), Ok("60"), Ok("Auth <auth@example.com>"))).unwrap();
    assert_eq!(c.port, 8080);
    assert_eq!(c.jwt_expiration_minutes, 60);
    assert_eq!(c.jwt_secret, "secret");
    assert_eq!(c.database_url, "postgres://db");
    assert_eq!(c.smtp_host, "smtp.example.com");
    assert_eq!(c.smtp_username, "mailer");
    assert_eq!(c.smtp_password, "SECRET-REDACTED");
    assert_eq!(c.smtp_email_sender.name.as_deref(), Some("Auth"));
    assert_eq!(c.smtp_email_sender.user, "auth");
    assert_eq!(c.smtp_email_sender.domain, "example.com");
    let c = Config::from_env(vars(Ok("1"), Ok("1"), Ok("noreply@mail.example.org"))).unwrap();
    assert!(c.smtp_email_sender.name.is_none());
    assert_eq!(c.smtp_email_sender.user, "noreply");
    assert_eq!(c.smtp_email_sender.domain, "mail.example.org");
}

#[test]
fn config_defaults_port_and_lifetime() {
    let c = Config::from_env(vars(Err(VarFault::NotPresent), Ok("soon"), Ok("auth@example.com"))).unwrap();
    assert_eq!(c.port, 3000);
    assert_eq!(c.jwt_expiration_minutes, 1440);
    let c = Config::from_env(vars(Ok("70000"), Err(VarFault::NotUnicode("\"\\xFF\"".to_string())), Ok("auth@example.com"))).unwrap();
    assert_eq!(c.port, 3000);
    assert_eq!(c.jwt_expiration_minutes, 1440);
    let c = Config::from_env(vars(Ok("+81"), Ok("007"), Ok("auth@example.com"))).unwrap();
    assert_eq!(c.port, 81);
    assert_eq!(c.jwt_expiration_minutes, 7);
}

#[test]
fn config_reports_first_missing_variable() {
    let mut v = vars(Ok("1"), Ok("1"), Ok("auth@example.com"));
    v.smtp_host = Err(VarFault::NotPresent);
    v.smtp_password = Err(VarFault::NotPresent);
    match Config::from_env(v) {
        Err(EnvError::Var(name, fault)) => {
            assert_eq!(name, "SMTP_HOST");
            assert_eq!(fault, VarFault::NotPresent);
        }
        _ => panic!("expected a missing variable"),
    }
    let mut v = vars(Ok("1"), Ok("1"), Ok("auth@example.com"));
    v.jwt_secret = Err(VarFault::NotUnicode("\"\\xFF\"".to_string()));
    match Config::from_env(v) {
        Err(EnvError::Var(name, fault)) => {
            assert_eq!(name, "JWT_SECRET");
            assert_eq!(fault, VarFault::NotUnicode("\"\\xFF\"".to_string()));
        }
        _ => panic!("expected an unreadable variable"),
    }
}

#[test]
fn config_refuses_a_sender_that_is_no_mailbox() {
    match Config::from_env(vars(Ok("1"), Ok("1"), Ok("not a mailbox"))) {
        Err(EnvError::Parse(name)) => assert_eq!(name, "SMTP_EMAIL_SENDER"),
        _ => panic!("expected a parse error"),
    }
    match Config::from_env(vars(Ok("1"), Ok("1"), Err(VarFault::NotPresent))) {
        Err(EnvError::Var(name, _)) => assert_eq!(name, "SMTP_EMAIL_SENDER"),
        _ => panic!("expected a missing variable"),
    }
}

#[test]
fn otp_record_keeps_the_bits() {
    let r = OtpRecord::new(0xFFFF_FFFF, "a@b.c", 1_700_000_300);
    assert_eq!(r.value, -1);
    assert_eq!(r.value as u32, 0xFFFF_FFFF);
    assert_eq!(r.user_email, "a@b.c");
    assert_eq!(r.exp_timestamp_unix, 1_700_000_300);
    let r = OtpRecord::new(7, "a@b.c", u64::MAX);
    assert_eq!(r.value, 7);
    assert_eq!(r.exp_timestamp_unix, -1);
}

#[test]
fn begin_auth_stores_and_shows_the_same_otp() {
    let otp = Otp(133742069);
    let begun = begin_auth(&otp, "a@b.c".to_string(), 1_700_000_000);
    assert_eq!(begun.record.value as u32, 133742069);
    assert_eq!(begun.record.exp_timestamp_unix, 1_700_000_300);
    assert_eq!(begun.record.user_email, "a@b.c");
    assert!(begun.page.user.is_none());
    let shown = begun.page.otp_response.unwrap();
    assert_eq!(shown.otp, "07158111");
    assert_eq!(shown.email, "a@b.c");
}

#[test]
fn user_page_shows_validated_user_only() {
    let page = user_page(None, None);
    assert!(page.user.is_none() && page.otp_response.is_none());
    let page = user_page(Some("token".to_string()), None);
    assert!(page.user.is_none());
    let page = user_page(Some("token".to_string()), Some(USER));
    let user = page.user.unwrap();
    assert_eq!(user.uuid, USER_TEXT);
    assert_eq!(user.jwt, "token");
    assert!(page.otp_response.is_none());
}

#[test]
fn form_otp_and_applied_user() {
    assert_eq!(read_form_otp("12345678").unwrap().as_u32(), 0x1234_5678);
    assert!(matches!(read_form_otp("12ab5678"), Err(Error::InvalidOtp)));
    assert_eq!(applied_user(Some(USER)).unwrap(), USER);
    assert!(matches!(applied_user(None), Err(Error::InvalidOtp)));
}

#[test]
fn signed_in_sets_cookie_and_shows_user() {
    let done = signed_in(USER, "a.b.c".to_string());
    assert_eq!(done.set_cookie, "auth=a.b.c; Path=/");
    let user = done.page.user.unwrap();
    assert_eq!(user.uuid, USER_TEXT);
    assert_eq!(user.jwt, "a.b.c");
    assert!(done.page.otp_response.is_none());
}

#[test]
fn claims_name_the_user_they_were_issued_for() {
    let c = generate_claims(USER, 1_700_000_000, 1_700_000_001, 1440);
    assert_eq!(c.iat, 1_700_000_000);
    assert_eq!(c.exp, 1_700_000_001 + 1440 * 60);
    assert_eq!(c.sub, USER_TEXT);
    assert_eq!(claims_user(&c).unwrap(), USER);
}

#[test]
fn claims_user_reads_other_uuid_forms_and_refuses_garbage() {
    let mut c = generate_claims(USER, 0, 0, 0);
    c.sub = "936DA01F9ABD4D9D80C702AF85C822A8".to_string();
    assert_eq!(claims_user(&c).unwrap(), USER);
    c.sub = "not-a-uuid".to_string();
    assert!(claims_user(&c).is_err());
}

#[test]
fn user_page_depends_only_on_the_session() {
    let a = user_page(Some("t".to_string()), Some(USER));
    let b = user_page(Some("t".to_string()), Some(USER));
    let (ua, ub) = (a.user.unwrap(), b.user.unwrap());
    assert_eq!((ua.uuid, ua.jwt), (ub.uuid, ub.jwt));
    assert!(a.otp_response.is_none() && b.otp_response.is_none());
}

#[test]
fn post_auth_signs_in_the_user_the_store_names() {
    let form = PostAuthEvent::Form { otp: "12345678".to_string(), email: "a@b.c".to_string() };
    assert!(PostAuth::AwaitingForm.accepts(&form));
    let (state, action) = post_auth_step(PostAuth::AwaitingForm, form);
    match action {
        PostAuthAction::ApplyOtp { otp, email } => {
            assert_eq!(otp, 0x1234_5678);
            assert_eq!(email, "a@b.c");
        }
        _ => panic!("expected the OTP to be applied"),
    }
    assert!(matches!(state, PostAuth::AwaitingUser));
    let (state, action) = post_auth_step(state, PostAuthEvent::UserApplied(Ok(Some(USER))));
    assert!(matches!(action, PostAuthAction::IssueToken { user } if user == USER));
    assert!(matches!(state, PostAuth::AwaitingToken { user } if user == USER));
    let (state, action) = post_auth_step(state, PostAuthEvent::TokenIssued(Ok("x.y.z".to_string())));
    assert!(matches!(state, PostAuth::Finished));
    match action {
        PostAuthAction::Respond(done) => {
            assert_eq!(done.set_cookie, "auth=x.y.z; Path=/");
            let user = done.page.user.unwrap();
            assert_eq!(user.uuid, USER_TEXT);
            assert_eq!(user.jwt, "x.y.z");
        }
        _ => panic!("expected a signed-in answer"),
    }
}

#[test]
fn post_auth_refuses_bad_otps_and_reports_failures() {
    let form = PostAuthEvent::Form { otp: "1234".to_string(), email: "a@b.c".to_string() };
    let (_, action) = post_auth_step(PostAuth::AwaitingForm, form);
    assert!(matches!(action, PostAuthAction::Fail(Error::InvalidOtp)));
    let (_, action) = post_auth_step(PostAuth::AwaitingUser, PostAuthEvent::UserApplied(Ok(None)));
    assert!(matches!(action, PostAuthAction::Fail(Error::InvalidOtp)));
    let failure = PostAuthEvent::UserApplied(Err(eyre::Report::msg("store down")));
    let (_, action) = post_auth_step(PostAuth::AwaitingUser, failure);
    match action {
        PostAuthAction::Fail(e) => assert_eq!(e.status(), 500),
        _ => panic!("expected a server error"),
    }
    let failure = PostAuthEvent::TokenIssued(Err(eyre::Report::msg("no key")));
    let (_, action) = post_auth_step(PostAuth::AwaitingToken { user: USER }, failure);
    assert!(matches!(action, PostAuthAction::Fail(Error::ServerError(_))));
    assert!(!PostAuth::AwaitingUser.accepts(&PostAuthEvent::TokenIssued(Ok(String::new()))));
}
