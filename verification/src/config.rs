use vstd::prelude::*;

use crate::user::otp::is_digit_char;

verus! {

pub const DEFAULT_PORT: u16 = 3000;

pub const DEFAULT_JWT_EXPIRATION_MINUTES: u64 = 1440;

/// Why an environment variable could not be read.
#[derive(Debug, Clone, PartialEq, Eq)]
pub enum VarFault {
    /// The variable is not set.
    NotPresent,
    /// The variable's value is not valid unicode; the value, as its debug
    /// rendering.
    NotUnicode(String),
}

/// A mailbox: an optional display name and an email address, kept as the
/// address's user and domain parts.
pub struct Mailbox {
    pub name: Option<String>,
    pub user: String,
    pub domain: String,
}

/// The text of an optional string.
pub open spec fn option_text(s: Option<String>) -> Option<Seq<char>> {
    match s {
        Some(t) => Some(t@),
        None => None,
    }
}

/// A mailbox as its name, user and domain texts.
pub open spec fn mailbox_view(m: Mailbox) -> (Option<Seq<char>>, Seq<char>, Seq<char>) {
    (option_text(m.name), m.user@, m.domain@)
}

/// An environment variable that is missing or holds no value of its type.
#[derive(Debug)]
pub enum EnvError {
    /// The variable (named) could not be read.
    Var(String, VarFault),
    /// The variable (named) could not be parsed into its type.
    Parse(String),
}

/// The server's configuration.
pub struct Config {
    pub port: u16,
    pub jwt_secret: String,
    pub jwt_expiration_minutes: u64,
    pub database_url: String,
    pub smtp_host: String,
    pub smtp_username: String,
    pub smtp_password: String,
    pub smtp_email_sender: Mailbox,
}

/// The environment variables that the configuration is read from, each as
/// reading it gave: its value, or why it could not be read.
pub struct EnvVars {
    pub port: Result<String, VarFault>,
    pub jwt_secret: Result<String, VarFault>,
    pub jwt_expiration_minutes: Result<String, VarFault>,
    pub database_url: Result<String, VarFault>,
    pub smtp_host: Result<String, VarFault>,
    pub smtp_username: Result<String, VarFault>,
    pub smtp_password: Result<String, VarFault>,
    pub smtp_email_sender: Result<String, VarFault>,
}

/// The value of the decimal digits `s`.
pub open spec fn decimal_value(s: Seq<char>) -> int
    decreases s.len(),
{
    if s.len() == 0 {
        0
    } else {
        decimal_value(s.drop_last()) * 10 + (s.last() as int - 48)
    }
}

/// Whether every character of `s` is a decimal digit.
pub open spec fn all_digit_chars(s: Seq<char>) -> bool {
    forall|i: int| 0 <= i < s.len() ==> is_digit_char(#[trigger] s[i])
}

/// The text after an optional leading `+`.
pub open spec fn unsigned_digits(s: Seq<char>) -> Seq<char> {
    if s.len() > 0 && s[0] == '+' {
        s.drop_first()
    } else {
        s
    }
}

/// The value of an unsigned integer's text: an optional `+` followed by one
/// or more decimal digits, and nothing else.
pub open spec fn unsigned_text_value(s: Seq<char>) -> Option<int> {
    if unsigned_digits(s).len() > 0 && all_digit_chars(unsigned_digits(s)) {
        Some(decimal_value(unsigned_digits(s)))
    } else {
        None
    }
}

/// The `u16` that `s` is the text of, if any.
pub open spec fn text_u16(s: Seq<char>) -> Option<u16> {
    match unsigned_text_value(s) {
        Some(v) => if v <= u16::MAX {
            Some(v as u16)
        } else {
            None
        },
        None => None,
    }
}

/// The `u64` that `s` is the text of, if any.
pub open spec fn text_u64(s: Seq<char>) -> Option<u64> {
    match unsigned_text_value(s) {
        Some(v) => if v <= u64::MAX {
            Some(v as u64)
        } else {
            None
        },
        None => None,
    }
}

/// The mailbox that `lettre` parses `s` as (its `FromStr` for `Mailbox`), as
/// its name, address user and address domain, or `None` where it refuses `s`.
pub uninterp spec fn mailbox_parse(s: Seq<char>) -> Option<(Option<Seq<char>>, Seq<char>, Seq<char>)>;

/// Parses a `u16` (`str::parse`). Claimed, as std documents for integer
/// parsing: an optional `+` followed by only decimal digits, whose value
/// fits, and nothing else.
#[verifier::external_body]
fn parse_u16(s: &str) -> (r: Option<u16>)
    ensures
        r == text_u16(s@),
{
    s.parse::<u16>().ok()
}

/// Parses a `u64` (`str::parse`). Claimed as for `parse_u16`.
#[verifier::external_body]
fn parse_u64(s: &str) -> (r: Option<u64>)
    ensures
        r == text_u64(s@),
{
    s.parse::<u64>().ok()
}

/// Parses a mailbox (`lettre`'s `FromStr` for `Mailbox`, which reads a
/// deterministic grammar), giving its name and its address's `user()` and
/// `domain()` parts. Claimed: the result is the named `mailbox_parse` of the
/// text.
#[verifier::external_body]
fn parse_mailbox(s: &str) -> (r: Option<Mailbox>)
    ensures
        r is Some <==> mailbox_parse(s@) is Some,
        r matches Some(m) ==> mailbox_parse(s@) == Some(mailbox_view(m)),
{
    match s.parse::<lettre::message::Mailbox>() {
        Ok(m) => Some(Mailbox {
            name: m.name,
            user: m.email.user().to_string(),
            domain: m.email.domain().to_string(),
        }),
        Err(_) => None,
    }
}

/// The port that a `PORT` reading gives: its value where it reads as a
/// `u16`, the default otherwise.
pub open spec fn port_from(raw: Result<String, VarFault>) -> u16 {
    match raw {
        Ok(s) => match text_u16(s@) {
            Some(p) => p,
            None => DEFAULT_PORT,
        },
        Err(_) => DEFAULT_PORT,
    }
}

/// The token lifetime that a `JWT_EXPIRATION_MINUTES` reading gives: its
/// value where it reads as a `u64`, the default otherwise.
pub open spec fn jwt_expiration_from(raw: Result<String, VarFault>) -> u64 {
    match raw {
        Ok(s) => match text_u64(s@) {
            Some(m) => m,
            None => DEFAULT_JWT_EXPIRATION_MINUTES,
        },
        Err(_) => DEFAULT_JWT_EXPIRATION_MINUTES,
    }
}

/// A `JWT_EXPIRATION_MINUTES` reading that parses as a `u64` gives exactly
/// that lifetime; the default comes only from a reading that failed or does
/// not parse.
pub proof fn law_jwt_expiration_reading(raw: Result<String, VarFault>)
    ensures
        raw is Ok && text_u64(raw->Ok_0@) is Some ==> jwt_expiration_from(raw) == text_u64(
            raw->Ok_0@,
        )->Some_0,
        raw is Err || text_u64(raw->Ok_0@) is None ==> jwt_expiration_from(raw) == 1440,
{
}

/// A `PORT` reading that parses as a `u16` gives exactly that port; the
/// default comes only from a reading that failed or does not parse.
pub proof fn law_port_reading(raw: Result<String, VarFault>)
    ensures
        raw is Ok && text_u16(raw->Ok_0@) is Some ==> port_from(raw) == text_u16(raw->Ok_0@)->Some_0,
        raw is Err || text_u16(raw->Ok_0@) is None ==> port_from(raw) == 3000,
{
}

/// The error of a variable, as its name and, for a failed read, the fault
/// (`None` for a failed parse).
pub open spec fn env_error_view(e: EnvError) -> (Seq<char>, Option<VarFault>) {
    match e {
        EnvError::Var(name, fault) => (name@, Some(fault)),
        EnvError::Parse(name) => (name@, None),
    }
}

/// The first failure, in the order the configuration reads its variables:
/// a required text variable that cannot be read, or a sender that cannot be
/// read or parsed as a mailbox.
pub open spec fn first_env_failure(vars: EnvVars) -> Option<(Seq<char>, Option<VarFault>)> {
    if vars.jwt_secret is Err {
        Some(("JWT_SECRET"@, Some(vars.jwt_secret->Err_0)))
    } else if vars.database_url is Err {
        Some(("DATABASE_URL"@, Some(vars.database_url->Err_0)))
    } else if vars.smtp_host is Err {
        Some(("SMTP_HOST"@, Some(vars.smtp_host->Err_0)))
    } else if vars.smtp_username is Err {
        Some(("SMTP_USERNAME"@, Some(vars.smtp_username->Err_0)))
    } else if vars.smtp_password is Err {
        Some(("SMTP_PASSWORD"@, Some(vars.smtp_password->Err_0)))
    } else if vars.smtp_email_sender is Err {
        Some(("SMTP_EMAIL_SENDER"@, Some(vars.smtp_email_sender->Err_0)))
    } else if mailbox_parse(vars.smtp_email_sender->Ok_0@) is None {
        Some(("SMTP_EMAIL_SENDER"@, None))
    } else {
        None
    }
}

/// A required text variable: its value, or the error naming it.
fn required_text(name: &str, raw: Result<String, VarFault>) -> (r: Result<String, EnvError>)
    ensures
        raw matches Ok(s) ==> r matches Ok(t) && t@ == s@,
        raw matches Err(f) ==> r matches Err(e) && env_error_view(e) == (name@, Some(f)),
{
    match raw {
        Ok(value) => Ok(value),
        Err(fault) => Err(EnvError::Var(name.to_owned(), fault)),
    }
}

impl Config {
    /// The configuration that the environment variables give. The port and
    /// the token lifetime fall back to their defaults where they are missing
    /// or do not parse; every other variable is required, and the first one
    /// that fails is reported.
    pub fn from_env(vars: EnvVars) -> (r: Result<Config, EnvError>)
        ensures
            r is Ok <==> first_env_failure(vars) is None,
            r matches Err(e) ==> Some(env_error_view(e)) == first_env_failure(vars),
            r matches Ok(c) ==> {
                &&& c.port == port_from(vars.port)
                &&& c.jwt_expiration_minutes == jwt_expiration_from(vars.jwt_expiration_minutes)
                &&& (vars.port is Ok && text_u16(vars.port->Ok_0@) is Some ==> c.port == text_u16(
                    vars.port->Ok_0@,
                )->Some_0)
                &&& (vars.port is Err || text_u16(vars.port->Ok_0@) is None ==> c.port == 3000)
                &&& (vars.jwt_expiration_minutes is Ok && text_u64(
                    vars.jwt_expiration_minutes->Ok_0@,
                ) is Some ==> c.jwt_expiration_minutes == text_u64(
                    vars.jwt_expiration_minutes->Ok_0@,
                )->Some_0)
                &&& (vars.jwt_expiration_minutes is Err || text_u64(
                    vars.jwt_expiration_minutes->Ok_0@,
                ) is None ==> c.jwt_expiration_minutes == 1440)
                &&& c.jwt_secret@ == vars.jwt_secret->Ok_0@
                &&& c.database_url@ == vars.database_url->Ok_0@
                &&& c.smtp_host@ == vars.smtp_host->Ok_0@
                &&& c.smtp_username@ == vars.smtp_username->Ok_0@
                &&& c.smtp_password@ == vars.smtp_password->Ok_0@
                &&& Some(mailbox_view(c.smtp_email_sender)) == mailbox_parse(
                    vars.smtp_email_sender->Ok_0@,
                )
            },
    {
        let EnvVars {
            port,
            jwt_secret,
            jwt_expiration_minutes,
            database_url,
            smtp_host,
            smtp_username,
            smtp_password,
            smtp_email_sender,
        } = vars;
        let port = match &port {
            Ok(s) => match parse_u16(s.as_str()) {
                Some(p) => p,
                None => DEFAULT_PORT,
            },
            Err(_) => DEFAULT_PORT,
        };
        let jwt_secret = match required_text("JWT_SECRET", jwt_secret) {
            Ok(s) => s,
            Err(e) => return Err(e),
        };
        let jwt_expiration_minutes = match &jwt_expiration_minutes {
            Ok(s) => match parse_u64(s.as_str()) {
                Some(m) => m,
                None => DEFAULT_JWT_EXPIRATION_MINUTES,
            },
            Err(_) => DEFAULT_JWT_EXPIRATION_MINUTES,
        };
        let database_url = match required_text("DATABASE_URL", database_url) {
            Ok(s) => s,
            Err(e) => return Err(e),
        };
        let smtp_host = match required_text("SMTP_HOST", smtp_host) {
            Ok(s) => s,
            Err(e) => return Err(e),
        };
        let smtp_username = match required_text("SMTP_USERNAME", smtp_username) {
            Ok(s) => s,
            Err(e) => return Err(e),
        };
        let smtp_password = match required_text("SMTP_PASSWORD", smtp_password) {
            Ok(s) => s,
            Err(e) => return Err(e),
        };
        let sender_text = match required_text("SMTP_EMAIL_SENDER", smtp_email_sender) {
            Ok(s) => s,
            Err(e) => return Err(e),
        };
        let smtp_email_sender = match parse_mailbox(sender_text.as_str()) {
            Some(m) => m,
            None => return Err(EnvError::Parse(String::from_str("SMTP_EMAIL_SENDER"))),
        };
        Ok(Config {
            port,
            jwt_secret,
            jwt_expiration_minutes,
            database_url,
            smtp_host,
            smtp_username,
            smtp_password,
            smtp_email_sender,
        })
    }
}

} // verus!
