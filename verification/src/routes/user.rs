use vstd::prelude::*;

use crate::db_client::OtpRecord;
use crate::error::{Error, RouteResult};
use crate::user::jwt::{uuid_hyphenated, uuid_text};
use crate::user::otp::{otp_from_text, otp_text, Otp};

verus! {

/// The signed-in user shown on the user page.
pub struct UserView {
    pub uuid: String,
    pub jwt: String,
}

/// The OTP just issued, shown on the user page.
pub struct OtpResponse {
    pub otp: String,
    pub email: String,
}

/// What the user page shows.
pub struct UserPage {
    pub user: Option<UserView>,
    pub otp_response: Option<OtpResponse>,
}

/// The answer to a request that completed sign-in: the `Set-Cookie` value
/// and the page.
pub struct SignedIn {
    pub set_cookie: String,
    pub page: UserPage,
}

/// The answer to a request that began sign-in: the OTP row to store and the
/// page that shows the OTP.
pub struct BeginAuth {
    pub record: OtpRecord,
    pub page: UserPage,
}

/// Whether `view` shows `user` signed in with token `jwt`.
pub open spec fn shows_user(view: UserView, user: u128, jwt: Seq<char>) -> bool {
    view.uuid@ == uuid_hyphenated(user) && view.jwt@ == jwt
}

/// The lifetime of an issued OTP, in seconds.
pub const OTP_LIFETIME_SECONDS: u64 = 300;

/// The `Set-Cookie` value that stores a session token.
pub open spec fn auth_cookie(jwt: Seq<char>) -> Seq<char> {
    "auth="@ + jwt + "; Path=/"@
}

/// A user page as texts: the shown user's UUID and token, and the shown OTP
/// and email.
pub open spec fn user_page_view(page: UserPage) -> (
    Option<(Seq<char>, Seq<char>)>,
    Option<(Seq<char>, Seq<char>)>,
) {
    (
        match page.user {
            Some(v) => Some((v.uuid@, v.jwt@)),
            None => None,
        },
        match page.otp_response {
            Some(r) => Some((r.otp@, r.email@)),
            None => None,
        },
    )
}

/// The user page for the value of the request's `auth` cookie (`jwt`) and
/// the user that its token validated as naming.
pub open spec fn expected_user_page(jwt: Option<Seq<char>>, user: Option<u128>) -> (
    Option<(Seq<char>, Seq<char>)>,
    Option<(Seq<char>, Seq<char>)>,
) {
    match (jwt, user) {
        (Some(j), Some(u)) => (Some((uuid_hyphenated(u), j)), None),
        _ => (None, None),
    }
}

/// The text of an optional cookie value.
pub open spec fn cookie_text(jwt: Option<String>) -> Option<Seq<char>> {
    match jwt {
        Some(j) => Some(j@),
        None => None,
    }
}

/// What `user_page` promises of the page it gives for the cookie value
/// `jwt` and the validated `user`.
pub open spec fn is_user_page_for(page: UserPage, jwt: Option<Seq<char>>, user: Option<u128>) -> bool {
    user_page_view(page) == expected_user_page(jwt, user)
}

/// Only the `auth` cookie's value and the user its token names decide the
/// user page: two pages given by `user_page` for equal cookie texts and
/// equal users show the same, and neither shows an OTP.
pub proof fn law_user_page_reads_only_the_session(
    page1: UserPage,
    page2: UserPage,
    jwt1: Option<Seq<char>>,
    jwt2: Option<Seq<char>>,
    user1: Option<u128>,
    user2: Option<u128>,
)
    requires
        is_user_page_for(page1, jwt1, user1),
        is_user_page_for(page2, jwt2, user2),
        jwt1 == jwt2,
        user1 == user2,
    ensures
        user_page_view(page1) == user_page_view(page2),
        page1.otp_response is None,
        page2.otp_response is None,
{
}

/// The `Set-Cookie` value carries the whole token unchanged: it is `auth=`,
/// then every character of the token in order, then `; Path=/`.
pub proof fn law_auth_cookie_carries_token(jwt: Seq<char>)
    ensures
        auth_cookie(jwt).len() == jwt.len() + 13,
        auth_cookie(jwt).subrange(0, 5) == seq!['a', 'u', 't', 'h', '='],
        auth_cookie(jwt).subrange(5, 5 + jwt.len() as int) == jwt,
        auth_cookie(jwt).subrange(5 + jwt.len() as int, jwt.len() as int + 13) == seq![
            ';',
            ' ',
            'P',
            'a',
            't',
            'h',
            '=',
            '/',
        ],
{
    reveal_strlit("auth=");
    reveal_strlit("; Path=/");
    let c = auth_cookie(jwt);
    assert(c.subrange(0, 5) =~= seq!['a', 'u', 't', 'h', '=']);
    assert(c.subrange(5, 5 + jwt.len() as int) =~= jwt);
    assert(c.subrange(5 + jwt.len() as int, jwt.len() as int + 13) =~= seq![';', ' ', 'P', 'a', 't', 'h', '=', '/']);
}

/// The user page for a request: signed in where the request carries an
/// `auth` cookie (`jwt`) whose token validated as naming `user`, signed out
/// otherwise.
pub fn user_page(jwt: Option<String>, user: Option<u128>) -> (page: UserPage)
    ensures
        page.otp_response is None,
        page.user is Some <==> jwt is Some && user is Some,
        page.user matches Some(v) ==> shows_user(v, user.unwrap(), jwt.unwrap()@),
        is_user_page_for(page, cookie_text(jwt), user),
{
    match jwt {
        None => UserPage { user: None, otp_response: None },
        Some(jwt) => match user {
            None => UserPage { user: None, otp_response: None },
            Some(user) => UserPage {
                user: Some(UserView { uuid: uuid_text(user), jwt }),
                otp_response: None,
            },
        },
    }
}

/// Begins sign-in for `email` at time `now` with the freshly drawn `otp`:
/// the row to store, which expires five minutes later, and the page that
/// shows the OTP.
pub fn begin_auth(otp: &Otp, email: String, now: u64) -> (begun: BeginAuth)
    requires
        now + OTP_LIFETIME_SECONDS <= u64::MAX,
    ensures
        begun.record.value as u32 == otp.0,
        begun.record.value == otp.0 as i32,
        begun.record.user_email@ == email@,
        begun.record.exp_timestamp_unix == (now + OTP_LIFETIME_SECONDS) as i64,
        begun.page.user is None,
        begun.page.otp_response matches Some(r) && r.otp@ == otp_text(otp.0) && r.email@
            == email@,
{
    let exp_timestamp_unix = now + (5 * 60);
    let record = OtpRecord::new(otp.as_u32(), email.as_str(), exp_timestamp_unix);
    let page = UserPage {
        user: None,
        otp_response: Some(OtpResponse { otp: otp.to_string(), email }),
    };
    BeginAuth { record, page }
}

/// Reads the OTP of a sign-in form; a text that is no OTP is refused as an
/// invalid OTP.
pub fn read_form_otp(text: &str) -> (otp: RouteResult<Otp>)
    ensures
        otp is Err <==> otp_from_text(text@) is None,
        otp matches Err(e) ==> e is InvalidOtp,
        otp matches Ok(o) ==> otp_from_text(text@) == Some(o.0),
{
    match Otp::from_str(text) {
        Some(otp) => Ok(otp),
        None => Err(Error::InvalidOtp),
    }
}

/// The user whom an applied OTP signs in; an OTP that matched no user is
/// refused as an invalid OTP.
pub fn applied_user(applied: Option<u128>) -> (user: RouteResult<u128>)
    ensures
        applied matches Some(u) ==> user == Ok::<u128, Error>(u),
        applied is None ==> (user matches Err(e) && e is InvalidOtp),
{
    match applied {
        Some(user) => Ok(user),
        None => Err(Error::InvalidOtp),
    }
}

/// Completes sign-in of `user` with the session token `jwt`: the cookie that
/// stores the token, and the page that shows the user.
pub fn signed_in(user: u128, jwt: String) -> (done: SignedIn)
    ensures
        done.set_cookie@ == auth_cookie(jwt@),
        done.set_cookie@ == seq!['a', 'u', 't', 'h', '='] + jwt@ + seq![
            ';',
            ' ',
            'P',
            'a',
            't',
            'h',
            '=',
            '/',
        ],
        done.page.otp_response is None,
        done.page.user matches Some(v) && shows_user(v, user, jwt@),
{
    let mut set_cookie = String::from_str("auth=");
    set_cookie.append(jwt.as_str());
    set_cookie.append("; Path=/");
    proof {
        reveal_strlit("auth=");
        reveal_strlit("; Path=/");
        assert("auth="@ =~= seq!['a', 'u', 't', 'h', '=']);
        assert("; Path=/"@ =~= seq![';', ' ', 'P', 'a', 't', 'h', '=', '/']);
    }
    let page = UserPage {
        user: Some(UserView { uuid: uuid_text(user), jwt }),
        otp_response: None,
    };
    SignedIn { set_cookie, page }
}

/// Where completing sign-in stands.
pub enum PostAuth {
    /// The form has not been read yet.
    AwaitingForm,
    /// The form's OTP was handed to the store, which is to say whose it is.
    AwaitingUser,
    /// A session token is being made for `user`.
    AwaitingToken { user: u128 },
    /// The request has been answered.
    Finished,
}

/// What happened outside since the last step.
pub enum PostAuthEvent {
    /// The sign-in form arrived.
    Form { otp: String, email: String },
    /// The store applied the OTP: the user it belongs to, if any, or a failure.
    UserApplied(Result<Option<u128>, eyre::Report>),
    /// The session token was made, or making it failed.
    TokenIssued(Result<String, eyre::Report>),
}

/// What to do next.
pub enum PostAuthAction {
    /// Apply `otp` for `email` in the store.
    ApplyOtp { otp: u32, email: String },
    /// Make a session token for `user`.
    IssueToken { user: u128 },
    /// Answer with the signed-in page and cookie.
    Respond(SignedIn),
    /// Answer with the error.
    Fail(Error),
}

/// Whether `action` refuses the request as carrying an invalid OTP.
pub open spec fn refuses_invalid_otp(action: PostAuthAction) -> bool {
    action is Fail && action->Fail_0 is InvalidOtp
}

/// Whether `done` signs in `user` with the session token `jwt`: the cookie
/// stores the token, and the page shows the user and no OTP.
pub open spec fn signs_in(done: SignedIn, user: u128, jwt: Seq<char>) -> bool {
    &&& done.set_cookie@ == auth_cookie(jwt)
    &&& done.page.otp_response is None
    &&& done.page.user is Some
    &&& shows_user(done.page.user->Some_0, user, jwt)
}

/// Whether the step function takes `event` in `state`.
pub open spec fn post_auth_accepts(state: PostAuth, event: PostAuthEvent) -> bool {
    match (state, event) {
        (PostAuth::AwaitingForm, PostAuthEvent::Form { .. }) => true,
        (PostAuth::AwaitingUser, PostAuthEvent::UserApplied(_)) => true,
        (PostAuth::AwaitingToken { .. }, PostAuthEvent::TokenIssued(_)) => true,
        _ => false,
    }
}

impl PostAuth {
    /// Whether `event` is the one this state waits for.
    pub fn accepts(&self, event: &PostAuthEvent) -> (r: bool)
        ensures
            r == post_auth_accepts(*self, *event),
    {
        match (self, event) {
            (PostAuth::AwaitingForm, PostAuthEvent::Form { .. }) => true,
            (PostAuth::AwaitingUser, PostAuthEvent::UserApplied(_)) => true,
            (PostAuth::AwaitingToken { .. }, PostAuthEvent::TokenIssued(_)) => true,
            _ => false,
        }
    }
}

/// One step of completing sign-in. The form's OTP, where it reads as one, is
/// applied for the form's email; the user the store names gets a token; that
/// user and token sign in. An OTP that does not read, or that the store names
/// no user for, is refused as invalid; a failure of the store or of the token
/// is a server error.
pub fn post_auth_step(state: PostAuth, event: PostAuthEvent) -> (next: (PostAuth, PostAuthAction))
    requires
        post_auth_accepts(state, event),
    ensures
        event matches PostAuthEvent::Form { otp, email } ==> match otp_from_text(otp@) {
            Some(v) => {
                &&& next.0 is AwaitingUser
                &&& next.1 is ApplyOtp
                &&& next.1->otp == v
                &&& next.1->email@ == email@
            },
            None => next.0 is Finished && refuses_invalid_otp(next.1),
        },
        event matches PostAuthEvent::UserApplied(applied) ==> match applied {
            Ok(Some(u)) => next.0 == PostAuth::AwaitingToken { user: u } && next.1
                == PostAuthAction::IssueToken { user: u },
            Ok(None) => next.0 is Finished && refuses_invalid_otp(next.1),
            Err(report) => next.0 is Finished && next.1 == PostAuthAction::Fail(
                Error::ServerError(report),
            ),
        },
        event matches PostAuthEvent::TokenIssued(issued) ==> match issued {
            Ok(jwt) => {
                &&& next.0 is Finished
                &&& next.1 is Respond
                &&& signs_in(next.1->Respond_0, state->user, jwt@)
            },
            Err(report) => next.0 is Finished && next.1 == PostAuthAction::Fail(
                Error::ServerError(report),
            ),
        },
{
    match event {
        PostAuthEvent::Form { otp, email } => match read_form_otp(otp.as_str()) {
            Ok(otp) => (PostAuth::AwaitingUser, PostAuthAction::ApplyOtp { otp: otp.as_u32(), email }),
            Err(e) => (PostAuth::Finished, PostAuthAction::Fail(e)),
        },
        PostAuthEvent::UserApplied(Err(report)) => (
            PostAuth::Finished,
            PostAuthAction::Fail(Error::from(report)),
        ),
        PostAuthEvent::UserApplied(Ok(applied)) => match applied_user(applied) {
            Ok(user) => (PostAuth::AwaitingToken { user }, PostAuthAction::IssueToken { user }),
            Err(e) => (PostAuth::Finished, PostAuthAction::Fail(e)),
        },
        PostAuthEvent::TokenIssued(Err(report)) => (
            PostAuth::Finished,
            PostAuthAction::Fail(Error::from(report)),
        ),
        PostAuthEvent::TokenIssued(Ok(jwt)) => {
            let user = match state {
                PostAuth::AwaitingToken { user } => user,
                _ => 0,
            };
            (PostAuth::Finished, PostAuthAction::Respond(signed_in(user, jwt)))
        },
    }
}

} // verus!
