use vstd::prelude::*;

use crate::text::pow16;

verus! {

/// The lowercase hexadecimal character of a value `d < 16`.
pub open spec fn hex_char(d: int) -> char {
    if d < 10 {
        (d + 48) as char
    } else {
        (d + 87) as char
    }
}

/// The 32 lowercase hexadecimal characters of a 128-bit value, most
/// significant first.
pub open spec fn hex128(bits: u128) -> Seq<char> {
    Seq::new(32, |i: int| hex_char((bits as int / pow16((31 - i) as nat) as int) % 16))
}

/// The hyphenated text of a UUID: its hexadecimal characters in groups of
/// 8, 4, 4, 4 and 12, joined by `-`.
pub open spec fn uuid_hyphenated(bits: u128) -> Seq<char> {
    let h = hex128(bits);
    h.subrange(0, 8) + seq!['-'] + h.subrange(8, 12) + seq!['-'] + h.subrange(12, 16) + seq!['-']
        + h.subrange(16, 20) + seq!['-'] + h.subrange(20, 32)
}

/// What `uuid::Uuid::parse_str` reads from a text, as the 128-bit value of the
/// UUID, or `None` where it refuses the text.
pub uninterp spec fn uuid_parse(s: Seq<char>) -> Option<u128>;

/// The text of a UUID (`uuid::Uuid::from_u128`, then its `Display`, which
/// the crate documents as the hyphenated lowercase form). Claimed: the text
/// is `uuid_hyphenated(bits)`.
#[verifier::external_body]
pub(crate) fn uuid_text(bits: u128) -> (s: String)
    ensures
        s@ == uuid_hyphenated(bits),
{
    uuid::Uuid::from_u128(bits).to_string()
}

/// Parses a UUID (`uuid::Uuid::parse_str`), giving its 128-bit value
/// (`as_u128`) or the crate's error as an `eyre` report. Claimed: it
/// succeeds exactly where the named `uuid_parse` of the text is a value,
/// with that value, and a text in
/// the hyphenated form that the crate itself writes reads back as the value
/// it was written from (the crate documents that every format it generates
/// is accepted). Which other texts are accepted is left to the name; what
/// the error holds is left unsaid.
#[verifier::external_body]
pub(crate) fn parse_uuid(s: &str) -> (r: Result<u128, eyre::Report>)
    ensures
        r is Ok <==> uuid_parse(s@) is Some,
        r matches Ok(v) ==> uuid_parse(s@) == Some(v),
        forall|x: u128| s@ == uuid_hyphenated(x) ==> (r is Ok && r->Ok_0 == x),
{
    match uuid::Uuid::parse_str(s) {
        Ok(u) => Ok(u.as_u128()),
        Err(e) => Err(eyre::Report::new(e)),
    }
}

/// The claims of a session token.
pub struct Claims {
    /// Expiration. Unix timestamp.
    pub exp: u64,
    /// Issued at. Unix timestamp.
    pub iat: u64,
    /// Subject, i.e. stringified user UUID.
    pub sub: String,
}

/// What `generate_claims` promises of the claims it gives.
pub open spec fn is_claims_for(
    claims: Claims,
    user: u128,
    issued_at: u64,
    now: u64,
    expiration_minutes: u64,
) -> bool {
    &&& claims.exp == now + expiration_minutes * 60
    &&& claims.iat == issued_at
    &&& claims.sub@ == uuid_hyphenated(user)
}

/// Claims made for a user expire exactly `expiration_minutes` minutes, as
/// seconds, after `now`, were issued at `issued_at`, and name the user by the
/// hyphenated text of its UUID.
pub proof fn law_claims_fields(
    claims: Claims,
    user: u128,
    issued_at: u64,
    now: u64,
    expiration_minutes: u64,
)
    requires
        is_claims_for(claims, user, issued_at, now, expiration_minutes),
    ensures
        claims.exp as int == now as int + expiration_minutes as int * 60,
        claims.iat == issued_at,
        claims.sub@ == uuid_hyphenated(user),
{
}

/// What `claims_user` promises of the user it reads from `claims`.
pub open spec fn is_claims_user(claims: Claims, user: Result<u128, eyre::Report>) -> bool {
    &&& (user is Ok <==> uuid_parse(claims.sub@) is Some)
    &&& (user matches Ok(v) ==> uuid_parse(claims.sub@) == Some(v))
    &&& forall|x: u128| claims.sub@ == uuid_hyphenated(x) ==> (user is Ok && user->Ok_0 == x)
}

/// The subject written into claims issued for a user reads back as that
/// user: whatever `claims_user` gives for claims that `generate_claims` made
/// for `user` is `Ok(user)`.
pub proof fn law_issued_claims_name_their_user(
    claims: Claims,
    read: Result<u128, eyre::Report>,
    user: u128,
    issued_at: u64,
    now: u64,
    expiration_minutes: u64,
)
    requires
        is_claims_for(claims, user, issued_at, now, expiration_minutes),
        is_claims_user(claims, read),
    ensures
        read is Ok,
        read->Ok_0 == user,
{
}

/// The claims of a token issued for `user`: issued at `issued_at`, and
/// expiring `expiration_minutes` minutes after `now`.
pub fn generate_claims(user: u128, issued_at: u64, now: u64, expiration_minutes: u64) -> (claims:
    Claims)
    requires
        now + expiration_minutes * 60 <= u64::MAX,
    ensures
        is_claims_for(claims, user, issued_at, now, expiration_minutes),
        claims.exp as int == now as int + expiration_minutes as int * 60,
        claims.iat == issued_at,
        claims.sub@ == uuid_hyphenated(user),
{
    Claims { exp: now + (expiration_minutes * 60), iat: issued_at, sub: uuid_text(user) }
}

/// The user that validated claims name: their subject read as a UUID, or
/// the parse error where the subject is no UUID.
pub fn claims_user(claims: &Claims) -> (user: Result<u128, eyre::Report>)
    ensures
        is_claims_user(*claims, user),
{
    parse_uuid(claims.sub.as_str())
}

} // verus!
