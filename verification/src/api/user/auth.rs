use vstd::prelude::*;

verus! {

/// The body answered to `GET` on the auth route.
pub fn handle_get() -> (body: String)
    ensures
        body@ == "GET"@,
{
    String::from_str("GET")
}

/// The body answered to `POST` on the auth route.
pub fn handle_post() -> (body: String)
    ensures
        body@ == "POST"@,
{
    String::from_str("POST")
}

} // verus!
