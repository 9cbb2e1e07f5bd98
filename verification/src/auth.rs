//! The bearer-token gate in front of the ingestion route.

use crate::rejection::Rejection;
use crate::text::is_concat;
use vstd::prelude::*;

verus! {

/// The header value presents the token: it is `Bearer`, one space and the
/// token, and the token is not empty.
pub open spec fn presents_token(authorization: Seq<char>, api_token: Seq<char>) -> bool {
    api_token.len() > 0 && authorization == "Bearer "@ + api_token
}

/// Decides whether a request may pass, from the value of its `Authorization`
/// header (the empty text where it has none) and the configured token.
pub fn auth_middleware(authorization: &str, api_token: &str) -> (r: Result<(), Rejection>)
    ensures
        r is Ok <==> presents_token(authorization@, api_token@),
        r matches Err(e) ==> e == Rejection::Unauthorized,
{
    if !api_token.is_empty() && is_concat(authorization, "Bearer ", api_token) {
        Ok(())
    } else {
        Err(Rejection::Unauthorized)
    }
}

} // verus!
