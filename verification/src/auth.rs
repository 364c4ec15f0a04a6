//! The signer service's bearer-token authorization decision: only the
//! configured operator, carrying the admin role, may invoke signing.
//! Token transport and cryptographic verification of the token happen at
//! the HTTP edge; this module decides what a set of verified claims is
//! allowed to do.

use vstd::prelude::*;

verus! {

/// An operator identity.
#[derive(Debug, Clone)]
pub struct User {
    pub id: u64,
    pub username: String,
}

/// The failure envelope an authorization failure produces.
#[derive(Debug, Clone)]
pub struct ErrorResponse {
    pub status: &'static str,
    pub message: String,
}

/// The claims a bearer token carries.
#[derive(Debug, Clone)]
pub struct Claims {
    /// The subject: the operator's public identifier.
    pub sub: String,
    pub role: String,
    pub iat: usize,
    pub exp: usize,
}

/// Whether the claims authorize signing: the role is `admin` and the
/// subject is the configured operator.
pub open spec fn spec_authorized(claims: Claims, expected_sub: Seq<char>) -> bool {
    claims.role@ == "admin"@ && claims.sub@ == expected_sub
}

/// Decides whether verified claims may invoke signing. Accepts exactly the
/// configured operator with the admin role.
pub fn auth(claims: &Claims, expected_sub: &String) -> (r: Result<(), ErrorResponse>)
    ensures
        r is Ok <==> spec_authorized(*claims, expected_sub@),
{
    let admin = String::from_str("admin");
    if !(claims.role == admin) {
        return Err(ErrorResponse {
            status: "fail",
            message: String::from_str("Invalid not equal token"),
        });
    }
    if !(claims.sub == *expected_sub) {
        return Err(ErrorResponse {
            status: "fail",
            message: String::from_str("Invalid not equal token"),
        });
    }
    Ok(())
}

} // verus!
