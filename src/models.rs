//! Who is calling: the bearer-token check and what it yields.

use vstd::prelude::*;
use vstd::string::*;

verus! {

/// The identity an accepted token stands for.
#[derive(Clone, Copy, Debug, PartialEq, Eq, Structural)]
pub struct AuthResult {
    pub user_id: i32,
}

/// What the caller is told about itself.
#[derive(Clone, Copy, Debug, PartialEq, Eq, Structural)]
pub struct UserResponse {
    pub user_id: i32,
}

/// A caller whose token was accepted.
#[derive(Clone, Copy, Debug, PartialEq, Eq, Structural)]
pub struct AuthenticatedUser(pub AuthResult);

/// The user every accepted token stands for.
pub const AUTHENTICATED_USER_ID: i32 = 42;

/// The `Authorization` header of a request.
pub enum AuthHeader {
    /// The request has none.
    Missing,
    /// The header holds something other than visible ASCII.
    Unreadable,
    Text(String),
}

/// Why a caller was turned away.
#[derive(Clone, Copy, Debug, PartialEq, Eq, Structural)]
pub enum AuthError {
    MissingToken,
    InvalidToken,
    InvalidTokenFormat,
}

impl AuthError {
    /// The text the caller is sent.
    pub fn reason(&self) -> (r: &'static str)
        ensures
            r@ == match self {
                AuthError::MissingToken => "Missing token"@,
                AuthError::InvalidToken => "Invalid token"@,
                AuthError::InvalidTokenFormat => "Invalid token format"@,
            },
    {
        match self {
            AuthError::MissingToken => "Missing token",
            AuthError::InvalidToken => "Invalid token",
            AuthError::InvalidTokenFormat => "Invalid token format",
        }
    }
}

/// The scheme that comes before the token.
pub open spec fn bearer() -> Seq<char> {
    "Bearer "@
}

/// Accepts a header that reads `Bearer <token>` for exactly the expected
/// token.
pub fn authenticate(header: &AuthHeader, token: &str) -> (r: Result<AuthenticatedUser, AuthError>)
    ensures
        header is Missing ==> r == Err::<AuthenticatedUser, AuthError>(AuthError::MissingToken),
        header is Unreadable ==> r == Err::<AuthenticatedUser, AuthError>(AuthError::InvalidToken),
        header matches AuthHeader::Text(t) ==> {
            &&& !bearer().is_prefix_of(t@) ==> r == Err::<AuthenticatedUser, AuthError>(
                AuthError::InvalidTokenFormat,
            )
            &&& bearer().is_prefix_of(t@) && t@.skip(bearer().len() as int) != token@ ==> r
                == Err::<AuthenticatedUser, AuthError>(AuthError::InvalidToken)
            &&& bearer().is_prefix_of(t@) && t@.skip(bearer().len() as int) == token@ ==> r
                == Ok::<AuthenticatedUser, AuthError>(
                AuthenticatedUser(AuthResult { user_id: AUTHENTICATED_USER_ID }),
            )
        },
{
    match header {
        AuthHeader::Missing => Err(AuthError::MissingToken),
        AuthHeader::Unreadable => Err(AuthError::InvalidToken),
        AuthHeader::Text(text) => {
            let scheme = "Bearer ";
            let text = text.as_str();
            let n = text.unicode_len();
            let p = scheme.unicode_len();
            proof {
                reveal_strlit("Bearer ");
            }
            if n < p {
                return Err(AuthError::InvalidTokenFormat);
            }
            let head = text.substring_char(0, p).to_owned();
            if head != scheme.to_owned() {
                assert(!bearer().is_prefix_of(text@));
                return Err(AuthError::InvalidTokenFormat);
            }
            assert(bearer().is_prefix_of(text@));
            let rest = text.substring_char(p, n).to_owned();
            assert(rest@ == text@.skip(bearer().len() as int));
            if rest != token.to_owned() {
                Err(AuthError::InvalidToken)
            } else {
                Ok(AuthenticatedUser(AuthResult { user_id: AUTHENTICATED_USER_ID }))
            }
        },
    }
}

} // verus!
