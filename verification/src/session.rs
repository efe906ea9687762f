//! Session lookup use case: resolve a bearer token to the current user.
//!
//! The token is validated first — possibly served from the validation
//! cache — and only then is the user row fetched, so an invalid or expired
//! token never touches the repository.

use vstd::prelude::*;

use crate::auth::{TokenData, TokenService, UserRepository};
use crate::error::AuthError;
use crate::user::{opt_str_view, User};

verus! {

/// The current user, as resolved from a validated token.
pub struct SessionData {
    /// The user's 128-bit UUID value.
    pub user_id: u128,
    /// The user's stored email.
    pub email: String,
    /// The user's display name.
    pub display_name: Option<String>,
    /// Whether the account is active.
    pub is_active: bool,
}

/// Resolve a bearer token to the current user: validate the token, then
/// fetch the user it names.
///
/// A token failure — InvalidToken or TokenExpired — is the validator's
/// answer, propagated unchanged; UserNotFound arises exactly when the
/// token was sound but the repository had no row for its subject. On
/// success the result echoes the fetched user's identifier, email,
/// display name and active flag.
pub fn get_session<R: UserRepository, T: TokenService>(repo: &R, tokens: &T, token: &str) -> (r:
    Result<SessionData, AuthError>)
    ensures
        ({
            match r {
                Ok(_) => true,
                Err(e) => {
                    &&& (e is InvalidToken || e is TokenExpired || e is UserNotFound
                        || e is Internal)
                    &&& ((e is InvalidToken || e is TokenExpired) ==> call_ensures(
                        T::validate_token,
                        (tokens, token),
                        Err::<TokenData, AuthError>(e),
                    ))
                    &&& (e is UserNotFound ==> exists|d: TokenData|
                        {
                            &&& #[trigger] call_ensures(
                                T::validate_token,
                                (tokens, token),
                                Ok::<TokenData, AuthError>(d),
                            )
                            &&& call_ensures(
                                R::find_by_id,
                                (repo, d.user_id),
                                Err::<User, AuthError>(e),
                            )
                        })
                    &&& (e is Internal ==> call_ensures(
                        T::validate_token,
                        (tokens, token),
                        Err::<TokenData, AuthError>(e),
                    ) || exists|d: TokenData|
                        {
                            &&& #[trigger] call_ensures(
                                T::validate_token,
                                (tokens, token),
                                Ok::<TokenData, AuthError>(d),
                            )
                            &&& call_ensures(
                                R::find_by_id,
                                (repo, d.user_id),
                                Err::<User, AuthError>(e),
                            )
                        })
                },
            }
        }),
        r matches Ok(sd) ==> exists|d: TokenData, u: User|
            {
                &&& #[trigger] call_ensures(
                    T::validate_token,
                    (tokens, token),
                    Ok::<TokenData, AuthError>(d),
                )
                &&& #[trigger] call_ensures(
                    R::find_by_id,
                    (repo, d.user_id),
                    Ok::<User, AuthError>(u),
                )
                &&& sd.user_id == u.spec_id().0
                &&& sd.email@ == u.spec_email()@
                &&& opt_str_view(sd.display_name) == opt_str_view(u.spec_display_name())
                &&& sd.is_active == u.spec_is_active()
            },
{
    let data: TokenData = match tokens.validate_token(token) {
        Ok(d) => d,
        Err(e) => {
            return Err(e);
        },
    };
    let user: User = match repo.find_by_id(data.user_id) {
        Ok(u) => u,
        Err(e) => {
            proof {
                assert(call_ensures(T::validate_token, (tokens, token), Ok::<
                    TokenData,
                    AuthError,
                >(data)));
            }
            return Err(e);
        },
    };
    let display_name: Option<String> = match user.display_name() {
        Some(s) => Some(s.to_owned()),
        None => None,
    };
    let sd = SessionData {
        user_id: user.id().as_uuid(),
        email: user.email().as_str().to_owned(),
        display_name,
        is_active: user.is_active(),
    };
    proof {
        assert(call_ensures(T::validate_token, (tokens, token), Ok::<TokenData, AuthError>(data)));
        assert(call_ensures(R::find_by_id, (repo, data.user_id), Ok::<User, AuthError>(user)));
    }
    Ok(sd)
}

} // verus!
