//! Login use case: a single linear validate–act–respond pipeline.
//!
//! The ordering of the checks is part of the contract: the user is looked
//! up by email — with not-found mapped to the same InvalidCredentials error
//! as a wrong password, so that the response never reveals which emails are
//! registered — then the account must be active, then the password must
//! verify, and only then is a token minted.

use vstd::prelude::*;

use crate::auth::{PasswordHasher, TokenService, UserRepository};
use crate::error::AuthError;
use crate::user::{opt_str_view, HashedPassword, User};

verus! {

/// Use case for user login.
pub struct LoginUserUseCase<'a, R, H, T> {
    /// The repository consulted.
    pub user_repository: &'a R,
    /// The hasher checking the password.
    pub password_hasher: &'a H,
    /// The service minting the session token.
    pub token_service: &'a T,
}

/// Input for user login.
pub struct LoginUserCommand {
    /// Email address, as submitted.
    pub email: String,
    /// Plain-text password.
    pub password: String,
}

/// Output after successful login.
pub struct LoginUserResult {
    /// The signed session token.
    pub token: String,
    /// The user's 128-bit UUID value.
    pub user_id: u128,
    /// The user's stored email.
    pub email: String,
    /// The user's display name.
    pub display_name: Option<String>,
}

impl<'a, R: UserRepository, H: PasswordHasher, T: TokenService> LoginUserUseCase<'a, R, H, T> {
    /// Create a new use case instance over the given collaborators.
    pub fn new(user_repository: &'a R, password_hasher: &'a H, token_service: &'a T) -> (r:
        LoginUserUseCase<'a, R, H, T>)
        ensures
            r.user_repository == user_repository,
            r.password_hasher == password_hasher,
            r.token_service == token_service,
    {
        LoginUserUseCase { user_repository, password_hasher, token_service }
    }

    /// Execute the login: look the user up by email, require an active
    /// account, verify the password, then mint a token.
    ///
    /// The only failures are InvalidCredentials — from an unknown email
    /// and from a wrong password alike, indistinguishable to the caller —
    /// AccountInactive, exactly when the account found is inactive, and
    /// Internal; UserNotFound never escapes. On success: the repository
    /// produced an active user for the email, the hasher accepted the
    /// password against that user's stored hash, the token service minted
    /// the returned token for that user, and the result echoes the user's
    /// identifier, email and display name.
    pub fn execute(&self, command: LoginUserCommand) -> (r: Result<LoginUserResult, AuthError>)
        ensures
            r matches Err(e) ==> (e is InvalidCredentials || e is AccountInactive
                || e is Internal),
            r matches Err(e) && e is AccountInactive ==> exists|s: &str, u: User|
                {
                    &&& s@ == command.email@
                    &&& #[trigger] call_ensures(
                        R::find_by_email,
                        (self.user_repository, s),
                        Ok::<User, AuthError>(u),
                    )
                    &&& !u.spec_is_active()
                },
            r matches Err(e) && e is InvalidCredentials ==> (exists|s: &str, e2: AuthError|
                {
                    &&& s@ == command.email@
                    &&& #[trigger] call_ensures(
                        R::find_by_email,
                        (self.user_repository, s),
                        Err::<User, AuthError>(e2),
                    )
                    &&& e2 is UserNotFound
                }) || (exists|s: &str, u: User, pw: &str, hp: &HashedPassword|
                {
                    &&& s@ == command.email@
                    &&& #[trigger] call_ensures(
                        R::find_by_email,
                        (self.user_repository, s),
                        Ok::<User, AuthError>(u),
                    )
                    &&& u.spec_is_active()
                    &&& pw@ == command.password@
                    &&& *hp == u.spec_hashed_password()
                    &&& #[trigger] call_ensures(
                        H::verify,
                        (self.password_hasher, pw, hp),
                        Ok::<bool, AuthError>(false),
                    )
                }),
            ({
                match r {
                    Ok(_) => true,
                    Err(e) => e is Internal ==> (exists|s: &str|
                        s@ == command.email@ && #[trigger] call_ensures(
                            R::find_by_email,
                            (self.user_repository, s),
                            Err::<User, AuthError>(e),
                        )) || (exists|pw: &str, hp: &HashedPassword|
                        pw@ == command.password@ && #[trigger] call_ensures(
                            H::verify,
                            (self.password_hasher, pw, hp),
                            Err::<bool, AuthError>(e),
                        )) || (exists|uref: &User|
                        #[trigger] call_ensures(
                            T::create_token,
                            (self.token_service, uref),
                            Err::<String, AuthError>(e),
                        )),
                }
            }),
            r matches Ok(res) ==> exists|s: &str, u: User, pw: &str, hp: &HashedPassword, uref: &User|
                {
                    &&& s@ == command.email@
                    &&& #[trigger] call_ensures(
                        R::find_by_email,
                        (self.user_repository, s),
                        Ok::<User, AuthError>(u),
                    )
                    &&& u.spec_is_active()
                    &&& pw@ == command.password@
                    &&& *hp == u.spec_hashed_password()
                    &&& #[trigger] call_ensures(
                        H::verify,
                        (self.password_hasher, pw, hp),
                        Ok::<bool, AuthError>(true),
                    )
                    &&& *uref == u
                    &&& #[trigger] call_ensures(
                        T::create_token,
                        (self.token_service, uref),
                        Ok::<String, AuthError>(res.token),
                    )
                    &&& res.user_id == u.spec_id().0
                    &&& res.email@ == u.spec_email()@
                    &&& opt_str_view(res.display_name) == opt_str_view(u.spec_display_name())
                },
    {
        // Find the user by email, hiding not-found behind InvalidCredentials.
        let email_str: &str = command.email.as_str();
        let lookup = self.user_repository.find_by_email(email_str);
        let user: User = match lookup {
            Ok(u) => u,
            Err(e) => {
                let ghost ge = e;
                let mapped = match e {
                    AuthError::UserNotFound => AuthError::InvalidCredentials,
                    other => other,
                };
                proof {
                    assert(call_ensures(
                        R::find_by_email,
                        (self.user_repository, email_str),
                        Err::<User, AuthError>(ge),
                    ));
                    if mapped is InvalidCredentials {
                        assert(ge is UserNotFound);
                    }
                    if mapped is Internal {
                        assert(mapped == ge);
                    }
                }
                return Err(mapped);
            },
        };
        proof {
            assert(call_ensures(R::find_by_email, (self.user_repository, email_str), Ok::<
                User,
                AuthError,
            >(user)));
        }

        // The account must be active.
        if !user.is_active() {
            return Err(AuthError::AccountInactive);
        }

        // Verify the password.
        let pw_str: &str = command.password.as_str();
        let hp_ref: &HashedPassword = user.hashed_password();
        let is_valid: bool = match self.password_hasher.verify(pw_str, hp_ref) {
            Ok(v) => v,
            Err(e) => {
                proof {
                    assert(call_ensures(H::verify, (self.password_hasher, pw_str, hp_ref), Err::<
                        bool,
                        AuthError,
                    >(e)));
                }
                return Err(e);
            },
        };
        if !is_valid {
            proof {
                assert(call_ensures(H::verify, (self.password_hasher, pw_str, hp_ref), Ok::<
                    bool,
                    AuthError,
                >(false)));
            }
            return Err(AuthError::InvalidCredentials);
        }

        // Mint the session token.
        let token: String = match self.token_service.create_token(&user) {
            Ok(t) => t,
            Err(e) => {
                proof {
                    assert(call_ensures(T::create_token, (self.token_service, &user), Err::<
                        String,
                        AuthError,
                    >(e)));
                }
                return Err(e);
            },
        };

        let display_name: Option<String> = match user.display_name() {
            Some(s) => Some(s.to_owned()),
            None => None,
        };
        let res = LoginUserResult {
            token,
            user_id: user.id().as_uuid(),
            email: user.email().as_str().to_owned(),
            display_name,
        };
        proof {
            assert(call_ensures(H::verify, (self.password_hasher, pw_str, hp_ref), Ok::<
                bool,
                AuthError,
            >(true)));
            assert(call_ensures(T::create_token, (self.token_service, &user), Ok::<
                String,
                AuthError,
            >(res.token)));
        }
        Ok(res)
    }
}

} // verus!
