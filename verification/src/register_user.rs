//! Register-user use case: a single linear validate–act–respond pipeline.
//!
//! The ordering of the checks is part of the contract: email format first,
//! then email-not-already-registered, then password strength — each check
//! short-circuits with its own distinct error before any later work runs.

use vstd::prelude::*;
use vstd::string::StringSliceAdditionalSpecFns;
use vstd::utf8::encode_utf8;

use crate::auth::{PasswordHasher, UserRepository};
use crate::email::{normal_form, valid_email, Email};
use crate::error::AuthError;
use crate::user::{opt_str_view, HashedPassword, User};

verus! {

/// The input email is accepted by validation once normalized.
pub open spec fn email_acceptable(email: Seq<char>) -> bool {
    valid_email(normal_form(email))
}

/// Input for user registration.
pub struct RegisterUserCommand {
    /// Email address, as submitted.
    pub email: String,
    /// Plain-text password.
    pub password: String,
    /// Optional display name.
    pub display_name: Option<String>,
}

/// Output after successful registration.
pub struct RegisterUserResult {
    /// The new user's 128-bit UUID value.
    pub user_id: u128,
    /// The stored, normalized email.
    pub email: String,
    /// The stored display name.
    pub display_name: Option<String>,
}

/// Use case for registering a new user.
pub struct RegisterUserUseCase<'a, R, H> {
    /// The repository consulted and written.
    pub user_repository: &'a R,
    /// The hasher applied to the password.
    pub password_hasher: &'a H,
}

impl<'a, R: UserRepository, H: PasswordHasher> RegisterUserUseCase<'a, R, H> {
    /// Create a new use case instance over the given collaborators.
    pub fn new(user_repository: &'a R, password_hasher: &'a H) -> (r: RegisterUserUseCase<
        'a,
        R,
        H,
    >)
        ensures
            r.user_repository == user_repository,
            r.password_hasher == password_hasher,
    {
        RegisterUserUseCase { user_repository, password_hasher }
    }

    /// Execute the registration: validate the email, refuse a taken email,
    /// refuse a password shorter than eight bytes, then hash, build and
    /// persist the user.
    ///
    /// An invalid email is rejected as InvalidEmail, and nothing else is.
    /// UserAlreadyExists arises only from the repository reporting the
    /// email taken; WeakPassword only after the repository reported it
    /// free and the password is short. On success: the hasher's output —
    /// never the plain text — went to the repository inside a fresh active
    /// user carrying the normalized email and the given display name, and
    /// the result echoes the stored row's identifier, email and display
    /// name.
    pub fn execute(&self, command: RegisterUserCommand) -> (r: Result<
        RegisterUserResult,
        AuthError,
    >)
        ensures
            r matches Err(e) && e is InvalidEmail <==> !email_acceptable(command.email@),
            r matches Err(e) ==> (e is InvalidEmail || e is UserAlreadyExists || e is WeakPassword
                || e is Internal),
            r matches Err(e) && e is UserAlreadyExists ==> (exists|s: &str|
                s@ == normal_form(command.email@) && #[trigger] call_ensures(
                    R::exists_by_email,
                    (self.user_repository, s),
                    Ok::<bool, AuthError>(true),
                )) || (exists|uref: &User, e2: AuthError|
                #[trigger] call_ensures(
                    R::create,
                    (self.user_repository, uref),
                    Err::<User, AuthError>(e2),
                ) && e2 is UserAlreadyExists),
            r matches Err(e) && e is WeakPassword ==> {
                &&& email_acceptable(command.email@)
                &&& encode_utf8(command.password@).len() < 8
                &&& exists|s: &str|
                    s@ == normal_form(command.email@) && #[trigger] call_ensures(
                        R::exists_by_email,
                        (self.user_repository, s),
                        Ok::<bool, AuthError>(false),
                    )
            },
            email_acceptable(command.email@) && encode_utf8(command.password@).len() < 8
                ==> r is Err,
            ({
                match r {
                    Ok(_) => true,
                    Err(e) => e is Internal ==> (exists|s: &str|
                        s@ == normal_form(command.email@) && #[trigger] call_ensures(
                            R::exists_by_email,
                            (self.user_repository, s),
                            Err::<bool, AuthError>(e),
                        )) || (exists|pw: &str|
                        pw@ == command.password@ && #[trigger] call_ensures(
                            H::hash,
                            (self.password_hasher, pw),
                            Err::<HashedPassword, AuthError>(e),
                        )) || (exists|uref: &User|
                        #[trigger] call_ensures(
                            R::create,
                            (self.user_repository, uref),
                            Err::<User, AuthError>(e),
                        )),
                }
            }),
            r matches Ok(res) ==> {
                &&& email_acceptable(command.email@)
                &&& encode_utf8(command.password@).len() >= 8
                &&& exists|pw: &str, hp: HashedPassword, uref: &User, cu: User|
                    {
                        &&& pw@ == command.password@
                        &&& #[trigger] call_ensures(
                            H::hash,
                            (self.password_hasher, pw),
                            Ok::<HashedPassword, AuthError>(hp),
                        )
                        &&& uref.spec_email()@ == normal_form(command.email@)
                        &&& uref.spec_hashed_password() == hp
                        &&& uref.spec_is_active()
                        &&& opt_str_view(uref.spec_display_name()) == opt_str_view(
                            command.display_name,
                        )
                        &&& #[trigger] call_ensures(
                            R::create,
                            (self.user_repository, uref),
                            Ok::<User, AuthError>(cu),
                        )
                        &&& res.user_id == cu.spec_id().0
                        &&& res.email@ == cu.spec_email()@
                        &&& opt_str_view(res.display_name) == opt_str_view(cu.spec_display_name())
                    }
            },
    {
        // Validate email format.
        let email: Email = match Email::new(command.email.as_str()) {
            Ok(e) => e,
            Err(e) => { return Err(e); },
        };

        // Check if a user with this email already exists.
        let email_str: &str = email.as_str();
        let taken = self.user_repository.exists_by_email(email_str);
        match taken {
            Ok(true) => {
                proof {
                    assert(call_ensures(R::exists_by_email, (self.user_repository, email_str), Ok::<
                        bool,
                        AuthError,
                    >(true)));
                }
                return Err(AuthError::UserAlreadyExists);
            },
            Ok(false) => (),
            Err(e) => {
                proof {
                    assert(call_ensures(R::exists_by_email, (self.user_repository, email_str), Err::<
                        bool,
                        AuthError,
                    >(e)));
                }
                return Err(e);
            },
        }

        // Validate password strength, by byte length.
        let pw_bytes: &[u8] = command.password.as_str().as_bytes();
        proof {
            broadcast use vstd::slice::axiom_spec_len;

            assert(pw_bytes@ == encode_utf8(command.password@));
        }
        if pw_bytes.len() < 8 {
            proof {
                assert(call_ensures(R::exists_by_email, (self.user_repository, email_str), Ok::<
                    bool,
                    AuthError,
                >(false)));
            }
            return Err(AuthError::WeakPassword);
        }

        // Hash the password.
        let pw_str: &str = command.password.as_str();
        let hashed_password: HashedPassword = match self.password_hasher.hash(pw_str) {
            Ok(h) => h,
            Err(e) => {
                proof {
                    assert(call_ensures(H::hash, (self.password_hasher, pw_str), Err::<
                        HashedPassword,
                        AuthError,
                    >(e)));
                }
                return Err(e);
            },
        };
        let ghost ghp = hashed_password;

        // Create and persist the user entity.
        let user = User::new(email, hashed_password, command.display_name);
        let created_user = match self.user_repository.create(&user) {
            Ok(u) => u,
            Err(e) => {
                proof {
                    assert(call_ensures(
                        R::create,
                        (self.user_repository, &user),
                        Err::<User, AuthError>(e),
                    ));
                }
                return Err(e);
            },
        };

        let display_name: Option<String> = match created_user.display_name() {
            Some(s) => Some(s.to_owned()),
            None => None,
        };
        let res = RegisterUserResult {
            user_id: created_user.id().as_uuid(),
            email: created_user.email().as_str().to_owned(),
            display_name,
        };
        proof {
            assert(call_ensures(H::hash, (self.password_hasher, pw_str), Ok::<
                HashedPassword,
                AuthError,
            >(ghp)));
            assert(call_ensures(R::create, (self.user_repository, &user), Ok::<
                User,
                AuthError,
            >(created_user)));
        }
        Ok(res)
    }
}

} // verus!
