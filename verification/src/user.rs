//! User domain entity and value objects.
//!
//! The user identifier is the 128-bit value of a UUID; instants are Unix
//! milliseconds. No storage concern enters this module: persistence talks to
//! it only through `from_persistence` and the getters.

use vstd::prelude::*;

use crate::clock::now_unix_millis;
use crate::email::Email;

verus! {

/// Relies on uuid::Uuid::new_v4 for a fresh random identifier, taken as its
/// 128-bit value. The result is random; nothing is promised of it.
#[verifier::external_body]
fn random_uuid_bits() -> u128 {
    uuid::Uuid::new_v4().as_u128()
}

/// Unique identifier for a user: the 128 bits of a UUID.
#[derive(Debug, Clone, Copy, PartialEq, Eq, Hash, Structural)]
pub struct UserId(pub u128);

impl UserId {
    /// Create a new random user ID.
    pub fn new() -> UserId {
        UserId(random_uuid_bits())
    }

    /// Create a UserId from an existing UUID's 128-bit value.
    pub fn from_uuid(bits: u128) -> (r: UserId)
        ensures
            r.0 == bits,
    {
        UserId(bits)
    }

    /// The identifier's 128-bit UUID value.
    pub fn as_uuid(&self) -> (r: u128)
        ensures
            r == self.0,
    {
        self.0
    }
}

impl Default for UserId {
    /// A fresh random identifier.
    fn default() -> Self {
        Self::new()
    }
}

/// Hashed password value object: the domain never holds plain text.
#[derive(Debug, Clone)]
pub struct HashedPassword(String);

impl View for HashedPassword {
    type V = Seq<char>;

    closed spec fn view(&self) -> Seq<char> {
        self.0@
    }
}

impl HashedPassword {
    /// Wrap an already-hashed string; only properly hashed values from the
    /// password hasher belong here.
    pub fn from_hash(hash: String) -> (r: HashedPassword)
        ensures
            r@ == hash@,
    {
        HashedPassword(hash)
    }

    /// The hash as a string slice.
    pub fn as_str(&self) -> (r: &str)
        ensures
            r@ == self@,
    {
        self.0.as_str()
    }
}

/// The view of an optional display name.
pub open spec fn opt_str_view(o: Option<String>) -> Option<Seq<char>> {
    match o {
        Some(s) => Some(s@),
        None => None,
    }
}

/// User domain entity.
#[derive(Debug, Clone)]
pub struct User {
    id: UserId,
    email: Email,
    hashed_password: HashedPassword,
    display_name: Option<String>,
    is_active: bool,
    created_at: u64,
    updated_at: u64,
}

impl User {
    /// The user's identifier.
    pub closed spec fn spec_id(self) -> UserId {
        self.id
    }

    /// The user's email.
    pub closed spec fn spec_email(self) -> Email {
        self.email
    }

    /// The user's password hash.
    pub closed spec fn spec_hashed_password(self) -> HashedPassword {
        self.hashed_password
    }

    /// The user's optional display name.
    pub closed spec fn spec_display_name(self) -> Option<String> {
        self.display_name
    }

    /// Whether the account is active.
    pub closed spec fn spec_is_active(self) -> bool {
        self.is_active
    }

    /// Creation instant, Unix milliseconds.
    pub closed spec fn spec_created_at(self) -> u64 {
        self.created_at
    }

    /// Last-update instant, Unix milliseconds.
    pub closed spec fn spec_updated_at(self) -> u64 {
        self.updated_at
    }

    /// Create a new active user with a fresh random identifier, stamped
    /// with the current instant.
    pub fn new(email: Email, hashed_password: HashedPassword, display_name: Option<String>) -> (r:
        User)
        ensures
            r.spec_email() == email,
            r.spec_hashed_password() == hashed_password,
            r.spec_display_name() == display_name,
            r.spec_is_active(),
            r.spec_created_at() == r.spec_updated_at(),
    {
        let now: u64 = now_unix_millis();
        User {
            id: UserId::new(),
            email,
            hashed_password,
            display_name,
            is_active: true,
            created_at: now,
            updated_at: now,
        }
    }

    /// Reconstruct a user from persisted fields, bypassing the normal
    /// construction rules; the stored email is trusted to be valid.
    pub fn from_persistence(
        id: u128,
        email: String,
        hashed_password: String,
        display_name: Option<String>,
        is_active: bool,
        created_at: u64,
        updated_at: u64,
    ) -> (r: User)
        ensures
            r.spec_id().0 == id,
            r.spec_email()@ == email@,
            r.spec_hashed_password()@ == hashed_password@,
            r.spec_display_name() == display_name,
            r.spec_is_active() == is_active,
            r.spec_created_at() == created_at,
            r.spec_updated_at() == updated_at,
    {
        User {
            id: UserId::from_uuid(id),
            email: Email::from_persistence(email),
            hashed_password: HashedPassword::from_hash(hashed_password),
            display_name,
            is_active,
            created_at,
            updated_at,
        }
    }

    /// The user's identifier.
    pub fn id(&self) -> (r: UserId)
        ensures
            r == self.spec_id(),
    {
        self.id
    }

    /// The user's email.
    pub fn email(&self) -> (r: &Email)
        ensures
            *r == self.spec_email(),
    {
        &self.email
    }

    /// The user's password hash.
    pub fn hashed_password(&self) -> (r: &HashedPassword)
        ensures
            *r == self.spec_hashed_password(),
    {
        &self.hashed_password
    }

    /// The user's display name, if any.
    pub fn display_name(&self) -> (r: Option<&str>)
        ensures
            match r {
                Some(s) => self.spec_display_name() matches Some(d) && s@ == d@,
                None => self.spec_display_name() is None,
            },
    {
        match &self.display_name {
            Some(s) => Some(s.as_str()),
            None => None,
        }
    }

    /// Whether the account is active.
    pub fn is_active(&self) -> (r: bool)
        ensures
            r == self.spec_is_active(),
    {
        self.is_active
    }

    /// Creation instant, Unix milliseconds.
    pub fn created_at(&self) -> (r: u64)
        ensures
            r == self.spec_created_at(),
    {
        self.created_at
    }

    /// Last-update instant, Unix milliseconds.
    pub fn updated_at(&self) -> (r: u64)
        ensures
            r == self.spec_updated_at(),
    {
        self.updated_at
    }

    /// Deactivate the account, refreshing the update stamp.
    pub fn deactivate(&mut self)
        ensures
            !final(self).spec_is_active(),
            final(self).spec_id() == old(self).spec_id(),
            final(self).spec_email() == old(self).spec_email(),
            final(self).spec_hashed_password() == old(self).spec_hashed_password(),
            final(self).spec_display_name() == old(self).spec_display_name(),
            final(self).spec_created_at() == old(self).spec_created_at(),
    {
        self.is_active = false;
        self.updated_at = now_unix_millis();
    }

    /// Activate the account, refreshing the update stamp.
    pub fn activate(&mut self)
        ensures
            final(self).spec_is_active(),
            final(self).spec_id() == old(self).spec_id(),
            final(self).spec_email() == old(self).spec_email(),
            final(self).spec_hashed_password() == old(self).spec_hashed_password(),
            final(self).spec_display_name() == old(self).spec_display_name(),
            final(self).spec_created_at() == old(self).spec_created_at(),
    {
        self.is_active = true;
        self.updated_at = now_unix_millis();
    }
}

} // verus!
