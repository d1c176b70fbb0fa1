use crate::email::Email;
use crate::password::Password;
use vstd::prelude::*;

verus! {

/// A new account as signup hands it in: the plaintext password is hashed
/// before anything is stored.
#[derive(Clone)]
pub struct User {
    pub email: Email,
    pub requires_2fa: bool,
    pub password: Password,
}

impl User {
    pub fn new(email: Email, requires_2fa: bool, password: Password) -> (r: User)
        ensures
            r.email@ == email@,
            r.requires_2fa == requires_2fa,
            r.password@ == password@,
    {
        User { email, requires_2fa, password }
    }
}

/// What the credential store keeps of an account.
#[derive(Clone)]
pub struct UserRecord {
    pub email: Email,
    pub password_hash: String,
    pub requires_2fa: bool,
}

impl UserRecord {
    /// The record's value in the store's model: the hash and the flag.
    pub open spec fn entry(&self) -> (Seq<char>, (Seq<char>, bool)) {
        (self.email@, (self.password_hash@, self.requires_2fa))
    }
}

} // verus!
