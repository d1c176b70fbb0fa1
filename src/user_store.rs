use crate::email::Email;
use crate::hashing::{
    argon2_accepts, compute_password_hash, issued_hash, verify_password_hash, HASH_ITERATIONS, HASH_LANES,
    HASH_MEMORY_KIB,
};
use crate::kv::{
    keys_unique, lemma_map_of_absent, lemma_map_of_index, lemma_map_of_len, lemma_map_of_push,
    lemma_push_keeps_unique, map_of,
};
use crate::password::Password;
use crate::user::{User, UserRecord};
use vstd::prelude::*;

verus! {

#[derive(Debug, Clone, Copy, PartialEq, Eq, Structural)]
pub enum UserStoreError {
    UserAlreadyExists,
    UserNotFound,
    InvalidCredentials,
    InvalidPassword,
    UnexpectedError,
}

/// An account whose password this crate has hashed, ready to be stored.
/// Only `from_user` makes one, so its hash is always one the crate issued.
pub struct NewAccount {
    record: UserRecord,
}

impl NewAccount {
    pub closed spec fn wf(&self) -> bool {
        issued_hash(self.record.password_hash@)
    }

    /// The address, and the hash and flag to be stored for it.
    pub closed spec fn entry(&self) -> (Seq<char>, (Seq<char>, bool)) {
        self.record.entry()
    }

    /// Hashes the user's password with a fresh salt; the plaintext is not
    /// kept.
    pub fn from_user(user: User) -> (r: NewAccount)
        ensures
            r.wf(),
            r.entry().0 == user.email@,
            r.entry().1.1 == user.requires_2fa,
            argon2_accepts(r.entry().1.0, user.password@),
    {
        let hash = match compute_password_hash(
            user.password.as_ref(),
            HASH_MEMORY_KIB,
            HASH_ITERATIONS,
            HASH_LANES,
        ) {
            Some(h) => h,
            None => String::new(),
        };
        NewAccount {
            record: UserRecord {
                email: user.email,
                password_hash: hash,
                requires_2fa: user.requires_2fa,
            },
        }
    }
}

/// The password behind the hash that an unknown address is checked against,
/// so that an unknown address costs as much as a wrong password.
pub const DUMMY_PASSWORD: &'static str = "no account has this password";

/// The in-memory credential store. Its model maps each address to the
/// stored password hash and the second-factor flag.
pub struct HashMapUserStore {
    users: Vec<UserRecord>,
    dummy_hash: String,
}

impl View for HashMapUserStore {
    type V = Map<Seq<char>, (Seq<char>, bool)>;

    closed spec fn view(&self) -> Map<Seq<char>, (Seq<char>, bool)> {
        map_of(self.entries())
    }
}

impl HashMapUserStore {
    pub closed spec fn entries(&self) -> Seq<(Seq<char>, (Seq<char>, bool))> {
        self.users@.map_values(|u: UserRecord| u.entry())
    }

    pub closed spec fn wf(&self) -> bool {
        &&& keys_unique(self.entries())
        &&& forall|i: int| 0 <= i < self.users@.len() ==> issued_hash(self.users@[i].password_hash@)
        &&& issued_hash(self.dummy_hash@)
    }

    pub fn new() -> (r: HashMapUserStore)
        ensures
            r.wf(),
            r@ == Map::<Seq<char>, (Seq<char>, bool)>::empty(),
    {
        let dummy_hash = match compute_password_hash(
            DUMMY_PASSWORD,
            HASH_MEMORY_KIB,
            HASH_ITERATIONS,
            HASH_LANES,
        ) {
            Some(h) => h,
            None => String::new(),
        };
        let r = HashMapUserStore { users: Vec::new(), dummy_hash };
        proof {
            assert(r.entries() =~= Seq::empty());
        }
        r
    }

    /// The number of accounts.
    pub fn count(&self) -> (r: usize)
        requires
            self.wf(),
        ensures
            r == self@.dom().len(),
    {
        proof {
            lemma_map_of_len(self.entries());
        }
        self.users.len()
    }

    /// Where the record of `email` stands, if there is one.
    fn position(&self, email: &Email) -> (r: Option<usize>)
        requires
            self.wf(),
        ensures
            match r {
                Some(i) => i < self.users@.len() && self.entries()[i as int].0 == email@
                    && self@.contains_key(email@) && self@[email@] == self.entries()[i as int].1,
                None => !self@.contains_key(email@),
            },
    {
        let mut i: usize = 0;
        while i < self.users.len()
            invariant
                self.wf(),
                i <= self.users@.len(),
                forall|j: int| 0 <= j < i ==> self.entries()[j].0 != email@,
            decreases self.users@.len() - i,
        {
            if self.users[i].email == *email {
                proof {
                    lemma_map_of_index(self.entries(), i as int);
                }
                return Some(i);
            }
            i = i + 1;
        }
        proof {
            lemma_map_of_absent(self.entries(), email@);
        }
        None
    }

    /// `Err(UserAlreadyExists)` exactly when the address has an account.
    fn user_already_exists(&self, email: &Email) -> (r: Result<(), UserStoreError>)
        requires
            self.wf(),
        ensures
            r is Err <==> self@.contains_key(email@),
            r matches Err(e) ==> e == UserStoreError::UserAlreadyExists,
    {
        match self.position(email) {
            Some(_) => Err(UserStoreError::UserAlreadyExists),
            None => Ok(()),
        }
    }

    /// Stores an account whose password is already hashed. An address that
    /// has an account already is refused and nothing changes; otherwise the
    /// account is added and the other entries are untouched.
    pub fn add_account(&mut self, account: NewAccount) -> (r: Result<(), UserStoreError>)
        requires
            old(self).wf(),
            account.wf(),
        ensures
            final(self).wf(),
            old(self)@.contains_key(account.entry().0) ==> r == Err::<(), _>(
                UserStoreError::UserAlreadyExists,
            ) && final(self)@ == old(self)@,
            !old(self)@.contains_key(account.entry().0) ==> r is Ok && final(self)@ == old(
                self,
            )@.insert(account.entry().0, account.entry().1),
    {
        self.user_already_exists(&account.record.email)?;
        let record = account.record;
        let ghost before = self.entries();
        let ghost old_users = self.users@;
        self.users.push(record);
        proof {
            assert forall|i: int| 0 <= i < self.users@.len() implies issued_hash(
                self.users@[i].password_hash@,
            ) by {
                if i < old_users.len() {
                    assert(self.users@[i] == old_users[i]);
                }
            }
            assert(self.entries() =~= before.push(record.entry()));
            assert forall|i: int| 0 <= i < before.len() implies before[i].0 != record.email@ by {
                if before[i].0 == record.email@ {
                    lemma_map_of_index(before, i);
                }
            }
            lemma_push_keeps_unique(before, record.entry());
            lemma_map_of_push(before, record.entry());
        }
        Ok(())
    }

    /// Stores a new account with its password hashed. An address that has an
    /// account already is refused before any hashing, and nothing changes; a
    /// new address is stored, with a hash that the password verifies against,
    /// and the other entries are untouched.
    pub fn add_user(&mut self, user: User) -> (r: Result<(), UserStoreError>)
        requires
            old(self).wf(),
        ensures
            final(self).wf(),
            old(self)@.contains_key(user.email@) ==> r == Err::<(), _>(
                UserStoreError::UserAlreadyExists,
            ),
            !old(self)@.contains_key(user.email@) ==> r is Ok,
            r is Err ==> final(self)@ == old(self)@,
            r is Ok ==> {
                &&& final(self)@ == old(self)@.insert(user.email@, final(self)@[user.email@])
                &&& final(self)@[user.email@].1 == user.requires_2fa
                &&& argon2_accepts(final(self)@[user.email@].0, user.password@)
            },
    {
        self.user_already_exists(&user.email)?;
        let account = NewAccount::from_user(user);
        self.add_account(account)
    }

    /// The stored record of `email`.
    pub fn get_user(&self, email: &Email) -> (r: Result<UserRecord, UserStoreError>)
        requires
            self.wf(),
        ensures
            r is Ok <==> self@.contains_key(email@),
            r matches Ok(u) ==> u.email@ == email@ && self@[email@] == u.entry().1,
            r matches Err(e) ==> e == UserStoreError::UserNotFound,
    {
        match self.position(email) {
            Some(i) => {
                let u = &self.users[i];
                Ok(
                    UserRecord {
                        email: u.email.duplicate(),
                        password_hash: u.password_hash.clone(),
                        requires_2fa: u.requires_2fa,
                    },
                )
            },
            None => Err(UserStoreError::UserNotFound),
        }
    }

    /// `Ok` exactly when the address has an account and the password verifies
    /// against its stored hash. An unknown address is still checked against a
    /// hash, so that it takes as long as a wrong password.
    pub fn validate_user(&self, email: &Email, password: &Password) -> (r: Result<
        (),
        UserStoreError,
    >)
        requires
            self.wf(),
        ensures
            !self@.contains_key(email@) ==> r == Err::<(), _>(UserStoreError::UserNotFound),
            self@.contains_key(email@) ==> (r is Ok <==> argon2_accepts(
                self@[email@].0,
                password@,
            )),
            self@.contains_key(email@) && r is Err ==> r == Err::<(), _>(
                UserStoreError::InvalidCredentials,
            ),
    {
        match self.position(email) {
            Some(i) => {
                if verify_password_hash(self.users[i].password_hash.as_str(), password.as_ref()) {
                    Ok(())
                } else {
                    Err(UserStoreError::InvalidCredentials)
                }
            },
            None => {
                let _ = verify_password_hash(self.dummy_hash.as_str(), password.as_ref());
                Err(UserStoreError::UserNotFound)
            },
        }
    }
}

impl Default for HashMapUserStore {
    fn default() -> (r: HashMapUserStore)
        ensures
            r.wf(),
            r@ == Map::<Seq<char>, (Seq<char>, bool)>::empty(),
    {
        HashMapUserStore::new()
    }
}

} // verus!
