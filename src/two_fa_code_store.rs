use crate::email::Email;
use crate::expiry::{deadline, deadline_spec, is_live};
use crate::kv::{
    keys_unique, lemma_map_of_absent, lemma_map_of_index, lemma_map_of_push,
    lemma_map_of_remove, lemma_map_of_update, lemma_push_keeps_unique, map_of,
};
use crate::two_fa::{LoginAttemptId, TwoFACode};
use vstd::prelude::*;

verus! {

/// How long a challenge stays redeemable, in seconds.
pub const TEN_MINUTES_IN_SECONDS: u64 = 600;

#[derive(Debug, Clone, Copy, PartialEq, Eq, Structural)]
pub enum TwoFACodeStoreError {
    LoginAttemptIdNotFound,
    UnexpectedError,
    EmailAlreadyExists,
}

/// A pending second-factor challenge.
pub struct Challenge {
    pub email: Email,
    pub login_attempt_id: LoginAttemptId,
    pub code: TwoFACode,
    pub expires_at: u64,
}

impl Challenge {
    pub open spec fn entry(&self) -> (Seq<char>, (Seq<char>, Seq<char>, u64)) {
        (self.email@, (self.login_attempt_id@, self.code@, self.expires_at))
    }
}

/// The in-memory challenge store. Its model maps an address to the login
/// attempt id, the code and the instant the challenge expires; an entry
/// counts only while it is live, so expiry needs no sweep.
pub struct HashMapTwoFACodeStore {
    codes: Vec<Challenge>,
}

/// The live challenge of `email` at `now`, if any.
pub open spec fn live_challenge(
    m: Map<Seq<char>, (Seq<char>, Seq<char>, u64)>,
    email: Seq<char>,
    now: u64,
) -> bool {
    m.contains_key(email) && is_live(m[email].2, now)
}

impl View for HashMapTwoFACodeStore {
    type V = Map<Seq<char>, (Seq<char>, Seq<char>, u64)>;

    closed spec fn view(&self) -> Map<Seq<char>, (Seq<char>, Seq<char>, u64)> {
        map_of(self.entries())
    }
}

impl HashMapTwoFACodeStore {
    pub closed spec fn entries(&self) -> Seq<(Seq<char>, (Seq<char>, Seq<char>, u64))> {
        self.codes@.map_values(|c: Challenge| c.entry())
    }

    pub closed spec fn wf(&self) -> bool {
        keys_unique(self.entries())
    }

    pub fn new() -> (r: HashMapTwoFACodeStore)
        ensures
            r.wf(),
            r@ == Map::<Seq<char>, (Seq<char>, Seq<char>, u64)>::empty(),
    {
        let r = HashMapTwoFACodeStore { codes: Vec::new() };
        proof {
            assert(r.entries() =~= Seq::empty());
        }
        r
    }

    fn position(&self, email: &Email) -> (r: Option<usize>)
        requires
            self.wf(),
        ensures
            match r {
                Some(i) => i < self.codes@.len() && self.entries()[i as int].0 == email@
                    && self@.contains_key(email@) && self@[email@] == self.entries()[i as int].1,
                None => !self@.contains_key(email@),
            },
    {
        let mut i: usize = 0;
        while i < self.codes.len()
            invariant
                self.wf(),
                i <= self.codes@.len(),
                forall|j: int| 0 <= j < i ==> self.entries()[j].0 != email@,
            decreases self.codes@.len() - i,
        {
            if self.codes[i].email == *email {
                proof {
                    lemma_map_of_index(self.entries(), i as int);
                }
                return Some(i);
            }
            i = i + 1;
        }
        proof {
            lemma_map_of_absent(self.entries(), email@);
        }
        None
    }

    /// Opens a challenge for `email` that expires `TEN_MINUTES_IN_SECONDS`
    /// after `now`. Refused, with nothing changed, while the address has a
    /// live challenge; an expired one is replaced.
    pub fn add_code(
        &mut self,
        email: Email,
        login_attempt_id: LoginAttemptId,
        code: TwoFACode,
        now: u64,
    ) -> (r: Result<(), TwoFACodeStoreError>)
        requires
            old(self).wf(),
        ensures
            final(self).wf(),
            r is Err <==> live_challenge(old(self)@, email@, now),
            r is Err ==> r == Err::<(), _>(TwoFACodeStoreError::EmailAlreadyExists),
            r is Err ==> final(self)@ == old(self)@,
            r is Ok ==> final(self)@ == old(self)@.insert(
                email@,
                (login_attempt_id@, code@, deadline_spec(now, TEN_MINUTES_IN_SECONDS)),
            ),
    {
        let pos = self.position(&email);
        let expires_at = deadline(now, TEN_MINUTES_IN_SECONDS);
        let challenge = Challenge { email, login_attempt_id, code, expires_at };
        let ghost before = self.entries();
        match pos {
            Some(i) => {
                if now < self.codes[i].expires_at {
                    return Err(TwoFACodeStoreError::EmailAlreadyExists);
                }
                self.codes.set(i, challenge);
                proof {
                    assert(self.entries() =~= before.update(i as int, challenge.entry()));
                    lemma_map_of_update(before, i as int, challenge.entry());
                }
            },
            None => {
                self.codes.push(challenge);
                proof {
                    assert(self.entries() =~= before.push(challenge.entry()));
                    assert forall|j: int| 0 <= j < before.len() implies before[j].0
                        != challenge.email@ by {
                        if before[j].0 == challenge.email@ {
                            lemma_map_of_index(before, j);
                        }
                    }
                    lemma_push_keeps_unique(before, challenge.entry());
                    lemma_map_of_push(before, challenge.entry());
                }
            },
        }
        Ok(())
    }

    /// Drops the challenge of `email`, live or expired. `Ok` exactly when it
    /// was live.
    pub fn remove_code(&mut self, email: &Email, now: u64) -> (r: Result<(), TwoFACodeStoreError>)
        requires
            old(self).wf(),
        ensures
            final(self).wf(),
            final(self)@ == old(self)@.remove(email@),
            r is Ok <==> live_challenge(old(self)@, email@, now),
            r is Err ==> r == Err::<(), _>(TwoFACodeStoreError::LoginAttemptIdNotFound),
    {
        match self.position(email) {
            Some(i) => {
                let ghost before = self.entries();
                let c = self.codes.remove(i);
                proof {
                    assert(self.entries() =~= before.remove(i as int));
                    lemma_map_of_remove(before, i as int);
                }
                if now < c.expires_at {
                    Ok(())
                } else {
                    Err(TwoFACodeStoreError::LoginAttemptIdNotFound)
                }
            },
            None => {
                proof {
                    assert(self@ =~= self@.remove(email@));
                }
                Err(TwoFACodeStoreError::LoginAttemptIdNotFound)
            },
        }
    }

    /// The login attempt id and code of the live challenge of `email`.
    pub fn get_code(&self, email: &Email, now: u64) -> (r: Result<
        (LoginAttemptId, TwoFACode),
        TwoFACodeStoreError,
    >)
        requires
            self.wf(),
        ensures
            r is Ok <==> live_challenge(self@, email@, now),
            r matches Ok(p) ==> p.0@ == self@[email@].0 && p.1@ == self@[email@].1,
            r is Err ==> r == Err::<(LoginAttemptId, TwoFACode), _>(
                TwoFACodeStoreError::LoginAttemptIdNotFound,
            ),
    {
        match self.position(email) {
            Some(i) => {
                let c = &self.codes[i];
                if now < c.expires_at {
                    Ok((c.login_attempt_id.duplicate(), c.code.duplicate()))
                } else {
                    Err(TwoFACodeStoreError::LoginAttemptIdNotFound)
                }
            },
            None => Err(TwoFACodeStoreError::LoginAttemptIdNotFound),
        }
    }
}

impl Default for HashMapTwoFACodeStore {
    fn default() -> (r: HashMapTwoFACodeStore)
        ensures
            r.wf(),
            r@ == Map::<Seq<char>, (Seq<char>, Seq<char>, u64)>::empty(),
    {
        HashMapTwoFACodeStore::new()
    }
}

} // verus!
