use crate::kv::{
    keys_unique, lemma_map_of_absent, lemma_map_of_index, lemma_map_of_push,
    lemma_map_of_update, lemma_push_keeps_unique, map_of,
};
use vstd::prelude::*;

verus! {

#[derive(Debug, Clone, Copy, PartialEq, Eq, Structural)]
pub enum BannedTokenStoreError {
    TokenAlreadyExists,
    TokenNotFound,
    UnexpectedError,
}

/// A revoked token and the instant its ban lapses.
pub struct BannedToken {
    pub token: String,
    pub expires_at: u64,
}

impl BannedToken {
    pub open spec fn entry(&self) -> (Seq<char>, u64) {
        (self.token@, self.expires_at)
    }
}

/// The ban that a store holds on `token` at `now`.
pub open spec fn banned_at(m: Map<Seq<char>, u64>, token: Seq<char>, now: u64) -> bool {
    m.contains_key(token) && now < m[token]
}

/// The lapse instant after banning `token` until `until`: a ban is never
/// shortened.
pub open spec fn ban_lapse(m: Map<Seq<char>, u64>, token: Seq<char>, until: u64) -> u64 {
    if m.contains_key(token) && m[token] > until {
        m[token]
    } else {
        until
    }
}

/// The in-memory revocation store. Its model maps each banned token to the
/// instant its ban lapses; a lapsed ban counts for nothing.
pub struct HashsetBannedTokenStore {
    store: Vec<BannedToken>,
}

impl View for HashsetBannedTokenStore {
    type V = Map<Seq<char>, u64>;

    closed spec fn view(&self) -> Map<Seq<char>, u64> {
        map_of(self.entries())
    }
}

impl HashsetBannedTokenStore {
    pub closed spec fn entries(&self) -> Seq<(Seq<char>, u64)> {
        self.store@.map_values(|b: BannedToken| b.entry())
    }

    pub closed spec fn wf(&self) -> bool {
        keys_unique(self.entries())
    }

    pub fn new() -> (r: HashsetBannedTokenStore)
        ensures
            r.wf(),
            r@ == Map::<Seq<char>, u64>::empty(),
    {
        let r = HashsetBannedTokenStore { store: Vec::new() };
        proof {
            assert(r.entries() =~= Seq::empty());
        }
        r
    }

    fn position(&self, token: &String) -> (r: Option<usize>)
        requires
            self.wf(),
        ensures
            match r {
                Some(i) => i < self.store@.len() && self.entries()[i as int].0 == token@
                    && self@.contains_key(token@) && self@[token@] == self.entries()[i as int].1,
                None => !self@.contains_key(token@),
            },
    {
        let mut i: usize = 0;
        while i < self.store.len()
            invariant
                self.wf(),
                i <= self.store@.len(),
                forall|j: int| 0 <= j < i ==> self.entries()[j].0 != token@,
            decreases self.store@.len() - i,
        {
            if self.store[i].token == *token {
                proof {
                    lemma_map_of_index(self.entries(), i as int);
                }
                return Some(i);
            }
            i = i + 1;
        }
        proof {
            lemma_map_of_absent(self.entries(), token@);
        }
        None
    }

    /// Bans `token` until `until`. Banning a banned token again is no error:
    /// its ban then lapses at the later of the two instants.
    pub fn insert(&mut self, token: String, until: u64) -> (r: Result<(), BannedTokenStoreError>)
        requires
            old(self).wf(),
        ensures
            final(self).wf(),
            r is Ok,
            final(self)@ == old(self)@.insert(token@, ban_lapse(old(self)@, token@, until)),
    {
        let ghost before = self.entries();
        match self.position(&token) {
            Some(i) => {
                if self.store[i].expires_at < until {
                    let b = BannedToken { token, expires_at: until };
                    self.store.set(i, b);
                    proof {
                        assert(self.entries() =~= before.update(i as int, b.entry()));
                        lemma_map_of_update(before, i as int, b.entry());
                    }
                } else {
                    proof {
                        assert(self@ =~= self@.insert(token@, ban_lapse(self@, token@, until)));
                    }
                }
            },
            None => {
                let b = BannedToken { token, expires_at: until };
                self.store.push(b);
                proof {
                    assert(self.entries() =~= before.push(b.entry()));
                    assert forall|j: int| 0 <= j < before.len() implies before[j].0
                        != b.token@ by {
                        if before[j].0 == b.token@ {
                            lemma_map_of_index(before, j);
                        }
                    }
                    lemma_push_keeps_unique(before, b.entry());
                    lemma_map_of_push(before, b.entry());
                }
            },
        }
        Ok(())
    }

    /// Whether `token` is under a ban at `now`.
    pub fn token_exists(&self, token: &String, now: u64) -> (r: Result<bool, BannedTokenStoreError>)
        requires
            self.wf(),
        ensures
            r == Ok::<bool, BannedTokenStoreError>(banned_at(self@, token@, now)),
    {
        match self.position(token) {
            Some(i) => Ok(now < self.store[i].expires_at),
            None => Ok(false),
        }
    }
}

impl Default for HashsetBannedTokenStore {
    fn default() -> (r: HashsetBannedTokenStore)
        ensures
            r.wf(),
            r@ == Map::<Seq<char>, u64>::empty(),
    {
        HashsetBannedTokenStore::new()
    }
}

} // verus!
