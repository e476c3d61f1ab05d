//! Stored single-purpose tokens, unique by value.

use vstd::prelude::*;

use crate::error::AuthError;
use crate::model::TokenRecord;

verus! {

/// Whether some record in `recs` has token value `t`.
pub open spec fn token_present(recs: Seq<TokenRecord>, t: Seq<char>) -> bool {
    exists|i: int| 0 <= i < recs.len() && #[trigger] recs[i].token@ == t
}

/// The position of the record with token value `t`.
pub open spec fn find_token(recs: Seq<TokenRecord>, t: Seq<char>) -> Option<int> {
    if token_present(recs, t) {
        Some(choose|i: int| 0 <= i < recs.len() && #[trigger] recs[i].token@ == t)
    } else {
        None
    }
}

/// No two records share a token value.
pub open spec fn tokens_unique(recs: Seq<TokenRecord>) -> bool {
    forall|i: int, j: int|
        0 <= i < recs.len() && 0 <= j < recs.len() && i != j ==> recs[i].token@ != recs[j].token@
}

pub proof fn lemma_find_token(recs: Seq<TokenRecord>, i: int)
    requires
        tokens_unique(recs),
        0 <= i < recs.len(),
    ensures
        find_token(recs, recs[i].token@) == Some(i),
{
    assert(token_present(recs, recs[i].token@));
}

/// The records of `recs` not owned by `user_id`, in their order.
pub open spec fn not_owned_by(recs: Seq<TokenRecord>, user_id: i32) -> Seq<TokenRecord> {
    recs.filter(owner_differs(user_id))
}

/// Holds of the records that `user_id` does not own.
pub open spec fn owner_differs(user_id: i32) -> spec_fn(TokenRecord) -> bool {
    |r: TokenRecord| r.user_id != user_id
}

/// The stored tokens of one purpose (email verification or password reset),
/// keyed by token value.
pub struct TokenLedger {
    pub records: Vec<TokenRecord>,
}

impl TokenLedger {
    pub open spec fn wf(&self) -> bool {
        tokens_unique(self.records@)
    }

    /// An empty ledger.
    pub fn new() -> (r: TokenLedger)
        ensures
            r.wf(),
            r.records@.len() == 0,
    {
        TokenLedger { records: Vec::new() }
    }

    /// Position of the record with this token value.
    pub fn find(&self, token: &String) -> (r: Option<usize>)
        requires
            self.wf(),
        ensures
            r matches Some(i) ==> find_token(self.records@, token@) == Some(i as int),
            r is None ==> find_token(self.records@, token@) is None,
    {
        let mut i: usize = 0;
        while i < self.records.len()
            invariant
                self.wf(),
                i <= self.records@.len(),
                forall|k: int| 0 <= k < i ==> #[trigger] self.records@[k].token@ != token@,
            decreases self.records@.len() - i,
        {
            if self.records[i].token == *token {
                proof {
                    lemma_find_token(self.records@, i as int);
                }
                return Some(i);
            }
            i += 1;
        }
        None
    }

    /// Stores a token for `user_id`, unless the value is already stored (the
    /// store's unique constraint).
    pub fn insert(&mut self, token: String, user_id: i32, expires_at: i64) -> (r: Result<(), AuthError>)
        requires
            old(self).wf(),
        ensures
            final(self).wf(),
            token_present(old(self).records@, token@) ==> r == Err::<(), AuthError>(AuthError::Internal)
                && *final(self) == *old(self),
            !token_present(old(self).records@, token@) ==> r is Ok && final(self).records@
                == old(self).records@.push(TokenRecord { token, user_id, expires_at }),
    {
        if self.find(&token).is_some() {
            return Err(AuthError::Internal);
        }
        self.records.push(TokenRecord { token, user_id, expires_at });
        proof {
            let recs = self.records@;
            assert forall|i: int, j: int|
                0 <= i < recs.len() && 0 <= j < recs.len() && i != j implies recs[i].token@ != recs[j].token@ by {
                if i == recs.len() - 1 {
                    assert(old(self).records@[j].token@ != token@);
                } else if j == recs.len() - 1 {
                    assert(old(self).records@[i].token@ != token@);
                }
            }
        }
        Ok(())
    }

    /// Deletes the record at position `i`.
    pub fn remove(&mut self, i: usize)
        requires
            old(self).wf(),
            i < old(self).records@.len(),
        ensures
            final(self).wf(),
            final(self).records@ == old(self).records@.remove(i as int),
    {
        self.records.remove(i);
    }

    /// Deletes every record owned by `user_id`, keeping the others in order.
    pub fn remove_owned_by(&mut self, user_id: i32)
        requires
            old(self).wf(),
        ensures
            final(self).wf(),
            final(self).records@ == not_owned_by(old(self).records@, user_id),
            forall|a: int| #![trigger final(self).records@[a]]
                0 <= a < final(self).records@.len() ==> final(self).records@[a].user_id != user_id && exists|j: int|
                    0 <= j < old(self).records@.len() && #[trigger] old(self).records@[j] == final(self).records@[a],
    {
        let ghost recs = self.records@;
        let mut kept: Vec<TokenRecord> = Vec::new();
        let mut k: usize = 0;
        let n = self.records.len();
        while k < n
            invariant
                n == recs.len(),
                self.records@ == recs,
                tokens_unique(recs),
                k <= n,
                kept@ == recs.subrange(0, k as int).filter(owner_differs(user_id)),
                tokens_unique(kept@),
                forall|a: int| 0 <= a < kept@.len() ==> #[trigger] kept@[a].user_id != user_id,
                forall|a: int| #![trigger kept@[a]] 0 <= a < kept@.len() ==> exists|j: int| 0 <= j < k && #[trigger] recs[j] == kept@[a],
            decreases n - k,
        {
            proof {
                reveal(Seq::filter);
                let next = recs.subrange(0, k + 1);
                assert(next.drop_last() =~= recs.subrange(0, k as int));
                assert(next.last() == recs[k as int]);
                assert(next.filter(owner_differs(user_id)) == if owner_differs(user_id)(recs[k as int]) {
                    recs.subrange(0, k as int).filter(owner_differs(user_id)).push(recs[k as int])
                } else {
                    recs.subrange(0, k as int).filter(owner_differs(user_id))
                });
            }
            if self.records[k].user_id != user_id {
                let r = TokenRecord {
                    token: self.records[k].token.clone(),
                    user_id: self.records[k].user_id,
                    expires_at: self.records[k].expires_at,
                };
                proof {
                    assert forall|a: int| 0 <= a < kept@.len() implies #[trigger] kept@[a].token@ != r.token@ by {
                        let j = choose|j: int| 0 <= j < k && #[trigger] recs[j] == kept@[a];
                        assert(recs[j].token@ != recs[k as int].token@);
                    }
                }
                let ghost before = kept@;
                assert(r == recs[k as int]);
                assert(owner_differs(user_id)(recs[k as int]));
                kept.push(r);
                proof {
                    assert forall|a: int| #![trigger kept@[a]] 0 <= a < kept@.len() implies exists|j: int|
                        0 <= j < k + 1 && #[trigger] recs[j] == kept@[a] by {
                        if a < before.len() {
                            let j = choose|j: int| 0 <= j < k && #[trigger] recs[j] == before[a];
                            assert(recs[j] == kept@[a]);
                        } else {
                            assert(recs[k as int] == kept@[a]);
                        }
                    }
                }
            } else {
                assert(!owner_differs(user_id)(recs[k as int]));
            }
            k += 1;
        }
        proof {
            assert(recs.subrange(0, n as int) =~= recs);
        }
        self.records = kept;
    }
}

} // verus!
