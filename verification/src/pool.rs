//! The pool of tokens that are not issued yet, and the draws from it.
//!
//! The pool holds each unissued token once. A draw picks a position by a
//! pseudo-random number, moves the last token into that position and
//! shortens the pool by one, so the order of the pool carries no meaning and
//! changes with every draw.

use crate::entropy::{get_pseudo_random, pseudo_random};
use std::collections::HashSet;
use vstd::prelude::*;

verus! {

broadcast use vstd::std_specs::hash::group_hash_axioms;

/// The pool as a mathematical value.
#[verifier::ext_equal]
pub struct PoolState {
    /// The number of tokens of the collection.
    pub max_supply: u64,
    /// The unissued tokens, in the order in which the pool holds them.
    pub tokens: Seq<u64>,
    /// The number of draws so far.
    pub salt: u64,
}

impl PoolState {
    /// No token is in the pool twice, every token of the pool is one of
    /// `1..=max_supply`, and the pool together with the tokens drawn so far
    /// makes up the whole supply.
    pub open spec fn valid(self) -> bool {
        &&& self.tokens.no_duplicates()
        &&& forall|i: int|
            0 <= i < self.tokens.len() ==> 1 <= #[trigger] self.tokens[i] <= self.max_supply
        &&& self.salt + self.tokens.len() == self.max_supply
    }

    /// The pool of a new collection: the tokens 1 to `max_supply` in order,
    /// and no draw made.
    pub open spec fn fresh(max_supply: u64) -> PoolState {
        PoolState {
            max_supply,
            tokens: Seq::new(max_supply as nat, |i: int| (i + 1) as u64),
            salt: 0,
        }
    }

    /// Whether a token has been issued.
    pub open spec fn is_minted(self, token_id: u64) -> bool {
        1 <= token_id <= self.max_supply && !self.tokens.contains(token_id)
    }

    /// The tokens issued so far.
    pub open spec fn minted(self) -> Set<u64> {
        Set::new(|token_id: u64| self.is_minted(token_id))
    }

    /// The number of tokens issued so far.
    pub open spec fn minted_count(self) -> int {
        self.max_supply - self.tokens.len()
    }

    /// The position that a draw at timestamp `seed` picks.
    pub open spec fn draw_index(self, seed: u64) -> int {
        pseudo_random(seed, self.salt, (self.tokens.len() - 1) as u64)
    }

    /// The pool after the token at `index` has left it: the last token
    /// takes its place, and the salt counts one draw more.
    pub open spec fn without(self, index: int) -> PoolState {
        PoolState {
            max_supply: self.max_supply,
            tokens: self.tokens.update(index, self.tokens.last()).drop_last(),
            salt: (self.salt + 1) as u64,
        }
    }

    /// The token that a draw at timestamp `seed` hands out.
    pub open spec fn drawn(self, seed: u64) -> u64 {
        self.tokens[self.draw_index(seed)]
    }

    /// The pool after a draw at timestamp `seed`.
    pub open spec fn after_draw(self, seed: u64) -> PoolState {
        self.without(self.draw_index(seed))
    }

    /// The tokens that `count` draws in a row hand out, in the order of the
    /// draws.
    pub open spec fn drawn_run(self, seed: u64, count: nat) -> Seq<u64>
        decreases count,
    {
        if count == 0 {
            Seq::empty()
        } else {
            let before = self.after_run(seed, (count - 1) as nat);
            self.drawn_run(seed, (count - 1) as nat).push(before.drawn(seed))
        }
    }

    /// The pool after `count` draws in a row.
    pub open spec fn after_run(self, seed: u64, count: nat) -> PoolState
        decreases count,
    {
        if count == 0 {
            self
        } else {
            self.after_run(seed, (count - 1) as nat).after_draw(seed)
        }
    }

    /// The position of a draw lies in the pool.
    pub proof fn lemma_draw_index_in_pool(self, seed: u64)
        requires
            self.valid(),
            self.tokens.len() > 0,
        ensures
            0 <= self.draw_index(seed) < self.tokens.len(),
    {
        crate::entropy::lemma_number_in_range(
            crate::entropy::keccak256(crate::entropy::entropy_input(seed, self.salt)),
            (self.tokens.len() - 1) as u64,
        );
    }

    /// Taking a token out keeps the pool valid, shortens it by one, and
    /// removes that token and no other.
    pub proof fn lemma_without(self, index: int)
        requires
            self.valid(),
            0 <= index < self.tokens.len(),
        ensures
            self.without(index).valid(),
            self.without(index).tokens.len() == self.tokens.len() - 1,
            self.without(index).max_supply == self.max_supply,
            !self.without(index).tokens.contains(self.tokens[index]),
            forall|token_id: u64|
                #[trigger] self.without(index).tokens.contains(token_id) <==> (
                self.tokens.contains(token_id) && token_id != self.tokens[index]),
    {
        let old_tokens = self.tokens;
        let new_tokens = self.without(index).tokens;
        let last = old_tokens.len() - 1;
        assert forall|i: int| 0 <= i < new_tokens.len() implies new_tokens[i] == old_tokens[if i
            == index {
            last
        } else {
            i
        }] by {}
        assert forall|i: int, j: int|
            0 <= i < new_tokens.len() && 0 <= j < new_tokens.len() && i != j implies new_tokens[i]
            != new_tokens[j] by {}
        assert forall|token_id: u64|
            new_tokens.contains(token_id) <==> (old_tokens.contains(token_id) && token_id
                != old_tokens[index]) by {
            if new_tokens.contains(token_id) {
                let i = choose|i: int| 0 <= i < new_tokens.len() && new_tokens[i] == token_id;
                let k = if i == index {
                    last
                } else {
                    i
                };
                assert(old_tokens[k] == token_id);
                assert(k != index);
            }
            if old_tokens.contains(token_id) && token_id != old_tokens[index] {
                let k = choose|k: int| 0 <= k < old_tokens.len() && old_tokens[k] == token_id;
                if k == last {
                    assert(new_tokens[index] == token_id);
                } else {
                    assert(new_tokens[k] == token_id);
                }
            }
        }
    }

    /// A run of draws keeps the pool valid and shortens it by the number of
    /// draws. The tokens drawn are pairwise distinct, each was in the pool
    /// before the run, and the pool after the run holds exactly the tokens
    /// that were not drawn.
    pub proof fn lemma_run(self, seed: u64, count: nat)
        requires
            self.valid(),
            count <= self.tokens.len(),
        ensures
            self.after_run(seed, count).valid(),
            self.after_run(seed, count).max_supply == self.max_supply,
            self.after_run(seed, count).tokens.len() == self.tokens.len() - count,
            self.after_run(seed, count).salt == self.salt + count,
            self.drawn_run(seed, count).len() == count,
            self.drawn_run(seed, count).no_duplicates(),
            forall|token_id: u64|
                self.drawn_run(seed, count).contains(token_id) ==> self.tokens.contains(token_id),
            forall|token_id: u64|
                #![trigger self.after_run(seed, count).tokens.contains(token_id)]
                #![trigger self.drawn_run(seed, count).contains(token_id)]
                self.after_run(seed, count).tokens.contains(token_id) <==> (self.tokens.contains(
                    token_id,
                ) && !self.drawn_run(seed, count).contains(token_id)),
        decreases count,
    {
        if count > 0 {
            let prev = (count - 1) as nat;
            self.lemma_run(seed, prev);
            let before = self.after_run(seed, prev);
            let ids = self.drawn_run(seed, prev);
            before.lemma_draw_index_in_pool(seed);
            let index = before.draw_index(seed);
            before.lemma_without(index);
            let id = before.tokens[index];
            let all = self.drawn_run(seed, count);
            assert(all == ids.push(id));
            assert(before.tokens.contains(id));
            assert(!ids.contains(id));
            assert forall|i: int, j: int| 0 <= i < all.len() && 0 <= j < all.len() && i != j implies all[i]
                != all[j] by {
                if i == count - 1 {
                    assert(ids[j] == all[j]);
                    assert(ids.contains(ids[j]));
                } else if j == count - 1 {
                    assert(ids[i] == all[i]);
                    assert(ids.contains(ids[i]));
                } else {
                    assert(ids[i] == all[i] && ids[j] == all[j]);
                }
            }
            assert forall|token_id: u64| all.contains(token_id) implies self.tokens.contains(
                token_id,
            ) by {
                let i = choose|i: int| 0 <= i < all.len() && all[i] == token_id;
                if i < count - 1 {
                    assert(ids.contains(token_id));
                }
            }
            assert forall|token_id: u64|
                #![trigger self.after_run(seed, count).tokens.contains(token_id)]
                #![trigger all.contains(token_id)]
                self.after_run(seed, count).tokens.contains(token_id) <==> (self.tokens.contains(
                    token_id,
                ) && !all.contains(token_id)) by {
                if all.contains(token_id) {
                    let i = choose|i: int| 0 <= i < all.len() && all[i] == token_id;
                    if i < count - 1 {
                        assert(ids.contains(token_id));
                    }
                }
                if ids.contains(token_id) {
                    let i = choose|i: int| 0 <= i < ids.len() && ids[i] == token_id;
                    assert(all[i] == token_id);
                }
                if token_id == id {
                    assert(all[count - 1] == token_id);
                }
            }
        }
    }

    /// The tokens issued so far are as many as the supply exceeds the pool.
    pub proof fn lemma_minted_count(self)
        requires
            self.valid(),
        ensures
            self.minted().finite(),
            self.minted().len() == self.minted_count(),
            self.minted_count() == self.salt,
    {
        let supply = Set::new(|token_id: u64| 1 <= token_id <= self.max_supply);
        lemma_supply_set(self.max_supply);
        let in_pool = self.tokens.to_set();
        self.tokens.unique_seq_to_set();
        assert(in_pool.subset_of(supply)) by {
            assert forall|token_id: u64| in_pool.contains(token_id) implies supply.contains(
                token_id,
            ) by {
                let i = choose|i: int| 0 <= i < self.tokens.len() && self.tokens[i] == token_id;
            }
        }
        assert(self.minted() =~= supply.difference(in_pool));
        vstd::set_lib::lemma_len_difference(supply, in_pool);
        vstd::set_lib::lemma_len_intersect(supply, in_pool);
        assert(supply.intersect(in_pool) =~= in_pool);
        vstd::set_lib::lemma_set_difference_len(supply, in_pool);
    }
}

/// The tokens `1..=max_supply` are `max_supply` many.
pub proof fn lemma_supply_set(max_supply: u64)
    ensures
        Set::new(|token_id: u64| 1 <= token_id <= max_supply).finite(),
        Set::new(|token_id: u64| 1 <= token_id <= max_supply).len() == max_supply,
    decreases max_supply,
{
    let supply = Set::new(|token_id: u64| 1 <= token_id <= max_supply);
    if max_supply == 0 {
        assert(supply =~= Set::empty());
    } else {
        let smaller = Set::new(|token_id: u64| 1 <= token_id <= (max_supply - 1) as u64);
        lemma_supply_set((max_supply - 1) as u64);
        assert(supply =~= smaller.insert(max_supply));
    }
}

/// The pool of unissued tokens together with the salt of the draws.
pub struct TokenPool {
    max_supply: u64,
    token_set: Vec<u64>,
    pseudo_random_salt: u64,
}

impl View for TokenPool {
    type V = PoolState;

    closed spec fn view(&self) -> PoolState {
        PoolState {
            max_supply: self.max_supply,
            tokens: self.token_set@,
            salt: self.pseudo_random_salt,
        }
    }
}

impl TokenPool {
    /// The pool of a new collection of `max_supply` tokens.
    pub fn new(max_supply: u64) -> (pool: TokenPool)
        ensures
            pool@ == PoolState::fresh(max_supply),
            pool@.valid(),
    {
        let mut token_set: Vec<u64> = Vec::new();
        let mut next: u64 = 0;
        while next < max_supply
            invariant
                next <= max_supply,
                token_set@.len() == next,
                forall|i: int| 0 <= i < next ==> token_set@[i] == i + 1,
            decreases max_supply - next,
        {
            next = next + 1;
            token_set.push(next);
        }
        assert(token_set@ =~= PoolState::fresh(max_supply).tokens);
        TokenPool { max_supply, token_set, pseudo_random_salt: 0 }
    }

    /// The number of tokens of the collection.
    pub fn max_supply(&self) -> (max_supply: u64)
        ensures
            max_supply == self@.max_supply,
    {
        self.max_supply
    }

    /// The number of tokens that are left to mint.
    pub fn tokens_left(&self) -> (left: u64)
        requires
            self@.valid(),
        ensures
            left == self@.tokens.len(),
    {
        self.token_set.len() as u64
    }

    /// The number of tokens issued so far.
    pub fn minted_count(&self) -> (count: u64)
        requires
            self@.valid(),
        ensures
            count == self@.minted_count(),
    {
        self.pseudo_random_salt
    }

    /// Whether a token is still in the pool.
    pub fn contains(&self, token_id: u64) -> (found: bool)
        ensures
            found == self@.tokens.contains(token_id),
    {
        let mut i: usize = 0;
        while i < self.token_set.len()
            invariant
                i <= self.token_set@.len(),
                forall|j: int| 0 <= j < i ==> self.token_set@[j] != token_id,
            decreases self.token_set@.len() - i,
        {
            if self.token_set[i] == token_id {
                return true;
            }
            i += 1;
        }
        false
    }

    /// The unissued tokens, in the order in which the pool holds them.
    pub fn tokens(&self) -> (tokens: Vec<u64>)
        ensures
            tokens@ == self@.tokens,
    {
        let mut tokens: Vec<u64> = Vec::new();
        let mut i: usize = 0;
        while i < self.token_set.len()
            invariant
                i <= self.token_set@.len(),
                tokens@ == self.token_set@.take(i as int),
            decreases self.token_set@.len() - i,
        {
            tokens.push(self.token_set[i]);
            assert(tokens@ =~= self.token_set@.take(i as int + 1));
            i += 1;
        }
        assert(tokens@ =~= self.token_set@);
        tokens
    }

    /// The salt of the next draw.
    pub fn salt(&self) -> (salt: u64)
        ensures
            salt == self@.salt,
    {
        self.pseudo_random_salt
    }

    /// The pool with the given tokens and salt, where they make up a valid
    /// pool of a collection of `max_supply` tokens.
    pub fn restore(max_supply: u64, token_set: Vec<u64>, pseudo_random_salt: u64) -> (pool: Option<
        TokenPool,
    >)
        ensures
            match pool {
                Some(pool) => pool@ == (PoolState {
                    max_supply,
                    tokens: token_set@,
                    salt: pseudo_random_salt,
                }) && pool@.valid(),
                None => !(PoolState {
                    max_supply,
                    tokens: token_set@,
                    salt: pseudo_random_salt,
                }).valid(),
            },
    {
        if pseudo_random_salt > max_supply {
            return None;
        }
        if token_set.len() as u64 != max_supply - pseudo_random_salt {
            return None;
        }
        let mut seen: HashSet<u64> = HashSet::new();
        let mut i: usize = 0;
        while i < token_set.len()
            invariant
                i <= token_set@.len(),
                forall|j: int| 0 <= j < i ==> 1 <= #[trigger] token_set@[j] <= max_supply,
                forall|j: int, k: int| 0 <= j < i && 0 <= k < i && j != k ==> token_set@[j] != token_set@[k],
                forall|token_id: u64|
                    seen@.contains(token_id) <==> exists|j: int|
                        0 <= j < i && token_set@[j] == token_id,
            decreases token_set@.len() - i,
        {
            let token_id = token_set[i];
            if token_id < 1 || token_id > max_supply {
                return None;
            }
            if !seen.insert(token_id) {
                proof {
                    let j = choose|j: int| 0 <= j < i && token_set@[j] == token_id;
                    assert(token_set@[j] == token_set@[i as int] && j != i);
                }
                return None;
            }
            proof {
                assert forall|other: u64|
                    seen@.contains(other) <==> exists|j: int|
                        0 <= j < i + 1 && token_set@[j] == other by {
                    if other == token_id {
                        assert(token_set@[i as int] == other);
                    }
                }
            }
            i += 1;
        }
        Some(TokenPool { max_supply, token_set, pseudo_random_salt })
    }

    /// Draws one token at timestamp `seed` and takes it out of the pool.
    pub fn get_mint_id(&mut self, seed: u64) -> (token_id: u64)
        requires
            old(self)@.valid(),
            old(self)@.tokens.len() > 0,
        ensures
            final(self)@ == old(self)@.after_draw(seed),
            token_id == old(self)@.drawn(seed),
            final(self)@.valid(),
            old(self)@.tokens.contains(token_id),
            !final(self)@.tokens.contains(token_id),
            final(self)@.tokens.len() == old(self)@.tokens.len() - 1,
    {
        let token_length = self.token_set.len() as u64;
        let index = get_pseudo_random(&mut self.pseudo_random_salt, seed, token_length - 1);
        proof {
            old(self)@.lemma_without(index as int);
        }
        self.token_set.swap_remove(index as usize)
    }
}

} // verus!
