//! The launchpad of one collection: the state it keeps and the operations on
//! it.
//!
//! The host hands in what only it can know: the caller, the value attached
//! to the call, the block timestamp and the owner of a token by its ledger.
//! An operation that is refused leaves the state as it was. A mint hands back
//! the tokens that the host has to issue; a refund hands back the transfer
//! and the payment that the host has to make.

use crate::account::AccountId;
use crate::allowlist::Allowlist;
use crate::pool::TokenPool;
use crate::refund::compute_refund_due;
use crate::snapshot::{export_records, import_records, Snapshot};
use crate::state::{State, DEFAULT_MAX_AMOUNT};
use crate::status::MintingStatus;
use crate::types::{Config, RefundOrder, RefundWindow, Shiden34Error};
use std::collections::HashMap;
use vstd::prelude::*;

verus! {

broadcast use vstd::std_specs::hash::group_hash_axioms;

/// The state of the launchpad of one collection.
pub struct Data {
    config: Config,
    max_amount: u64,
    pool: TokenPool,
    forced_minting_status: Option<MintingStatus>,
    prepresale_whitelisted: Allowlist,
    presale_whitelisted: Allowlist,
    refund_schedule: Vec<RefundWindow>,
    minting_type_for_token: HashMap<u64, MintingStatus>,
}

impl View for Data {
    type V = State;

    closed spec fn view(&self) -> State {
        State {
            config: self.config,
            max_amount: self.max_amount,
            pool: self.pool@,
            forced: self.forced_minting_status,
            prepresale: self.prepresale_whitelisted@,
            presale: self.presale_whitelisted@,
            schedule: self.refund_schedule@,
            minted_in: self.minting_type_for_token@,
        }
    }
}

impl Data {
    /// The invariant of the launchpad: its state is valid and its
    /// allowlists are in order. `new` and `restore` establish it, and every
    /// operation asks for it and keeps it.
    pub open spec fn wf(&self) -> bool {
        self@.valid() && self.allowlists_wf()
    }

    /// Neither allowlist holds an account twice.
    pub closed spec fn allowlists_wf(&self) -> bool {
        self.prepresale_whitelisted.wf() && self.presale_whitelisted.wf()
    }

    /// The launchpad of a new collection.
    pub fn new(config: Config, refund_schedule: Vec<RefundWindow>) -> (data: Data)
        ensures
            data.wf(),
            data@ == State::fresh(config, refund_schedule@),
    {
        let data = Data {
            config,
            max_amount: DEFAULT_MAX_AMOUNT,
            pool: TokenPool::new(config.max_supply),
            forced_minting_status: None,
            prepresale_whitelisted: Allowlist::new(),
            presale_whitelisted: Allowlist::new(),
            refund_schedule,
            minting_type_for_token: HashMap::new(),
        };
        assert(data@ =~= State::fresh(config, refund_schedule@));
        data
    }

    /// The state as plain values, for the host to store.
    pub fn snapshot(&self) -> (snapshot: Snapshot)
        requires
            self.wf(),
        ensures
            snapshot.state() == self@,
    {
        let mut refund_schedule: Vec<RefundWindow> = Vec::new();
        let mut i: usize = 0;
        while i < self.refund_schedule.len()
            invariant
                i <= self.refund_schedule@.len(),
                refund_schedule@ == self.refund_schedule@.take(i as int),
            decreases self.refund_schedule@.len() - i,
        {
            refund_schedule.push(self.refund_schedule[i]);
            assert(refund_schedule@ =~= self.refund_schedule@.take(i as int + 1));
            i += 1;
        }
        assert(refund_schedule@ =~= self.refund_schedule@);
        let snapshot = Snapshot {
            config: self.config,
            max_amount: self.max_amount,
            token_set: self.pool.tokens(),
            pseudo_random_salt: self.pool.salt(),
            forced_minting_status: self.forced_minting_status,
            prepresale_whitelisted: self.prepresale_whitelisted.to_entries(),
            presale_whitelisted: self.presale_whitelisted.to_entries(),
            refund_schedule,
            minting_type_for_token: export_records(&self.minting_type_for_token),
        };
        assert(snapshot.state() =~= self@);
        snapshot
    }

    /// The launchpad that stored values stand for. There is one exactly
    /// when the values make up a valid state: the pool holds no token twice
    /// and only tokens of the collection, and together with the draws made
    /// it makes up the whole supply.
    pub fn restore(snapshot: Snapshot) -> (data: Option<Data>)
        ensures
            match data {
                Some(data) => data.wf() && data@ == snapshot.state(),
                None => !snapshot.state().valid(),
            },
    {
        let ghost state = snapshot.state();
        let prepresale_whitelisted = Allowlist::from_entries(&snapshot.prepresale_whitelisted);
        let presale_whitelisted = Allowlist::from_entries(&snapshot.presale_whitelisted);
        let minting_type_for_token = import_records(&snapshot.minting_type_for_token);
        let pool = match TokenPool::restore(
            snapshot.config.max_supply,
            snapshot.token_set,
            snapshot.pseudo_random_salt,
        ) {
            Some(pool) => pool,
            None => {
                return None;
            },
        };
        let data = Data {
            config: snapshot.config,
            max_amount: snapshot.max_amount,
            pool,
            forced_minting_status: snapshot.forced_minting_status,
            prepresale_whitelisted,
            presale_whitelisted,
            refund_schedule: snapshot.refund_schedule,
            minting_type_for_token,
        };
        assert(data@ =~= state);
        Some(data)
    }

    /// The number of tokens of the collection.
    pub fn max_supply(&self) -> (max_supply: u64)
        ensures
            max_supply == self@.config.max_supply,
    {
        self.config.max_supply
    }

    /// The price of one token in the public sale.
    pub fn price(&self) -> (price: u128)
        ensures
            price == self@.config.price_per_mint,
    {
        self.config.price_per_mint
    }

    /// The most tokens that one call may mint.
    pub fn get_max_mint_amount(&self) -> (max_amount: u64)
        ensures
            max_amount == self@.max_amount,
    {
        self.max_amount
    }

    /// Sets the most tokens that one call may mint.
    pub fn set_max_mint_amount(&mut self, max_amount: u64)
        requires
            old(self).wf(),
        ensures
            final(self).wf(),
            final(self)@ == (State { max_amount, ..old(self)@ }),
    {
        self.max_amount = max_amount;
        assert(self@ =~= (State { max_amount, ..old(self)@ }));
    }

    /// The number of tokens that are left to mint.
    pub fn tokens_left(&self) -> (left: u64)
        requires
            self.wf(),
        ensures
            left == self@.pool.tokens.len(),
    {
        self.pool.tokens_left()
    }

    /// The number of tokens issued so far.
    pub fn total_minted(&self) -> (count: u64)
        requires
            self.wf(),
        ensures
            count == self@.pool.minted_count(),
            count + self@.pool.tokens.len() == self@.config.max_supply,
    {
        self.pool.minted_count()
    }

    /// Whether a token has been issued.
    pub fn is_minted(&self, token_id: u64) -> (minted: bool)
        requires
            self.wf(),
        ensures
            minted == self@.pool.is_minted(token_id),
    {
        1 <= token_id && token_id <= self.config.max_supply && !self.pool.contains(token_id)
    }

    /// Gives an account its allowance for the prepresale, in place of the
    /// one it had.
    pub fn add_whitelisted_account_to_prepresale(&mut self, account_id: AccountId, mint_amount: u64)
        requires
            old(self).wf(),
        ensures
            final(self).wf(),
            final(self)@ == (State {
                prepresale: old(self)@.prepresale.insert(account_id, mint_amount),
                ..old(self)@
            }),
    {
        self.prepresale_whitelisted.insert(account_id, mint_amount);
        assert(self@ =~= (State {
            prepresale: old(self)@.prepresale.insert(account_id, mint_amount),
            ..old(self)@
        }));
    }

    /// Gives an account its allowance for the presale, in place of the one
    /// it had.
    pub fn add_whitelisted_account_to_presale(&mut self, account_id: AccountId, mint_amount: u64)
        requires
            old(self).wf(),
        ensures
            final(self).wf(),
            final(self)@ == (State {
                presale: old(self)@.presale.insert(account_id, mint_amount),
                ..old(self)@
            }),
    {
        self.presale_whitelisted.insert(account_id, mint_amount);
        assert(self@ =~= (State {
            presale: old(self)@.presale.insert(account_id, mint_amount),
            ..old(self)@
        }));
    }

    /// What an account may still mint in a stage.
    pub fn allowance(&self, minting_status: &MintingStatus, account_id: AccountId) -> (quantity:
        u64)
        requires
            self.wf(),
        ensures
            quantity == self@.allowance(*minting_status, account_id),
    {
        match minting_status {
            MintingStatus::Prepresale => self.prepresale_whitelisted.allowance(account_id),
            MintingStatus::Presale => self.presale_whitelisted.allowance(account_id),
            _ => 0,
        }
    }

    /// Forces the sale into the stage at the given position, or hands it
    /// back to the clock with `None`. A position that names no stage is
    /// refused and changes nothing.
    pub fn set_minting_status(&mut self, minting_status_index: Option<u8>) -> (set: Result<
        (),
        Shiden34Error,
    >)
        requires
            old(self).wf(),
        ensures
            final(self).wf(),
            match minting_status_index {
                None => set is Ok && final(self)@ == (State { forced: None, ..old(self)@ }),
                Some(index) => match MintingStatus::of_index(index) {
                    Some(status) => set is Ok && final(self)@ == (State {
                        forced: Some(status),
                        ..old(self)@
                    }),
                    None => set == Err::<(), Shiden34Error>(Shiden34Error::InvalidMintingStatus)
                        && final(self)@ == old(self)@,
                },
            },
    {
        let forced = match minting_status_index {
            None => None,
            Some(index) => match MintingStatus::from_index(index) {
                Some(status) => Some(status),
                None => {
                    return Err(Shiden34Error::InvalidMintingStatus);
                },
            },
        };
        self.forced_minting_status = forced;
        assert(self@ =~= (State { forced, ..old(self)@ }));
        Ok(())
    }

    /// The stage of the sale at `now`.
    pub fn get_current_minting_status(&self, now: u64) -> (status: MintingStatus)
        requires
            self.wf(),
        ensures
            status == self@.status(now),
    {
        if let Some(minting_status) = self.forced_minting_status {
            return minting_status;
        }
        self.config.stage_by_clock(now, self.pool.minted_count())
    }

    /// The name of the stage of the sale at `now`.
    pub fn get_minting_status(&self, now: u64) -> (name: String)
        requires
            self.wf(),
        ensures
            name@ == self@.status(now).label(),
    {
        self.get_current_minting_status(now).name()
    }

    /// Checks the value attached to a mint of `mint_amount` tokens in a
    /// stage.
    pub fn check_value(
        &self,
        transferred_value: u128,
        mint_amount: u64,
        minting_status: &MintingStatus,
    ) -> (checked: Result<(), Shiden34Error>)
        ensures
            checked == crate::rules::value_check(
                self@.config,
                transferred_value,
                mint_amount,
                *minting_status,
            ),
    {
        self.config.check_value(transferred_value, mint_amount, minting_status)
    }

    /// Checks the quantity of a mint: not zero, not above the limit per
    /// call, not above what is left.
    pub fn check_amount(&self, mint_amount: u64) -> (checked: Result<(), Shiden34Error>)
        requires
            self.wf(),
        ensures
            checked == self@.check_amount(mint_amount),
    {
        if mint_amount == 0 {
            return Err(Shiden34Error::CannotMintZeroTokens);
        }
        if mint_amount > self.max_amount {
            return Err(Shiden34Error::TooManyTokensToMint);
        }
        let token_left = self.pool.tokens_left();
        if mint_amount <= token_left {
            return Ok(());
        }
        Err(Shiden34Error::CollectionIsFull)
    }

    /// Checks the allowance of an account for a mint in a stage, and charges
    /// the account where the stage keeps allowances.
    pub fn check_allowed_to_mint(
        &mut self,
        account_id: AccountId,
        mint_amount: u64,
        minting_status: &MintingStatus,
    ) -> (checked: Result<(), Shiden34Error>)
        requires
            old(self).wf(),
        ensures
            final(self).wf(),
            match checked {
                Ok(_) => old(self)@.check_allowed_to_mint(account_id, mint_amount, *minting_status)
                    == Ok::<State, Shiden34Error>(final(self)@),
                Err(error) => old(self)@.check_allowed_to_mint(
                    account_id,
                    mint_amount,
                    *minting_status,
                ) == Err::<State, Shiden34Error>(error) && final(self)@ == old(self)@,
            },
    {
        match minting_status {
            MintingStatus::Closed => {
                return Err(Shiden34Error::UnableToMint);
            },
            MintingStatus::End => {
                return Err(Shiden34Error::UnableToMint);
            },
            MintingStatus::Prepresale => {
                let mint_slot = self.prepresale_whitelisted.allowance(account_id);
                if mint_slot < mint_amount {
                    return Err(Shiden34Error::UnableToMint);
                }
                self.prepresale_whitelisted.insert(account_id, mint_slot - mint_amount);
                assert(self@ =~= old(self)@.check_allowed_to_mint(
                    account_id,
                    mint_amount,
                    *minting_status,
                ).unwrap());
            },
            MintingStatus::Presale => {
                let mint_slot = self.presale_whitelisted.allowance(account_id);
                if mint_slot < mint_amount {
                    return Err(Shiden34Error::UnableToMint);
                }
                self.presale_whitelisted.insert(account_id, mint_slot - mint_amount);
                assert(self@ =~= old(self)@.check_allowed_to_mint(
                    account_id,
                    mint_amount,
                    *minting_status,
                ).unwrap());
            },
            MintingStatus::Public => {
                return Ok(());
            },
        }
        Ok(())
    }

    /// Runs the checks of a mint in their order and charges the caller's
    /// allowance. Nothing is written before every check has passed.
    pub fn validate_and_charge(
        &mut self,
        caller: AccountId,
        mint_amount: u64,
        transferred_value: u128,
        now: u64,
    ) -> (checked: Result<MintingStatus, Shiden34Error>)
        requires
            old(self).wf(),
        ensures
            final(self).wf(),
            match checked {
                Ok(status) => old(self)@.validate_and_charge(
                    caller,
                    mint_amount,
                    transferred_value,
                    now,
                ) == Ok::<(MintingStatus, State), Shiden34Error>((status, final(self)@)),
                Err(error) => old(self)@.validate_and_charge(
                    caller,
                    mint_amount,
                    transferred_value,
                    now,
                ) == Err::<(MintingStatus, State), Shiden34Error>(error) && final(self)@ == old(
                    self,
                )@,
            },
    {
        let minting_status = self.get_current_minting_status(now);
        match self.check_amount(mint_amount) {
            Err(error) => {
                return Err(error);
            },
            Ok(_) => {},
        }
        match self.check_value(transferred_value, mint_amount, &minting_status) {
            Err(error) => {
                return Err(error);
            },
            Ok(_) => {},
        }
        match self.check_allowed_to_mint(caller, mint_amount, &minting_status) {
            Err(error) => {
                return Err(error);
            },
            Ok(_) => {},
        }
        Ok(minting_status)
    }

    /// Draws one token at `now` and takes it out of the pool.
    pub fn get_mint_id(&mut self, now: u64) -> (token_id: u64)
        requires
            old(self).wf(),
            old(self)@.pool.tokens.len() > 0,
        ensures
            final(self).wf(),
            token_id == old(self)@.pool.drawn(now),
            final(self)@ == (State { pool: old(self)@.pool.after_draw(now), ..old(self)@ }),
            !old(self)@.pool.is_minted(token_id),
            final(self)@.pool.is_minted(token_id),
    {
        let token_id = self.pool.get_mint_id(now);
        proof {
            assert(self@ =~= (State { pool: old(self)@.pool.after_draw(now), ..old(self)@ }));
            let i = choose|i: int|
                0 <= i < old(self)@.pool.tokens.len() && old(self)@.pool.tokens[i] == token_id;
            assert(1 <= old(self)@.pool.tokens[i] <= old(self)@.pool.max_supply);
        }
        token_id
    }

    /// Records the stage in which a token was minted.
    pub fn record_mint(&mut self, token_id: u64, minting_status: MintingStatus)
        requires
            old(self).wf(),
        ensures
            final(self).wf(),
            final(self)@ == old(self)@.record_mint(token_id, minting_status),
    {
        self.minting_type_for_token.insert(token_id, minting_status);
        assert(self@ =~= old(self)@.record_mint(token_id, minting_status));
    }
    /// Mints `mint_amount` tokens for `caller`, who attached
    /// `transferred_value` to the call, at `now`.
    ///
    /// The checks run first, in their order, and the first that fails
    /// decides the error; a refused mint changes nothing. An accepted mint
    /// charges the caller's allowance where the stage keeps one, then draws
    /// one token for each unit and records it under the stage of the sale.
    /// The tokens come back in the order of the draws, for the host to issue.
    pub fn mint(
        &mut self,
        caller: AccountId,
        mint_amount: u64,
        transferred_value: u128,
        now: u64,
    ) -> (minted: Result<Vec<u64>, Shiden34Error>)
        requires
            old(self).wf(),
        ensures
            final(self).wf(),
            match minted {
                Ok(tokens) => old(self)@.mint(caller, mint_amount, transferred_value, now) == Ok::<
                    (Seq<u64>, State),
                    Shiden34Error,
                >((tokens@, final(self)@)),
                Err(error) => old(self)@.mint(caller, mint_amount, transferred_value, now) == Err::<
                    (Seq<u64>, State),
                    Shiden34Error,
                >(error) && final(self)@ == old(self)@,
            },
            mint_amount == 0 ==> minted == Err::<Vec<u64>, Shiden34Error>(
                Shiden34Error::CannotMintZeroTokens,
            ),
            mint_amount > old(self)@.max_amount ==> minted == Err::<Vec<u64>, Shiden34Error>(
                Shiden34Error::TooManyTokensToMint,
            ),
            0 < mint_amount <= old(self)@.max_amount && mint_amount > old(self)@.pool.tokens.len()
                ==> minted == Err::<Vec<u64>, Shiden34Error>(Shiden34Error::CollectionIsFull),
            crate::rules::value_check(
                old(self)@.config,
                transferred_value,
                mint_amount,
                old(self)@.status(now),
            ) is Err ==> minted is Err,
            minted matches Ok(tokens) ==> {
                &&& tokens@.len() == mint_amount
                &&& final(self)@.pool.tokens.len() == old(self)@.pool.tokens.len() - mint_amount
                &&& tokens@.no_duplicates()
                &&& forall|i: int|
                    0 <= i < tokens@.len() ==> {
                        &&& !old(self)@.pool.is_minted(#[trigger] tokens@[i])
                        &&& final(self)@.pool.is_minted(tokens@[i])
                        &&& final(self)@.minted_in.contains_key(tokens@[i])
                        &&& final(self)@.minted_in[tokens@[i]] == old(self)@.status(now)
                    }
                &&& forall|token_id: u64|
                    final(self)@.pool.is_minted(token_id) <==> (old(self)@.pool.is_minted(token_id)
                        || tokens@.contains(token_id))
            },
    {
        let minting_status = match self.validate_and_charge(
            caller,
            mint_amount,
            transferred_value,
            now,
        ) {
            Ok(status) => status,
            Err(error) => {
                return Err(error);
            },
        };
        let ghost charged = self@;
        proof {
            assert(charged.pool == old(self)@.pool);
            charged.pool.lemma_run(now, mint_amount as nat);
        }
        let mut tokens: Vec<u64> = Vec::new();
        let mut count: u64 = 0;
        while count < mint_amount
            invariant
                self.wf(),
                charged.valid(),
                count <= mint_amount <= charged.pool.tokens.len(),
                tokens@ == charged.pool.drawn_run(now, count as nat),
                self@ == charged.with_draws(now, minting_status, count as nat),
            decreases mint_amount - count,
        {
            proof {
                charged.pool.lemma_run(now, count as nat);
            }
            let mint_id = self.get_mint_id(now);
            self.record_mint(mint_id, minting_status);
            tokens.push(mint_id);
            count = count + 1;
            proof {
                let before = charged.pool.drawn_run(now, (count - 1) as nat);
                let after = charged.pool.drawn_run(now, count as nat);
                assert(after == before.push(mint_id));
                assert forall|token_id: u64| after.contains(token_id) <==> (before.contains(
                    token_id,
                ) || token_id == mint_id) by {
                    if before.contains(token_id) {
                        let i = choose|i: int| 0 <= i < before.len() && before[i] == token_id;
                        assert(after[i] == token_id);
                    }
                    if token_id == mint_id {
                        assert(after[count - 1] == token_id);
                    }
                }
                assert(self@ =~= charged.with_draws(now, minting_status, count as nat));
            }
        }
        proof {
            let drawn = charged.pool.drawn_run(now, mint_amount as nat);
            assert forall|i: int| 0 <= i < drawn.len() implies {
                &&& !old(self)@.pool.is_minted(#[trigger] drawn[i])
                &&& self@.pool.is_minted(drawn[i])
                &&& self@.minted_in.contains_key(drawn[i])
                &&& self@.minted_in[drawn[i]] == minting_status
            } by {
                assert(drawn.contains(drawn[i]));
                assert(charged.pool.tokens.contains(drawn[i]));
                let k = choose|k: int|
                    0 <= k < charged.pool.tokens.len() && charged.pool.tokens[k] == drawn[i];
                assert(1 <= charged.pool.tokens[k] <= charged.pool.max_supply);
            }
        }
        Ok(tokens)
    }

    /// Mints the next token for `caller`: a mint of one.
    pub fn mint_next(&mut self, caller: AccountId, transferred_value: u128, now: u64) -> (minted:
        Result<u64, Shiden34Error>)
        requires
            old(self).wf(),
        ensures
            final(self).wf(),
            match minted {
                Ok(token_id) => old(self)@.mint(caller, 1, transferred_value, now) == Ok::<
                    (Seq<u64>, State),
                    Shiden34Error,
                >((seq![token_id], final(self)@)) && !old(self)@.pool.is_minted(token_id)
                    && final(self)@.pool.is_minted(token_id) && final(self)@.pool.tokens.len()
                    == old(self)@.pool.tokens.len() - 1,
                Err(error) => old(self)@.mint(caller, 1, transferred_value, now) == Err::<
                    (Seq<u64>, State),
                    Shiden34Error,
                >(error) && final(self)@ == old(self)@,
            },
    {
        match self.mint(caller, 1, transferred_value, now) {
            Ok(tokens) => {
                assert(tokens@ =~= seq![tokens@[0]]);
                Ok(tokens[0])
            },
            Err(error) => Err(error),
        }
    }

    /// What is paid back for a token at `now`.
    pub fn get_refund_amount_internal(&self, token_id: u64, now: u64) -> (amount: u128)
        ensures
            amount == self@.refund_amount(token_id, now),
    {
        let minted_in = match self.minting_type_for_token.get(&token_id) {
            None => {
                return 0;
            },
            Some(status) => *status,
        };
        let price = self.config.price_paid_in(&minted_in);
        compute_refund_due(price, &self.refund_schedule, self.config.public_sale_end_at, now)
    }

    /// What is paid back for a token at `now`.
    pub fn get_refund_amount(&self, token_id: u64, now: u64) -> (amount: u128)
        ensures
            amount == self@.refund_amount(token_id, now),
    {
        self.get_refund_amount_internal(token_id, now)
    }

    /// Decides on a refund of a token asked for by `caller` at `now`, with
    /// `owner` the owner of the token by the ledger. Only the owner is
    /// served, and only while something is to be paid back. An accepted
    /// refund tells the host where to move the token and what to pay; the
    /// state changes only with `mark_refunded`, once the token has moved.
    pub fn refund(&self, token_id: u64, caller: AccountId, owner: Option<AccountId>, now: u64) -> (order:
        Result<RefundOrder, Shiden34Error>)
        ensures
            order == self@.refund(token_id, caller, owner, now),
            order matches Ok(accepted) ==> accepted.amount > 0,
    {
        let owned = match owner {
            Some(account) => account == caller,
            None => false,
        };
        if !owned {
            return Err(Shiden34Error::NotOwner);
        }
        let refund_amount = self.get_refund_amount_internal(token_id, now);
        if refund_amount == 0 {
            return Err(Shiden34Error::RefundFailed);
        }
        Ok(
            RefundOrder {
                token_id,
                destination: self.config.refund_address,
                payee: caller,
                amount: refund_amount,
            },
        )
    }

    /// Marks a token as refunded: from now on nothing is paid back for it.
    pub fn mark_refunded(&mut self, token_id: u64)
        requires
            old(self).wf(),
        ensures
            final(self).wf(),
            final(self)@ == old(self)@.mark_refunded(token_id),
            forall|now: u64| final(self)@.refund_amount(token_id, now) == 0,
    {
        self.minting_type_for_token.remove(&token_id);
        assert(self@ =~= old(self)@.mark_refunded(token_id));
    }
}

/// The outcome of a payment that the host has made or failed to make.
pub fn withdrawal_result(sent: bool) -> (outcome: Result<(), Shiden34Error>)
    ensures
        outcome == if sent {
            Ok::<(), Shiden34Error>(())
        } else {
            Err::<(), Shiden34Error>(Shiden34Error::WithdrawalFailed)
        },
{
    if sent {
        Ok(())
    } else {
        Err(Shiden34Error::WithdrawalFailed)
    }
}

} // verus!
