//! The launchpad as a mathematical value, and its operations as functions
//! from one such value to the next.

use crate::account::AccountId;
use crate::allowlist::{allowance_of, charged};
use crate::pool::PoolState;
use crate::refund::refund_due;
use crate::rules::{amount_check, price_paid_in, stage_at, value_check};
use crate::status::MintingStatus;
use crate::types::{Config, RefundOrder, RefundWindow, Shiden34Error};
use vstd::prelude::*;

verus! {

/// The number of tokens that one call may mint in a new collection.
pub const DEFAULT_MAX_AMOUNT: u64 = 10;

/// Everything the launchpad keeps between two calls.
#[verifier::ext_equal]
pub struct State {
    /// What was fixed when the collection was created.
    pub config: Config,
    /// The most tokens that one call may mint.
    pub max_amount: u64,
    /// The unissued tokens and the salt of the draws.
    pub pool: PoolState,
    /// The stage that the administrator has forced, if any.
    pub forced: Option<MintingStatus>,
    /// What each account may still mint in the prepresale.
    pub prepresale: Map<AccountId, u64>,
    /// What each account may still mint in the presale.
    pub presale: Map<AccountId, u64>,
    /// The refund schedule.
    pub schedule: Seq<RefundWindow>,
    /// The stage in which each token was minted that can still be refunded.
    pub minted_in: Map<u64, MintingStatus>,
}

impl State {
    /// The pool is valid and is the pool of this collection.
    pub open spec fn valid(self) -> bool {
        self.pool.valid() && self.pool.max_supply == self.config.max_supply
    }

    /// A new collection: every token unissued, no allowance given, no stage
    /// forced, and the default limit per call.
    pub open spec fn fresh(config: Config, schedule: Seq<RefundWindow>) -> State {
        State {
            config,
            max_amount: DEFAULT_MAX_AMOUNT,
            pool: PoolState::fresh(config.max_supply),
            forced: None,
            prepresale: Map::empty(),
            presale: Map::empty(),
            schedule,
            minted_in: Map::empty(),
        }
    }

    /// The stage of the sale at `now`.
    pub open spec fn status(self, now: u64) -> MintingStatus {
        stage_at(self.config, self.forced, now, self.pool.minted_count())
    }

    /// The check of the quantity of a mint.
    pub open spec fn check_amount(self, mint_amount: u64) -> Result<(), Shiden34Error> {
        amount_check(mint_amount, self.max_amount, self.pool.tokens.len())
    }

    /// The check of the allowance in a stage. In the two restricted windows
    /// the account is charged for the quantity, and refused where its
    /// allowance does not cover it. The public sale asks for no allowance.
    /// Outside the sale nothing can be minted.
    pub open spec fn check_allowed_to_mint(
        self,
        account: AccountId,
        mint_amount: u64,
        status: MintingStatus,
    ) -> Result<State, Shiden34Error> {
        match status {
            MintingStatus::Closed => Err(Shiden34Error::UnableToMint),
            MintingStatus::End => Err(Shiden34Error::UnableToMint),
            MintingStatus::Prepresale => match charged(self.prepresale, account, mint_amount) {
                None => Err(Shiden34Error::UnableToMint),
                Some(prepresale) => Ok(State { prepresale, ..self }),
            },
            MintingStatus::Presale => match charged(self.presale, account, mint_amount) {
                None => Err(Shiden34Error::UnableToMint),
                Some(presale) => Ok(State { presale, ..self }),
            },
            MintingStatus::Public => Ok(self),
        }
    }

    /// The checks of a mint, in their order: the quantity, the stage and the
    /// payment, the allowance. The first that fails decides the error. Where
    /// all pass, the result is the stage and the state with the caller
    /// charged.
    pub open spec fn validate_and_charge(
        self,
        caller: AccountId,
        mint_amount: u64,
        transferred_value: u128,
        now: u64,
    ) -> Result<(MintingStatus, State), Shiden34Error> {
        let status = self.status(now);
        match self.check_amount(mint_amount) {
            Err(error) => Err(error),
            Ok(_) => match value_check(self.config, transferred_value, mint_amount, status) {
                Err(error) => Err(error),
                Ok(_) => match self.check_allowed_to_mint(caller, mint_amount, status) {
                    Err(error) => Err(error),
                    Ok(charged) => Ok((status, charged)),
                },
            },
        }
    }

    /// The state after a token has been recorded as minted in a stage.
    pub open spec fn record_mint(self, token_id: u64, status: MintingStatus) -> State {
        State { minted_in: self.minted_in.insert(token_id, status), ..self }
    }

    /// The state after `count` draws at `now`, each recorded as minted in
    /// `status`.
    pub open spec fn with_draws(self, now: u64, status: MintingStatus, count: nat) -> State {
        let drawn = self.pool.drawn_run(now, count);
        State {
            pool: self.pool.after_run(now, count),
            minted_in: Map::new(
                |token_id: u64| self.minted_in.contains_key(token_id) || drawn.contains(token_id),
                |token_id: u64|
                    if drawn.contains(token_id) {
                        status
                    } else {
                        self.minted_in[token_id]
                    },
            ),
            ..self
        }
    }

    /// A mint: the checks, then one draw for each token, each recorded under
    /// the stage of the sale. The result is the tokens in the order of the
    /// draws and the state after them.
    pub open spec fn mint(
        self,
        caller: AccountId,
        mint_amount: u64,
        transferred_value: u128,
        now: u64,
    ) -> Result<(Seq<u64>, State), Shiden34Error> {
        match self.validate_and_charge(caller, mint_amount, transferred_value, now) {
            Err(error) => Err(error),
            Ok((status, charged)) => Ok(
                (
                    charged.pool.drawn_run(now, mint_amount as nat),
                    charged.with_draws(now, status, mint_amount as nat),
                ),
            ),
        }
    }

    /// What is paid back for a token at `now`: nothing for a token without a
    /// record, and else the share that the schedule gives of the price of
    /// the stage in which it was minted.
    pub open spec fn refund_amount(self, token_id: u64, now: u64) -> int {
        if self.minted_in.contains_key(token_id) {
            refund_due(
                price_paid_in(self.config, self.minted_in[token_id]),
                self.schedule,
                self.config.public_sale_end_at,
                now,
            )
        } else {
            0
        }
    }

    /// The decision on a refund asked for by `caller`, with `owner` the
    /// owner of the token by the ledger.
    pub open spec fn refund(
        self,
        token_id: u64,
        caller: AccountId,
        owner: Option<AccountId>,
        now: u64,
    ) -> Result<RefundOrder, Shiden34Error> {
        if owner != Some(caller) {
            Err(Shiden34Error::NotOwner)
        } else if self.refund_amount(token_id, now) == 0 {
            Err(Shiden34Error::RefundFailed)
        } else {
            Ok(
                RefundOrder {
                    token_id,
                    destination: self.config.refund_address,
                    payee: caller,
                    amount: self.refund_amount(token_id, now) as u128,
                },
            )
        }
    }

    /// The state after a token has been refunded: its record is gone.
    pub open spec fn mark_refunded(self, token_id: u64) -> State {
        State { minted_in: self.minted_in.remove(token_id), ..self }
    }

    /// The allowance of an account in a stage; the public sale and the
    /// stages without a sale keep none.
    pub open spec fn allowance(self, status: MintingStatus, account: AccountId) -> u64 {
        match status {
            MintingStatus::Prepresale => allowance_of(self.prepresale, account),
            MintingStatus::Presale => allowance_of(self.presale, account),
            _ => 0,
        }
    }
}

} // verus!
