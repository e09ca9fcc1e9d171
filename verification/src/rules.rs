//! The rules that depend on the configuration alone: the phase clock, the
//! price of each stage and the check of the payment.

use crate::status::MintingStatus;
use crate::types::{Config, Shiden34Error};
use vstd::prelude::*;

verus! {

/// The stage that the clock gives at `now`, with `minted` tokens issued.
///
/// The sale has ended once `now` is past the end of the public sale or the
/// whole supply is issued. Otherwise the latest window whose start `now` has
/// passed decides. A window starts strictly after its timestamp: at the
/// timestamp itself the earlier stage still holds.
pub open spec fn stage_by_clock(config: Config, now: u64, minted: int) -> MintingStatus {
    if now > config.public_sale_end_at || minted == config.max_supply {
        MintingStatus::End
    } else if now > config.public_sale_start_at {
        MintingStatus::Public
    } else if now > config.presale_start_at {
        MintingStatus::Presale
    } else if now > config.prepresale_start_at {
        MintingStatus::Prepresale
    } else {
        MintingStatus::Closed
    }
}

/// The stage of the sale: the forced one where there is one, whatever the
/// time and the supply, and the stage by the clock otherwise.
pub open spec fn stage_at(
    config: Config,
    forced: Option<MintingStatus>,
    now: u64,
    minted: int,
) -> MintingStatus {
    match forced {
        Some(status) => status,
        None => stage_by_clock(config, now, minted),
    }
}

/// The price of one token in a stage; there is none while nothing is sold.
pub open spec fn price_in(config: Config, status: MintingStatus) -> Option<u128> {
    match status {
        MintingStatus::Prepresale => Some(config.prepresale_price_per_mint),
        MintingStatus::Presale => Some(config.presale_price_per_mint),
        MintingStatus::Public => Some(config.price_per_mint),
        _ => None,
    }
}

/// The price under which a token is refunded that was minted in a stage:
/// the price of that stage for the two restricted windows, the public price
/// otherwise.
pub open spec fn price_paid_in(config: Config, status: MintingStatus) -> u128 {
    match status {
        MintingStatus::Prepresale => config.prepresale_price_per_mint,
        MintingStatus::Presale => config.presale_price_per_mint,
        _ => config.price_per_mint,
    }
}

/// The check of the payment for `mint_amount` tokens in a stage: the value
/// must be the price times the quantity, to the unit.
pub open spec fn value_check(
    config: Config,
    transferred_value: u128,
    mint_amount: u64,
    status: MintingStatus,
) -> Result<(), Shiden34Error> {
    match price_in(config, status) {
        None => Err(Shiden34Error::UnableToMint),
        Some(price) => if price * mint_amount == transferred_value {
            Ok(())
        } else {
            Err(Shiden34Error::BadMintValue)
        },
    }
}

/// The check of the quantity of a mint against the limit per call and the
/// tokens that are left.
pub open spec fn amount_check(mint_amount: u64, max_amount: u64, tokens_left: nat) -> Result<
    (),
    Shiden34Error,
> {
    if mint_amount == 0 {
        Err(Shiden34Error::CannotMintZeroTokens)
    } else if mint_amount > max_amount {
        Err(Shiden34Error::TooManyTokensToMint)
    } else if mint_amount > tokens_left {
        Err(Shiden34Error::CollectionIsFull)
    } else {
        Ok(())
    }
}

impl Config {
    /// The stage that the clock gives at `now`, with `minted` tokens issued.
    pub fn stage_by_clock(&self, now: u64, minted: u64) -> (status: MintingStatus)
        ensures
            status == stage_by_clock(*self, now, minted as int),
    {
        if now > self.public_sale_end_at || minted == self.max_supply {
            MintingStatus::End
        } else if now > self.public_sale_start_at {
            MintingStatus::Public
        } else if now > self.presale_start_at {
            MintingStatus::Presale
        } else if now > self.prepresale_start_at {
            MintingStatus::Prepresale
        } else {
            MintingStatus::Closed
        }
    }

    /// The price of one token in a stage; there is none while nothing is
    /// sold.
    pub fn price_in(&self, status: &MintingStatus) -> (price: Option<u128>)
        ensures
            price == price_in(*self, *status),
    {
        match status {
            MintingStatus::Prepresale => Some(self.prepresale_price_per_mint),
            MintingStatus::Presale => Some(self.presale_price_per_mint),
            MintingStatus::Public => Some(self.price_per_mint),
            _ => None,
        }
    }

    /// The price under which a token minted in a stage is refunded.
    pub fn price_paid_in(&self, status: &MintingStatus) -> (price: u128)
        ensures
            price == price_paid_in(*self, *status),
    {
        match status {
            MintingStatus::Prepresale => self.prepresale_price_per_mint,
            MintingStatus::Presale => self.presale_price_per_mint,
            _ => self.price_per_mint,
        }
    }

    /// Checks the value attached to a mint of `mint_amount` tokens in a
    /// stage. A product of price and quantity that no balance can hold is
    /// never the value attached, so it is refused like any other mismatch.
    pub fn check_value(
        &self,
        transferred_value: u128,
        mint_amount: u64,
        minting_status: &MintingStatus,
    ) -> (checked: Result<(), Shiden34Error>)
        ensures
            checked == value_check(*self, transferred_value, mint_amount, *minting_status),
    {
        let price = match self.price_in(minting_status) {
            Some(price) => price,
            None => {
                return Err(Shiden34Error::UnableToMint);
            },
        };
        if let Some(value) = (mint_amount as u128).checked_mul(price) {
            if transferred_value == value {
                return Ok(());
            }
        }
        assert(price * mint_amount == mint_amount * price) by (nonlinear_arith);
        Err(Shiden34Error::BadMintValue)
    }
}

} // verus!
