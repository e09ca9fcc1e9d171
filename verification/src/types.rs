//! Plain data shared by the modules: the configuration of a collection, the
//! refund schedule and the errors.

use crate::account::AccountId;
use vstd::prelude::*;

verus! {

/// An amount of the chain's currency.
pub type Balance = u128;

/// A duration in milliseconds.
pub type MilliSeconds = u64;

/// A share in hundredths.
pub type Percentage = u128;

/// The number of a token, from 1 to the maximum supply.
pub type TokenId = u64;

/// A block timestamp in milliseconds.
pub type BlockTimestamp = u64;

/// What is fixed when a collection is created.
///
/// The four timestamps are meant to be in order, prepresale start first and
/// public end last. Nothing here checks that order: the phase clock states
/// what it answers for any four values.
#[derive(Clone, Copy, Debug)]
pub struct Config {
    pub max_supply: u64,
    pub price_per_mint: Balance,
    pub prepresale_price_per_mint: Balance,
    pub presale_price_per_mint: Balance,
    pub prepresale_start_at: BlockTimestamp,
    pub presale_start_at: BlockTimestamp,
    pub public_sale_start_at: BlockTimestamp,
    pub public_sale_end_at: BlockTimestamp,
    pub project_account_id: AccountId,
    pub refund_address: AccountId,
}

/// One step of the refund schedule: until `duration` after the end of the
/// public sale, `percentage` hundredths of the price are paid back.
///
/// A schedule lists its windows by increasing duration. The refund ledger
/// takes the first window that is still open and does not sort them.
#[derive(Clone, Copy, Debug, PartialEq, Eq, Structural)]
pub struct RefundWindow {
    pub duration: MilliSeconds,
    pub percentage: Percentage,
}

/// What the host has to carry out for an accepted refund: move the token to
/// `destination`, then pay `amount` to `payee`.
#[derive(Clone, Copy, Debug)]
pub struct RefundOrder {
    pub token_id: TokenId,
    pub destination: AccountId,
    pub payee: AccountId,
    pub amount: Balance,
}

/// Why an operation was refused.
#[derive(Clone, Copy, Debug, PartialEq, Eq, Structural)]
pub enum Shiden34Error {
    /// The value attached to a mint is not the price times the quantity.
    BadMintValue,
    /// A mint of no tokens was asked for.
    CannotMintZeroTokens,
    /// More tokens were asked for than are left.
    CollectionIsFull,
    /// More tokens were asked for than one call may mint.
    TooManyTokensToMint,
    /// The host could not send the funds.
    WithdrawalFailed,
    /// The sale is not open, or the caller's allowance does not cover the
    /// quantity.
    UnableToMint,
    /// Nothing is to be paid back for the token.
    RefundFailed,
    /// For hosts that sell in a single time window; no operation of this
    /// crate returns it.
    NotMintingTime,
    /// The token has not been minted.
    TokenNotExists,
    /// The caller does not own the token.
    NotOwner,
    /// The number given for a forced stage names no stage.
    InvalidMintingStatus,
}

impl Shiden34Error {
    /// The name of the error, as the host reports it.
    pub open spec fn label(self) -> Seq<char> {
        match self {
            Shiden34Error::BadMintValue => "BadMintValue"@,
            Shiden34Error::CannotMintZeroTokens => "CannotMintZeroTokens"@,
            Shiden34Error::CollectionIsFull => "CollectionIsFull"@,
            Shiden34Error::TooManyTokensToMint => "TooManyTokensToMint"@,
            Shiden34Error::WithdrawalFailed => "WithdrawalFailed"@,
            Shiden34Error::UnableToMint => "UnableToMint"@,
            Shiden34Error::RefundFailed => "RefundFailed"@,
            Shiden34Error::NotMintingTime => "NotMintingTime"@,
            Shiden34Error::TokenNotExists => "TokenNotExists"@,
            Shiden34Error::NotOwner => "NotOwner"@,
            Shiden34Error::InvalidMintingStatus => "InvalidMintingStatus"@,
        }
    }

    pub fn as_str(&self) -> (name: String)
        ensures
            name@ == self.label(),
    {
        match self {
            Shiden34Error::BadMintValue => "BadMintValue".to_owned(),
            Shiden34Error::CannotMintZeroTokens => "CannotMintZeroTokens".to_owned(),
            Shiden34Error::CollectionIsFull => "CollectionIsFull".to_owned(),
            Shiden34Error::TooManyTokensToMint => "TooManyTokensToMint".to_owned(),
            Shiden34Error::WithdrawalFailed => "WithdrawalFailed".to_owned(),
            Shiden34Error::UnableToMint => "UnableToMint".to_owned(),
            Shiden34Error::RefundFailed => "RefundFailed".to_owned(),
            Shiden34Error::NotMintingTime => "NotMintingTime".to_owned(),
            Shiden34Error::TokenNotExists => "TokenNotExists".to_owned(),
            Shiden34Error::NotOwner => "NotOwner".to_owned(),
            Shiden34Error::InvalidMintingStatus => "InvalidMintingStatus".to_owned(),
        }
    }
}

} // verus!
