//! What holds of the launchpad over all inputs and over runs of calls,
//! stated over the model of the state and proved from its definitions.

use crate::account::AccountId;
use crate::rules::{price_in, stage_at, stage_by_clock, value_check};
use crate::state::State;
use crate::status::MintingStatus;
use crate::types::{Config, Shiden34Error};
use vstd::prelude::*;

verus! {

/// One mint asked of the launchpad.
pub struct MintRequest {
    pub caller: AccountId,
    pub mint_amount: u64,
    pub transferred_value: u128,
    pub now: u64,
}

/// The state after one request: the state after the mint where it is
/// accepted, the state as it was where it is refused.
pub open spec fn after_request(state: State, request: MintRequest) -> State {
    match state.mint(
        request.caller,
        request.mint_amount,
        request.transferred_value,
        request.now,
    ) {
        Ok((_, next)) => next,
        Err(_) => state,
    }
}

/// The state after a run of requests, served in their order.
pub open spec fn after_requests(state: State, requests: Seq<MintRequest>) -> State
    decreases requests.len(),
{
    if requests.len() == 0 {
        state
    } else {
        after_request(after_requests(state, requests.drop_last()), requests.last())
    }
}

/// The number of tokens that a run of requests mints for `account` while the
/// sale is in `stage`.
pub open spec fn minted_by_in(
    state: State,
    requests: Seq<MintRequest>,
    account: AccountId,
    stage: MintingStatus,
) -> nat
    decreases requests.len(),
{
    if requests.len() == 0 {
        0
    } else {
        let before = after_requests(state, requests.drop_last());
        let request = requests.last();
        let accepted = before.mint(
            request.caller,
            request.mint_amount,
            request.transferred_value,
            request.now,
        ) is Ok;
        let counted: nat = if request.caller == account && before.status(request.now) == stage
            && accepted {
            request.mint_amount as nat
        } else {
            0
        };
        minted_by_in(state, requests.drop_last(), account, stage) + counted
    }
}

/// A mint of no tokens is refused as such, and a mint above the limit per
/// call as such, whatever else holds of the call.
pub proof fn lemma_quantity_is_checked_first(
    state: State,
    caller: AccountId,
    mint_amount: u64,
    transferred_value: u128,
    now: u64,
)
    ensures
        mint_amount == 0 ==> state.mint(caller, mint_amount, transferred_value, now) == Err::<
            (Seq<u64>, State),
            Shiden34Error,
        >(Shiden34Error::CannotMintZeroTokens),
        mint_amount > state.max_amount ==> state.mint(caller, mint_amount, transferred_value, now)
            == Err::<(Seq<u64>, State), Shiden34Error>(Shiden34Error::TooManyTokensToMint),
        0 < mint_amount <= state.max_amount && mint_amount > state.pool.tokens.len()
            ==> state.mint(caller, mint_amount, transferred_value, now) == Err::<
            (Seq<u64>, State),
            Shiden34Error,
        >(Shiden34Error::CollectionIsFull),
{
}

/// A mint is accepted only with the exact payment: with any other value,
/// one unit more included, it is refused. It is refused for the payment
/// itself wherever the quantity passes its check and the sale is open.
pub proof fn lemma_exact_payment(
    state: State,
    caller: AccountId,
    mint_amount: u64,
    transferred_value: u128,
    now: u64,
)
    ensures
        state.mint(caller, mint_amount, transferred_value, now) is Ok ==> price_in(
            state.config,
            state.status(now),
        ) is Some && transferred_value == price_in(state.config, state.status(now)).unwrap()
            * mint_amount,
        state.check_amount(mint_amount) is Ok && price_in(state.config, state.status(now)) is Some
            && transferred_value != price_in(state.config, state.status(now)).unwrap()
            * mint_amount ==> state.mint(caller, mint_amount, transferred_value, now) == Err::<
            (Seq<u64>, State),
            Shiden34Error,
        >(Shiden34Error::BadMintValue),
{
}

/// In a restricted window, a mint of more than the caller's allowance is
/// refused as unable to mint, once the quantity and the payment have passed
/// their checks.
pub proof fn lemma_over_allowance_is_refused(
    state: State,
    caller: AccountId,
    mint_amount: u64,
    transferred_value: u128,
    now: u64,
)
    requires
        state.status(now) == MintingStatus::Prepresale || state.status(now)
            == MintingStatus::Presale,
        state.check_amount(mint_amount) is Ok,
        value_check(state.config, transferred_value, mint_amount, state.status(now)) is Ok,
        mint_amount > state.allowance(state.status(now), caller),
    ensures
        state.mint(caller, mint_amount, transferred_value, now) == Err::<
            (Seq<u64>, State),
            Shiden34Error,
        >(Shiden34Error::UnableToMint),
        after_request(
            state,
            MintRequest { caller, mint_amount, transferred_value, now },
        ) == state,
{
}

/// The public sale asks for no allowance: a mint in it is accepted exactly
/// when the quantity and the payment pass their checks.
pub proof fn lemma_public_sale_needs_no_allowance(
    state: State,
    caller: AccountId,
    mint_amount: u64,
    transferred_value: u128,
    now: u64,
)
    requires
        state.status(now) == MintingStatus::Public,
    ensures
        state.mint(caller, mint_amount, transferred_value, now) is Ok <==> (state.check_amount(
            mint_amount,
        ) is Ok && transferred_value == state.config.price_per_mint * mint_amount),
{
}

/// One request changes the allowance of an account in a restricted stage
/// only by what it mints for that account in that stage.
proof fn lemma_request_charges(
    state: State,
    request: MintRequest,
    account: AccountId,
    stage: MintingStatus,
)
    requires
        stage == MintingStatus::Prepresale || stage == MintingStatus::Presale,
    ensures
        after_request(state, request).allowance(stage, account) + minted_by_in(
            state,
            seq![request],
            account,
            stage,
        ) == state.allowance(stage, account),
{
    let one = seq![request];
    assert(one.drop_last() =~= Seq::<MintRequest>::empty());
    assert(one.last() == request);
    assert(after_requests(state, one.drop_last()) == state);
    assert(minted_by_in(state, one.drop_last(), account, stage) == 0);
}

/// Allowances are consumed and never exceeded: over any run of mint
/// requests, by whichever callers, what is minted for an account in a
/// restricted stage and what is left of its allowance there add up to the
/// allowance it had. So the account mints at most its allowance in that
/// stage, in however many calls.
pub proof fn lemma_allowance_bounds_mints(
    state: State,
    requests: Seq<MintRequest>,
    account: AccountId,
    stage: MintingStatus,
)
    requires
        stage == MintingStatus::Prepresale || stage == MintingStatus::Presale,
    ensures
        minted_by_in(state, requests, account, stage) + after_requests(state, requests).allowance(
            stage,
            account,
        ) == state.allowance(stage, account),
        minted_by_in(state, requests, account, stage) <= state.allowance(stage, account),
    decreases requests.len(),
{
    if requests.len() > 0 {
        let earlier = requests.drop_last();
        lemma_allowance_bounds_mints(state, earlier, account, stage);
        let before = after_requests(state, earlier);
        lemma_request_charges(before, requests.last(), account, stage);
        let one = seq![requests.last()];
        assert(one.drop_last() =~= Seq::<MintRequest>::empty());
        assert(one.last() == requests.last());
        assert(after_requests(before, one.drop_last()) == before);
        assert(minted_by_in(before, one.drop_last(), account, stage) == 0);
    }
}

/// A run of mint requests keeps the state valid, and the tokens issued
/// together with the tokens left always make up the whole supply.
pub proof fn lemma_requests_keep_valid(state: State, requests: Seq<MintRequest>)
    requires
        state.valid(),
    ensures
        after_requests(state, requests).valid(),
        after_requests(state, requests).pool.tokens.len() + after_requests(
            state,
            requests,
        ).pool.minted_count() == state.config.max_supply,
        after_requests(state, requests).config == state.config,
    decreases requests.len(),
{
    if requests.len() > 0 {
        lemma_requests_keep_valid(state, requests.drop_last());
        let before = after_requests(state, requests.drop_last());
        let request = requests.last();
        if before.mint(
            request.caller,
            request.mint_amount,
            request.transferred_value,
            request.now,
        ) is Ok {
            let charged = before.validate_and_charge(
                request.caller,
                request.mint_amount,
                request.transferred_value,
                request.now,
            ).unwrap().1;
            assert(charged.pool == before.pool);
            charged.pool.lemma_run(request.now, request.mint_amount as nat);
        }
    }
}

/// Windows start strictly after their timestamp. With no stage forced, the
/// sale at the start of the public window is still the presale exactly when
/// the presale has started before, the public window has not ended before it
/// starts, and tokens are left; one unit of time later it is the public sale
/// exactly when the public window lasts that long and tokens are left.
pub proof fn lemma_public_sale_starts_after_its_timestamp(config: Config, minted: int)
    ensures
        stage_by_clock(config, config.public_sale_start_at, minted) == MintingStatus::Presale <==> (
        config.presale_start_at < config.public_sale_start_at && config.public_sale_start_at
            <= config.public_sale_end_at && minted != config.max_supply),
        config.public_sale_start_at < u64::MAX ==> (stage_by_clock(
            config,
            (config.public_sale_start_at + 1) as u64,
            minted,
        ) == MintingStatus::Public <==> (config.public_sale_start_at < config.public_sale_end_at
            && minted != config.max_supply)),
{
}

/// At the timestamp of a window the clock never gives that window: it gives
/// it only strictly later.
pub proof fn lemma_stage_needs_time_past_its_start(config: Config, now: u64, minted: int)
    ensures
        stage_by_clock(config, now, minted) == MintingStatus::Public ==> now
            > config.public_sale_start_at,
        stage_by_clock(config, now, minted) == MintingStatus::Presale ==> now
            > config.presale_start_at && now <= config.public_sale_start_at,
        stage_by_clock(config, now, minted) == MintingStatus::Prepresale ==> now
            > config.prepresale_start_at && now <= config.presale_start_at,
        stage_by_clock(config, now, minted) == MintingStatus::Closed ==> now
            <= config.prepresale_start_at,
        stage_by_clock(config, now, minted) != MintingStatus::End ==> now
            <= config.public_sale_end_at && minted != config.max_supply,
{
}

/// A forced stage holds whatever the time and the supply.
pub proof fn lemma_forced_stage_holds(
    config: Config,
    forced: MintingStatus,
    now: u64,
    minted: int,
)
    ensures
        stage_at(config, Some(forced), now, minted) == forced,
{
}

/// A token is refunded at most once: once it is marked as refunded, nothing
/// is to be paid back for it at any time, and every further refund is
/// refused, as a failed refund where the caller owns the token and as not
/// the owner's otherwise.
pub proof fn lemma_refund_at_most_once(
    state: State,
    token_id: u64,
    caller: AccountId,
    owner: Option<AccountId>,
    now: u64,
)
    ensures
        state.mark_refunded(token_id).refund_amount(token_id, now) == 0,
        state.mark_refunded(token_id).refund(token_id, caller, owner, now) is Err,
        owner == Some(caller) ==> state.mark_refunded(token_id).refund(
            token_id,
            caller,
            owner,
            now,
        ) == Err::<crate::types::RefundOrder, Shiden34Error>(Shiden34Error::RefundFailed),
        owner != Some(caller) ==> state.mark_refunded(token_id).refund(
            token_id,
            caller,
            owner,
            now,
        ) == Err::<crate::types::RefundOrder, Shiden34Error>(Shiden34Error::NotOwner),
        state.mark_refunded(token_id).mark_refunded(token_id) == state.mark_refunded(token_id),
{
    assert(state.mark_refunded(token_id).mark_refunded(token_id) =~= state.mark_refunded(
        token_id,
    ));
}

/// Marking one token as refunded leaves the refund of every other token as
/// it was.
pub proof fn lemma_refund_leaves_other_tokens(state: State, token_id: u64, other: u64, now: u64)
    requires
        other != token_id,
    ensures
        state.mark_refunded(token_id).refund_amount(other, now) == state.refund_amount(other, now),
{
}

} // verus!
