//! The settlement itself: the fee, the two stable-asset transfers, the
//! running totals, and the reward that is paid when a fee was taken.

use vstd::prelude::*;
use crate::accounts::{ErrorCode, Stats, TransferUSDC};
use crate::curve::{get_reward_rate, reward_at, BASIS_PTS_PRECISION, INITIAL_REWARD};
use crate::keys::{signing_authority, signing_authority_spec, view_signer, Address};
use crate::mover::{reward_tokens_with, signs_for, transfer_usdc};

verus! {

/// The fee on `amt` at a rate of `basis_points`, rounded down.
pub open spec fn fee_of(amt: u64, basis_points: u64) -> nat {
    (amt as nat * basis_points as nat) / (BASIS_PTS_PRECISION as nat)
}

/// The reward budget at `volume`, cut down to what the treasury holds.
pub open spec fn clamped_reward(volume: nat, treasury_balance: nat) -> nat {
    if reward_at(volume) > treasury_balance {
        treasury_balance
    } else {
        reward_at(volume)
    }
}

/// The sender's half of a reward, rounded down.
pub open spec fn sender_share(payout: nat) -> nat {
    payout / 2
}

/// The recipient's half of a reward, which takes the odd unit.
pub open spec fn recipient_share(payout: nat) -> nat {
    (payout - payout / 2) as nat
}

/// The whole reward that settling `amt` pays: nothing where no fee is
/// taken, else the budget at the volume that includes `amt`, cut down to
/// what the treasury holds.
pub open spec fn payout_of(pre: TransferUSDC, amt: u64) -> nat {
    if fee_of(amt, pre.network_config.merchant_tx_fee_basis_points) == 0 {
        0
    } else {
        clamped_reward((pre.stats.amount_moved + amt) as nat, pre.treasury.amount as nat)
    }
}

/// Whether every account holds the asset that the configuration names for
/// it.
pub open spec fn mints_match(pre: TransferUSDC) -> bool {
    &&& pre.source.mint@ == pre.network_config.usdc_mint@
    &&& pre.destination.mint@ == pre.network_config.usdc_mint@
    &&& pre.pool_account.mint@ == pre.network_config.usdc_mint@
    &&& pre.source_token_account.mint@ == pre.network_config.shekel_token_mint@
    &&& pre.destination_token_account.mint@ == pre.network_config.shekel_token_mint@
    &&& pre.treasury.mint@ == pre.network_config.shekel_token_mint@
}

/// Whether the engine's own authority may pay out of the treasury.
pub open spec fn treasury_signed(pre: TransferUSDC, signer: Option<(Seq<u8>, u8)>) -> bool {
    signs_for(signer, pre.authority.key@) && pre.treasury.owner@ == pre.authority.key@
}

/// Why settling `amt` is refused, if it is. The first that applies: the
/// amount is zero; the fee takes all of it; an account holds the wrong
/// asset; the payer does not own the source; the source holds too little;
/// a reward is due and the engine's authority cannot pay it.
pub open spec fn transact_error(pre: TransferUSDC, signer: Option<(Seq<u8>, u8)>, amt: u64) -> Option<
    ErrorCode,
> {
    if amt == 0 {
        Some(ErrorCode::ZeroAmt)
    } else if amt <= fee_of(amt, pre.network_config.merchant_tx_fee_basis_points) {
        Some(ErrorCode::FeeGreaterThanAmt)
    } else if !mints_match(pre) {
        Some(ErrorCode::AssetMismatch)
    } else if pre.source.owner@ != pre.owner@ {
        Some(ErrorCode::Unauthorized)
    } else if pre.source.amount < amt {
        Some(ErrorCode::InsufficientFunds)
    } else if payout_of(pre, amt) > 0 && !treasury_signed(pre, signer) {
        Some(ErrorCode::Unauthorized)
    } else {
        None
    }
}

/// The accounts after `amt` was settled: the fee in the pool, the rest with
/// the recipient, the volume counted, and the reward, if any, split between
/// the two parties and counted.
pub open spec fn settled(pre: TransferUSDC, amt: u64) -> TransferUSDC {
    let fee = fee_of(amt, pre.network_config.merchant_tx_fee_basis_points);
    let payout = payout_of(pre, amt);
    TransferUSDC {
        owner: pre.owner,
        source: pre.source.with_amount(pre.source.amount - amt),
        source_token_account: pre.source_token_account.with_amount(
            pre.source_token_account.amount + sender_share(payout),
        ),
        destination: pre.destination.with_amount(pre.destination.amount + amt - fee),
        destination_token_account: pre.destination_token_account.with_amount(
            pre.destination_token_account.amount + recipient_share(payout),
        ),
        network_config: pre.network_config,
        pool_account: pre.pool_account.with_amount(pre.pool_account.amount + fee),
        stats: Stats {
            amount_moved: (pre.stats.amount_moved + amt) as u64,
            amount_rewarded_sender: (pre.stats.amount_rewarded_sender + sender_share(
                payout,
            )) as u64,
            amount_rewarded_recipient: (pre.stats.amount_rewarded_recipient + recipient_share(
                payout,
            )) as u64,
        },
        treasury: pre.treasury.with_amount(pre.treasury.amount - payout),
        authority: pre.authority,
    }
}

/// Whether settling `amt` is refused before anything is derived or moved:
/// for the amount, the fee, an asset, the payer or the source's balance.
pub open spec fn refused_early(pre: TransferUSDC, amt: u64) -> bool {
    ||| amt == 0
    ||| amt <= fee_of(amt, pre.network_config.merchant_tx_fee_basis_points)
    ||| !mints_match(pre)
    ||| pre.source.owner@ != pre.owner@
    ||| pre.source.amount < amt
}

/// Whether every balance and total that settling `amt` raises still fits
/// its 64 bits. Nothing is asked where the settlement is refused early.
pub open spec fn has_room(pre: TransferUSDC, amt: u64) -> bool {
    let fee = fee_of(amt, pre.network_config.merchant_tx_fee_basis_points);
    let payout = payout_of(pre, amt);
    !refused_early(pre, amt) ==> {
        &&& pre.stats.amount_moved + amt <= u64::MAX
        &&& pre.pool_account.amount + fee <= u64::MAX
        &&& pre.destination.amount + amt - fee <= u64::MAX
        &&& pre.source_token_account.amount + sender_share(payout) <= u64::MAX
        &&& pre.destination_token_account.amount + recipient_share(payout) <= u64::MAX
        &&& pre.stats.amount_rewarded_sender + sender_share(payout) <= u64::MAX
        &&& pre.stats.amount_rewarded_recipient + recipient_share(payout) <= u64::MAX
    }
}

/// What a settlement leaves behind and returns: on a refusal everything as
/// it was, else the settled accounts.
pub open spec fn transact_post(
    pre: TransferUSDC,
    post: TransferUSDC,
    r: Result<(), ErrorCode>,
    signer: Option<(Seq<u8>, u8)>,
    amt: u64,
) -> bool {
    match transact_error(pre, signer, amt) {
        Some(e) => r == Err::<(), ErrorCode>(e) && post == pre,
        None => r is Ok && post == settled(pre, amt),
    }
}

/// The fee on `amt`, where it leaves something of the amount; `None` where
/// the amount is zero or the fee takes all of it.
pub fn fee_amount(amt: u64, basis_points: u64) -> (fee: Option<u64>)
    ensures
        fee_of(amt, basis_points) < amt ==> fee == Some(fee_of(amt, basis_points) as u64),
        fee_of(amt, basis_points) >= amt ==> fee is None,
{
    assert(amt as nat * basis_points as nat <= u64::MAX as nat * u64::MAX as nat)
        by (nonlinear_arith)
        requires
            amt as nat <= u64::MAX as nat,
            basis_points as nat <= u64::MAX as nat,
    ;
    let product: u128 = (amt as u128) * (basis_points as u128);
    let fee: u128 = product / (BASIS_PTS_PRECISION as u128);
    if fee < amt as u128 {
        Some(fee as u64)
    } else {
        None
    }
}

/// The reward budget at `volume`, cut down to what the treasury holds.
pub fn reward_payout(volume: u64, treasury_balance: u64) -> (payout: u64)
    ensures
        payout as nat == clamped_reward(volume as nat, treasury_balance as nat),
        payout <= treasury_balance,
        payout <= INITIAL_REWARD,
{
    let reward_amt = get_reward_rate(volume);
    if reward_amt > treasury_balance {
        treasury_balance
    } else {
        reward_amt
    }
}

/// Whether `ctx` has room for settling `amt`.
pub fn within_limits(ctx: &TransferUSDC, amt: u64) -> (r: bool)
    ensures
        r == has_room(*ctx, amt),
{
    let fee_amt = match fee_amount(amt, ctx.network_config.merchant_tx_fee_basis_points) {
        Some(fee_amt) => fee_amt,
        None => {
            return true;
        },
    };
    if !check_mints(ctx) || !ctx.source.owner.same(&ctx.owner) || ctx.source.amount < amt {
        return true;
    }
    if ctx.stats.amount_moved > u64::MAX - amt {
        return false;
    }
    let reward_amt = if fee_amt == 0 {
        0
    } else {
        reward_payout(ctx.stats.amount_moved + amt, ctx.treasury.amount)
    };
    let sender_reward = reward_amt / 2;
    let recipient_reward = reward_amt - sender_reward;
    ctx.pool_account.amount <= u64::MAX - fee_amt && ctx.destination.amount <= u64::MAX - (amt
        - fee_amt) && ctx.source_token_account.amount <= u64::MAX - sender_reward
        && ctx.destination_token_account.amount <= u64::MAX - recipient_reward
        && ctx.stats.amount_rewarded_sender <= u64::MAX - sender_reward
        && ctx.stats.amount_rewarded_recipient <= u64::MAX - recipient_reward
}

/// Whether every account of `ctx` holds the asset that the configuration
/// names for it.
fn check_mints(ctx: &TransferUSDC) -> (r: bool)
    ensures
        r == mints_match(*ctx),
{
    let stable = ctx.network_config.usdc_mint;
    let reward = ctx.network_config.shekel_token_mint;
    ctx.source.mint.same(&stable) && ctx.destination.mint.same(&stable)
        && ctx.pool_account.mint.same(&stable) && ctx.source_token_account.mint.same(&reward)
        && ctx.destination_token_account.mint.same(&reward) && ctx.treasury.mint.same(&reward)
}

/// Whether the engine's own authority may pay out of the treasury of `ctx`.
fn check_treasury_signed(ctx: &TransferUSDC, signer: &Option<(Address, u8)>) -> (r: bool)
    ensures
        r == treasury_signed(*ctx, view_signer(*signer)),
{
    let signed = match signer {
        Some(found) => found.0.same(&ctx.authority.key),
        None => false,
    };
    signed && ctx.treasury.owner.same(&ctx.authority.key)
}

/// Settles `amt`, where `signer` is the signing address that was derived
/// for the engine. A refusal leaves every account as it was.
pub fn transact_with(ctx: &mut TransferUSDC, signer: &Option<(Address, u8)>, amt: u64) -> (r: Result<
    (),
    ErrorCode,
>)
    requires
        has_room(*old(ctx), amt),
    ensures
        transact_post(*old(ctx), *final(ctx), r, view_signer(*signer), amt),
{
    if amt == 0 {
        return Err(ErrorCode::ZeroAmt);
    }
    let fee_amt = match fee_amount(amt, ctx.network_config.merchant_tx_fee_basis_points) {
        Some(fee_amt) => fee_amt,
        None => {
            return Err(ErrorCode::FeeGreaterThanAmt);
        },
    };
    if !check_mints(ctx) {
        return Err(ErrorCode::AssetMismatch);
    }
    if !ctx.source.owner.same(&ctx.owner) {
        return Err(ErrorCode::Unauthorized);
    }
    if ctx.source.amount < amt {
        return Err(ErrorCode::InsufficientFunds);
    }
    // Since a fee is paid, reward with tokens, as far as the treasury has any.
    let reward_amt = if fee_amt == 0 {
        0
    } else {
        reward_payout(ctx.stats.amount_moved + amt, ctx.treasury.amount)
    };
    if reward_amt > 0 && !check_treasury_signed(ctx, signer) {
        return Err(ErrorCode::Unauthorized);
    }
    let payer = ctx.owner;
    let authority = ctx.authority;

    // Send the fee to the pool.
    match transfer_usdc(&mut ctx.source, &mut ctx.pool_account, &payer, fee_amt) {
        Ok(_) => {},
        Err(e) => {
            return Err(e);
        },
    }
    // Move the rest to the destination.
    match transfer_usdc(&mut ctx.source, &mut ctx.destination, &payer, amt - fee_amt) {
        Ok(_) => {},
        Err(e) => {
            return Err(e);
        },
    }
    ctx.stats.amount_moved = ctx.stats.amount_moved + amt;

    if reward_amt == 0 {
        return Ok(());
    }
    // Reward the sender.
    let sender_reward = reward_amt / 2;
    match reward_tokens_with(
        &mut ctx.source_token_account,
        &mut ctx.treasury,
        &authority,
        signer,
        sender_reward,
    ) {
        Ok(_) => {},
        Err(e) => {
            return Err(e);
        },
    }
    // Reward the recipient.
    let recipient_reward = reward_amt - sender_reward;
    match reward_tokens_with(
        &mut ctx.destination_token_account,
        &mut ctx.treasury,
        &authority,
        signer,
        recipient_reward,
    ) {
        Ok(_) => {},
        Err(e) => {
            return Err(e);
        },
    }
    ctx.stats.amount_rewarded_sender = ctx.stats.amount_rewarded_sender + sender_reward;
    ctx.stats.amount_rewarded_recipient = ctx.stats.amount_rewarded_recipient + recipient_reward;
    Ok(())
}

/// Settles `amt` under the engine's own signing authority, which is
/// derived anew from its tag. A refusal leaves every account as it was.
pub fn transact(ctx: &mut TransferUSDC, amt: u64) -> (r: Result<(), ErrorCode>)
    requires
        has_room(*old(ctx), amt),
    ensures
        transact_post(*old(ctx), *final(ctx), r, signing_authority_spec(), amt),
{
    let signer = signing_authority();
    transact_with(ctx, &signer, amt)
}

/// The two shares of a reward make up the whole, and the recipient's is the
/// sender's or one more.
pub proof fn lemma_reward_split(payout: nat)
    ensures
        sender_share(payout) + recipient_share(payout) == payout,
        recipient_share(payout) == sender_share(payout) || recipient_share(payout)
            == sender_share(payout) + 1,
{
}

/// A settlement that takes a fee pays the two parties, out of the treasury,
/// the clamped reward budget at the volume that includes it, split so that
/// the recipient gets what the sender gets or one more.
pub proof fn lemma_settlement_reward(pre: TransferUSDC, signer: Option<(Seq<u8>, u8)>, amt: u64)
    requires
        has_room(pre, amt),
        transact_error(pre, signer, amt) is None,
        fee_of(amt, pre.network_config.merchant_tx_fee_basis_points) > 0,
    ensures
        ({
            let post = settled(pre, amt);
            let sender = post.source_token_account.amount - pre.source_token_account.amount;
            let recipient = post.destination_token_account.amount
                - pre.destination_token_account.amount;
            &&& sender + recipient == clamped_reward(
                (pre.stats.amount_moved + amt) as nat,
                pre.treasury.amount as nat,
            )
            &&& recipient - sender == 0 || recipient - sender == 1
            &&& pre.treasury.amount - post.treasury.amount == sender + recipient
            &&& post.stats.amount_rewarded_sender - pre.stats.amount_rewarded_sender == sender
            &&& post.stats.amount_rewarded_recipient - pre.stats.amount_rewarded_recipient
                == recipient
        }),
{
}

/// Settling nothing is refused as a zero amount, whatever the accounts.
pub proof fn lemma_zero_amount_refused(pre: TransferUSDC, signer: Option<(Seq<u8>, u8)>)
    ensures
        transact_error(pre, signer, 0) == Some(ErrorCode::ZeroAmt),
{
}

/// Where the fee takes the whole amount or more, the settlement is refused
/// for that, whatever the accounts.
pub proof fn lemma_full_fee_refused(pre: TransferUSDC, signer: Option<(Seq<u8>, u8)>, amt: u64)
    requires
        amt > 0,
        fee_of(amt, pre.network_config.merchant_tx_fee_basis_points) >= amt,
    ensures
        transact_error(pre, signer, amt) == Some(ErrorCode::FeeGreaterThanAmt),
{
}

/// A fee rate of the whole amount or more always takes all of it.
pub proof fn lemma_rate_takes_all(amt: u64, basis_points: u64)
    requires
        basis_points >= BASIS_PTS_PRECISION,
    ensures
        fee_of(amt, basis_points) >= amt,
{
    assert(amt as nat * basis_points as nat >= amt as nat * 10000) by (nonlinear_arith)
        requires
            basis_points as nat >= 10000,
    ;
}

/// A settlement without a fee needs no signing authority, gives the whole
/// amount to the recipient, and pays and counts no reward.
pub proof fn lemma_no_fee_no_reward(pre: TransferUSDC, signer: Option<(Seq<u8>, u8)>, amt: u64)
    requires
        has_room(pre, amt),
        amt > 0,
        fee_of(amt, pre.network_config.merchant_tx_fee_basis_points) == 0,
        mints_match(pre),
        pre.source.owner@ == pre.owner@,
        pre.source.amount >= amt,
    ensures
        transact_error(pre, signer, amt) is None,
        settled(pre, amt).source.amount == pre.source.amount - amt,
        settled(pre, amt).destination.amount == pre.destination.amount + amt,
        settled(pre, amt).stats.amount_moved == pre.stats.amount_moved + amt,
        settled(pre, amt).pool_account == pre.pool_account,
        settled(pre, amt).treasury == pre.treasury,
        settled(pre, amt).source_token_account == pre.source_token_account,
        settled(pre, amt).destination_token_account == pre.destination_token_account,
        settled(pre, amt).stats.amount_rewarded_sender == pre.stats.amount_rewarded_sender,
        settled(pre, amt).stats.amount_rewarded_recipient == pre.stats.amount_rewarded_recipient,
{
}

/// A settlement neither makes nor loses funds: what leaves the source is
/// what the pool and the recipient gain, and what leaves the treasury is
/// what the two parties gain and what the reward totals count.
pub proof fn lemma_settlement_conserves(pre: TransferUSDC, signer: Option<(Seq<u8>, u8)>, amt: u64)
    requires
        has_room(pre, amt),
        transact_error(pre, signer, amt) is None,
    ensures
        ({
            let post = settled(pre, amt);
            let sender = post.source_token_account.amount - pre.source_token_account.amount;
            let recipient = post.destination_token_account.amount
                - pre.destination_token_account.amount;
            &&& pre.source.amount - post.source.amount == amt
            &&& (post.pool_account.amount - pre.pool_account.amount) + (post.destination.amount
                - pre.destination.amount) == amt
            &&& post.pool_account.amount - pre.pool_account.amount == fee_of(
                amt,
                pre.network_config.merchant_tx_fee_basis_points,
            )
            &&& pre.treasury.amount - post.treasury.amount == sender + recipient
            &&& post.stats.amount_rewarded_sender - pre.stats.amount_rewarded_sender == sender
            &&& post.stats.amount_rewarded_recipient - pre.stats.amount_rewarded_recipient
                == recipient
            &&& post.stats.amount_moved - pre.stats.amount_moved == amt
        }),
{
}

/// A settlement never lowers a running total.
pub proof fn lemma_totals_grow(pre: TransferUSDC, amt: u64)
    requires
        has_room(pre, amt),
        !refused_early(pre, amt),
    ensures
        settled(pre, amt).stats.amount_moved >= pre.stats.amount_moved,
        settled(pre, amt).stats.amount_rewarded_sender >= pre.stats.amount_rewarded_sender,
        settled(pre, amt).stats.amount_rewarded_recipient >= pre.stats.amount_rewarded_recipient,
{
}

} // verus!
