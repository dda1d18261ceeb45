//! What only the operator may do: set the network's parameters, and take
//! funds out of the pool or the treasury.

use vstd::prelude::*;
use crate::accounts::{
    ErrorCode, Init, NetworkConfig, SetNetworkConfig, Stats, TransferPool, TransferTreasury,
};
use crate::keys::{
    operator, operator_spec, signing_authority, signing_authority_spec, view_address,
    view_signer, Address,
};
use crate::mover::{
    credit_fits, delegated_error, move_error, reward_tokens_with, transfer_usdc,
};

verus! {

/// Whether `signer` is the operator.
pub open spec fn authorized(operator: Option<Seq<u8>>, signer: Seq<u8>) -> bool {
    operator == Some(signer)
}

/// Lets the operator through and nobody else.
pub fn authorize(operator: &Option<Address>, signer: &Address) -> (r: Result<(), ErrorCode>)
    ensures
        authorized(view_address(*operator), signer@) ==> r is Ok,
        !authorized(view_address(*operator), signer@) ==> r == Err::<(), ErrorCode>(
            ErrorCode::Unauthorized,
        ),
{
    let known = match operator {
        Some(known) => known.same(signer),
        None => false,
    };
    if known {
        Ok(())
    } else {
        Err(ErrorCode::Unauthorized)
    }
}

/// The configuration that names the two assets and the two fee rates.
pub open spec fn config_of(
    usdc_mint: Address,
    shekel_token_mint: Address,
    merchant_tx_fee_basis_points: u64,
    purchase_protection_fee_basis_points: u64,
) -> NetworkConfig {
    NetworkConfig {
        merchant_tx_fee_basis_points,
        purchase_protection_fee_basis_points,
        usdc_mint,
        shekel_token_mint,
    }
}

/// Whether no settlement has been counted yet: all three running totals
/// are zero, as they are when the record is created.
pub open spec fn fresh(stats: Stats) -> bool {
    stats.amount_moved == 0 && stats.amount_rewarded_sender == 0
        && stats.amount_rewarded_recipient == 0
}

/// The accounts after the first configuration: all four parameters are
/// overwritten. The running totals are left as they are handed in: they
/// are zero when their record is created, and nothing ever resets them.
pub open spec fn initialized(pre: Init, merchant: u64, protection: u64) -> Init {
    Init {
        network_config: config_of(pre.usdc_mint, pre.shekel_token_mint, merchant, protection),
        payer: pre.payer,
        stats: pre.stats,
        shekel_token_mint: pre.shekel_token_mint,
        usdc_mint: pre.usdc_mint,
    }
}

/// The accounts after a later configuration: all four parameters are
/// overwritten.
pub open spec fn reconfigured(pre: SetNetworkConfig, merchant: u64, protection: u64) -> SetNetworkConfig {
    SetNetworkConfig {
        network_config: config_of(pre.usdc_mint, pre.shekel_token_mint, merchant, protection),
        shekel_token_mint: pre.shekel_token_mint,
        usdc_mint: pre.usdc_mint,
        signer: pre.signer,
    }
}

/// What the first configuration leaves behind and returns.
pub open spec fn init_post(
    pre: Init,
    post: Init,
    r: Result<(), ErrorCode>,
    operator: Option<Seq<u8>>,
    merchant: u64,
    protection: u64,
) -> bool {
    if authorized(operator, pre.payer@) {
        r is Ok && post == initialized(pre, merchant, protection)
    } else {
        r == Err::<(), ErrorCode>(ErrorCode::Unauthorized) && post == pre
    }
}

/// What a later configuration leaves behind and returns.
pub open spec fn set_network_config_post(
    pre: SetNetworkConfig,
    post: SetNetworkConfig,
    r: Result<(), ErrorCode>,
    operator: Option<Seq<u8>>,
    merchant: u64,
    protection: u64,
) -> bool {
    if authorized(operator, pre.signer@) {
        r is Ok && post == reconfigured(pre, merchant, protection)
    } else {
        r == Err::<(), ErrorCode>(ErrorCode::Unauthorized) && post == pre
    }
}

/// Sets the network's parameters for the first time, where `operator` is
/// the operator's address. The running totals are not touched: a freshly
/// created ledger stays at zero, and one that has advanced is never reset.
pub fn init_with(
    ctx: &mut Init,
    operator: &Option<Address>,
    merchant_tx_fee_basis_points: u64,
    purchase_protection_fee_basis_points: u64,
) -> (r: Result<(), ErrorCode>)
    ensures
        init_post(
            *old(ctx),
            *final(ctx),
            r,
            view_address(*operator),
            merchant_tx_fee_basis_points,
            purchase_protection_fee_basis_points,
        ),
{
    match authorize(operator, &ctx.payer) {
        Ok(_) => {},
        Err(e) => {
            return Err(e);
        },
    }
    ctx.network_config.shekel_token_mint = ctx.shekel_token_mint;
    ctx.network_config.usdc_mint = ctx.usdc_mint;
    ctx.network_config.merchant_tx_fee_basis_points = merchant_tx_fee_basis_points;
    ctx.network_config.purchase_protection_fee_basis_points = purchase_protection_fee_basis_points;
    Ok(())
}

/// Sets the network's parameters for the first time. Only the operator
/// may. The running totals are not touched: a freshly created ledger stays
/// at zero, and one that has advanced is never reset.
pub fn init(
    ctx: &mut Init,
    merchant_tx_fee_basis_points: u64,
    purchase_protection_fee_basis_points: u64,
) -> (r: Result<(), ErrorCode>)
    ensures
        init_post(
            *old(ctx),
            *final(ctx),
            r,
            operator_spec(),
            merchant_tx_fee_basis_points,
            purchase_protection_fee_basis_points,
        ),
{
    let known = operator();
    init_with(ctx, &known, merchant_tx_fee_basis_points, purchase_protection_fee_basis_points)
}

/// Overwrites the network's parameters, where `operator` is the operator's
/// address.
pub fn set_network_config_with(
    ctx: &mut SetNetworkConfig,
    operator: &Option<Address>,
    merchant_tx_fee_basis_points: u64,
    purchase_protection_fee_basis_points: u64,
) -> (r: Result<(), ErrorCode>)
    ensures
        set_network_config_post(
            *old(ctx),
            *final(ctx),
            r,
            view_address(*operator),
            merchant_tx_fee_basis_points,
            purchase_protection_fee_basis_points,
        ),
{
    match authorize(operator, &ctx.signer) {
        Ok(_) => {},
        Err(e) => {
            return Err(e);
        },
    }
    ctx.network_config.shekel_token_mint = ctx.shekel_token_mint;
    ctx.network_config.usdc_mint = ctx.usdc_mint;
    ctx.network_config.merchant_tx_fee_basis_points = merchant_tx_fee_basis_points;
    ctx.network_config.purchase_protection_fee_basis_points = purchase_protection_fee_basis_points;
    Ok(())
}

/// Overwrites the network's parameters. Only the operator may.
pub fn set_network_config(
    ctx: &mut SetNetworkConfig,
    merchant_tx_fee_basis_points: u64,
    purchase_protection_fee_basis_points: u64,
) -> (r: Result<(), ErrorCode>)
    ensures
        set_network_config_post(
            *old(ctx),
            *final(ctx),
            r,
            operator_spec(),
            merchant_tx_fee_basis_points,
            purchase_protection_fee_basis_points,
        ),
{
    let known = operator();
    set_network_config_with(
        ctx,
        &known,
        merchant_tx_fee_basis_points,
        purchase_protection_fee_basis_points,
    )
}

/// The first configuration never resets the ledger: whoever asks, and
/// whatever it returns, the running totals are afterwards what they were.
pub proof fn lemma_init_keeps_totals(
    pre: Init,
    post: Init,
    r: Result<(), ErrorCode>,
    operator: Option<Seq<u8>>,
    merchant: u64,
    protection: u64,
)
    requires
        init_post(pre, post, r, operator, merchant, protection),
    ensures
        post.stats == pre.stats,
        fresh(pre.stats) ==> fresh(post.stats),
        post.payer == pre.payer,
        post.usdc_mint == pre.usdc_mint,
        post.shekel_token_mint == pre.shekel_token_mint,
{
}

/// The first configuration by the operator on a freshly created ledger
/// succeeds, sets all four parameters and leaves the totals at zero.
pub proof fn lemma_init_fresh(
    pre: Init,
    post: Init,
    r: Result<(), ErrorCode>,
    operator: Option<Seq<u8>>,
    merchant: u64,
    protection: u64,
)
    requires
        init_post(pre, post, r, operator, merchant, protection),
        authorized(operator, pre.payer@),
        fresh(pre.stats),
    ensures
        r is Ok,
        post.network_config == config_of(pre.usdc_mint, pre.shekel_token_mint, merchant, protection),
        post.stats.amount_moved == 0,
        post.stats.amount_rewarded_sender == 0,
        post.stats.amount_rewarded_recipient == 0,
{
}

/// Configuring a second time with the same arguments changes nothing: the
/// second call leaves the accounts as the first left them, and succeeds
/// exactly if the first did.
pub proof fn lemma_reconfigure_twice(
    pre: SetNetworkConfig,
    once: SetNetworkConfig,
    twice: SetNetworkConfig,
    first: Result<(), ErrorCode>,
    second: Result<(), ErrorCode>,
    operator: Option<Seq<u8>>,
    merchant: u64,
    protection: u64,
)
    requires
        set_network_config_post(pre, once, first, operator, merchant, protection),
        set_network_config_post(once, twice, second, operator, merchant, protection),
    ensures
        twice == once,
        first is Ok <==> second is Ok,
        first is Err ==> second == first,
{
}

/// Why a withdrawal from the pool is refused, if it is: the signer must be
/// the operator, the destination must hold the stable asset, and the pool
/// must be owned by the authority record and hold the amount.
pub open spec fn pool_error(pre: TransferPool, operator: Option<Seq<u8>>, amt: u64) -> Option<ErrorCode> {
    if !authorized(operator, pre.signer@) {
        Some(ErrorCode::Unauthorized)
    } else if pre.destination.mint@ != pre.network_config.usdc_mint@ {
        Some(ErrorCode::AssetMismatch)
    } else {
        move_error(pre.pool_account, pre.authority.key@, amt)
    }
}

/// Why a withdrawal from the treasury is refused, if it is: the signer must
/// be the operator, the destination must hold the reward asset, and the
/// transfer must pass under the engine's own authority.
pub open spec fn treasury_error(
    pre: TransferTreasury,
    operator: Option<Seq<u8>>,
    signer: Option<(Seq<u8>, u8)>,
    amt: u64,
) -> Option<ErrorCode> {
    if !authorized(operator, pre.signer@) {
        Some(ErrorCode::Unauthorized)
    } else if pre.destination.mint@ != pre.network_config.shekel_token_mint@ {
        Some(ErrorCode::AssetMismatch)
    } else {
        delegated_error(pre.token_treasury, pre.authority.key@, signer, amt)
    }
}

/// What a withdrawal from the pool leaves behind and returns.
pub open spec fn transfer_pool_post(
    pre: TransferPool,
    post: TransferPool,
    r: Result<(), ErrorCode>,
    operator: Option<Seq<u8>>,
    amt: u64,
) -> bool {
    match pool_error(pre, operator, amt) {
        Some(e) => r == Err::<(), ErrorCode>(e) && post == pre,
        None => r is Ok && post == (TransferPool {
            pool_account: pre.pool_account.with_amount(pre.pool_account.amount - amt),
            destination: pre.destination.with_amount(pre.destination.amount + amt),
            network_config: pre.network_config,
            signer: pre.signer,
            authority: pre.authority,
        }),
    }
}

/// What a withdrawal from the treasury leaves behind and returns.
pub open spec fn transfer_treasury_post(
    pre: TransferTreasury,
    post: TransferTreasury,
    r: Result<(), ErrorCode>,
    operator: Option<Seq<u8>>,
    signer: Option<(Seq<u8>, u8)>,
    amt: u64,
) -> bool {
    match treasury_error(pre, operator, signer, amt) {
        Some(e) => r == Err::<(), ErrorCode>(e) && post == pre,
        None => r is Ok && post == (TransferTreasury {
            token_treasury: pre.token_treasury.with_amount(pre.token_treasury.amount - amt),
            destination: pre.destination.with_amount(pre.destination.amount + amt),
            network_config: pre.network_config,
            signer: pre.signer,
            authority: pre.authority,
        }),
    }
}

/// Takes `amt` out of the pool, where `operator` is the operator's address.
pub fn transfer_pool_with(ctx: &mut TransferPool, operator: &Option<Address>, amt: u64) -> (r: Result<
    (),
    ErrorCode,
>)
    requires
        credit_fits(old(ctx).pool_account, old(ctx).destination, old(ctx).authority.key@, amt),
    ensures
        transfer_pool_post(*old(ctx), *final(ctx), r, view_address(*operator), amt),
{
    match authorize(operator, &ctx.signer) {
        Ok(_) => {},
        Err(e) => {
            return Err(e);
        },
    }
    if !ctx.destination.mint.same(&ctx.network_config.usdc_mint) {
        return Err(ErrorCode::AssetMismatch);
    }
    let key = ctx.authority.key;
    transfer_usdc(&mut ctx.pool_account, &mut ctx.destination, &key, amt)
}

/// Takes `amt` out of the pool. Only the operator may.
pub fn transfer_pool(ctx: &mut TransferPool, amt: u64) -> (r: Result<(), ErrorCode>)
    requires
        credit_fits(old(ctx).pool_account, old(ctx).destination, old(ctx).authority.key@, amt),
    ensures
        transfer_pool_post(*old(ctx), *final(ctx), r, operator_spec(), amt),
{
    let known = operator();
    transfer_pool_with(ctx, &known, amt)
}

/// Takes `amt` out of the treasury, where `operator` is the operator's
/// address and `signer` the signing address derived for the engine.
pub fn transfer_treasury_with(
    ctx: &mut TransferTreasury,
    operator: &Option<Address>,
    signer: &Option<(Address, u8)>,
    amt: u64,
) -> (r: Result<(), ErrorCode>)
    requires
        credit_fits(old(ctx).token_treasury, old(ctx).destination, old(ctx).authority.key@, amt),
    ensures
        transfer_treasury_post(
            *old(ctx),
            *final(ctx),
            r,
            view_address(*operator),
            view_signer(*signer),
            amt,
        ),
{
    match authorize(operator, &ctx.signer) {
        Ok(_) => {},
        Err(e) => {
            return Err(e);
        },
    }
    if !ctx.destination.mint.same(&ctx.network_config.shekel_token_mint) {
        return Err(ErrorCode::AssetMismatch);
    }
    let authority = ctx.authority;
    reward_tokens_with(&mut ctx.destination, &mut ctx.token_treasury, &authority, signer, amt)
}

/// Takes `amt` out of the treasury. Only the operator may.
pub fn transfer_treasury(ctx: &mut TransferTreasury, amt: u64) -> (r: Result<(), ErrorCode>)
    requires
        credit_fits(old(ctx).token_treasury, old(ctx).destination, old(ctx).authority.key@, amt),
    ensures
        transfer_treasury_post(
            *old(ctx),
            *final(ctx),
            r,
            operator_spec(),
            signing_authority_spec(),
            amt,
        ),
{
    let known = operator();
    let signer = signing_authority();
    transfer_treasury_with(ctx, &known, &signer, amt)
}

} // verus!
