//! The asset mover: one transfer of an amount from one account to
//! another, either signed by the holder or by the engine's own authority.

use vstd::prelude::*;
use crate::accounts::{Authority, ErrorCode, TokenAccount};
use crate::keys::{signing_authority, signing_authority_spec, view_signer, Address};

verus! {

/// Why a transfer of `amt` out of `source`, signed by `authority`, is
/// refused, if it is: the signer must be the account's owner, and the
/// account must hold the amount.
pub open spec fn move_error(source: TokenAccount, authority: Seq<u8>, amt: u64) -> Option<ErrorCode> {
    if source.owner@ != authority {
        Some(ErrorCode::Unauthorized)
    } else if source.amount < amt {
        Some(ErrorCode::InsufficientFunds)
    } else {
        None
    }
}

/// Why a transfer of `amt` out of `treasury` under the engine's own
/// authority is refused, if it is: the authority record must live at the
/// derived signing address, and then the rules of a signed transfer hold.
pub open spec fn delegated_error(
    treasury: TokenAccount,
    authority: Seq<u8>,
    signer: Option<(Seq<u8>, u8)>,
    amt: u64,
) -> Option<ErrorCode> {
    if !signs_for(signer, authority) {
        Some(ErrorCode::Unauthorized)
    } else {
        move_error(treasury, authority, amt)
    }
}

/// Whether the derived signing address is the one of the authority record.
pub open spec fn signs_for(signer: Option<(Seq<u8>, u8)>, authority: Seq<u8>) -> bool {
    match signer {
        Some(found) => found.0 == authority,
        None => false,
    }
}

/// Whether the receiving balance still fits its 64 bits after `amt` is
/// added. Nothing is asked where the owner or the source's balance already
/// refuses the transfer.
pub open spec fn credit_fits(
    source: TokenAccount,
    destination: TokenAccount,
    authority: Seq<u8>,
    amt: u64,
) -> bool {
    move_error(source, authority, amt) is None ==> destination.amount + amt <= u64::MAX
}

/// What a transfer leaves behind: on a refusal both accounts as they were,
/// else `amt` taken from the one and given to the other.
pub open spec fn move_post(
    error: Option<ErrorCode>,
    from_pre: TokenAccount,
    to_pre: TokenAccount,
    from_post: TokenAccount,
    to_post: TokenAccount,
    amt: u64,
    r: Result<(), ErrorCode>,
) -> bool {
    match error {
        Some(e) => r == Err::<(), ErrorCode>(e) && from_post == from_pre && to_post == to_pre,
        None => r is Ok && from_post == from_pre.with_amount(from_pre.amount - amt)
            && to_post == to_pre.with_amount(to_pre.amount + amt),
    }
}

/// Moves `amt` from `source` to `destination`, signed by `authority`.
pub fn transfer_usdc(
    source: &mut TokenAccount,
    destination: &mut TokenAccount,
    authority: &Address,
    amt: u64,
) -> (r: Result<(), ErrorCode>)
    requires
        credit_fits(*old(source), *old(destination), authority@, amt),
    ensures
        move_post(
            move_error(*old(source), authority@, amt),
            *old(source),
            *old(destination),
            *final(source),
            *final(destination),
            amt,
            r,
        ),
{
    if !source.owner.same(authority) {
        return Err(ErrorCode::Unauthorized);
    }
    if source.amount < amt {
        return Err(ErrorCode::InsufficientFunds);
    }
    source.amount = source.amount - amt;
    destination.amount = destination.amount + amt;
    Ok(())
}

/// Moves `amt` from `treasury` to `destination` under the engine's own
/// authority, where `signer` is the signing address that was derived for
/// the engine.
pub fn reward_tokens_with(
    destination: &mut TokenAccount,
    treasury: &mut TokenAccount,
    authority: &Authority,
    signer: &Option<(Address, u8)>,
    amt: u64,
) -> (r: Result<(), ErrorCode>)
    requires
        credit_fits(*old(treasury), *old(destination), authority.key@, amt),
    ensures
        move_post(
            delegated_error(*old(treasury), authority.key@, view_signer(*signer), amt),
            *old(treasury),
            *old(destination),
            *final(treasury),
            *final(destination),
            amt,
            r,
        ),
{
    let signed = match signer {
        Some(found) => found.0.same(&authority.key),
        None => false,
    };
    if !signed {
        return Err(ErrorCode::Unauthorized);
    }
    transfer_usdc(treasury, destination, &authority.key, amt)
}

/// Moves `amt` from `treasury` to `destination` under the engine's own
/// authority, which is derived anew from its tag.
pub fn reward_tokens(
    destination: &mut TokenAccount,
    treasury: &mut TokenAccount,
    authority: &Authority,
    amt: u64,
) -> (r: Result<(), ErrorCode>)
    requires
        credit_fits(*old(treasury), *old(destination), authority.key@, amt),
    ensures
        move_post(
            delegated_error(*old(treasury), authority.key@, signing_authority_spec(), amt),
            *old(treasury),
            *old(destination),
            *final(treasury),
            *final(destination),
            amt,
            r,
        ),
{
    let signer = signing_authority();
    reward_tokens_with(destination, treasury, authority, &signer, amt)
}

} // verus!
