//! The reward curve: how much reward one settlement earns, as a function
//! of the volume that the network has settled so far.

use vstd::prelude::*;

verus! {

/// Denominator of a fee rate given in basis points.
pub const BASIS_PTS_PRECISION: u64 = 10000;

/// One whole reward token, in minor units.
pub const ONE_SHEKEL_TOKEN: u64 = 1000000;

/// Once this much has been settled, the reward stays at `TARGET_REWARD`.
pub const TARGET_MOVED_AMT: u64 = 1000000000;

/// The floor of the reward curve.
pub const TARGET_REWARD: u64 = 1;

/// The reward of the very first settlement.
pub const INITIAL_REWARD: u64 = ONE_SHEKEL_TOKEN;

/// The reward budget of a settlement that brings the settled volume to
/// `volume`: `INITIAL_REWARD` less a drop that grows in proportion to the
/// volume and is rounded down, until the volume reaches `TARGET_MOVED_AMT`;
/// from there on `TARGET_REWARD`.
pub open spec fn reward_at(volume: nat) -> nat {
    if volume >= TARGET_MOVED_AMT as nat {
        TARGET_REWARD as nat
    } else {
        (INITIAL_REWARD as int - ((INITIAL_REWARD as int - TARGET_REWARD as int) * (volume as int))
            / (TARGET_MOVED_AMT as int)) as nat
    }
}

/// The reward budget at a cumulative settled volume.
pub fn get_reward_rate(transferred_amt: u64) -> (rate: u64)
    ensures
        rate as nat == reward_at(transferred_amt as nat),
        TARGET_REWARD <= rate <= INITIAL_REWARD,
{
    if transferred_amt >= TARGET_MOVED_AMT {
        TARGET_REWARD
    } else {
        let span: u128 = (INITIAL_REWARD - TARGET_REWARD) as u128;
        let drop: u128 = span * (transferred_amt as u128) / (TARGET_MOVED_AMT as u128);
        INITIAL_REWARD - (drop as u64)
    }
}

/// The curve starts at `INITIAL_REWARD`.
pub proof fn lemma_reward_at_start()
    ensures
        reward_at(0) == INITIAL_REWARD as nat,
{
}

/// From `TARGET_MOVED_AMT` on the curve is flat at `TARGET_REWARD`.
pub proof fn lemma_reward_at_target(volume: nat)
    requires
        volume >= TARGET_MOVED_AMT as nat,
    ensures
        reward_at(volume) == TARGET_REWARD as nat,
{
}

/// The curve never rises: more settled volume never earns a larger reward.
pub proof fn lemma_reward_monotone(lower: nat, higher: nat)
    requires
        lower <= higher,
    ensures
        reward_at(higher) <= reward_at(lower),
{
}

/// The curve stays between its floor and its starting value.
pub proof fn lemma_reward_bounds(volume: nat)
    ensures
        TARGET_REWARD as nat <= reward_at(volume) <= INITIAL_REWARD as nat,
{
}

} // verus!
