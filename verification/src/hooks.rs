//! Notification points of the staking rounds. Another module may hook into
//! them; the weight it reports is what its work has cost.

use vstd::prelude::*;
use crate::weight::Weight;

verus! {

/// The number of a staking round.
pub type RoundIndex = u32;

/// Told whenever a collator is paid for a round.
pub trait OnCollatorPayout<AccountId, Balance> {
    /// Called with the round paid for, the collator and the amount; returns
    /// the weight consumed.
    fn on_collator_payout(for_round: RoundIndex, collator_id: AccountId, amount: Balance) -> Weight;
}

/// Nobody listens: nothing is done, at no cost.
impl<AccountId, Balance> OnCollatorPayout<AccountId, Balance> for () {
    fn on_collator_payout(_for_round: RoundIndex, _collator_id: AccountId, _amount: Balance) -> (w:
        Weight)
        ensures
            w == Weight::spec_zero(),
    {
        Weight::zero()
    }
}

/// Told whenever a new round begins.
pub trait OnNewRound {
    /// Called with the number of the round that begins; returns the weight
    /// consumed.
    fn on_new_round(round_index: RoundIndex) -> Weight;
}

/// Nobody listens: nothing is done, at no cost.
impl OnNewRound for () {
    fn on_new_round(_round_index: RoundIndex) -> (w: Weight)
        ensures
            w == Weight::spec_zero(),
    {
        Weight::zero()
    }
}

} // verus!
