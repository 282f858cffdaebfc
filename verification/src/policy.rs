//! The fixed configuration of an estimator: policy limits and the table of
//! measured base weights.

use vstd::prelude::*;
use crate::weight::Weight;

verus! {

/// The number of assets that an unbounded wildcard is charged for.
pub const MAX_ASSETS: u64 = 100;

/// Computation time of the provisional fixed weights, used until the
/// accounting of deposits is measured accurately.
pub const HARDCODED_REF_TIME: u64 = 1_000_000_000;

/// Limits that bound what a wildcard may denote, and the provisional fixed
/// weights. They are set once per deployment and only read afterwards.
#[derive(Clone, Copy, Debug)]
pub struct Policy {
    /// Cap on the multiplicity of `All` and of every counted wildcard.
    pub max_assets: u64,
    /// The most assets the holding register may contain.
    pub holding_capacity: u32,
    /// Fixed weight of a reserve deposit, for which no reserve is trusted.
    pub reserve_asset_deposited: Weight,
    /// Ceiling on the weight of an asset deposit.
    pub deposit_asset_ceiling: Weight,
}

impl Policy {
    /// The weight both provisional overrides start out with.
    pub open spec fn spec_hardcoded() -> Weight {
        Weight { ref_time: HARDCODED_REF_TIME, proof_size: 0 }
    }

    /// The standard policy for a holding register of the given capacity:
    /// wildcards capped at [`MAX_ASSETS`], both overrides at the provisional
    /// fixed weight.
    pub fn new(holding_capacity: u32) -> (p: Policy)
        ensures
            p == (Policy {
                max_assets: MAX_ASSETS,
                holding_capacity,
                reserve_asset_deposited: Policy::spec_hardcoded(),
                deposit_asset_ceiling: Policy::spec_hardcoded(),
            }),
    {
        Policy {
            max_assets: MAX_ASSETS,
            holding_capacity,
            reserve_asset_deposited: Weight::from_parts(HARDCODED_REF_TIME, 0),
            deposit_asset_ceiling: Weight::from_parts(HARDCODED_REF_TIME, 0),
        }
    }

    /// Twice the holding capacity: the worst case for a wildcard over
    /// non-fungible assets, each slot of the register being touched at most
    /// twice.
    pub open spec fn spec_non_fungible_bound(self) -> u64 {
        (2 * self.holding_capacity) as u64
    }

    /// The multiplicity a wildcard with a declared count resolves to: the
    /// count, but no more than the cap.
    pub open spec fn spec_counted(self, count: u32) -> u64 {
        if self.max_assets <= count {
            self.max_assets
        } else {
            count as u64
        }
    }

    /// Twice the holding capacity.
    pub fn non_fungible_bound(&self) -> (m: u64)
        ensures
            m == self.spec_non_fungible_bound(),
            m == 2 * self.holding_capacity,
    {
        let capacity: u64 = self.holding_capacity as u64;
        capacity * 2
    }

    /// The declared count, capped at `max_assets`.
    pub fn counted(&self, count: u32) -> (m: u64)
        ensures
            m == self.spec_counted(count),
            m <= self.max_assets,
            m <= count,
    {
        let declared: u64 = count as u64;
        if self.max_assets <= declared {
            self.max_assets
        } else {
            declared
        }
    }
}

/// Measured base weights of the instructions that move fungible assets.
#[derive(Clone, Copy, Debug)]
pub struct XcmFungibleWeight {
    pub withdraw_asset: Weight,
    pub transfer_asset: Weight,
    pub transfer_reserve_asset: Weight,
    pub receive_teleported_asset: Weight,
    pub deposit_asset: Weight,
    pub deposit_reserve_asset: Weight,
    pub initiate_teleport: Weight,
}

/// Measured base weights of the remaining instructions.
#[derive(Clone, Copy, Debug)]
pub struct XcmGeneric {
    pub query_response: Weight,
    pub transact: Weight,
    pub clear_origin: Weight,
    pub descend_origin: Weight,
    pub report_error: Weight,
    pub initiate_reserve_withdraw: Weight,
    pub report_holding: Weight,
    pub buy_execution: Weight,
    pub refund_surplus: Weight,
    pub set_error_handler: Weight,
    pub set_appendix: Weight,
    pub clear_error: Weight,
    pub claim_asset: Weight,
    pub trap: Weight,
    pub subscribe_version: Weight,
    pub unsubscribe_version: Weight,
    pub burn_asset: Weight,
    pub expect_asset: Weight,
    pub expect_origin: Weight,
    pub expect_error: Weight,
    pub expect_transact_status: Weight,
    pub query_pallet: Weight,
    pub expect_pallet: Weight,
    pub report_transact_status: Weight,
    pub clear_transact_status: Weight,
    pub set_fees_mode: Weight,
    pub set_topic: Weight,
    pub clear_topic: Weight,
    pub unpaid_execution: Weight,
}

} // verus!
