//! The estimator: one weight for each instruction, decided in one place.
//!
//! An estimator holds its configuration and nothing else. Every estimate is
//! a function of the instruction and that configuration; nothing is kept
//! between calls.

use vstd::prelude::*;
use crate::assets::{Encoded, MultiAsset, MultiAssetFilter, MultiAssets};
use crate::instruction::{Instruction, OriginKind, Pricing, WeightLimit};
use crate::policy::{Policy, XcmFungibleWeight, XcmGeneric};
use crate::weight::{Weight, lemma_sat_mul_exact};

verus! {

/// Estimates the weight of instructions from a policy and two tables of
/// measured base weights.
#[derive(Clone, Copy, Debug)]
pub struct MantaXcmWeight {
    pub policy: Policy,
    pub fungible: XcmFungibleWeight,
    pub generic: XcmGeneric,
}

impl MantaXcmWeight {
    /// The measured base weight of the instruction's kind, where its kind
    /// has one: an instruction that is unsupported or priced by the reserve
    /// override has none.
    pub open spec fn spec_base_weight(self, instruction: Instruction) -> Option<Weight> {
        match instruction {
            Instruction::WithdrawAsset(..) => Some(self.fungible.withdraw_asset),
            Instruction::ReserveAssetDeposited(..) => None,
            Instruction::ReceiveTeleportedAsset(..) => Some(self.fungible.receive_teleported_asset),
            Instruction::QueryResponse { .. } => Some(self.generic.query_response),
            Instruction::TransferAsset { .. } => Some(self.fungible.transfer_asset),
            Instruction::TransferReserveAsset { .. } => Some(self.fungible.transfer_reserve_asset),
            Instruction::Transact { .. } => Some(self.generic.transact),
            Instruction::HrmpNewChannelOpenRequest { .. } => None,
            Instruction::HrmpChannelAccepted { .. } => None,
            Instruction::HrmpChannelClosing { .. } => None,
            Instruction::ClearOrigin => Some(self.generic.clear_origin),
            Instruction::DescendOrigin(..) => Some(self.generic.descend_origin),
            Instruction::ReportError(..) => Some(self.generic.report_error),
            Instruction::DepositAsset { .. } => Some(self.fungible.deposit_asset),
            Instruction::DepositReserveAsset { .. } => Some(self.fungible.deposit_reserve_asset),
            Instruction::ExchangeAsset { .. } => None,
            Instruction::InitiateReserveWithdraw { .. } => Some(
                self.generic.initiate_reserve_withdraw,
            ),
            Instruction::InitiateTeleport { .. } => Some(self.fungible.initiate_teleport),
            Instruction::ReportHolding { .. } => Some(self.generic.report_holding),
            Instruction::BuyExecution { .. } => Some(self.generic.buy_execution),
            Instruction::RefundSurplus => Some(self.generic.refund_surplus),
            Instruction::SetErrorHandler(..) => Some(self.generic.set_error_handler),
            Instruction::SetAppendix(..) => Some(self.generic.set_appendix),
            Instruction::ClearError => Some(self.generic.clear_error),
            Instruction::ClaimAsset { .. } => Some(self.generic.claim_asset),
            Instruction::Trap(..) => Some(self.generic.trap),
            Instruction::SubscribeVersion { .. } => Some(self.generic.subscribe_version),
            Instruction::UnsubscribeVersion => Some(self.generic.unsubscribe_version),
            Instruction::BurnAsset(..) => Some(self.generic.burn_asset),
            Instruction::ExpectAsset(..) => Some(self.generic.expect_asset),
            Instruction::ExpectOrigin(..) => Some(self.generic.expect_origin),
            Instruction::ExpectError(..) => Some(self.generic.expect_error),
            Instruction::ExpectTransactStatus(..) => Some(self.generic.expect_transact_status),
            Instruction::QueryPallet { .. } => Some(self.generic.query_pallet),
            Instruction::ExpectPallet { .. } => Some(self.generic.expect_pallet),
            Instruction::ReportTransactStatus(..) => Some(self.generic.report_transact_status),
            Instruction::ClearTransactStatus => Some(self.generic.clear_transact_status),
            Instruction::UniversalOrigin(..) => None,
            Instruction::ExportMessage { .. } => None,
            Instruction::LockAsset { .. } => None,
            Instruction::UnlockAsset { .. } => None,
            Instruction::NoteUnlockable { .. } => None,
            Instruction::RequestUnlock { .. } => None,
            Instruction::SetFeesMode { .. } => Some(self.generic.set_fees_mode),
            Instruction::SetTopic(..) => Some(self.generic.set_topic),
            Instruction::ClearTopic => Some(self.generic.clear_topic),
            Instruction::AliasOrigin(..) => None,
            Instruction::UnpaidExecution { .. } => Some(self.generic.unpaid_execution),
        }
    }

    /// The weight of an instruction, by its pricing rule.
    pub open spec fn spec_cost_of(self, instruction: Instruction) -> Weight {
        match (instruction.spec_pricing(self.policy), self.spec_base_weight(instruction)) {
            (Pricing::PerAsset(m), Some(base)) => base.scaled(m),
            (Pricing::CappedPerAsset(m), Some(base)) => self.policy.deposit_asset_ceiling.meet(
                base.scaled(m),
            ),
            (Pricing::Fixed, Some(base)) => base,
            (Pricing::ReserveOverride, _) => self.policy.reserve_asset_deposited,
            _ => Weight::spec_max(),
        }
    }

    /// An estimator with the given configuration.
    pub fn new(policy: Policy, fungible: XcmFungibleWeight, generic: XcmGeneric) -> (e: Self)
        ensures
            e.policy == policy,
            e.fungible == fungible,
            e.generic == generic,
    {
        MantaXcmWeight { policy, fungible, generic }
    }

    /// Looks up the measured base weight of the instruction's kind. There is
    /// none for an instruction that is unsupported or priced by the reserve
    /// override.
    pub fn base_weight(&self, instruction: &Instruction) -> (base: Option<Weight>)
        ensures
            base == self.spec_base_weight(*instruction),
    {
        match instruction {
            Instruction::WithdrawAsset(..) => Some(self.fungible.withdraw_asset),
            Instruction::ReserveAssetDeposited(..) => None,
            Instruction::ReceiveTeleportedAsset(..) => Some(self.fungible.receive_teleported_asset),
            Instruction::QueryResponse { .. } => Some(self.generic.query_response),
            Instruction::TransferAsset { .. } => Some(self.fungible.transfer_asset),
            Instruction::TransferReserveAsset { .. } => Some(self.fungible.transfer_reserve_asset),
            Instruction::Transact { .. } => Some(self.generic.transact),
            Instruction::HrmpNewChannelOpenRequest { .. } => None,
            Instruction::HrmpChannelAccepted { .. } => None,
            Instruction::HrmpChannelClosing { .. } => None,
            Instruction::ClearOrigin => Some(self.generic.clear_origin),
            Instruction::DescendOrigin(..) => Some(self.generic.descend_origin),
            Instruction::ReportError(..) => Some(self.generic.report_error),
            Instruction::DepositAsset { .. } => Some(self.fungible.deposit_asset),
            Instruction::DepositReserveAsset { .. } => Some(self.fungible.deposit_reserve_asset),
            Instruction::ExchangeAsset { .. } => None,
            Instruction::InitiateReserveWithdraw { .. } => Some(
                self.generic.initiate_reserve_withdraw,
            ),
            Instruction::InitiateTeleport { .. } => Some(self.fungible.initiate_teleport),
            Instruction::ReportHolding { .. } => Some(self.generic.report_holding),
            Instruction::BuyExecution { .. } => Some(self.generic.buy_execution),
            Instruction::RefundSurplus => Some(self.generic.refund_surplus),
            Instruction::SetErrorHandler(..) => Some(self.generic.set_error_handler),
            Instruction::SetAppendix(..) => Some(self.generic.set_appendix),
            Instruction::ClearError => Some(self.generic.clear_error),
            Instruction::ClaimAsset { .. } => Some(self.generic.claim_asset),
            Instruction::Trap(..) => Some(self.generic.trap),
            Instruction::SubscribeVersion { .. } => Some(self.generic.subscribe_version),
            Instruction::UnsubscribeVersion => Some(self.generic.unsubscribe_version),
            Instruction::BurnAsset(..) => Some(self.generic.burn_asset),
            Instruction::ExpectAsset(..) => Some(self.generic.expect_asset),
            Instruction::ExpectOrigin(..) => Some(self.generic.expect_origin),
            Instruction::ExpectError(..) => Some(self.generic.expect_error),
            Instruction::ExpectTransactStatus(..) => Some(self.generic.expect_transact_status),
            Instruction::QueryPallet { .. } => Some(self.generic.query_pallet),
            Instruction::ExpectPallet { .. } => Some(self.generic.expect_pallet),
            Instruction::ReportTransactStatus(..) => Some(self.generic.report_transact_status),
            Instruction::ClearTransactStatus => Some(self.generic.clear_transact_status),
            Instruction::UniversalOrigin(..) => None,
            Instruction::ExportMessage { .. } => None,
            Instruction::LockAsset { .. } => None,
            Instruction::UnlockAsset { .. } => None,
            Instruction::NoteUnlockable { .. } => None,
            Instruction::RequestUnlock { .. } => None,
            Instruction::SetFeesMode { .. } => Some(self.generic.set_fees_mode),
            Instruction::SetTopic(..) => Some(self.generic.set_topic),
            Instruction::ClearTopic => Some(self.generic.clear_topic),
            Instruction::AliasOrigin(..) => None,
            Instruction::UnpaidExecution { .. } => Some(self.generic.unpaid_execution),
        }
    }

    /// The weight of one instruction. Every variant is dispatched by name to
    /// its own rule; a nested message is not looked into.
    pub fn cost_of(&self, instruction: &Instruction) -> (w: Weight)
        ensures
            w == self.spec_cost_of(*instruction),
    {
        match instruction {
            Instruction::WithdrawAsset(assets) => self.withdraw_asset(assets),
            Instruction::ReserveAssetDeposited(assets) => self.reserve_asset_deposited(assets),
            Instruction::ReceiveTeleportedAsset(assets) => self.receive_teleported_asset(assets),
            Instruction::QueryResponse { query_id, response, max_weight, querier } => {
                self.query_response(query_id, response, max_weight, querier)
            },
            Instruction::TransferAsset { assets, beneficiary } => {
                self.transfer_asset(assets, beneficiary)
            },
            Instruction::TransferReserveAsset { assets, dest, xcm } => {
                self.transfer_reserve_asset(assets, dest, xcm)
            },
            Instruction::Transact { origin_kind, require_weight_at_most, call } => {
                self.transact(origin_kind, require_weight_at_most, call)
            },
            Instruction::HrmpNewChannelOpenRequest { sender, max_message_size, max_capacity } => {
                self.hrmp_new_channel_open_request(sender, max_message_size, max_capacity)
            },
            Instruction::HrmpChannelAccepted { recipient } => self.hrmp_channel_accepted(recipient),
            Instruction::HrmpChannelClosing { initiator, sender, recipient } => {
                self.hrmp_channel_closing(initiator, sender, recipient)
            },
            Instruction::ClearOrigin => self.clear_origin(),
            Instruction::DescendOrigin(who) => self.descend_origin(who),
            Instruction::ReportError(query_response_info) => self.report_error(query_response_info),
            Instruction::DepositAsset { assets, beneficiary } => {
                self.deposit_asset(assets, beneficiary)
            },
            Instruction::DepositReserveAsset { assets, dest, xcm } => {
                self.deposit_reserve_asset(assets, dest, xcm)
            },
            Instruction::ExchangeAsset { give, want, maximal } => {
                self.exchange_asset(give, want, maximal)
            },
            Instruction::InitiateReserveWithdraw { assets, reserve, xcm } => {
                self.initiate_reserve_withdraw(assets, reserve, xcm)
            },
            Instruction::InitiateTeleport { assets, dest, xcm } => {
                self.initiate_teleport(assets, dest, xcm)
            },
            Instruction::ReportHolding { response_info, assets } => {
                self.report_holding(response_info, assets)
            },
            Instruction::BuyExecution { fees, weight_limit } => {
                self.buy_execution(fees, weight_limit)
            },
            Instruction::RefundSurplus => self.refund_surplus(),
            Instruction::SetErrorHandler(xcm) => self.set_error_handler(xcm),
            Instruction::SetAppendix(xcm) => self.set_appendix(xcm),
            Instruction::ClearError => self.clear_error(),
            Instruction::ClaimAsset { assets, ticket } => self.claim_asset(assets, ticket),
            Instruction::Trap(code) => self.trap(code),
            Instruction::SubscribeVersion { query_id, max_response_weight } => {
                self.subscribe_version(query_id, max_response_weight)
            },
            Instruction::UnsubscribeVersion => self.unsubscribe_version(),
            Instruction::BurnAsset(assets) => self.burn_asset(assets),
            Instruction::ExpectAsset(assets) => self.expect_asset(assets),
            Instruction::ExpectOrigin(origin) => self.expect_origin(origin),
            Instruction::ExpectError(error) => self.expect_error(error),
            Instruction::ExpectTransactStatus(transact_status) => {
                self.expect_transact_status(transact_status)
            },
            Instruction::QueryPallet { module_name, response_info } => {
                self.query_pallet(module_name, response_info)
            },
            Instruction::ExpectPallet { index, name, module_name, crate_major, min_crate_minor } => {
                self.expect_pallet(index, name, module_name, crate_major, min_crate_minor)
            },
            Instruction::ReportTransactStatus(response_info) => {
                self.report_transact_status(response_info)
            },
            Instruction::ClearTransactStatus => self.clear_transact_status(),
            Instruction::UniversalOrigin(junction) => self.universal_origin(junction),
            Instruction::ExportMessage { network, destination, xcm } => {
                self.export_message(network, destination, xcm)
            },
            Instruction::LockAsset { asset, unlocker } => self.lock_asset(asset, unlocker),
            Instruction::UnlockAsset { asset, target } => self.unlock_asset(asset, target),
            Instruction::NoteUnlockable { asset, owner } => self.note_unlockable(asset, owner),
            Instruction::RequestUnlock { asset, locker } => self.request_unlock(asset, locker),
            Instruction::SetFeesMode { jit_withdraw } => self.set_fees_mode(jit_withdraw),
            Instruction::SetTopic(topic) => self.set_topic(topic),
            Instruction::ClearTopic => self.clear_topic(),
            Instruction::AliasOrigin(location) => self.alias_origin(location),
            Instruction::UnpaidExecution { weight_limit, check_origin } => {
                self.unpaid_execution(weight_limit, check_origin)
            },
        }
    }

    /// Withdrawing assets into holding: the base weight for each asset listed.
    pub fn withdraw_asset(&self, assets: &MultiAssets) -> (w: Weight)
        ensures
            w == self.fungible.withdraw_asset.scaled(assets.multiplicity()),
    {
        assets.weigh_multi_assets(self.fungible.withdraw_asset)
    }

    /// A reserve deposit: the provisional fixed weight, whatever the assets,
    /// since no reserve is trusted.
    pub fn reserve_asset_deposited(&self, _assets: &MultiAssets) -> (w: Weight)
        ensures
            w == self.policy.reserve_asset_deposited,
    {
        self.policy.reserve_asset_deposited
    }

    /// Receiving teleported assets: the base weight for each asset listed.
    pub fn receive_teleported_asset(&self, assets: &MultiAssets) -> (w: Weight)
        ensures
            w == self.fungible.receive_teleported_asset.scaled(assets.multiplicity()),
    {
        assets.weigh_multi_assets(self.fungible.receive_teleported_asset)
    }

    /// A response to a query: the measured weight.
    pub fn query_response(
        &self,
        _query_id: &u64,
        _response: &Encoded,
        _max_weight: &Weight,
        _querier: &Option<Encoded>,
    ) -> (w: Weight)
        ensures
            w == self.generic.query_response,
    {
        self.generic.query_response
    }

    /// A local transfer: the base weight for each asset listed.
    pub fn transfer_asset(&self, assets: &MultiAssets, _dest: &Encoded) -> (w: Weight)
        ensures
            w == self.fungible.transfer_asset.scaled(assets.multiplicity()),
    {
        assets.weigh_multi_assets(self.fungible.transfer_asset)
    }

    /// A transfer to a reserve-backed destination: the base weight for each
    /// asset listed. The message sent along is not priced here.
    pub fn transfer_reserve_asset(
        &self,
        assets: &MultiAssets,
        _dest: &Encoded,
        _xcm: &Encoded,
    ) -> (w: Weight)
        ensures
            w == self.fungible.transfer_reserve_asset.scaled(assets.multiplicity()),
    {
        assets.weigh_multi_assets(self.fungible.transfer_reserve_asset)
    }

    /// Dispatching a call: the measured weight of the dispatch itself.
    pub fn transact(
        &self,
        _origin_type: &OriginKind,
        _require_weight_at_most: &Weight,
        _call: &Encoded,
    ) -> (w: Weight)
        ensures
            w == self.generic.transact,
    {
        self.generic.transact
    }

    /// A request to open a channel: not supported by the executor, so the
    /// largest weight.
    pub fn hrmp_new_channel_open_request(
        &self,
        _sender: &u32,
        _max_message_size: &u32,
        _max_capacity: &u32,
    ) -> (w: Weight)
        ensures
            w == Weight::spec_max(),
    {
        Weight::max_value()
    }

    /// A notice that a channel was accepted: not supported by the executor, so
    /// the largest weight.
    pub fn hrmp_channel_accepted(&self, _recipient: &u32) -> (w: Weight)
        ensures
            w == Weight::spec_max(),
    {
        Weight::max_value()
    }

    /// A notice that a channel is closing: not supported by the executor, so
    /// the largest weight.
    pub fn hrmp_channel_closing(
        &self,
        _initiator: &u32,
        _sender: &u32,
        _recipient: &u32,
    ) -> (w: Weight)
        ensures
            w == Weight::spec_max(),
    {
        Weight::max_value()
    }

    /// Clearing the origin: the measured weight.
    pub fn clear_origin(&self) -> (w: Weight)
        ensures
            w == self.generic.clear_origin,
    {
        self.generic.clear_origin
    }

    /// Descending into an interior origin: the measured weight.
    pub fn descend_origin(&self, _who: &Encoded) -> (w: Weight)
        ensures
            w == self.generic.descend_origin,
    {
        self.generic.descend_origin
    }

    /// Reporting the error register: the measured weight.
    pub fn report_error(&self, _query_response_info: &Encoded) -> (w: Weight)
        ensures
            w == self.generic.report_error,
    {
        self.generic.report_error
    }

    /// Depositing assets from holding: the base weight for each asset the
    /// filter may denote, but no more than the deposit ceiling in either
    /// dimension.
    pub fn deposit_asset(&self, assets: &MultiAssetFilter, _dest: &Encoded) -> (w: Weight)
        ensures
            w == self.policy.deposit_asset_ceiling.meet(
                self.fungible.deposit_asset.scaled(assets.multiplicity(self.policy)),
            ),
    {
        let weight = assets.weigh_multi_assets(&self.policy, self.fungible.deposit_asset);
        self.policy.deposit_asset_ceiling.min(weight)
    }

    /// Depositing assets to a reserve-backed destination: the base weight for
    /// each asset the filter may denote.
    pub fn deposit_reserve_asset(
        &self,
        assets: &MultiAssetFilter,
        _dest: &Encoded,
        _xcm: &Encoded,
    ) -> (w: Weight)
        ensures
            w == self.fungible.deposit_reserve_asset.scaled(assets.multiplicity(self.policy)),
    {
        assets.weigh_multi_assets(&self.policy, self.fungible.deposit_reserve_asset)
    }

    /// Exchanging assets: not supported by the executor, so the largest weight.
    pub fn exchange_asset(
        &self,
        _give: &MultiAssetFilter,
        _receive: &MultiAssets,
        _maximal: &bool,
    ) -> (w: Weight)
        ensures
            w == Weight::spec_max(),
    {
        Weight::max_value()
    }

    /// Starting a withdrawal from a reserve: the base weight for each asset the
    /// filter may denote.
    pub fn initiate_reserve_withdraw(
        &self,
        assets: &MultiAssetFilter,
        _reserve: &Encoded,
        _xcm: &Encoded,
    ) -> (w: Weight)
        ensures
            w == self.generic.initiate_reserve_withdraw.scaled(assets.multiplicity(self.policy)),
    {
        assets.weigh_multi_assets(&self.policy, self.generic.initiate_reserve_withdraw)
    }

    /// Starting a teleport: the base weight for each asset the filter may
    /// denote.
    pub fn initiate_teleport(
        &self,
        assets: &MultiAssetFilter,
        _dest: &Encoded,
        _xcm: &Encoded,
    ) -> (w: Weight)
        ensures
            w == self.fungible.initiate_teleport.scaled(assets.multiplicity(self.policy)),
    {
        assets.weigh_multi_assets(&self.policy, self.fungible.initiate_teleport)
    }

    /// Reporting the holding register: the measured weight.
    pub fn report_holding(
        &self,
        _response_info: &Encoded,
        _assets: &MultiAssetFilter,
    ) -> (w: Weight)
        ensures
            w == self.generic.report_holding,
    {
        self.generic.report_holding
    }

    /// Buying execution time: the measured weight.
    pub fn buy_execution(&self, _fees: &MultiAsset, _weight_limit: &WeightLimit) -> (w: Weight)
        ensures
            w == self.generic.buy_execution,
    {
        self.generic.buy_execution
    }

    /// Refunding unused weight: the measured weight.
    pub fn refund_surplus(&self) -> (w: Weight)
        ensures
            w == self.generic.refund_surplus,
    {
        self.generic.refund_surplus
    }

    /// Installing an error handler: the measured weight of carrying it. The
    /// handler is priced when it runs.
    pub fn set_error_handler(&self, _xcm: &Encoded) -> (w: Weight)
        ensures
            w == self.generic.set_error_handler,
    {
        self.generic.set_error_handler
    }

    /// Installing an appendix: the measured weight of carrying it. The appendix
    /// is priced when it runs.
    pub fn set_appendix(&self, _xcm: &Encoded) -> (w: Weight)
        ensures
            w == self.generic.set_appendix,
    {
        self.generic.set_appendix
    }

    /// Clearing the error register: the measured weight.
    pub fn clear_error(&self) -> (w: Weight)
        ensures
            w == self.generic.clear_error,
    {
        self.generic.clear_error
    }

    /// Claiming trapped assets: the base weight for each asset listed.
    pub fn claim_asset(&self, assets: &MultiAssets, _ticket: &Encoded) -> (w: Weight)
        ensures
            w == self.generic.claim_asset.scaled(assets.multiplicity()),
    {
        assets.weigh_multi_assets(self.generic.claim_asset)
    }

    /// Raising a trap: the measured weight.
    pub fn trap(&self, _code: &u64) -> (w: Weight)
        ensures
            w == self.generic.trap,
    {
        self.generic.trap
    }

    /// Subscribing to version changes: the measured weight.
    pub fn subscribe_version(&self, _query_id: &u64, _max_response_weight: &Weight) -> (w: Weight)
        ensures
            w == self.generic.subscribe_version,
    {
        self.generic.subscribe_version
    }

    /// Cancelling a version subscription: the measured weight.
    pub fn unsubscribe_version(&self) -> (w: Weight)
        ensures
            w == self.generic.unsubscribe_version,
    {
        self.generic.unsubscribe_version
    }

    /// Burning assets: the base weight for each asset listed.
    pub fn burn_asset(&self, assets: &MultiAssets) -> (w: Weight)
        ensures
            w == self.generic.burn_asset.scaled(assets.multiplicity()),
    {
        assets.weigh_multi_assets(self.generic.burn_asset)
    }

    /// Checking that holding contains assets: the base weight for each asset
    /// listed.
    pub fn expect_asset(&self, assets: &MultiAssets) -> (w: Weight)
        ensures
            w == self.generic.expect_asset.scaled(assets.multiplicity()),
    {
        assets.weigh_multi_assets(self.generic.expect_asset)
    }

    /// Checking the origin: the measured weight.
    pub fn expect_origin(&self, _origin: &Option<Encoded>) -> (w: Weight)
        ensures
            w == self.generic.expect_origin,
    {
        self.generic.expect_origin
    }

    /// Checking the error register: the measured weight.
    pub fn expect_error(&self, _error: &Option<(u32, Encoded)>) -> (w: Weight)
        ensures
            w == self.generic.expect_error,
    {
        self.generic.expect_error
    }

    /// Checking the transact status: the measured weight.
    pub fn expect_transact_status(&self, _transact_status: &Encoded) -> (w: Weight)
        ensures
            w == self.generic.expect_transact_status,
    {
        self.generic.expect_transact_status
    }

    /// Querying a pallet: the measured weight.
    pub fn query_pallet(&self, _module_name: &Vec<u8>, _response_info: &Encoded) -> (w: Weight)
        ensures
            w == self.generic.query_pallet,
    {
        self.generic.query_pallet
    }

    /// Checking for a pallet: the measured weight.
    pub fn expect_pallet(
        &self,
        _index: &u32,
        _name: &Vec<u8>,
        _module_name: &Vec<u8>,
        _crate_major: &u32,
        _min_crate_minor: &u32,
    ) -> (w: Weight)
        ensures
            w == self.generic.expect_pallet,
    {
        self.generic.expect_pallet
    }

    /// Reporting the transact status: the measured weight.
    pub fn report_transact_status(&self, _response_info: &Encoded) -> (w: Weight)
        ensures
            w == self.generic.report_transact_status,
    {
        self.generic.report_transact_status
    }

    /// Clearing the transact status: the measured weight.
    pub fn clear_transact_status(&self) -> (w: Weight)
        ensures
            w == self.generic.clear_transact_status,
    {
        self.generic.clear_transact_status
    }

    /// Assuming a universal origin: not supported by the executor, so the
    /// largest weight.
    pub fn universal_origin(&self, _junction: &Encoded) -> (w: Weight)
        ensures
            w == Weight::spec_max(),
    {
        Weight::max_value()
    }

    /// Exporting a message to another consensus system: not supported by the
    /// executor, so the largest weight.
    pub fn export_message(
        &self,
        _network: &Encoded,
        _destination: &Encoded,
        _xcm: &Encoded,
    ) -> (w: Weight)
        ensures
            w == Weight::spec_max(),
    {
        Weight::max_value()
    }

    /// Locking an asset: not supported by the executor, so the largest weight.
    pub fn lock_asset(&self, _asset: &MultiAsset, _unlocker: &Encoded) -> (w: Weight)
        ensures
            w == Weight::spec_max(),
    {
        Weight::max_value()
    }

    /// Unlocking an asset: not supported by the executor, so the largest
    /// weight.
    pub fn unlock_asset(&self, _asset: &MultiAsset, _target: &Encoded) -> (w: Weight)
        ensures
            w == Weight::spec_max(),
    {
        Weight::max_value()
    }

    /// Noting an asset as unlockable: not supported by the executor, so the
    /// largest weight.
    pub fn note_unlockable(&self, _asset: &MultiAsset, _owner: &Encoded) -> (w: Weight)
        ensures
            w == Weight::spec_max(),
    {
        Weight::max_value()
    }

    /// Requesting an unlock: not supported by the executor, so the largest
    /// weight.
    pub fn request_unlock(&self, _asset: &MultiAsset, _locker: &Encoded) -> (w: Weight)
        ensures
            w == Weight::spec_max(),
    {
        Weight::max_value()
    }

    /// Setting the fees mode: the measured weight.
    pub fn set_fees_mode(&self, _jit_withdraw: &bool) -> (w: Weight)
        ensures
            w == self.generic.set_fees_mode,
    {
        self.generic.set_fees_mode
    }

    /// Setting the topic: the measured weight.
    pub fn set_topic(&self, _topic: &[u8; 32]) -> (w: Weight)
        ensures
            w == self.generic.set_topic,
    {
        self.generic.set_topic
    }

    /// Clearing the topic: the measured weight.
    pub fn clear_topic(&self) -> (w: Weight)
        ensures
            w == self.generic.clear_topic,
    {
        self.generic.clear_topic
    }

    /// Aliasing the origin: not supported by the executor, so the largest
    /// weight.
    pub fn alias_origin(&self, _location: &Encoded) -> (w: Weight)
        ensures
            w == Weight::spec_max(),
    {
        Weight::max_value()
    }

    /// Executing without payment: the measured weight.
    pub fn unpaid_execution(
        &self,
        _weight_limit: &WeightLimit,
        _check_origin: &Option<Encoded>,
    ) -> (w: Weight)
        ensures
            w == self.generic.unpaid_execution,
    {
        self.generic.unpaid_execution
    }
}

/// Every instruction has a measured base weight exactly when its rule needs
/// one, so that the estimate never falls through to the largest weight by
/// accident.
pub proof fn lemma_base_weight_where_needed(estimator: MantaXcmWeight, instruction: Instruction)
    ensures
        estimator.spec_base_weight(instruction) is Some <==> (instruction.spec_pricing(
            estimator.policy,
        ) is PerAsset || instruction.spec_pricing(estimator.policy) is CappedPerAsset
            || instruction.spec_pricing(estimator.policy) is Fixed),
{
}

/// An instruction priced by assets that it names one by one, `n` of them,
/// weighs `n` times the base weight of its kind in each dimension in which
/// that product fits. A deposit is held to this only while the scaled
/// weight lies under the deposit ceiling.
pub proof fn lemma_definite_list_scales_exactly(
    estimator: MantaXcmWeight,
    instruction: Instruction,
    n: nat,
)
    requires
        instruction.spec_definite_len() == Some(n),
        n <= u64::MAX,
        instruction.spec_pricing(estimator.policy) is CappedPerAsset
            ==> estimator.spec_base_weight(instruction).unwrap().scaled(n as u64).le(
            estimator.policy.deposit_asset_ceiling,
        ),
    ensures
        estimator.spec_base_weight(instruction) is Some,
        ({
            let base = estimator.spec_base_weight(instruction).unwrap();
            let cost = estimator.spec_cost_of(instruction);
            &&& base.ref_time * n <= u64::MAX ==> cost.ref_time == base.ref_time * n
            &&& base.proof_size * n <= u64::MAX ==> cost.proof_size == base.proof_size * n
        }),
{
    lemma_base_weight_where_needed(estimator, instruction);
    let base = estimator.spec_base_weight(instruction).unwrap();
    let pricing = instruction.spec_pricing(estimator.policy);
    assert(pricing == Pricing::PerAsset(n as u64) || pricing == Pricing::CappedPerAsset(n as u64));
    lemma_sat_mul_exact(base.ref_time, n as u64);
    lemma_sat_mul_exact(base.proof_size, n as u64);
}

/// The deposit ceiling is a ceiling and no replacement: a capped estimate
/// exceeds neither the ceiling nor the scaled base weight in either
/// dimension, and is the scaled base weight itself once that lies under the
/// ceiling.
pub proof fn lemma_capped_is_ceiling(estimator: MantaXcmWeight, instruction: Instruction)
    requires
        instruction.spec_pricing(estimator.policy) is CappedPerAsset,
    ensures
        estimator.spec_base_weight(instruction) is Some,
        ({
            let scaled = estimator.spec_base_weight(instruction).unwrap().scaled(
                instruction.spec_pricing(estimator.policy)->CappedPerAsset_0,
            );
            let cost = estimator.spec_cost_of(instruction);
            &&& cost.le(estimator.policy.deposit_asset_ceiling)
            &&& cost.le(scaled)
            &&& scaled.le(estimator.policy.deposit_asset_ceiling) ==> cost == scaled
            &&& estimator.policy.deposit_asset_ceiling.le(scaled) ==> cost
                == estimator.policy.deposit_asset_ceiling
        }),
{
    lemma_base_weight_where_needed(estimator, instruction);
}

/// An instruction that the executor does not support weighs the largest
/// weight, whatever it carries and whatever the configuration.
pub proof fn lemma_unsupported_is_max(estimator: MantaXcmWeight, instruction: Instruction)
    requires
        instruction.spec_pricing(estimator.policy) is Unsupported,
    ensures
        estimator.spec_cost_of(instruction) == Weight::spec_max(),
{
}

/// Whether an instruction is unsupported depends on its variant alone, not
/// on the policy.
pub proof fn lemma_unsupported_by_variant(instruction: Instruction, p: Policy, q: Policy)
    ensures
        instruction.spec_pricing(p) is Unsupported <==> instruction.spec_pricing(q) is Unsupported,
{
}

} // verus!
