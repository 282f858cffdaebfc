//! The closed set of instructions a message is made of, and the pricing rule
//! that applies to each.

use vstd::prelude::*;
use crate::assets::{Encoded, MultiAsset, MultiAssetFilter, MultiAssets};
use crate::policy::Policy;
use crate::weight::Weight;

verus! {

/// The authority with which a transacted call is dispatched.
#[derive(Clone, Copy, Debug, PartialEq, Eq, Structural)]
pub enum OriginKind {
    Native,
    SovereignAccount,
    Superuser,
    Xcm,
}

/// A bound on the weight that may be bought.
#[derive(Clone, Copy, Debug, PartialEq, Eq, Structural)]
pub enum WeightLimit {
    Unlimited,
    Limited(Weight),
}

/// One step of a cross-chain message. A nested message is carried in its
/// encoded form: it is priced when it runs, not as part of the instruction
/// that holds it.
#[derive(Clone, Debug)]
pub enum Instruction {
    WithdrawAsset(MultiAssets),
    ReserveAssetDeposited(MultiAssets),
    ReceiveTeleportedAsset(MultiAssets),
    QueryResponse { query_id: u64, response: Encoded, max_weight: Weight, querier: Option<Encoded> },
    TransferAsset { assets: MultiAssets, beneficiary: Encoded },
    TransferReserveAsset { assets: MultiAssets, dest: Encoded, xcm: Encoded },
    Transact { origin_kind: OriginKind, require_weight_at_most: Weight, call: Encoded },
    HrmpNewChannelOpenRequest { sender: u32, max_message_size: u32, max_capacity: u32 },
    HrmpChannelAccepted { recipient: u32 },
    HrmpChannelClosing { initiator: u32, sender: u32, recipient: u32 },
    ClearOrigin,
    DescendOrigin(Encoded),
    ReportError(Encoded),
    DepositAsset { assets: MultiAssetFilter, beneficiary: Encoded },
    DepositReserveAsset { assets: MultiAssetFilter, dest: Encoded, xcm: Encoded },
    ExchangeAsset { give: MultiAssetFilter, want: MultiAssets, maximal: bool },
    InitiateReserveWithdraw { assets: MultiAssetFilter, reserve: Encoded, xcm: Encoded },
    InitiateTeleport { assets: MultiAssetFilter, dest: Encoded, xcm: Encoded },
    ReportHolding { response_info: Encoded, assets: MultiAssetFilter },
    BuyExecution { fees: MultiAsset, weight_limit: WeightLimit },
    RefundSurplus,
    SetErrorHandler(Encoded),
    SetAppendix(Encoded),
    ClearError,
    ClaimAsset { assets: MultiAssets, ticket: Encoded },
    Trap(u64),
    SubscribeVersion { query_id: u64, max_response_weight: Weight },
    UnsubscribeVersion,
    BurnAsset(MultiAssets),
    ExpectAsset(MultiAssets),
    ExpectOrigin(Option<Encoded>),
    ExpectError(Option<(u32, Encoded)>),
    ExpectTransactStatus(Encoded),
    QueryPallet { module_name: Vec<u8>, response_info: Encoded },
    ExpectPallet {
        index: u32,
        name: Vec<u8>,
        module_name: Vec<u8>,
        crate_major: u32,
        min_crate_minor: u32,
    },
    ReportTransactStatus(Encoded),
    ClearTransactStatus,
    UniversalOrigin(Encoded),
    ExportMessage { network: Encoded, destination: Encoded, xcm: Encoded },
    LockAsset { asset: MultiAsset, unlocker: Encoded },
    UnlockAsset { asset: MultiAsset, target: Encoded },
    NoteUnlockable { asset: MultiAsset, owner: Encoded },
    RequestUnlock { asset: MultiAsset, locker: Encoded },
    SetFeesMode { jit_withdraw: bool },
    SetTopic([u8; 32]),
    ClearTopic,
    AliasOrigin(Encoded),
    UnpaidExecution { weight_limit: WeightLimit, check_origin: Option<Encoded> },
}

/// The rule by which an instruction is priced.
#[derive(Clone, Copy, Debug, PartialEq, Eq, Structural)]
pub enum Pricing {
    /// The measured base weight, once for each of this many assets.
    PerAsset(u64),
    /// As `PerAsset`, but never more than the deposit ceiling.
    CappedPerAsset(u64),
    /// The measured base weight as it is.
    Fixed,
    /// The provisional fixed weight of a reserve deposit.
    ReserveOverride,
    /// Not priced: the executor does not support the instruction, and it is
    /// given the largest weight.
    Unsupported,
}

impl Instruction {
    /// The pricing rule of the instruction. Every variant is named: there is
    /// no rule by default.
    pub open spec fn spec_pricing(self, policy: Policy) -> Pricing {
        match self {
            Instruction::WithdrawAsset(assets) => Pricing::PerAsset(assets.multiplicity()),
            Instruction::ReserveAssetDeposited(..) => Pricing::ReserveOverride,
            Instruction::ReceiveTeleportedAsset(assets) => Pricing::PerAsset(assets.multiplicity()),
            Instruction::QueryResponse { .. } => Pricing::Fixed,
            Instruction::TransferAsset { assets, .. } => Pricing::PerAsset(assets.multiplicity()),
            Instruction::TransferReserveAsset { assets, .. } => Pricing::PerAsset(
                assets.multiplicity(),
            ),
            Instruction::Transact { .. } => Pricing::Fixed,
            Instruction::HrmpNewChannelOpenRequest { .. } => Pricing::Unsupported,
            Instruction::HrmpChannelAccepted { .. } => Pricing::Unsupported,
            Instruction::HrmpChannelClosing { .. } => Pricing::Unsupported,
            Instruction::ClearOrigin => Pricing::Fixed,
            Instruction::DescendOrigin(..) => Pricing::Fixed,
            Instruction::ReportError(..) => Pricing::Fixed,
            Instruction::DepositAsset { assets, .. } => Pricing::CappedPerAsset(
                assets.multiplicity(policy),
            ),
            Instruction::DepositReserveAsset { assets, .. } => Pricing::PerAsset(
                assets.multiplicity(policy),
            ),
            Instruction::ExchangeAsset { .. } => Pricing::Unsupported,
            Instruction::InitiateReserveWithdraw { assets, .. } => Pricing::PerAsset(
                assets.multiplicity(policy),
            ),
            Instruction::InitiateTeleport { assets, .. } => Pricing::PerAsset(
                assets.multiplicity(policy),
            ),
            Instruction::ReportHolding { .. } => Pricing::Fixed,
            Instruction::BuyExecution { .. } => Pricing::Fixed,
            Instruction::RefundSurplus => Pricing::Fixed,
            Instruction::SetErrorHandler(..) => Pricing::Fixed,
            Instruction::SetAppendix(..) => Pricing::Fixed,
            Instruction::ClearError => Pricing::Fixed,
            Instruction::ClaimAsset { assets, .. } => Pricing::PerAsset(assets.multiplicity()),
            Instruction::Trap(..) => Pricing::Fixed,
            Instruction::SubscribeVersion { .. } => Pricing::Fixed,
            Instruction::UnsubscribeVersion => Pricing::Fixed,
            Instruction::BurnAsset(assets) => Pricing::PerAsset(assets.multiplicity()),
            Instruction::ExpectAsset(assets) => Pricing::PerAsset(assets.multiplicity()),
            Instruction::ExpectOrigin(..) => Pricing::Fixed,
            Instruction::ExpectError(..) => Pricing::Fixed,
            Instruction::ExpectTransactStatus(..) => Pricing::Fixed,
            Instruction::QueryPallet { .. } => Pricing::Fixed,
            Instruction::ExpectPallet { .. } => Pricing::Fixed,
            Instruction::ReportTransactStatus(..) => Pricing::Fixed,
            Instruction::ClearTransactStatus => Pricing::Fixed,
            Instruction::UniversalOrigin(..) => Pricing::Unsupported,
            Instruction::ExportMessage { .. } => Pricing::Unsupported,
            Instruction::LockAsset { .. } => Pricing::Unsupported,
            Instruction::UnlockAsset { .. } => Pricing::Unsupported,
            Instruction::NoteUnlockable { .. } => Pricing::Unsupported,
            Instruction::RequestUnlock { .. } => Pricing::Unsupported,
            Instruction::SetFeesMode { .. } => Pricing::Fixed,
            Instruction::SetTopic(..) => Pricing::Fixed,
            Instruction::ClearTopic => Pricing::Fixed,
            Instruction::AliasOrigin(..) => Pricing::Unsupported,
            Instruction::UnpaidExecution { .. } => Pricing::Fixed,
        }
    }

    /// The length of the list, where the assets that the instruction is
    /// priced by are named one by one.
    pub open spec fn spec_definite_len(self) -> Option<nat> {
        match self {
            Instruction::WithdrawAsset(assets) => Some(assets.inner@.len()),
            Instruction::ReceiveTeleportedAsset(assets) => Some(assets.inner@.len()),
            Instruction::TransferAsset { assets, .. } => Some(assets.inner@.len()),
            Instruction::TransferReserveAsset { assets, .. } => Some(assets.inner@.len()),
            Instruction::ClaimAsset { assets, .. } => Some(assets.inner@.len()),
            Instruction::BurnAsset(assets) => Some(assets.inner@.len()),
            Instruction::ExpectAsset(assets) => Some(assets.inner@.len()),
            Instruction::DepositAsset { assets: MultiAssetFilter::Definite(assets), .. } => Some(
                assets.inner@.len(),
            ),
            Instruction::DepositReserveAsset {
                assets: MultiAssetFilter::Definite(assets),
                ..
            } => Some(assets.inner@.len()),
            Instruction::InitiateReserveWithdraw {
                assets: MultiAssetFilter::Definite(assets),
                ..
            } => Some(assets.inner@.len()),
            Instruction::InitiateTeleport {
                assets: MultiAssetFilter::Definite(assets),
                ..
            } => Some(assets.inner@.len()),
            _ => None,
        }
    }

    /// The pricing rule of the instruction, with the multiplicity of its
    /// assets resolved under `policy`.
    pub fn pricing(&self, policy: &Policy) -> (p: Pricing)
        ensures
            p == self.spec_pricing(*policy),
    {
        match self {
            Instruction::WithdrawAsset(assets) => Pricing::PerAsset(assets.resolve()),
            Instruction::ReserveAssetDeposited(..) => Pricing::ReserveOverride,
            Instruction::ReceiveTeleportedAsset(assets) => Pricing::PerAsset(assets.resolve()),
            Instruction::QueryResponse { .. } => Pricing::Fixed,
            Instruction::TransferAsset { assets, .. } => Pricing::PerAsset(assets.resolve()),
            Instruction::TransferReserveAsset { assets, .. } => Pricing::PerAsset(assets.resolve()),
            Instruction::Transact { .. } => Pricing::Fixed,
            Instruction::HrmpNewChannelOpenRequest { .. } => Pricing::Unsupported,
            Instruction::HrmpChannelAccepted { .. } => Pricing::Unsupported,
            Instruction::HrmpChannelClosing { .. } => Pricing::Unsupported,
            Instruction::ClearOrigin => Pricing::Fixed,
            Instruction::DescendOrigin(..) => Pricing::Fixed,
            Instruction::ReportError(..) => Pricing::Fixed,
            Instruction::DepositAsset { assets, .. } => Pricing::CappedPerAsset(
                assets.resolve(policy),
            ),
            Instruction::DepositReserveAsset { assets, .. } => Pricing::PerAsset(
                assets.resolve(policy),
            ),
            Instruction::ExchangeAsset { .. } => Pricing::Unsupported,
            Instruction::InitiateReserveWithdraw { assets, .. } => Pricing::PerAsset(
                assets.resolve(policy),
            ),
            Instruction::InitiateTeleport { assets, .. } => Pricing::PerAsset(
                assets.resolve(policy),
            ),
            Instruction::ReportHolding { .. } => Pricing::Fixed,
            Instruction::BuyExecution { .. } => Pricing::Fixed,
            Instruction::RefundSurplus => Pricing::Fixed,
            Instruction::SetErrorHandler(..) => Pricing::Fixed,
            Instruction::SetAppendix(..) => Pricing::Fixed,
            Instruction::ClearError => Pricing::Fixed,
            Instruction::ClaimAsset { assets, .. } => Pricing::PerAsset(assets.resolve()),
            Instruction::Trap(..) => Pricing::Fixed,
            Instruction::SubscribeVersion { .. } => Pricing::Fixed,
            Instruction::UnsubscribeVersion => Pricing::Fixed,
            Instruction::BurnAsset(assets) => Pricing::PerAsset(assets.resolve()),
            Instruction::ExpectAsset(assets) => Pricing::PerAsset(assets.resolve()),
            Instruction::ExpectOrigin(..) => Pricing::Fixed,
            Instruction::ExpectError(..) => Pricing::Fixed,
            Instruction::ExpectTransactStatus(..) => Pricing::Fixed,
            Instruction::QueryPallet { .. } => Pricing::Fixed,
            Instruction::ExpectPallet { .. } => Pricing::Fixed,
            Instruction::ReportTransactStatus(..) => Pricing::Fixed,
            Instruction::ClearTransactStatus => Pricing::Fixed,
            Instruction::UniversalOrigin(..) => Pricing::Unsupported,
            Instruction::ExportMessage { .. } => Pricing::Unsupported,
            Instruction::LockAsset { .. } => Pricing::Unsupported,
            Instruction::UnlockAsset { .. } => Pricing::Unsupported,
            Instruction::NoteUnlockable { .. } => Pricing::Unsupported,
            Instruction::RequestUnlock { .. } => Pricing::Unsupported,
            Instruction::SetFeesMode { .. } => Pricing::Fixed,
            Instruction::SetTopic(..) => Pricing::Fixed,
            Instruction::ClearTopic => Pricing::Fixed,
            Instruction::AliasOrigin(..) => Pricing::Unsupported,
            Instruction::UnpaidExecution { .. } => Pricing::Fixed,
        }
    }
}

} // verus!
