//! Asset specifications and the number of assets each one denotes.
//!
//! An instruction names its assets either one by one or through a wildcard
//! over the holding register. The multiplicity of a specification is the most
//! assets it can stand for; the weight of an instruction that handles assets
//! grows with it.

use vstd::prelude::*;
use crate::policy::Policy;
use crate::weight::{Weight, lemma_sat_mul_exact};

verus! {

/// A payload that is carried along in its wire encoding and never inspected:
/// locations, identifiers, responses and nested messages.
#[derive(Clone, Debug)]
pub struct Encoded {
    pub bytes: Vec<u8>,
}

/// Whether an asset is an amount of something or a single item.
#[derive(Clone, Debug)]
pub enum Fungibility {
    /// An amount of a fungible asset.
    Fungible(u128),
    /// One instance of a non-fungible asset class.
    NonFungible(Encoded),
}

/// The fungibility that a wildcard selects.
#[derive(Clone, Copy, Debug, PartialEq, Eq, Structural)]
pub enum WildFungibility {
    Fungible,
    NonFungible,
}

/// One concrete asset: what it is and how much of it.
#[derive(Clone, Debug)]
pub struct MultiAsset {
    pub id: Encoded,
    pub fun: Fungibility,
}

/// A list of concrete assets.
#[derive(Clone, Debug)]
pub struct MultiAssets {
    pub inner: Vec<MultiAsset>,
}

/// A wildcard over the assets in the holding register.
#[derive(Clone, Debug)]
pub enum WildMultiAsset {
    /// Every asset in holding.
    All,
    /// Every asset in holding of one class and fungibility.
    AllOf { id: Encoded, fun: WildFungibility },
    /// Every asset in holding, up to a declared number of them.
    AllCounted(u32),
    /// Every asset in holding of one class and fungibility, up to a declared
    /// number of them.
    AllOfCounted { id: Encoded, fun: WildFungibility, count: u32 },
}

/// Either a list of concrete assets or a wildcard.
#[derive(Clone, Debug)]
pub enum MultiAssetFilter {
    Definite(MultiAssets),
    Wild(WildMultiAsset),
}

impl MultiAssets {
    /// The number of assets in the list.
    pub open spec fn multiplicity(self) -> u64 {
        self.inner@.len() as u64
    }

    /// A list of the given assets, in the given order.
    pub fn new(inner: Vec<MultiAsset>) -> (assets: MultiAssets)
        ensures
            assets.inner@ == inner@,
    {
        MultiAssets { inner }
    }

    /// The number of assets in the list.
    pub fn len(&self) -> (n: usize)
        ensures
            n == self.inner@.len(),
    {
        self.inner.len()
    }

    /// The number of assets the list denotes: exactly its length.
    pub fn resolve(&self) -> (m: u64)
        ensures
            m == self.multiplicity(),
            m == self.inner@.len(),
    {
        self.inner.len() as u64
    }

    /// Scales `weight` by the number of assets in the list.
    pub fn weigh_multi_assets(&self, weight: Weight) -> (w: Weight)
        ensures
            w == weight.scaled(self.multiplicity()),
    {
        weight.saturating_mul(self.resolve())
    }
}

impl WildMultiAsset {
    /// The most assets the wildcard can stand for under `policy`.
    pub open spec fn multiplicity(self, policy: Policy) -> u64 {
        match self {
            WildMultiAsset::All => policy.max_assets,
            WildMultiAsset::AllOf { id, fun } => match fun {
                WildFungibility::Fungible => 1,
                WildFungibility::NonFungible => policy.spec_non_fungible_bound(),
            },
            WildMultiAsset::AllCounted(count) => policy.spec_counted(count),
            WildMultiAsset::AllOfCounted { id, fun, count } => policy.spec_counted(count),
        }
    }

    /// The most assets the wildcard can stand for: the cap for `All`, one for
    /// a fungible class, twice the holding capacity for a non-fungible class,
    /// and the declared count up to the cap for the counted forms.
    pub fn resolve(&self, policy: &Policy) -> (m: u64)
        ensures
            m == self.multiplicity(*policy),
    {
        match self {
            WildMultiAsset::All => policy.max_assets,
            WildMultiAsset::AllOf { id: _, fun } => match fun {
                WildFungibility::Fungible => 1,
                WildFungibility::NonFungible => policy.non_fungible_bound(),
            },
            WildMultiAsset::AllCounted(count) => policy.counted(*count),
            WildMultiAsset::AllOfCounted { id: _, fun: _, count } => policy.counted(*count),
        }
    }
}

impl MultiAssetFilter {
    /// The most assets the filter can stand for under `policy`: the length
    /// of a definite list, or the bound of a wildcard.
    pub open spec fn multiplicity(self, policy: Policy) -> u64 {
        match self {
            MultiAssetFilter::Definite(assets) => assets.multiplicity(),
            MultiAssetFilter::Wild(wild) => wild.multiplicity(policy),
        }
    }

    /// The most assets the filter can stand for under `policy`.
    pub fn resolve(&self, policy: &Policy) -> (m: u64)
        ensures
            m == self.multiplicity(*policy),
    {
        match self {
            MultiAssetFilter::Definite(assets) => assets.resolve(),
            MultiAssetFilter::Wild(wild) => wild.resolve(policy),
        }
    }

    /// Scales `weight` by the multiplicity of the filter. A wildcard over a
    /// fungible class leaves the weight as it is.
    pub fn weigh_multi_assets(&self, policy: &Policy, weight: Weight) -> (w: Weight)
        ensures
            w == weight.scaled(self.multiplicity(*policy)),
    {
        match self {
            MultiAssetFilter::Definite(assets) => assets.weigh_multi_assets(weight),
            MultiAssetFilter::Wild(wild) => match wild {
                WildMultiAsset::All => weight.saturating_mul(policy.max_assets),
                WildMultiAsset::AllOf { id: _, fun } => match fun {
                    WildFungibility::Fungible => {
                        proof {
                            lemma_sat_mul_exact(weight.ref_time, 1);
                            lemma_sat_mul_exact(weight.proof_size, 1);
                        }
                        weight
                    },
                    WildFungibility::NonFungible => weight.saturating_mul(
                        policy.non_fungible_bound(),
                    ),
                },
                WildMultiAsset::AllCounted(count) => weight.saturating_mul(
                    policy.counted(*count),
                ),
                WildMultiAsset::AllOfCounted { id: _, fun: _, count } => weight.saturating_mul(
                    policy.counted(*count),
                ),
            },
        }
    }
}

/// A wildcard with a declared count never stands for more assets than the
/// cap, however large the count, nor for more than the count: it resolves to
/// the smaller of the two.
pub proof fn lemma_counted_is_capped(policy: Policy, id: Encoded, fun: WildFungibility, count: u32)
    ensures
        WildMultiAsset::AllCounted(count).multiplicity(policy) <= policy.max_assets,
        WildMultiAsset::AllCounted(count).multiplicity(policy) <= count,
        WildMultiAsset::AllCounted(count).multiplicity(policy) == policy.max_assets
            || WildMultiAsset::AllCounted(count).multiplicity(policy) == count,
        (WildMultiAsset::AllOfCounted { id, fun, count }).multiplicity(policy)
            == WildMultiAsset::AllCounted(count).multiplicity(policy),
{
}

/// A wildcard over a non-fungible class stands for exactly twice the holding
/// capacity, whichever class it names; the cap on wildcards plays no part.
pub proof fn lemma_non_fungible_is_twice_capacity(policy: Policy, id: Encoded)
    ensures
        (WildMultiAsset::AllOf { id, fun: WildFungibility::NonFungible }).multiplicity(policy) == 2
            * policy.holding_capacity,
{
}

/// A definite filter stands for exactly as many assets as it lists, under
/// any policy.
pub proof fn lemma_definite_is_length(policy: Policy, assets: MultiAssets)
    requires
        assets.inner@.len() <= u64::MAX,
    ensures
        MultiAssetFilter::Definite(assets).multiplicity(policy) == assets.inner@.len(),
        assets.multiplicity() == assets.inner@.len(),
{
}

} // verus!
