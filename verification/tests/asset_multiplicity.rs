use manta_xcm_weight::assets::{
    Encoded, Fungibility, MultiAsset, MultiAssetFilter, MultiAssets, WildFungibility,
    WildMultiAsset,
};
use manta_xcm_weight::policy::{Policy, HARDCODED_REF_TIME, MAX_ASSETS};
use manta_xcm_weight::weight::Weight;

fn class(tag: u8) -> Encoded {
    Encoded { bytes: vec![tag] }
}

fn list(n: usize) -> MultiAssets {
    let mut inner = Vec::new();
    for i in 0..n {
        let fun = if i % 2 == 0 {
            Fungibility::Fungible(i as u128 + 1)
        } else {
            Fungibility::NonFungible(class(i as u8))
        };
        inner.push(MultiAsset { id: class(i as u8), fun });
    }
    MultiAssets::new(inner)
}

#[test]
fn standard_policy_values() {
    let policy = Policy::new(64);
    assert_eq!(MAX_ASSETS, 100);
    assert_eq!(HARDCODED_REF_TIME, 1_000_000_000);
    assert_eq!(policy.max_assets, 100);
    assert_eq!(policy.holding_capacity, 64);
    assert_eq!(policy.reserve_asset_deposited, Weight::from_parts(1_000_000_000, 0));
    assert_eq!(policy.deposit_asset_ceiling, Weight::from_parts(1_000_000_000, 0));
}

#[test]
fn definite_list_resolves_to_its_length() {
    let policy = Policy::new(64);
    for n in [0usize, 1, 2, 3, 20, 150] {
        let assets = list(n);
        assert_eq!(assets.len(), n);
        assert_eq!(assets.resolve(), n as u64);
        assert_eq!(MultiAssetFilter::Definite(assets).resolve(&policy), n as u64);
    }
}

#[test]
fn wildcard_all_resolves_to_the_cap() {
    assert_eq!(WildMultiAsset::All.resolve(&Policy::new(64)), 100);
    assert_eq!(MultiAssetFilter::Wild(WildMultiAsset::All).resolve(&Policy::new(0)), 100);
    let mut policy = Policy::new(64);
    policy.max_assets = 7;
    assert_eq!(WildMultiAsset::All.resolve(&policy), 7);
}

#[test]
fn fungible_wildcard_resolves_to_one() {
    let wild = WildMultiAsset::AllOf { id: class(1), fun: WildFungibility::Fungible };
    assert_eq!(wild.resolve(&Policy::new(64)), 1);
    assert_eq!(wild.resolve(&Policy::new(u32::MAX)), 1);
}

#[test]
fn non_fungible_wildcard_resolves_to_twice_the_capacity() {
    let wild = WildMultiAsset::AllOf { id: class(1), fun: WildFungibility::NonFungible };
    assert_eq!(wild.resolve(&Policy::new(64)), 128);
    assert_eq!(wild.resolve(&Policy::new(0)), 0);
    assert_eq!(wild.resolve(&Policy::new(1)), 2);
    assert_eq!(wild.resolve(&Policy::new(u32::MAX)), 8_589_934_590);
    let mut policy = Policy::new(64);
    policy.max_assets = 3;
    assert_eq!(wild.resolve(&policy), 128);
    let other = WildMultiAsset::AllOf { id: class(200), fun: WildFungibility::NonFungible };
    assert_eq!(other.resolve(&policy), 128);
}

#[test]
fn counted_wildcards_are_capped() {
    let policy = Policy::new(64);
    for (count, expected) in
        [(0u32, 0u64), (1, 1), (5, 5), (99, 99), (100, 100), (101, 100), (1_000_000, 100), (u32::MAX, 100)]
    {
        assert_eq!(WildMultiAsset::AllCounted(count).resolve(&policy), expected);
        for fun in [WildFungibility::Fungible, WildFungibility::NonFungible] {
            let wild = WildMultiAsset::AllOfCounted { id: class(9), fun, count };
            assert_eq!(wild.resolve(&policy), expected);
            assert_eq!(MultiAssetFilter::Wild(wild).resolve(&policy), expected);
        }
    }
}

#[test]
fn counted_wildcards_follow_the_configured_cap() {
    let mut policy = Policy::new(64);
    policy.max_assets = 10;
    assert_eq!(policy.counted(9), 9);
    assert_eq!(policy.counted(10), 10);
    assert_eq!(policy.counted(11), 10);
    policy.max_assets = u64::MAX;
    assert_eq!(policy.counted(u32::MAX), u32::MAX as u64);
    assert_eq!(policy.non_fungible_bound(), 128);
}

#[test]
fn list_weight_is_base_times_length() {
    let base = Weight::from_parts(100_000_000, 11);
    assert_eq!(list(0).weigh_multi_assets(base), Weight::zero());
    assert_eq!(list(1).weigh_multi_assets(base), base);
    assert_eq!(list(3).weigh_multi_assets(base), Weight::from_parts(300_000_000, 33));
    assert_eq!(list(20).weigh_multi_assets(base), Weight::from_parts(2_000_000_000, 220));
}

#[test]
fn list_weight_clamps_at_the_ceiling() {
    let base = Weight::from_parts(u64::MAX / 2, u64::MAX);
    assert_eq!(list(2).weigh_multi_assets(base), Weight::from_parts(u64::MAX - 1, u64::MAX));
    assert_eq!(list(3).weigh_multi_assets(base), Weight::max_value());
}

#[test]
fn filter_weight_follows_the_multiplicity() {
    let policy = Policy::new(64);
    let base = Weight::from_parts(1_000, 3);
    let weigh = |filter: MultiAssetFilter| filter.weigh_multi_assets(&policy, base);
    assert_eq!(weigh(MultiAssetFilter::Definite(list(4))), Weight::from_parts(4_000, 12));
    assert_eq!(weigh(MultiAssetFilter::Wild(WildMultiAsset::All)), Weight::from_parts(100_000, 300));
    assert_eq!(
        weigh(MultiAssetFilter::Wild(WildMultiAsset::AllOf {
            id: class(1),
            fun: WildFungibility::Fungible
        })),
        base
    );
    assert_eq!(
        weigh(MultiAssetFilter::Wild(WildMultiAsset::AllOf {
            id: class(1),
            fun: WildFungibility::NonFungible
        })),
        Weight::from_parts(128_000, 384)
    );
    assert_eq!(
        weigh(MultiAssetFilter::Wild(WildMultiAsset::AllCounted(6))),
        Weight::from_parts(6_000, 18)
    );
    assert_eq!(
        weigh(MultiAssetFilter::Wild(WildMultiAsset::AllCounted(4_000_000_000))),
        Weight::from_parts(100_000, 300)
    );
    assert_eq!(
        weigh(MultiAssetFilter::Wild(WildMultiAsset::AllOfCounted {
            id: class(1),
            fun: WildFungibility::NonFungible,
            count: 500
        })),
        Weight::from_parts(100_000, 300)
    );
}

#[test]
fn fungible_wildcard_leaves_even_the_largest_weight_alone() {
    let policy = Policy::new(64);
    let filter = MultiAssetFilter::Wild(WildMultiAsset::AllOf {
        id: class(1),
        fun: WildFungibility::Fungible,
    });
    assert_eq!(filter.weigh_multi_assets(&policy, Weight::max_value()), Weight::max_value());
    assert_eq!(filter.weigh_multi_assets(&policy, Weight::zero()), Weight::zero());
}
