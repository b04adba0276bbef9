//! Bringing the oracle's price into the registry, and comparing the two.

use crate::error::ErrorCode;
use crate::oracle::scale_price;
use crate::oracle::scaled_price;
use crate::oracle::Price;
use crate::oracle::PriceResolver;
use crate::oracle::REFRESH_MAX_AGE;
use crate::registry::asset_of;
use crate::registry::find_asset;
use crate::registry::lemma_asset_at;
use crate::registry::registered;
use crate::registry::set_price_at;
use crate::registry::AssetInfo;
use crate::registry::AssetRegistry;
use crate::registry::RegistryView;
use vstd::prelude::*;

verus! {

/// The oracle's price of an asset beside the fallback price on record.
#[derive(Clone, Copy, Debug, PartialEq, Eq)]
pub struct PriceComparison {
    pub asset_id: u8,
    /// The fallback price of the registry.
    pub hardcoded_price: u64,
    pub pyth_feed_id: [u8; 32],
    /// The price as the oracle states it.
    pub raw_price: i64,
    pub exponent: i32,
    pub confidence: u64,
    /// The oracle's price in whole units.
    pub oracle_price: u64,
    /// How far the two prices are apart.
    pub difference: u64,
    /// The same in percent of the fallback price; zero where that is zero.
    pub difference_percent: u64,
}

/// The oracle's price of an asset, fresh enough for a refresh, in whole units.
pub open spec fn oracle_price(info: AssetInfo, resolver: PriceResolver) -> Result<
    (Price, u64),
    ErrorCode,
> {
    match resolver.price(info.pyth_feed_id@, REFRESH_MAX_AGE) {
        Err(failure) => Err(ErrorCode::of_oracle(failure)),
        Ok(p) => match scaled_price(p.price, p.exponent) {
            None => Err(ErrorCode::MathOverflow),
            Some(v) => Ok((p, v as u64)),
        },
    }
}

/// What `update_price_from_pyth` decides: the registry to commit, or the
/// reason to refuse.
pub open spec fn refresh_outcome(
    registry: RegistryView,
    resolver: PriceResolver,
    asset_id: u8,
) -> Result<RegistryView, ErrorCode> {
    if !registered(registry.assets, asset_id) {
        Err(ErrorCode::AssetNotFound)
    } else {
        match oracle_price(asset_of(registry.assets, asset_id), resolver) {
            Err(e) => Err(e),
            Ok((_, new_price)) => Ok(registry.with_price(asset_id, new_price)),
        }
    }
}

/// How far two prices are apart.
pub open spec fn price_difference(a: u64, b: u64) -> int {
    if a > b {
        a - b
    } else {
        b - a
    }
}

/// The comparison of the oracle's price of an asset with its fallback price.
/// The difference in percent must fit in a `u64`.
pub open spec fn price_comparison(info: AssetInfo, resolver: PriceResolver) -> Result<
    PriceComparison,
    ErrorCode,
> {
    match oracle_price(info, resolver) {
        Err(e) => Err(e),
        Ok((p, oracle)) => {
            let difference = price_difference(oracle, info.price);
            if info.price > 0 && difference * 100 > u64::MAX {
                Err(ErrorCode::MathOverflow)
            } else {
                Ok(
                    PriceComparison {
                        asset_id: info.id,
                        hardcoded_price: info.price,
                        pyth_feed_id: info.pyth_feed_id,
                        raw_price: p.price,
                        exponent: p.exponent,
                        confidence: p.conf,
                        oracle_price: oracle,
                        difference: difference as u64,
                        difference_percent: if info.price > 0 {
                            (difference * 100 / info.price as int) as u64
                        } else {
                            0
                        },
                    },
                )
            }
        },
    }
}

/// Asks `resolver` for the price of an asset, no older than a refresh
/// accepts, and brings it to whole units.
pub fn fetch_oracle_price(info: &AssetInfo, resolver: &PriceResolver) -> (r: Result<
    (Price, u64),
    ErrorCode,
>)
    ensures
        r == oracle_price(*info, *resolver),
{
    match resolver.get_price_no_older_than(&info.pyth_feed_id, REFRESH_MAX_AGE) {
        Err(failure) => Err(ErrorCode::from_oracle(failure)),
        Ok(p) => match scale_price(p.price, p.exponent) {
            None => Err(ErrorCode::MathOverflow),
            Some(v) => Ok((p, v)),
        },
    }
}

/// Replaces the fallback price of the asset `asset_id` by the oracle's
/// price. Nothing changes unless the answer is `Ok`.
pub fn update_price_from_pyth(
    registry: &mut AssetRegistry,
    resolver: &PriceResolver,
    asset_id: u8,
) -> (r: Result<(), ErrorCode>)
    requires
        old(registry).wf(),
    ensures
        final(registry).wf(),
        match refresh_outcome(old(registry)@, *resolver, asset_id) {
            Ok(after) => r == Ok::<(), ErrorCode>(()) && final(registry)@ == after,
            Err(e) => r == Err::<(), ErrorCode>(e) && *final(registry) == *old(registry),
        },
{
    let k = match find_asset(&registry.assets, asset_id) {
        Some(k) => k,
        None => {
            return Err(ErrorCode::AssetNotFound);
        },
    };
    proof {
        lemma_asset_at(registry.assets@, k as int);
    }
    let info = registry.assets[k];
    match fetch_oracle_price(&info, resolver) {
        Err(e) => Err(e),
        Ok((_, new_price)) => {
            set_price_at(registry, k, new_price);
            Ok(())
        },
    }
}

/// Compares the oracle's price of the asset `asset_id` with its fallback
/// price.
pub fn demonstrate_oracle_price_pull(
    registry: &AssetRegistry,
    resolver: &PriceResolver,
    asset_id: u8,
) -> (r: Result<PriceComparison, ErrorCode>)
    requires
        registry.wf(),
    ensures
        r == (if registered(registry.assets@, asset_id) {
            price_comparison(asset_of(registry.assets@, asset_id), *resolver)
        } else {
            Err(ErrorCode::AssetNotFound)
        }),
{
    let k = match find_asset(&registry.assets, asset_id) {
        Some(k) => k,
        None => {
            return Err(ErrorCode::AssetNotFound);
        },
    };
    proof {
        lemma_asset_at(registry.assets@, k as int);
    }
    let info = registry.assets[k];
    let (p, oracle) = match fetch_oracle_price(&info, resolver) {
        Ok(found) => found,
        Err(e) => {
            return Err(e);
        },
    };
    let difference = if oracle > info.price {
        oracle - info.price
    } else {
        info.price - oracle
    };
    let difference_percent = if info.price > 0 {
        match difference.checked_mul(100) {
            Some(scaled) => scaled / info.price,
            None => {
                return Err(ErrorCode::MathOverflow);
            },
        }
    } else {
        0
    };
    Ok(
        PriceComparison {
            asset_id: info.id,
            hardcoded_price: info.price,
            pyth_feed_id: info.pyth_feed_id,
            raw_price: p.price,
            exponent: p.exponent,
            confidence: p.conf,
            oracle_price: oracle,
            difference,
            difference_percent,
        },
    )
}

} // verus!
