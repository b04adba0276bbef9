//! The risk engine: from positions and prices to one score that says whether
//! an obligation is solvent.

use crate::error::ErrorCode;
use crate::obligation::Obligation;
use crate::obligation::Position;
use crate::obligation::MAX_BORROWS;
use crate::obligation::MAX_DEPOSITS;
use crate::oracle::get_pyth_price;
use crate::oracle::pyth_price;
use crate::oracle::PriceResolver;
use crate::registry::asset_of;
use crate::registry::distinct_pairs;
use crate::registry::find_asset;
use crate::registry::lemma_asset_at;
use crate::registry::lookup_risk_level;
use crate::registry::registered;
use crate::registry::risk_level;
use crate::registry::AssetInfo;
use crate::registry::AssetRegistry;
use crate::registry::PairRiskParam;
use crate::registry::RegistryView;
use crate::valuation::calculate_value;
use crate::valuation::position_value;
use crate::valuation::saturated;
use vstd::prelude::*;

verus! {

/// The least score, times 1000, of a healthy obligation.
pub const HEALTHY_SCORE: u64 = 1000;

/// A position with the value that its amount has at the current price.
#[derive(Clone, Copy, Debug, PartialEq, Eq, Structural)]
pub struct ValuedPosition {
    pub asset_id: u8,
    pub value: u64,
}

/// The sum of the values of `positions`.
pub open spec fn sum_values(positions: Seq<ValuedPosition>) -> int
    decreases positions.len(),
{
    if positions.len() == 0 {
        0
    } else {
        sum_values(positions.drop_last()) + positions.last().value
    }
}

/// The total value of `positions`; the sum stops at the largest `u64`.
pub open spec fn total_value(positions: Seq<ValuedPosition>) -> int {
    saturated(sum_values(positions))
}

/// The share of one borrow in the total borrowed value, in whole percent;
/// zero where the total is zero.
pub open spec fn borrow_share(value: u64, total_borrow: int) -> int {
    if total_borrow == 0 {
        0
    } else {
        value * 100 / total_borrow
    }
}

/// What the borrows add up to for a deposit in `deposit_asset`: the share of
/// each borrow times the risk level of its pair with the deposit.
pub open spec fn contributions(
    params: Seq<PairRiskParam>,
    deposit_asset: u8,
    borrows: Seq<ValuedPosition>,
    total_borrow: int,
) -> int
    decreases borrows.len(),
{
    if borrows.len() == 0 {
        0
    } else {
        contributions(params, deposit_asset, borrows.drop_last(), total_borrow) + borrow_share(
            borrows.last().value,
            total_borrow,
        ) * risk_level(params, deposit_asset, borrows.last().asset_id)
    }
}

/// The value of a deposit weighted by the contributions of the borrows.
pub open spec fn weighted_value(
    params: Seq<PairRiskParam>,
    deposit: ValuedPosition,
    borrows: Seq<ValuedPosition>,
    total_borrow: int,
) -> int {
    deposit.value * contributions(params, deposit.asset_id, borrows, total_borrow) / 100
}

/// The sum of the weighted values of `deposits`.
pub open spec fn weighted_health(
    params: Seq<PairRiskParam>,
    deposits: Seq<ValuedPosition>,
    borrows: Seq<ValuedPosition>,
    total_borrow: int,
) -> int
    decreases deposits.len(),
{
    if deposits.len() == 0 {
        0
    } else {
        weighted_health(params, deposits.drop_last(), borrows, total_borrow) + weighted_value(
            params,
            deposits.last(),
            borrows,
            total_borrow,
        )
    }
}

/// The health score, times 1000, of valued deposits against valued borrows.
/// Without a borrow, or with borrows worth nothing, it is the largest `u64`.
/// Otherwise it is the weighted health times 1000, over the total borrowed
/// value, over 100; a score above the largest `u64` stops there.
pub open spec fn health_score(
    params: Seq<PairRiskParam>,
    deposits: Seq<ValuedPosition>,
    borrows: Seq<ValuedPosition>,
) -> int {
    let total_borrow = total_value(borrows);
    if borrows.len() == 0 || total_borrow == 0 {
        u64::MAX as int
    } else {
        saturated(
            weighted_health(params, deposits, borrows, total_borrow) * 1000 / total_borrow / 100,
        )
    }
}

/// The price at which an asset is valued: the oracle's, else the fallback.
pub open spec fn resolved_price(info: AssetInfo, resolver: PriceResolver) -> u64 {
    match pyth_price(resolver, info.pyth_feed_id@) {
        Ok(price) => price,
        Err(_) => info.price,
    }
}

/// The price at which an asset is valued, and where it came from.
#[derive(Clone, Copy, Debug, PartialEq, Eq, Structural)]
pub struct ResolvedPrice {
    pub price: u64,
    /// True when the oracle gave the price, false when it is the fallback.
    pub live: bool,
}

/// A position with its value at the resolved price of its asset.
pub open spec fn valued(
    assets: Seq<AssetInfo>,
    resolver: PriceResolver,
    position: Position,
) -> ValuedPosition {
    let info = asset_of(assets, position.asset_id);
    ValuedPosition {
        asset_id: position.asset_id,
        value: position_value(
            position.amount,
            resolved_price(info, resolver),
            info.decimals,
        ) as u64,
    }
}

/// True when the asset of every position is registered.
pub open spec fn all_registered(assets: Seq<AssetInfo>, positions: Seq<Position>) -> bool {
    forall|i: int|
        0 <= i < positions.len() ==> registered(assets, (#[trigger] positions[i]).asset_id)
}

/// The positions, each with its value.
pub open spec fn valued_positions(
    assets: Seq<AssetInfo>,
    resolver: PriceResolver,
    positions: Seq<Position>,
) -> Seq<ValuedPosition> {
    Seq::new(positions.len(), |i: int| valued(assets, resolver, positions[i]))
}

/// The verdict on deposits and borrows: the score of a healthy obligation,
/// or why there is none. No borrow means healthy, whatever the deposits.
pub open spec fn health_outcome(
    deposits: Seq<Position>,
    borrows: Seq<Position>,
    registry: RegistryView,
    resolver: PriceResolver,
) -> Result<u64, ErrorCode> {
    if borrows.len() == 0 {
        Ok(u64::MAX)
    } else if !all_registered(registry.assets, deposits) || !all_registered(
        registry.assets,
        borrows,
    ) {
        Err(ErrorCode::AssetNotFound)
    } else {
        let score = health_score(
            registry.risk_params,
            valued_positions(registry.assets, resolver, deposits),
            valued_positions(registry.assets, resolver, borrows),
        );
        if score >= HEALTHY_SCORE {
            Ok(score as u64)
        } else {
            Err(ErrorCode::Unhealthy)
        }
    }
}

/// The most that one deposit can weigh: the largest value, times the largest
/// risk level for every borrow in full.
pub open spec fn weight_limit() -> int {
    u64::MAX * 2550
}

/// No value is negative, so a sum is at least each of its terms.
pub proof fn lemma_sum_bounds(positions: Seq<ValuedPosition>, k: int)
    requires
        0 <= k < positions.len(),
    ensures
        positions[k].value <= sum_values(positions),
    decreases positions.len(),
{
    lemma_sum_nonnegative(positions.drop_last());
    if k < positions.len() - 1 {
        lemma_sum_bounds(positions.drop_last(), k);
    }
}

/// No sum of values is negative.
pub proof fn lemma_sum_nonnegative(positions: Seq<ValuedPosition>)
    ensures
        0 <= sum_values(positions),
    decreases positions.len(),
{
    if positions.len() > 0 {
        lemma_sum_nonnegative(positions.drop_last());
    }
}

/// Adds up the values of `positions`, stopping at the largest `u64`.
pub fn total_of(positions: &Vec<ValuedPosition>) -> (total: u64)
    ensures
        total == total_value(positions@),
{
    let mut total: u64 = 0;
    let mut i: usize = 0;
    while i < positions.len()
        invariant
            i <= positions@.len(),
            total == total_value(positions@.take(i as int)),
        decreases positions@.len() - i,
    {
        proof {
            let next = positions@.take(i + 1);
            assert(next.drop_last() == positions@.take(i as int));
            lemma_sum_nonnegative(positions@.take(i as int));
        }
        total = total.saturating_add(positions[i].value);
        i = i + 1;
    }
    assert(positions@.take(positions@.len() as int) == positions@);
    total
}

/// The most that one borrow can contribute: its value a hundredfold, times
/// the largest risk level.
pub open spec fn contribution_limit() -> int {
    u64::MAX * 100 * 255
}

/// Adds up what the borrows contribute to a deposit in `deposit_asset`,
/// given the total value of the borrows.
pub fn contributions_of(
    params: &Vec<PairRiskParam>,
    deposit_asset: u8,
    borrows: &Vec<ValuedPosition>,
    total_borrow: u64,
) -> (sum: u128)
    requires
        distinct_pairs(params@),
        borrows@.len() <= MAX_BORROWS,
    ensures
        sum == contributions(params@, deposit_asset, borrows@, total_borrow as int),
        total_borrow == total_value(borrows@) ==> sum <= 25500 * borrows@.len(),
{
    let total: u128 = total_borrow as u128;
    let mut sum: u128 = 0;
    let mut j: usize = 0;
    while j < borrows.len()
        invariant
            j <= borrows@.len(),
            borrows@.len() <= MAX_BORROWS,
            distinct_pairs(params@),
            total == total_borrow,
            sum == contributions(
                params@,
                deposit_asset,
                borrows@.take(j as int),
                total_borrow as int,
            ),
            sum <= contribution_limit() * j,
            total_borrow == total_value(borrows@) ==> sum <= 25500 * j,
        decreases borrows@.len() - j,
    {
        let borrow = borrows[j];
        let level = lookup_risk_level(params, deposit_asset, borrow.asset_id);
        proof {
            assert(borrows@.take(j + 1).drop_last() == borrows@.take(j as int));
            lemma_sum_bounds(borrows@, j as int);
        }
        let share: u128 = if total == 0 {
            0
        } else {
            borrow.value as u128 * 100 / total
        };
        assert(share <= u64::MAX * 100) by (nonlinear_arith)
            requires
                share == borrow_share(borrow.value, total as int),
                0 <= borrow.value <= u64::MAX,
                0 <= total,
        ;
        assert(share * level <= contribution_limit()) by (nonlinear_arith)
            requires
                0 <= share <= u64::MAX * 100,
                0 <= level <= 255,
                contribution_limit() == u64::MAX * 100 * 255,
        ;
        assert(contribution_limit() * j + contribution_limit() == contribution_limit() * (j + 1)
            <= contribution_limit() * 10) by (nonlinear_arith)
            requires
                0 <= j < 10,
                contribution_limit() >= 0,
        ;
        proof {
            if total_borrow == total_value(borrows@) {
                assert(share <= 100) by (nonlinear_arith)
                    requires
                        share == borrow_share(borrow.value, total as int),
                        0 <= borrow.value <= total,
                ;
                assert(share * level <= 25500) by (nonlinear_arith)
                    requires
                        0 <= share <= 100,
                        0 <= level <= 255,
                ;
            }
        }
        sum = sum + share * (level as u128);
        j = j + 1;
    }
    assert(borrows@.take(borrows@.len() as int) == borrows@);
    sum
}

/// Scores valued deposits against valued borrows.
pub fn risk_score(
    params: &Vec<PairRiskParam>,
    deposits: &Vec<ValuedPosition>,
    borrows: &Vec<ValuedPosition>,
) -> (score: u64)
    requires
        distinct_pairs(params@),
        deposits@.len() <= MAX_DEPOSITS,
        borrows@.len() <= MAX_BORROWS,
    ensures
        score == health_score(params@, deposits@, borrows@),
{
    if borrows.len() == 0 {
        return u64::MAX;
    }
    let total_borrow = total_of(borrows);
    if total_borrow == 0 {
        return u64::MAX;
    }
    let mut weighted: u128 = 0;
    let mut i: usize = 0;
    while i < deposits.len()
        invariant
            i <= deposits@.len(),
            deposits@.len() <= MAX_DEPOSITS,
            borrows@.len() <= MAX_BORROWS,
            distinct_pairs(params@),
            total_borrow == total_value(borrows@),
            total_borrow > 0,
            weighted == weighted_health(
                params@,
                deposits@.take(i as int),
                borrows@,
                total_borrow as int,
            ),
            weighted <= weight_limit() * i,
        decreases deposits@.len() - i,
    {
        let deposit = deposits[i];
        let sum = contributions_of(params, deposit.asset_id, borrows, total_borrow);
        proof {
            assert(deposits@.take(i + 1).drop_last() == deposits@.take(i as int));
        }
        assert(deposit.value * sum <= weight_limit() * 100) by (nonlinear_arith)
            requires
                0 <= deposit.value <= u64::MAX,
                0 <= sum <= 255000,
                weight_limit() == u64::MAX * 2550,
        ;
        let part: u128 = deposit.value as u128 * sum / 100;
        assert(part <= weight_limit());
        assert(weight_limit() * i + weight_limit() == weight_limit() * (i + 1) <= weight_limit()
            * 11) by (nonlinear_arith)
            requires
                0 <= i < 11,
                weight_limit() >= 0,
        ;
        weighted = weighted + part;
        i = i + 1;
    }
    assert(deposits@.take(deposits@.len() as int) == deposits@);
    assert(weight_limit() * i <= weight_limit() * 11) by (nonlinear_arith)
        requires
            0 <= i <= 11,
            weight_limit() >= 0,
    ;
    let score: u128 = weighted * 1000 / (total_borrow as u128) / 100;
    if score > u64::MAX as u128 {
        u64::MAX
    } else {
        score as u64
    }
}

/// Resolves the price of an asset: the oracle is asked once, and any failure
/// of it leaves the fallback price of the registry.
pub fn resolve_price(info: &AssetInfo, resolver: &PriceResolver) -> (r: ResolvedPrice)
    ensures
        r.price == resolved_price(*info, *resolver),
        r.live == (pyth_price(*resolver, info.pyth_feed_id@) is Ok),
{
    match get_pyth_price(resolver, &info.pyth_feed_id) {
        Ok(price) => ResolvedPrice { price, live: true },
        Err(_) => ResolvedPrice { price: info.price, live: false },
    }
}

/// Values every position at the resolved price of its asset, or gives `None`
/// where the asset of one is not registered.
pub fn value_positions(
    registry: &AssetRegistry,
    resolver: &PriceResolver,
    positions: &Vec<Position>,
) -> (r: Option<Vec<ValuedPosition>>)
    requires
        registry.wf(),
    ensures
        match r {
            Some(values) => all_registered(registry.assets@, positions@) && values@
                == valued_positions(registry.assets@, *resolver, positions@),
            None => !all_registered(registry.assets@, positions@),
        },
{
    let mut values: Vec<ValuedPosition> = Vec::new();
    let mut i: usize = 0;
    while i < positions.len()
        invariant
            i <= positions@.len(),
            registry.wf(),
            values@.len() == i,
            forall|j: int|
                0 <= j < i ==> registered(registry.assets@, (#[trigger] positions@[j]).asset_id),
            forall|j: int|
                0 <= j < i ==> (#[trigger] values@[j]) == valued(
                    registry.assets@,
                    *resolver,
                    positions@[j],
                ),
        decreases positions@.len() - i,
    {
        let position = positions[i];
        match find_asset(&registry.assets, position.asset_id) {
            None => {
                return None;
            },
            Some(k) => {
                proof {
                    lemma_asset_at(registry.assets@, k as int);
                }
                let info = registry.assets[k];
                let resolved = resolve_price(&info, resolver);
                let value = calculate_value(position.amount, resolved.price, info.decimals);
                values.push(ValuedPosition { asset_id: position.asset_id, value });
            },
        }
        i = i + 1;
    }
    assert(values@ =~= valued_positions(registry.assets@, *resolver, positions@));
    Some(values)
}

/// Judges deposits and borrows: the score of a healthy obligation, or why
/// there is none.
pub fn evaluate_health(
    deposits: &Vec<Position>,
    borrows: &Vec<Position>,
    registry: &AssetRegistry,
    resolver: &PriceResolver,
) -> (r: Result<u64, ErrorCode>)
    requires
        registry.wf(),
        deposits@.len() <= MAX_DEPOSITS,
        borrows@.len() <= MAX_BORROWS,
    ensures
        r == health_outcome(deposits@, borrows@, registry@, *resolver),
        borrows@.len() == 0 ==> r is Ok,
{
    if borrows.len() == 0 {
        return Ok(u64::MAX);
    }
    let deposit_values = match value_positions(registry, resolver, deposits) {
        Some(values) => values,
        None => {
            return Err(ErrorCode::AssetNotFound);
        },
    };
    let borrow_values = match value_positions(registry, resolver, borrows) {
        Some(values) => values,
        None => {
            return Err(ErrorCode::AssetNotFound);
        },
    };
    let score = risk_score(&registry.risk_params, &deposit_values, &borrow_values);
    if score >= HEALTHY_SCORE {
        Ok(score)
    } else {
        Err(ErrorCode::Unhealthy)
    }
}

/// Checks the health of an obligation as it stands and records the score.
/// Nothing changes unless the answer is `Ok`.
pub fn perform_health_check(
    obligation: &mut Obligation,
    registry: &AssetRegistry,
    resolver: &PriceResolver,
) -> (r: Result<(), ErrorCode>)
    requires
        old(obligation).wf(),
        registry.wf(),
    ensures
        final(obligation).wf(),
        old(obligation).borrows@.len() == 0 ==> r is Ok,
        match health_outcome(
            old(obligation).deposits@,
            old(obligation).borrows@,
            registry@,
            *resolver,
        ) {
            Ok(score) => r == Ok::<(), ErrorCode>(()) && final(obligation)@ == old(
                obligation,
            )@.with_score(score),
            Err(e) => r == Err::<(), ErrorCode>(e) && *final(obligation) == *old(obligation),
        },
{
    match evaluate_health(&obligation.deposits, &obligation.borrows, registry, resolver) {
        Ok(score) => {
            obligation.health_score = score;
            Ok(())
        },
        Err(e) => Err(e),
    }
}

} // verus!
