//! What holds between the operations of the ledger, whatever the state they
//! are applied to.

use crate::error::ErrorCode;
use crate::health::health_outcome;
use crate::health::HEALTHY_SCORE;
use crate::ledger::add_deposit_outcome;
use crate::ledger::guarded;
use crate::ledger::remove_deposit_outcome;
use crate::obligation::amount_of;
use crate::obligation::decrease_result;
use crate::obligation::decreased;
use crate::obligation::distinct_assets;
use crate::obligation::holds;
use crate::obligation::increased;
use crate::obligation::lemma_increased_wf;
use crate::obligation::lemma_position_at;
use crate::obligation::position_index;
use crate::obligation::ObligationView;
use crate::obligation::Position;
use crate::oracle::PriceResolver;
use crate::registry::add_asset_result;
use crate::registry::add_risk_param_outcome;
use crate::registry::asset_of;
use crate::registry::distinct_pairs;
use crate::registry::has_pair;
use crate::registry::lemma_asset_at;
use crate::registry::lemma_pair_at;
use crate::registry::lemma_registered_push;
use crate::registry::pair_index;
use crate::registry::registered;
use crate::registry::risk_level;
use crate::registry::AssetInfo;
use crate::registry::PairRiskParam;
use crate::registry::RegistryView;
use vstd::prelude::*;

verus! {

/// An asset added under a new identifier is read back exactly as it was
/// given, and the same identifier is refused from then on, whatever else the
/// second request holds.
pub proof fn law_added_asset_is_read_back(
    registry: RegistryView,
    added: AssetInfo,
    feed_text: Seq<u8>,
    second_feed_text: Seq<u8>,
)
    requires
        registry.wf(),
        add_asset_result(registry.assets, added.id, feed_text) is Ok,
    ensures
        registry.with_asset(added).wf(),
        registered(registry.with_asset(added).assets, added.id),
        asset_of(registry.with_asset(added).assets, added.id) == added,
        add_asset_result(registry.with_asset(added).assets, added.id, second_feed_text) == Err::<
            (),
            ErrorCode,
        >(ErrorCode::AssetAlreadyExists),
{
    let after = registry.with_asset(added).assets;
    assert forall|i: int, j: int| 0 <= i < j < after.len() implies (#[trigger] after[i]).id != (
    #[trigger] after[j]).id by {
        if j < registry.assets.len() {
            assert(after[i] == registry.assets[i] && after[j] == registry.assets[j]);
        } else {
            assert(after[i] == registry.assets[i]);
        }
    }
    assert(after[registry.assets.len() as int] == added);
    lemma_asset_at(after, registry.assets.len() as int);
    let params = registry.risk_params;
    assert forall|i: int| 0 <= i < params.len() implies registered(
        after,
        (#[trigger] params[i]).asset_id_a,
    ) && registered(after, params[i].asset_id_b) by {
        lemma_registered_push(registry.assets, added, params[i].asset_id_a);
        lemma_registered_push(registry.assets, added, params[i].asset_id_b);
    }
}

/// Once a risk level is set for the pair of `a` and `b`, none can be set for
/// the pair of `b` and `a`, nor for the pair of `a` and `b` again.
pub proof fn law_risk_pair_is_unordered(
    registry: RegistryView,
    a: u8,
    b: u8,
    first_level: u8,
    second_level: u8,
)
    requires
        add_risk_param_outcome(registry, a, b, first_level) is Ok,
    ensures
        add_risk_param_outcome(
            add_risk_param_outcome(registry, a, b, first_level)->Ok_0,
            b,
            a,
            second_level,
        ) == Err::<RegistryView, ErrorCode>(ErrorCode::RiskParamAlreadyExists),
        add_risk_param_outcome(
            add_risk_param_outcome(registry, a, b, first_level)->Ok_0,
            a,
            b,
            second_level,
        ) == Err::<RegistryView, ErrorCode>(ErrorCode::RiskParamAlreadyExists),
{
    let after = add_risk_param_outcome(registry, a, b, first_level)->Ok_0.risk_params;
    assert(after[registry.risk_params.len() as int].covers(b, a));
    assert(after[registry.risk_params.len() as int].covers(a, b));
}

/// The risk level of a pair does not depend on the order in which its two
/// assets are named.
pub proof fn law_risk_level_is_symmetric(params: Seq<PairRiskParam>, a: u8, b: u8)
    requires
        distinct_pairs(params),
    ensures
        has_pair(params, a, b) == has_pair(params, b, a),
        risk_level(params, a, b) == risk_level(params, b, a),
{
    if has_pair(params, a, b) {
        let k = pair_index(params, a, b);
        assert(params[k].covers(b, a));
        lemma_pair_at(params, k, b, a);
    }
    if has_pair(params, b, a) {
        let k = pair_index(params, b, a);
        assert(params[k].covers(a, b));
        lemma_pair_at(params, k, a, b);
    }
}

/// Adding an amount to a list of positions and taking the same amount away
/// gives the list back, place by place. The amount is not zero, and the list
/// held no empty position in the asset: without the first the position added
/// would stay, without the second the empty one would be dropped.
pub proof fn law_increase_then_decrease(
    positions: Seq<Position>,
    asset_id: u8,
    amount: u64,
    missing: ErrorCode,
    short: ErrorCode,
)
    requires
        distinct_assets(positions),
        amount > 0,
        holds(positions, asset_id) ==> 0 < amount_of(positions, asset_id) && amount_of(
            positions,
            asset_id,
        ) + amount <= u64::MAX,
    ensures
        decrease_result(increased(positions, asset_id, amount), asset_id, amount, missing, short)
            is Ok,
        decreased(increased(positions, asset_id, amount), asset_id, amount) == positions,
{
    let between = increased(positions, asset_id, amount);
    let k = if holds(positions, asset_id) {
        position_index(positions, asset_id)
    } else {
        positions.len() as int
    };
    lemma_increased_wf(positions, asset_id, amount);
    assert(between[k].asset_id == asset_id);
    lemma_position_at(between, k);
    assert(decreased(between, asset_id, amount) =~= positions);
}

/// A deposit followed by the withdrawal of the same amount, both granted,
/// restores the list of deposits exactly. The amount is not zero and the
/// obligation held no empty deposit in the asset.
pub proof fn law_deposit_round_trip(
    before: ObligationView,
    registry: RegistryView,
    resolver: PriceResolver,
    asset_id: u8,
    amount: u64,
)
    requires
        before.wf(),
        amount > 0,
        holds(before.deposits, asset_id) ==> amount_of(before.deposits, asset_id) > 0,
        add_deposit_outcome(before, registry, resolver, asset_id, amount) is Ok,
        remove_deposit_outcome(
            add_deposit_outcome(before, registry, resolver, asset_id, amount)->Ok_0,
            registry,
            resolver,
            asset_id,
            amount,
        ) is Ok,
    ensures
        remove_deposit_outcome(
            add_deposit_outcome(before, registry, resolver, asset_id, amount)->Ok_0,
            registry,
            resolver,
            asset_id,
            amount,
        )->Ok_0.deposits == before.deposits,
{
    law_increase_then_decrease(
        before.deposits,
        asset_id,
        amount,
        ErrorCode::DepositNotFound,
        ErrorCode::InsufficientDeposit,
    );
}

/// Whatever the guard commits is healthy, and the score on record is the
/// score of the lists on record: no change that leaves an obligation
/// unhealthy is ever seen as applied.
pub proof fn law_committed_is_healthy(
    before: ObligationView,
    deposits: Seq<Position>,
    borrows: Seq<Position>,
    registry: RegistryView,
    resolver: PriceResolver,
)
    requires
        guarded(before, deposits, borrows, registry, resolver) is Ok,
    ensures
        ({
            let after = guarded(before, deposits, borrows, registry, resolver)->Ok_0;
            &&& health_outcome(after.deposits, after.borrows, registry, resolver) == Ok::<
                u64,
                ErrorCode,
            >(after.health_score)
            &&& after.borrows.len() > 0 ==> after.health_score >= HEALTHY_SCORE
            &&& after.owner == before.owner
        }),
{
}

/// An obligation without a borrow is healthy, whatever it has deposited.
pub proof fn law_no_borrow_is_healthy(
    deposits: Seq<Position>,
    registry: RegistryView,
    resolver: PriceResolver,
)
    ensures
        health_outcome(deposits, Seq::<Position>::empty(), registry, resolver) == Ok::<
            u64,
            ErrorCode,
        >(u64::MAX),
{
}

} // verus!
