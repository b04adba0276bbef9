//! The guarded operations on an obligation. Each one makes its change on a
//! copy of the list concerned, has the risk engine judge the result, and
//! commits the copy only when the obligation is healthy with it.

use crate::error::ErrorCode;
use crate::health::evaluate_health;
use crate::health::health_outcome;
use crate::obligation::amount_of;
use crate::obligation::decrease_position;
use crate::obligation::decrease_result;
use crate::obligation::decreased;
use crate::obligation::holds;
use crate::obligation::increase_position;
use crate::obligation::increase_result;
use crate::obligation::increased;
use crate::obligation::positions_wf;
use crate::obligation::Obligation;
use crate::obligation::ObligationView;
use crate::obligation::Position;
use crate::obligation::MAX_BORROWS;
use crate::obligation::MAX_DEPOSITS;
use crate::oracle::PriceResolver;
use crate::registry::find_asset;
use crate::registry::registered;
use crate::registry::AssetRegistry;
use crate::registry::RegistryView;
use vstd::prelude::*;

verus! {

/// The guard over a tentative change: the obligation with the lists given
/// and their score, when the risk engine finds them healthy, else the
/// reason why nothing is committed.
pub open spec fn guarded(
    obligation: ObligationView,
    deposits: Seq<Position>,
    borrows: Seq<Position>,
    registry: RegistryView,
    resolver: PriceResolver,
) -> Result<ObligationView, ErrorCode> {
    match health_outcome(deposits, borrows, registry, resolver) {
        Ok(health_score) => Ok(ObligationView { deposits, borrows, health_score, ..obligation }),
        Err(e) => Err(e),
    }
}

/// What `add_deposit` decides: the obligation to commit, or the reason to
/// refuse.
pub open spec fn add_deposit_outcome(
    obligation: ObligationView,
    registry: RegistryView,
    resolver: PriceResolver,
    asset_id: u8,
    amount: u64,
) -> Result<ObligationView, ErrorCode> {
    if !registered(registry.assets, asset_id) {
        Err(ErrorCode::AssetNotFound)
    } else {
        match increase_result(obligation.deposits, asset_id, amount, MAX_DEPOSITS) {
            Err(e) => Err(e),
            Ok(_) => guarded(
                obligation,
                increased(obligation.deposits, asset_id, amount),
                obligation.borrows,
                registry,
                resolver,
            ),
        }
    }
}

/// What `add_borrow` decides: the obligation to commit, or the reason to
/// refuse.
pub open spec fn add_borrow_outcome(
    obligation: ObligationView,
    registry: RegistryView,
    resolver: PriceResolver,
    asset_id: u8,
    amount: u64,
) -> Result<ObligationView, ErrorCode> {
    if !registered(registry.assets, asset_id) {
        Err(ErrorCode::AssetNotFound)
    } else {
        match increase_result(obligation.borrows, asset_id, amount, MAX_BORROWS) {
            Err(e) => Err(e),
            Ok(_) => guarded(
                obligation,
                obligation.deposits,
                increased(obligation.borrows, asset_id, amount),
                registry,
                resolver,
            ),
        }
    }
}

/// What `remove_deposit` decides: the obligation to commit, or the reason
/// to refuse. An amount of zero is granted without a look at the obligation.
pub open spec fn remove_deposit_outcome(
    obligation: ObligationView,
    registry: RegistryView,
    resolver: PriceResolver,
    asset_id: u8,
    amount: u64,
) -> Result<ObligationView, ErrorCode> {
    if amount == 0 {
        Ok(obligation)
    } else {
        match decrease_result(
            obligation.deposits,
            asset_id,
            amount,
            ErrorCode::DepositNotFound,
            ErrorCode::InsufficientDeposit,
        ) {
            Err(e) => Err(e),
            Ok(_) => guarded(
                obligation,
                decreased(obligation.deposits, asset_id, amount),
                obligation.borrows,
                registry,
                resolver,
            ),
        }
    }
}

/// What `remove_borrow` decides: the obligation to commit, or the reason
/// to refuse. An amount of zero is granted without a look at the obligation.
pub open spec fn remove_borrow_outcome(
    obligation: ObligationView,
    registry: RegistryView,
    resolver: PriceResolver,
    asset_id: u8,
    amount: u64,
) -> Result<ObligationView, ErrorCode> {
    if amount == 0 {
        Ok(obligation)
    } else {
        match decrease_result(
            obligation.borrows,
            asset_id,
            amount,
            ErrorCode::BorrowNotFound,
            ErrorCode::InsufficientBorrow,
        ) {
            Err(e) => Err(e),
            Ok(_) => guarded(
                obligation,
                obligation.deposits,
                decreased(obligation.borrows, asset_id, amount),
                registry,
                resolver,
            ),
        }
    }
}

/// Commits a tentative list of deposits when the obligation is healthy with
/// it. The obligation is left exactly as it was unless the answer is `Ok`.
pub fn commit_deposits(
    obligation: &mut Obligation,
    deposits: Vec<Position>,
    registry: &AssetRegistry,
    resolver: &PriceResolver,
) -> (r: Result<(), ErrorCode>)
    requires
        old(obligation).wf(),
        positions_wf(deposits@, MAX_DEPOSITS),
        registry.wf(),
    ensures
        final(obligation).wf(),
        match guarded(old(obligation)@, deposits@, old(obligation)@.borrows, registry@, *resolver) {
            Ok(after) => r == Ok::<(), ErrorCode>(()) && final(obligation)@ == after,
            Err(e) => r == Err::<(), ErrorCode>(e) && *final(obligation) == *old(obligation),
        },
{
    match evaluate_health(&deposits, &obligation.borrows, registry, resolver) {
        Ok(score) => {
            obligation.deposits = deposits;
            obligation.health_score = score;
            Ok(())
        },
        Err(e) => Err(e),
    }
}

/// Commits a tentative list of borrows when the obligation is healthy with
/// it. The obligation is left exactly as it was unless the answer is `Ok`.
pub fn commit_borrows(
    obligation: &mut Obligation,
    borrows: Vec<Position>,
    registry: &AssetRegistry,
    resolver: &PriceResolver,
) -> (r: Result<(), ErrorCode>)
    requires
        old(obligation).wf(),
        positions_wf(borrows@, MAX_BORROWS),
        registry.wf(),
    ensures
        final(obligation).wf(),
        match guarded(old(obligation)@, old(obligation)@.deposits, borrows@, registry@, *resolver) {
            Ok(after) => r == Ok::<(), ErrorCode>(()) && final(obligation)@ == after,
            Err(e) => r == Err::<(), ErrorCode>(e) && *final(obligation) == *old(obligation),
        },
{
    match evaluate_health(&obligation.deposits, &borrows, registry, resolver) {
        Ok(score) => {
            obligation.borrows = borrows;
            obligation.health_score = score;
            Ok(())
        },
        Err(e) => Err(e),
    }
}

/// Deposits `amount` of the asset `asset_id`. An amount that does not fit on
/// top of the position is refused. The obligation is left exactly as it was
/// unless the answer is `Ok`.
pub fn add_deposit(
    obligation: &mut Obligation,
    registry: &AssetRegistry,
    resolver: &PriceResolver,
    asset_id: u8,
    amount: u64,
) -> (r: Result<(), ErrorCode>)
    requires
        old(obligation).wf(),
        registry.wf(),
    ensures
        final(obligation).wf(),
        registered(registry.assets@, asset_id) && holds(old(obligation).deposits@, asset_id)
            && amount_of(old(obligation).deposits@, asset_id) + amount > u64::MAX ==> r == Err::<
            (),
            ErrorCode,
        >(ErrorCode::MathOverflow) && *final(obligation) == *old(obligation),
        match add_deposit_outcome(old(obligation)@, registry@, *resolver, asset_id, amount) {
            Ok(after) => r == Ok::<(), ErrorCode>(()) && final(obligation)@ == after,
            Err(e) => r == Err::<(), ErrorCode>(e) && *final(obligation) == *old(obligation),
        },
{
    if find_asset(&registry.assets, asset_id).is_none() {
        return Err(ErrorCode::AssetNotFound);
    }
    match increase_position(&obligation.deposits, asset_id, amount, MAX_DEPOSITS) {
        Ok(deposits) => commit_deposits(obligation, deposits, registry, resolver),
        Err(e) => Err(e),
    }
}

/// Borrows `amount` of the asset `asset_id`. An amount that does not fit on
/// top of the position is refused. The obligation is left exactly as it was
/// unless the answer is `Ok`.
pub fn add_borrow(
    obligation: &mut Obligation,
    registry: &AssetRegistry,
    resolver: &PriceResolver,
    asset_id: u8,
    amount: u64,
) -> (r: Result<(), ErrorCode>)
    requires
        old(obligation).wf(),
        registry.wf(),
    ensures
        final(obligation).wf(),
        registered(registry.assets@, asset_id) && holds(old(obligation).borrows@, asset_id)
            && amount_of(old(obligation).borrows@, asset_id) + amount > u64::MAX ==> r == Err::<
            (),
            ErrorCode,
        >(ErrorCode::MathOverflow) && *final(obligation) == *old(obligation),
        match add_borrow_outcome(old(obligation)@, registry@, *resolver, asset_id, amount) {
            Ok(after) => r == Ok::<(), ErrorCode>(()) && final(obligation)@ == after,
            Err(e) => r == Err::<(), ErrorCode>(e) && *final(obligation) == *old(obligation),
        },
{
    if find_asset(&registry.assets, asset_id).is_none() {
        return Err(ErrorCode::AssetNotFound);
    }
    match increase_position(&obligation.borrows, asset_id, amount, MAX_BORROWS) {
        Ok(borrows) => commit_borrows(obligation, borrows, registry, resolver),
        Err(e) => Err(e),
    }
}

/// Withdraws `amount` of the asset `asset_id` from the deposits. An amount
/// of zero is granted at once and changes nothing. The obligation is left
/// exactly as it was unless the answer is `Ok`.
pub fn remove_deposit(
    obligation: &mut Obligation,
    registry: &AssetRegistry,
    resolver: &PriceResolver,
    asset_id: u8,
    amount: u64,
) -> (r: Result<(), ErrorCode>)
    requires
        old(obligation).wf(),
        registry.wf(),
    ensures
        final(obligation).wf(),
        amount == 0 ==> r == Ok::<(), ErrorCode>(()) && *final(obligation) == *old(obligation),
        match remove_deposit_outcome(old(obligation)@, registry@, *resolver, asset_id, amount) {
            Ok(after) => r == Ok::<(), ErrorCode>(()) && final(obligation)@ == after,
            Err(e) => r == Err::<(), ErrorCode>(e) && *final(obligation) == *old(obligation),
        },
{
    if amount == 0 {
        return Ok(());
    }
    match decrease_position(
        &obligation.deposits,
        asset_id,
        amount,
        ErrorCode::DepositNotFound,
        ErrorCode::InsufficientDeposit,
        MAX_DEPOSITS,
    ) {
        Ok(deposits) => commit_deposits(obligation, deposits, registry, resolver),
        Err(e) => Err(e),
    }
}

/// Repays `amount` of the asset `asset_id` from the borrows. An amount of
/// zero is granted at once and changes nothing. The obligation is left
/// exactly as it was unless the answer is `Ok`.
pub fn remove_borrow(
    obligation: &mut Obligation,
    registry: &AssetRegistry,
    resolver: &PriceResolver,
    asset_id: u8,
    amount: u64,
) -> (r: Result<(), ErrorCode>)
    requires
        old(obligation).wf(),
        registry.wf(),
    ensures
        final(obligation).wf(),
        amount == 0 ==> r == Ok::<(), ErrorCode>(()) && *final(obligation) == *old(obligation),
        match remove_borrow_outcome(old(obligation)@, registry@, *resolver, asset_id, amount) {
            Ok(after) => r == Ok::<(), ErrorCode>(()) && final(obligation)@ == after,
            Err(e) => r == Err::<(), ErrorCode>(e) && *final(obligation) == *old(obligation),
        },
{
    if amount == 0 {
        return Ok(());
    }
    match decrease_position(
        &obligation.borrows,
        asset_id,
        amount,
        ErrorCode::BorrowNotFound,
        ErrorCode::InsufficientBorrow,
        MAX_BORROWS,
    ) {
        Ok(borrows) => commit_borrows(obligation, borrows, registry, resolver),
        Err(e) => Err(e),
    }
}

} // verus!
