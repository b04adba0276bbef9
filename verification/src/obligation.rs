//! Obligations: what one owner has deposited and borrowed, a position per
//! asset, and how a list of positions grows and shrinks.

use crate::error::ErrorCode;
use crate::lists::copy_of;
use vstd::prelude::*;

verus! {

/// The most deposit positions that an obligation holds.
pub const MAX_DEPOSITS: usize = 11;

/// The most borrow positions that an obligation holds.
pub const MAX_BORROWS: usize = 10;

/// An amount of one asset, in the asset's native units.
#[derive(Clone, Copy, Debug, PartialEq, Eq, Structural)]
pub struct Position {
    pub asset_id: u8,
    pub amount: u64,
}

/// The deposits and borrows of one owner.
#[derive(Clone, Debug, PartialEq, Eq)]
pub struct Obligation {
    /// The identity that alone may change the obligation.
    pub owner: [u8; 32],
    pub deposits: Vec<Position>,
    pub borrows: Vec<Position>,
    /// The score that the last successful health check gave, times 1000.
    pub health_score: u64,
}

/// What an obligation holds, with its lists as sequences.
pub struct ObligationView {
    pub owner: [u8; 32],
    pub deposits: Seq<Position>,
    pub borrows: Seq<Position>,
    pub health_score: u64,
}

impl View for Obligation {
    type V = ObligationView;

    open spec fn view(&self) -> ObligationView {
        ObligationView {
            owner: self.owner,
            deposits: self.deposits@,
            borrows: self.borrows@,
            health_score: self.health_score,
        }
    }
}

/// True when `positions` has a position in the asset `asset_id`.
pub open spec fn holds(positions: Seq<Position>, asset_id: u8) -> bool {
    exists|i: int| 0 <= i < positions.len() && (#[trigger] positions[i]).asset_id == asset_id
}

/// Where the position in `asset_id` stands, if there is one.
pub open spec fn position_index(positions: Seq<Position>, asset_id: u8) -> int {
    choose|i: int| 0 <= i < positions.len() && (#[trigger] positions[i]).asset_id == asset_id
}

/// The amount of the position in `asset_id`, if there is one.
pub open spec fn amount_of(positions: Seq<Position>, asset_id: u8) -> u64 {
    positions[position_index(positions, asset_id)].amount
}

/// True when no two positions are in the same asset.
pub open spec fn distinct_assets(positions: Seq<Position>) -> bool {
    forall|i: int, j: int|
        0 <= i < j < positions.len() ==> (#[trigger] positions[i]).asset_id != (
        #[trigger] positions[j]).asset_id
}

/// The invariant of a list of positions that may hold `capacity` of them.
pub open spec fn positions_wf(positions: Seq<Position>, capacity: usize) -> bool {
    positions.len() <= capacity && distinct_assets(positions)
}

/// Whether `amount` can be added to the position in `asset_id`: the sum must
/// fit in a `u64`, and a new position needs room in the list.
pub open spec fn increase_result(
    positions: Seq<Position>,
    asset_id: u8,
    amount: u64,
    capacity: usize,
) -> Result<(), ErrorCode> {
    if holds(positions, asset_id) {
        if amount_of(positions, asset_id) + amount > u64::MAX {
            Err(ErrorCode::MathOverflow)
        } else {
            Ok(())
        }
    } else if positions.len() >= capacity {
        Err(ErrorCode::CapacityExceeded)
    } else {
        Ok(())
    }
}

/// The list after `amount` was added to the position in `asset_id`, which is
/// appended where the list had none.
pub open spec fn increased(positions: Seq<Position>, asset_id: u8, amount: u64) -> Seq<Position> {
    if holds(positions, asset_id) {
        positions.update(
            position_index(positions, asset_id),
            Position { asset_id, amount: (amount_of(positions, asset_id) + amount) as u64 },
        )
    } else {
        positions.push(Position { asset_id, amount })
    }
}

/// Whether `amount` can be taken from the position in `asset_id`: there must
/// be one, of at least that amount. `missing` and `short` are the errors of
/// the list at hand.
pub open spec fn decrease_result(
    positions: Seq<Position>,
    asset_id: u8,
    amount: u64,
    missing: ErrorCode,
    short: ErrorCode,
) -> Result<(), ErrorCode> {
    if !holds(positions, asset_id) {
        Err(missing)
    } else if amount_of(positions, asset_id) < amount {
        Err(short)
    } else {
        Ok(())
    }
}

/// The list after `amount` was taken from the position in `asset_id`, which
/// leaves the list when nothing is left of it.
pub open spec fn decreased(positions: Seq<Position>, asset_id: u8, amount: u64) -> Seq<Position> {
    let i = position_index(positions, asset_id);
    if positions[i].amount == amount {
        positions.remove(i)
    } else {
        positions.update(i, Position { asset_id, amount: (positions[i].amount - amount) as u64 })
    }
}

impl ObligationView {
    /// The invariant of an obligation: both lists within their bounds, with
    /// one position per asset.
    pub open spec fn wf(self) -> bool {
        &&& positions_wf(self.deposits, MAX_DEPOSITS)
        &&& positions_wf(self.borrows, MAX_BORROWS)
    }

    /// The obligation with another score on record.
    pub open spec fn with_score(self, health_score: u64) -> ObligationView {
        ObligationView { health_score, ..self }
    }
}

impl Obligation {
    /// The invariant of an obligation, see [`ObligationView::wf`].
    pub open spec fn wf(&self) -> bool {
        self@.wf()
    }
}

/// Among positions in distinct assets, the one found at `k` is the position
/// in its asset.
pub proof fn lemma_position_at(positions: Seq<Position>, k: int)
    requires
        distinct_assets(positions),
        0 <= k < positions.len(),
    ensures
        holds(positions, positions[k].asset_id),
        position_index(positions, positions[k].asset_id) == k,
        amount_of(positions, positions[k].asset_id) == positions[k].amount,
{
    let asset_id = positions[k].asset_id;
    let i = position_index(positions, asset_id);
    assert(0 <= i < positions.len() && positions[i].asset_id == asset_id);
    if i < k {
        assert(positions[i].asset_id != positions[k].asset_id);
    } else if k < i {
        assert(positions[k].asset_id != positions[i].asset_id);
    }
}

/// Adding to a list keeps one position per asset and adds at most one.
pub proof fn lemma_increased_wf(positions: Seq<Position>, asset_id: u8, amount: u64)
    requires
        distinct_assets(positions),
    ensures
        distinct_assets(increased(positions, asset_id, amount)),
        holds(positions, asset_id) ==> increased(positions, asset_id, amount).len()
            == positions.len(),
        !holds(positions, asset_id) ==> increased(positions, asset_id, amount).len()
            == positions.len() + 1,
{
    let after = increased(positions, asset_id, amount);
    if holds(positions, asset_id) {
        let k = position_index(positions, asset_id);
        assert forall|i: int, j: int| 0 <= i < j < after.len() implies (
        #[trigger] after[i]).asset_id != (#[trigger] after[j]).asset_id by {
            assert(after[i].asset_id == positions[i].asset_id);
            assert(after[j].asset_id == positions[j].asset_id);
        }
    } else {
        assert forall|i: int, j: int| 0 <= i < j < after.len() implies (
        #[trigger] after[i]).asset_id != (#[trigger] after[j]).asset_id by {
            if j < positions.len() {
                assert(after[i] == positions[i] && after[j] == positions[j]);
            } else {
                assert(after[i] == positions[i]);
            }
        }
    }
}

/// Taking from a list keeps one position per asset and adds none.
pub proof fn lemma_decreased_wf(positions: Seq<Position>, asset_id: u8, amount: u64)
    requires
        distinct_assets(positions),
        holds(positions, asset_id),
    ensures
        distinct_assets(decreased(positions, asset_id, amount)),
        decreased(positions, asset_id, amount).len() <= positions.len(),
{
    let after = decreased(positions, asset_id, amount);
    let k = position_index(positions, asset_id);
    if positions[k].amount == amount {
        assert forall|i: int, j: int| 0 <= i < j < after.len() implies (
        #[trigger] after[i]).asset_id != (#[trigger] after[j]).asset_id by {
            let si = if i < k { i } else { i + 1 };
            let sj = if j < k { j } else { j + 1 };
            assert(after[i] == positions[si]);
            assert(after[j] == positions[sj]);
        }
    } else {
        assert forall|i: int, j: int| 0 <= i < j < after.len() implies (
        #[trigger] after[i]).asset_id != (#[trigger] after[j]).asset_id by {
            assert(after[i].asset_id == positions[i].asset_id);
            assert(after[j].asset_id == positions[j].asset_id);
        }
    }
}

/// Finds the first position in the asset `asset_id`.
pub fn find_position(positions: &Vec<Position>, asset_id: u8) -> (r: Option<usize>)
    ensures
        match r {
            Some(k) => k < positions@.len() && positions@[k as int].asset_id == asset_id
                && forall|j: int| 0 <= j < k ==> (#[trigger] positions@[j]).asset_id != asset_id,
            None => !holds(positions@, asset_id),
        },
{
    let mut i: usize = 0;
    while i < positions.len()
        invariant
            i <= positions@.len(),
            forall|j: int| 0 <= j < i ==> (#[trigger] positions@[j]).asset_id != asset_id,
        decreases positions@.len() - i,
    {
        if positions[i].asset_id == asset_id {
            return Some(i);
        }
        i = i + 1;
    }
    None
}

/// Adds `amount` to the position in `asset_id` on a copy of the list, and
/// appends the position where there was none. The list given is not changed.
pub fn increase_position(
    positions: &Vec<Position>,
    asset_id: u8,
    amount: u64,
    capacity: usize,
) -> (r: Result<Vec<Position>, ErrorCode>)
    requires
        positions_wf(positions@, capacity),
    ensures
        match r {
            Ok(next) => increase_result(positions@, asset_id, amount, capacity) is Ok && next@
                == increased(positions@, asset_id, amount) && positions_wf(next@, capacity),
            Err(e) => increase_result(positions@, asset_id, amount, capacity) == Err::<
                (),
                ErrorCode,
            >(e),
        },
{
    proof {
        lemma_increased_wf(positions@, asset_id, amount);
    }
    match find_position(positions, asset_id) {
        Some(k) => {
            proof {
                lemma_position_at(positions@, k as int);
            }
            match positions[k].amount.checked_add(amount) {
                None => Err(ErrorCode::MathOverflow),
                Some(sum) => {
                    let mut next = copy_of(positions);
                    next.set(k, Position { asset_id, amount: sum });
                    Ok(next)
                },
            }
        },
        None => {
            if positions.len() >= capacity {
                Err(ErrorCode::CapacityExceeded)
            } else {
                let mut next = copy_of(positions);
                next.push(Position { asset_id, amount });
                Ok(next)
            }
        },
    }
}

/// Takes `amount` from the position in `asset_id` on a copy of the list, and
/// drops the position when nothing is left of it. The list given is not
/// changed.
pub fn decrease_position(
    positions: &Vec<Position>,
    asset_id: u8,
    amount: u64,
    missing: ErrorCode,
    short: ErrorCode,
    capacity: usize,
) -> (r: Result<Vec<Position>, ErrorCode>)
    requires
        positions_wf(positions@, capacity),
    ensures
        match r {
            Ok(next) => decrease_result(positions@, asset_id, amount, missing, short) is Ok
                && next@ == decreased(positions@, asset_id, amount) && positions_wf(
                next@,
                capacity,
            ),
            Err(e) => decrease_result(positions@, asset_id, amount, missing, short) == Err::<
                (),
                ErrorCode,
            >(e),
        },
{
    match find_position(positions, asset_id) {
        None => Err(missing),
        Some(k) => {
            proof {
                lemma_position_at(positions@, k as int);
                lemma_decreased_wf(positions@, asset_id, amount);
            }
            let held = positions[k].amount;
            if held < amount {
                Err(short)
            } else {
                let mut next = copy_of(positions);
                if held == amount {
                    next.remove(k);
                } else {
                    next.set(k, Position { asset_id, amount: held - amount });
                }
                Ok(next)
            }
        },
    }
}

/// Creates the obligation of `owner`, with no deposit and no borrow.
pub fn init_obligation(owner: [u8; 32]) -> (obligation: Obligation)
    ensures
        obligation.wf(),
        obligation@ == (ObligationView {
            owner,
            deposits: Seq::<Position>::empty(),
            borrows: Seq::<Position>::empty(),
            health_score: 0,
        }),
{
    Obligation { owner, deposits: Vec::new(), borrows: Vec::new(), health_score: 0 }
}

/// Closes an obligation for good. The answer is the owner, to whom the
/// reserve that the record held goes back.
pub fn delete_obligation(obligation: Obligation) -> (owner: [u8; 32])
    ensures
        owner == obligation.owner,
{
    obligation.owner
}

/// Tells whether a list of positions meets its invariant.
pub fn positions_well_formed(positions: &Vec<Position>, capacity: usize) -> (ok: bool)
    ensures
        ok == positions_wf(positions@, capacity),
{
    if positions.len() > capacity {
        return false;
    }
    let mut j: usize = 0;
    while j < positions.len()
        invariant
            j <= positions@.len(),
            forall|a: int, b: int|
                0 <= a < b < j ==> (#[trigger] positions@[a]).asset_id != (
                #[trigger] positions@[b]).asset_id,
        decreases positions@.len() - j,
    {
        let mut i: usize = 0;
        while i < j
            invariant
                i <= j < positions@.len(),
                forall|a: int|
                    0 <= a < i ==> (#[trigger] positions@[a]).asset_id != positions@[j as
                        int].asset_id,
            decreases j - i,
        {
            if positions[i].asset_id == positions[j].asset_id {
                return false;
            }
            i = i + 1;
        }
        j = j + 1;
    }
    true
}

impl Obligation {
    /// Tells whether the obligation meets its invariant.
    pub fn is_well_formed(&self) -> (ok: bool)
        ensures
            ok == self.wf(),
    {
        positions_well_formed(&self.deposits, MAX_DEPOSITS) && positions_well_formed(
            &self.borrows,
            MAX_BORROWS,
        )
    }
}

} // verus!
