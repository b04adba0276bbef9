use collateral_ledger::add_asset;
use collateral_ledger::add_borrow;
use collateral_ledger::add_deposit;
use collateral_ledger::add_risk_param;
use collateral_ledger::debug_read_all_data;
use collateral_ledger::delete_obligation;
use collateral_ledger::init_obligation;
use collateral_ledger::initialize_asset_registry;
use collateral_ledger::ledger::commit_borrows;
use collateral_ledger::ledger::commit_deposits;
use collateral_ledger::obligation::decrease_position;
use collateral_ledger::obligation::find_position;
use collateral_ledger::obligation::increase_position;
use collateral_ledger::obligation::positions_well_formed;
use collateral_ledger::remove_borrow;
use collateral_ledger::remove_deposit;
use collateral_ledger::update_asset_price;
use collateral_ledger::AssetRegistry;
use collateral_ledger::ErrorCode;
use collateral_ledger::Obligation;
use collateral_ledger::Position;
use collateral_ledger::PriceResolver;
use collateral_ledger::Snapshot;

fn position(asset_id: u8, amount: u64) -> Position {
    Position { asset_id, amount }
}

fn off() -> PriceResolver {
    PriceResolver::unavailable()
}

fn registry_of(count: u8) -> AssetRegistry {
    let mut registry = initialize_asset_registry([7u8; 32]);
    for id in 0..count {
        assert_eq!(add_asset(&mut registry, id, 100, 0, &format!("{:064x}", id)), Ok(()));
    }
    registry
}

fn scenario_registry() -> AssetRegistry {
    let mut registry = initialize_asset_registry([7u8; 32]);
    assert_eq!(add_asset(&mut registry, 1, 100, 0, &format!("{:064x}", 1)), Ok(()));
    assert_eq!(add_asset(&mut registry, 2, 50, 0, &format!("{:064x}", 2)), Ok(()));
    assert_eq!(add_risk_param(&mut registry, 1, 2, 20), Ok(()));
    registry
}

#[test]
fn new_obligation_is_empty() {
    let obligation = init_obligation([5u8; 32]);
    assert_eq!(
        obligation,
        Obligation { owner: [5u8; 32], deposits: vec![], borrows: vec![], health_score: 0 }
    );
    assert!(obligation.is_well_formed());
}

#[test]
fn borrow_against_thin_collateral_is_refused() {
    let registry = scenario_registry();
    let mut obligation = init_obligation([5u8; 32]);
    assert_eq!(add_deposit(&mut obligation, &registry, &off(), 1, 10), Ok(()));
    let before = obligation.clone();
    assert_eq!(add_borrow(&mut obligation, &registry, &off(), 2, 15), Err(ErrorCode::Unhealthy));
    assert_eq!(obligation, before);
    assert!(obligation.borrows.is_empty());
}

#[test]
fn borrow_against_thick_collateral_is_granted() {
    let registry = scenario_registry();
    let mut obligation = init_obligation([5u8; 32]);
    assert_eq!(add_deposit(&mut obligation, &registry, &off(), 1, 100), Ok(()));
    assert_eq!(add_borrow(&mut obligation, &registry, &off(), 2, 15), Ok(()));
    assert_eq!(
        obligation,
        Obligation {
            owner: [5u8; 32],
            deposits: vec![position(1, 100)],
            borrows: vec![position(2, 15)],
            health_score: 2666,
        }
    );
}

#[test]
fn deposit_in_an_unknown_asset_is_refused() {
    let registry = registry_of(2);
    let mut obligation = init_obligation([5u8; 32]);
    let before = obligation.clone();
    assert_eq!(add_deposit(&mut obligation, &registry, &off(), 2, 10), Err(ErrorCode::AssetNotFound));
    assert_eq!(add_borrow(&mut obligation, &registry, &off(), 2, 10), Err(ErrorCode::AssetNotFound));
    assert_eq!(obligation, before);
}

#[test]
fn deposits_in_one_asset_add_up() {
    let registry = registry_of(3);
    let mut obligation = init_obligation([5u8; 32]);
    assert_eq!(add_deposit(&mut obligation, &registry, &off(), 1, 10), Ok(()));
    assert_eq!(add_deposit(&mut obligation, &registry, &off(), 2, 5), Ok(()));
    assert_eq!(add_deposit(&mut obligation, &registry, &off(), 1, 32), Ok(()));
    assert_eq!(obligation.deposits, vec![position(1, 42), position(2, 5)]);
    assert_eq!(obligation.health_score, u64::MAX);
    assert!(obligation.is_well_formed());
}

#[test]
fn deposit_of_nothing_opens_an_empty_position() {
    let registry = registry_of(3);
    let mut obligation = init_obligation([5u8; 32]);
    assert_eq!(add_deposit(&mut obligation, &registry, &off(), 1, 0), Ok(()));
    assert_eq!(obligation.deposits, vec![position(1, 0)]);
    assert_eq!(remove_deposit(&mut obligation, &registry, &off(), 1, 0), Ok(()));
    assert_eq!(obligation.deposits, vec![position(1, 0)]);
}

#[test]
fn deposit_that_overflows_is_refused() {
    let registry = registry_of(3);
    let mut obligation = init_obligation([5u8; 32]);
    assert_eq!(add_deposit(&mut obligation, &registry, &off(), 1, u64::MAX - 5), Ok(()));
    let before = obligation.clone();
    assert_eq!(add_deposit(&mut obligation, &registry, &off(), 1, 6), Err(ErrorCode::MathOverflow));
    assert_eq!(obligation, before);
    assert_eq!(add_deposit(&mut obligation, &registry, &off(), 1, 5), Ok(()));
    assert_eq!(obligation.deposits, vec![position(1, u64::MAX)]);
    assert_eq!(add_deposit(&mut obligation, &registry, &off(), 1, 1), Err(ErrorCode::MathOverflow));
}

#[test]
fn borrow_that_overflows_is_refused() {
    let mut registry = registry_of(3);
    assert_eq!(update_asset_price(&mut registry, 2, 0), Ok(()));
    let mut obligation = init_obligation([5u8; 32]);
    assert_eq!(add_borrow(&mut obligation, &registry, &off(), 2, u64::MAX), Ok(()));
    let before = obligation.clone();
    assert_eq!(add_borrow(&mut obligation, &registry, &off(), 2, 1), Err(ErrorCode::MathOverflow));
    assert_eq!(obligation, before);
}

#[test]
fn twelfth_deposit_is_refused() {
    let registry = registry_of(13);
    let mut obligation = init_obligation([5u8; 32]);
    for id in 0..11 {
        assert_eq!(add_deposit(&mut obligation, &registry, &off(), id, 1), Ok(()));
    }
    assert_eq!(obligation.deposits.len(), 11);
    let before = obligation.clone();
    assert_eq!(add_deposit(&mut obligation, &registry, &off(), 11, 1), Err(ErrorCode::CapacityExceeded));
    assert_eq!(obligation, before);
    assert_eq!(add_deposit(&mut obligation, &registry, &off(), 10, 1), Ok(()));
    assert!(obligation.is_well_formed());
}

#[test]
fn eleventh_borrow_is_refused() {
    let registry = registry_of(13);
    let mut obligation = init_obligation([5u8; 32]);
    assert_eq!(add_deposit(&mut obligation, &registry, &off(), 12, 1_000_000), Ok(()));
    for id in 0..10 {
        assert_eq!(add_borrow(&mut obligation, &registry, &off(), id, 1), Ok(()));
    }
    assert_eq!(obligation.borrows.len(), 10);
    let before = obligation.clone();
    assert_eq!(add_borrow(&mut obligation, &registry, &off(), 10, 1), Err(ErrorCode::CapacityExceeded));
    assert_eq!(obligation, before);
    assert!(obligation.is_well_formed());
}

#[test]
fn removing_nothing_always_succeeds() {
    let registry = registry_of(2);
    let mut obligation = init_obligation([5u8; 32]);
    assert_eq!(remove_deposit(&mut obligation, &registry, &off(), 1, 0), Ok(()));
    assert_eq!(remove_borrow(&mut obligation, &registry, &off(), 1, 0), Ok(()));
    assert_eq!(remove_deposit(&mut obligation, &registry, &off(), 200, 0), Ok(()));
    assert_eq!(remove_borrow(&mut obligation, &registry, &off(), 200, 0), Ok(()));
    assert_eq!(obligation, init_obligation([5u8; 32]));
}

#[test]
fn removing_nothing_skips_the_health_check() {
    let registry = scenario_registry();
    let mut thin = Obligation {
        owner: [5u8; 32],
        deposits: vec![position(1, 10)],
        borrows: vec![position(2, 15)],
        health_score: 7,
    };
    let before = thin.clone();
    assert_eq!(remove_deposit(&mut thin, &registry, &off(), 1, 0), Ok(()));
    assert_eq!(remove_borrow(&mut thin, &registry, &off(), 2, 0), Ok(()));
    assert_eq!(thin, before);
}

#[test]
fn removing_from_a_missing_position_is_refused() {
    let registry = registry_of(3);
    let mut obligation = init_obligation([5u8; 32]);
    assert_eq!(add_deposit(&mut obligation, &registry, &off(), 1, 10), Ok(()));
    let before = obligation.clone();
    assert_eq!(remove_deposit(&mut obligation, &registry, &off(), 2, 1), Err(ErrorCode::DepositNotFound));
    assert_eq!(remove_borrow(&mut obligation, &registry, &off(), 1, 1), Err(ErrorCode::BorrowNotFound));
    assert_eq!(obligation, before);
}

#[test]
fn removing_more_than_is_held_is_refused() {
    let registry = registry_of(3);
    let mut obligation = init_obligation([5u8; 32]);
    assert_eq!(add_deposit(&mut obligation, &registry, &off(), 1, 1000), Ok(()));
    assert_eq!(add_borrow(&mut obligation, &registry, &off(), 2, 10), Ok(()));
    let before = obligation.clone();
    assert_eq!(
        remove_deposit(&mut obligation, &registry, &off(), 1, 1001),
        Err(ErrorCode::InsufficientDeposit)
    );
    assert_eq!(
        remove_borrow(&mut obligation, &registry, &off(), 2, 11),
        Err(ErrorCode::InsufficientBorrow)
    );
    assert_eq!(obligation, before);
}

#[test]
fn part_of_a_position_is_removed() {
    let registry = registry_of(3);
    let mut obligation = init_obligation([5u8; 32]);
    assert_eq!(add_deposit(&mut obligation, &registry, &off(), 1, 1000), Ok(()));
    assert_eq!(add_borrow(&mut obligation, &registry, &off(), 2, 10), Ok(()));
    assert_eq!(remove_deposit(&mut obligation, &registry, &off(), 1, 400), Ok(()));
    assert_eq!(obligation.deposits, vec![position(1, 600)]);
    assert_eq!(obligation.health_score, 30_000);
    assert_eq!(remove_borrow(&mut obligation, &registry, &off(), 2, 4), Ok(()));
    assert_eq!(obligation.borrows, vec![position(2, 6)]);
    assert_eq!(obligation.health_score, 50_000);
}

#[test]
fn emptied_position_leaves_the_list() {
    let registry = registry_of(4);
    let mut obligation = init_obligation([5u8; 32]);
    for id in 0..4 {
        assert_eq!(add_deposit(&mut obligation, &registry, &off(), id, 10 + id as u64), Ok(()));
    }
    assert_eq!(remove_deposit(&mut obligation, &registry, &off(), 1, 11), Ok(()));
    assert_eq!(obligation.deposits, vec![position(0, 10), position(2, 12), position(3, 13)]);
    assert_eq!(add_borrow(&mut obligation, &registry, &off(), 0, 1), Ok(()));
    assert_eq!(add_borrow(&mut obligation, &registry, &off(), 1, 1), Ok(()));
    assert_eq!(remove_borrow(&mut obligation, &registry, &off(), 0, 1), Ok(()));
    assert_eq!(obligation.borrows, vec![position(1, 1)]);
    assert_eq!(remove_borrow(&mut obligation, &registry, &off(), 1, 1), Ok(()));
    assert!(obligation.borrows.is_empty());
    assert_eq!(obligation.health_score, u64::MAX);
}

#[test]
fn deposit_and_withdrawal_restore_the_list() {
    let registry = registry_of(4);
    let mut obligation = init_obligation([5u8; 32]);
    assert_eq!(add_deposit(&mut obligation, &registry, &off(), 0, 10), Ok(()));
    assert_eq!(add_deposit(&mut obligation, &registry, &off(), 1, 20), Ok(()));
    let before = obligation.deposits.clone();
    assert_eq!(add_deposit(&mut obligation, &registry, &off(), 2, 7), Ok(()));
    assert_eq!(remove_deposit(&mut obligation, &registry, &off(), 2, 7), Ok(()));
    assert_eq!(obligation.deposits, before);
    assert_eq!(add_deposit(&mut obligation, &registry, &off(), 0, 7), Ok(()));
    assert_eq!(obligation.deposits, vec![position(0, 17), position(1, 20)]);
    assert_eq!(remove_deposit(&mut obligation, &registry, &off(), 0, 7), Ok(()));
    assert_eq!(obligation.deposits, before);
}

#[test]
fn withdrawal_that_leaves_too_little_is_refused() {
    let registry = scenario_registry();
    let mut obligation = init_obligation([5u8; 32]);
    assert_eq!(add_deposit(&mut obligation, &registry, &off(), 1, 100), Ok(()));
    assert_eq!(add_borrow(&mut obligation, &registry, &off(), 2, 15), Ok(()));
    let before = obligation.clone();
    assert_eq!(remove_deposit(&mut obligation, &registry, &off(), 1, 90), Err(ErrorCode::Unhealthy));
    assert_eq!(remove_deposit(&mut obligation, &registry, &off(), 1, 100), Err(ErrorCode::Unhealthy));
    assert_eq!(obligation, before);
    assert_eq!(remove_deposit(&mut obligation, &registry, &off(), 1, 62), Ok(()));
    assert_eq!(obligation.deposits, vec![position(1, 38)]);
    assert_eq!(obligation.health_score, 1013);
}

#[test]
fn changes_that_leave_it_unhealthy_are_refused() {
    let mut registry = scenario_registry();
    let mut obligation = init_obligation([5u8; 32]);
    assert_eq!(add_deposit(&mut obligation, &registry, &off(), 1, 100), Ok(()));
    assert_eq!(add_borrow(&mut obligation, &registry, &off(), 2, 15), Ok(()));
    assert_eq!(update_asset_price(&mut registry, 1, 10), Ok(()));
    let before = obligation.clone();
    assert_eq!(add_deposit(&mut obligation, &registry, &off(), 1, 1), Err(ErrorCode::Unhealthy));
    assert_eq!(remove_borrow(&mut obligation, &registry, &off(), 2, 1), Err(ErrorCode::Unhealthy));
    assert_eq!(obligation, before);
    assert_eq!(add_deposit(&mut obligation, &registry, &off(), 1, 300), Ok(()));
    assert_eq!(obligation.deposits, vec![position(1, 400)]);
    assert_eq!(obligation.health_score, 1066);
}

#[test]
fn repaying_everything_is_always_granted() {
    let mut registry = scenario_registry();
    let mut obligation = init_obligation([5u8; 32]);
    assert_eq!(add_deposit(&mut obligation, &registry, &off(), 1, 100), Ok(()));
    assert_eq!(add_borrow(&mut obligation, &registry, &off(), 2, 15), Ok(()));
    assert_eq!(update_asset_price(&mut registry, 1, 0), Ok(()));
    assert_eq!(remove_borrow(&mut obligation, &registry, &off(), 2, 15), Ok(()));
    assert!(obligation.borrows.is_empty());
    assert_eq!(obligation.health_score, u64::MAX);
}

#[test]
fn positions_grow_on_a_copy() {
    let positions = vec![position(1, 10), position(2, 20)];
    assert_eq!(
        increase_position(&positions, 2, 5, 11),
        Ok(vec![position(1, 10), position(2, 25)])
    );
    assert_eq!(
        increase_position(&positions, 3, 5, 11),
        Ok(vec![position(1, 10), position(2, 20), position(3, 5)])
    );
    assert_eq!(increase_position(&positions, 3, 5, 2), Err(ErrorCode::CapacityExceeded));
    assert_eq!(increase_position(&positions, 1, u64::MAX, 2), Err(ErrorCode::MathOverflow));
    assert_eq!(positions, vec![position(1, 10), position(2, 20)]);
}

#[test]
fn positions_shrink_on_a_copy() {
    let positions = vec![position(1, 10), position(2, 20), position(3, 30)];
    let missing = ErrorCode::DepositNotFound;
    let short = ErrorCode::InsufficientDeposit;
    assert_eq!(
        decrease_position(&positions, 2, 5, missing, short, 11),
        Ok(vec![position(1, 10), position(2, 15), position(3, 30)])
    );
    assert_eq!(
        decrease_position(&positions, 2, 20, missing, short, 11),
        Ok(vec![position(1, 10), position(3, 30)])
    );
    assert_eq!(decrease_position(&positions, 2, 21, missing, short, 11), Err(short));
    assert_eq!(decrease_position(&positions, 4, 1, missing, short, 11), Err(missing));
    assert_eq!(
        decrease_position(&positions, 4, 1, ErrorCode::BorrowNotFound, ErrorCode::InsufficientBorrow, 11),
        Err(ErrorCode::BorrowNotFound)
    );
    assert_eq!(positions.len(), 3);
}

#[test]
fn positions_are_found_by_asset() {
    let positions = vec![position(4, 10), position(8, 20)];
    assert_eq!(find_position(&positions, 4), Some(0));
    assert_eq!(find_position(&positions, 8), Some(1));
    assert_eq!(find_position(&positions, 0), None);
    assert_eq!(find_position(&vec![], 0), None);
    let twice = vec![position(4, 10), position(8, 20), position(8, 30)];
    assert_eq!(find_position(&twice, 8), Some(1));
}

#[test]
fn ill_formed_position_lists_are_told_apart() {
    assert!(positions_well_formed(&vec![], 0));
    assert!(positions_well_formed(&vec![position(1, 0), position(2, 0)], 2));
    assert!(!positions_well_formed(&vec![position(1, 0), position(2, 0)], 1));
    assert!(!positions_well_formed(&vec![position(1, 5), position(2, 0), position(1, 6)], 11));
    let crowded = Obligation {
        owner: [0u8; 32],
        deposits: (0..11).map(|id| position(id, 1)).collect(),
        borrows: (0..11).map(|id| position(id, 1)).collect(),
        health_score: 0,
    };
    assert!(!crowded.is_well_formed());
}

#[test]
fn snapshot_copies_everything() {
    let registry = scenario_registry();
    let mut obligation = init_obligation([5u8; 32]);
    assert_eq!(add_deposit(&mut obligation, &registry, &off(), 1, 100), Ok(()));
    assert_eq!(add_borrow(&mut obligation, &registry, &off(), 2, 15), Ok(()));
    let snapshot = debug_read_all_data(&registry, &obligation);
    assert_eq!(snapshot.registry.authority, [7u8; 32]);
    assert_eq!(snapshot.registry.assets.len(), 2);
    assert_eq!(snapshot.registry.risk_params.len(), 1);
    assert_eq!(
        snapshot,
        Snapshot {
            registry: registry.clone(),
            obligation: Obligation {
                owner: [5u8; 32],
                deposits: vec![position(1, 100)],
                borrows: vec![position(2, 15)],
                health_score: 2666,
            },
        }
    );
}

#[test]
fn closing_an_obligation_names_its_owner() {
    assert_eq!(delete_obligation(init_obligation([5u8; 32])), [5u8; 32]);
}

#[test]
fn tentative_lists_are_committed_only_when_healthy() {
    let registry = scenario_registry();
    let mut obligation = Obligation {
        owner: [5u8; 32],
        deposits: vec![position(1, 100)],
        borrows: vec![position(2, 15)],
        health_score: 0,
    };
    let before = obligation.clone();
    assert_eq!(
        commit_deposits(&mut obligation, vec![position(1, 10)], &registry, &off()),
        Err(ErrorCode::Unhealthy)
    );
    assert_eq!(
        commit_borrows(&mut obligation, vec![position(2, 100)], &registry, &off()),
        Err(ErrorCode::Unhealthy)
    );
    assert_eq!(
        commit_borrows(&mut obligation, vec![position(9, 1)], &registry, &off()),
        Err(ErrorCode::AssetNotFound)
    );
    assert_eq!(obligation, before);
    assert_eq!(commit_deposits(&mut obligation, vec![position(1, 200)], &registry, &off()), Ok(()));
    assert_eq!(obligation.deposits, vec![position(1, 200)]);
    assert_eq!(obligation.borrows, vec![position(2, 15)]);
    assert_eq!(obligation.health_score, 5333);
    assert_eq!(commit_borrows(&mut obligation, vec![position(2, 30)], &registry, &off()), Ok(()));
    assert_eq!(obligation.deposits, vec![position(1, 200)]);
    assert_eq!(obligation.borrows, vec![position(2, 30)]);
    assert_eq!(obligation.health_score, 2666);
    assert_eq!(commit_borrows(&mut obligation, vec![], &registry, &off()), Ok(()));
    assert_eq!(obligation.health_score, u64::MAX);
}
