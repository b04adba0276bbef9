use anchor_lang::prelude::Pubkey;
use anchor_lang::AccountSerialize;
use collateral_ledger::add_asset;
use collateral_ledger::demonstrate_oracle_price_pull;
use collateral_ledger::get_pyth_price;
use collateral_ledger::initialize_asset_registry;
use collateral_ledger::oracle::exponent_magnitude;
use collateral_ledger::oracle::price_as_unsigned;
use collateral_ledger::oracle::scale_price;
use collateral_ledger::oracle::scale_price_to_cents;
use collateral_ledger::refresh::fetch_oracle_price;
use collateral_ledger::update_price_from_pyth;
use collateral_ledger::AssetInfo;
use collateral_ledger::AssetRegistry;
use collateral_ledger::ErrorCode;
use collateral_ledger::OracleFailure;
use collateral_ledger::Price;
use collateral_ledger::PriceComparison;
use collateral_ledger::PriceResolver;
use collateral_ledger::PriceUpdate;
use collateral_ledger::VerificationLevel;
use pyth_solana_receiver_sdk::price_update::PriceFeedMessage;
use pyth_solana_receiver_sdk::price_update::PriceUpdateV2;

const NOW: i64 = 1_700_000_000;

fn feed(n: u8) -> [u8; 32] {
    let mut bytes = [0u8; 32];
    bytes[31] = n;
    bytes
}

fn update(feed_id: [u8; 32], price: i64, exponent: i32, publish_time: i64) -> PriceUpdate {
    PriceUpdate {
        verification_level: VerificationLevel::Full,
        feed_id,
        price,
        conf: 17,
        exponent,
        publish_time,
    }
}

fn resolver(feed_id: [u8; 32], price: i64, exponent: i32, age: i64) -> PriceResolver {
    PriceResolver { update: Some(update(feed_id, price, exponent, NOW - age)), unix_timestamp: NOW }
}

fn account_bytes(
    level: pyth_solana_receiver_sdk::price_update::VerificationLevel,
    feed_id: [u8; 32],
) -> Vec<u8> {
    let account = PriceUpdateV2 {
        write_authority: Pubkey::new_from_array([3u8; 32]),
        verification_level: level,
        price_message: PriceFeedMessage {
            feed_id,
            price: -4_200,
            conf: 55,
            exponent: -3,
            publish_time: NOW - 5,
            prev_publish_time: NOW - 6,
            ema_price: 4_100,
            ema_conf: 50,
        },
        posted_slot: 99,
    };
    let mut data: Vec<u8> = Vec::new();
    account.try_serialize(&mut data).unwrap();
    data
}

fn registry_with_asset(price: u64) -> AssetRegistry {
    let mut registry = initialize_asset_registry([7u8; 32]);
    assert_eq!(add_asset(&mut registry, 1, price, 0, &format!("{:064x}", 1)), Ok(()));
    registry
}

#[test]
fn account_bytes_are_decoded() {
    let data = account_bytes(pyth_solana_receiver_sdk::price_update::VerificationLevel::Full, feed(4));
    let resolver = PriceResolver::from_account_data(&data, NOW);
    assert_eq!(resolver.unix_timestamp, NOW);
    assert_eq!(
        resolver.update,
        Some(PriceUpdate {
            verification_level: VerificationLevel::Full,
            feed_id: feed(4),
            price: -4_200,
            conf: 55,
            exponent: -3,
            publish_time: NOW - 5,
        })
    );
}

#[test]
fn partial_verification_is_decoded() {
    let level = pyth_solana_receiver_sdk::price_update::VerificationLevel::Partial { num_signatures: 5 };
    let data = account_bytes(level, feed(4));
    let resolver = PriceResolver::from_account_data(&data, NOW);
    assert_eq!(
        resolver.update.map(|u| u.verification_level),
        Some(VerificationLevel::Partial { num_signatures: 5 })
    );
    assert_eq!(resolver.get_price_no_older_than(&feed(4), 60), Err(OracleFailure::Unavailable));
}

#[test]
fn decoded_account_gives_its_price() {
    let data = account_bytes(pyth_solana_receiver_sdk::price_update::VerificationLevel::Full, feed(4));
    let resolver = PriceResolver::from_account_data(&data, NOW);
    assert_eq!(
        resolver.get_price_no_older_than(&feed(4), 60),
        Ok(Price { price: -4_200, conf: 55, exponent: -3, publish_time: NOW - 5 })
    );
}

#[test]
fn other_bytes_are_no_price_update() {
    let data = account_bytes(pyth_solana_receiver_sdk::price_update::VerificationLevel::Full, feed(4));
    assert_eq!(PriceResolver::from_account_data(&[], NOW).update, None);
    assert_eq!(PriceResolver::from_account_data(&[0u8; 200], NOW).update, None);
    assert_eq!(PriceResolver::from_account_data(&data[..data.len() - 1], NOW).update, None);
    assert_eq!(PriceResolver::from_account_data(&data[..7], NOW).update, None);
    let mut other_kind = data.clone();
    other_kind[0] ^= 0xff;
    assert_eq!(PriceResolver::from_account_data(&other_kind, NOW).update, None);
    let mut bad_level = data.clone();
    bad_level[40] = 9;
    assert_eq!(PriceResolver::from_account_data(&bad_level, NOW).update, None);
}

#[test]
fn resolver_without_update_is_unavailable() {
    let resolver = PriceResolver::unavailable();
    assert_eq!(resolver.update, None);
    assert_eq!(resolver.get_price_no_older_than(&feed(1), 60), Err(OracleFailure::Unavailable));
    assert_eq!(get_pyth_price(&resolver, &feed(1)), Err(ErrorCode::InvalidPriceUpdate));
}

#[test]
fn fresh_price_is_handed_out() {
    let r = resolver(feed(1), 12_345, -2, 10);
    assert_eq!(
        r.get_price_no_older_than(&feed(1), 60),
        Ok(Price { price: 12_345, conf: 17, exponent: -2, publish_time: NOW - 10 })
    );
}

#[test]
fn price_expires_after_the_maximum_age() {
    assert!(resolver(feed(1), 5, 0, 60).get_price_no_older_than(&feed(1), 60).is_ok());
    assert_eq!(
        resolver(feed(1), 5, 0, 61).get_price_no_older_than(&feed(1), 60),
        Err(OracleFailure::TooOld)
    );
    assert!(resolver(feed(1), 5, 0, 61).get_price_no_older_than(&feed(1), 300).is_ok());
    assert!(resolver(feed(1), 5, 0, 0).get_price_no_older_than(&feed(1), 0).is_ok());
    assert_eq!(
        resolver(feed(1), 5, 0, 1).get_price_no_older_than(&feed(1), 0),
        Err(OracleFailure::TooOld)
    );
    assert!(resolver(feed(1), 5, 0, -30).get_price_no_older_than(&feed(1), 0).is_ok());
}

#[test]
fn expiry_stops_at_the_largest_time() {
    let late = PriceResolver {
        update: Some(update(feed(1), 5, 0, i64::MAX - 10)),
        unix_timestamp: i64::MAX,
    };
    assert!(late.get_price_no_older_than(&feed(1), 60).is_ok());
    assert_eq!(late.get_price_no_older_than(&feed(1), 9), Err(OracleFailure::TooOld));
    let early = PriceResolver { update: Some(update(feed(1), 5, 0, i64::MIN)), unix_timestamp: 0 };
    assert_eq!(
        early.get_price_no_older_than(&feed(1), i64::MAX as u64),
        Err(OracleFailure::TooOld)
    );
    let edge = PriceResolver { update: Some(update(feed(1), 5, 0, i64::MIN)), unix_timestamp: -1 };
    assert!(edge.get_price_no_older_than(&feed(1), i64::MAX as u64).is_ok());
}

#[test]
fn price_of_another_feed_is_not_found() {
    let r = resolver(feed(1), 5, 0, 10);
    assert_eq!(r.get_price_no_older_than(&feed(2), 60), Err(OracleFailure::NotFound));
    let stale = resolver(feed(1), 5, 0, 1000);
    assert_eq!(stale.get_price_no_older_than(&feed(2), 60), Err(OracleFailure::NotFound));
}

#[test]
fn partly_verified_update_is_unavailable() {
    let mut u = update(feed(1), 5, 0, NOW);
    u.verification_level = VerificationLevel::Partial { num_signatures: 12 };
    let r = PriceResolver { update: Some(u), unix_timestamp: NOW };
    assert_eq!(r.get_price_no_older_than(&feed(1), 60), Err(OracleFailure::Unavailable));
    assert_eq!(r.get_price_no_older_than(&feed(2), 60), Err(OracleFailure::Unavailable));
}

#[test]
fn oracle_failures_map_to_errors() {
    assert_eq!(ErrorCode::from_oracle(OracleFailure::NotFound), ErrorCode::MissingOraclePrice);
    assert_eq!(ErrorCode::from_oracle(OracleFailure::TooOld), ErrorCode::PythPriceTooOld);
    assert_eq!(ErrorCode::from_oracle(OracleFailure::Unavailable), ErrorCode::InvalidPriceUpdate);
}

#[test]
fn signed_price_is_read_as_unsigned() {
    assert_eq!(price_as_unsigned(0), 0);
    assert_eq!(price_as_unsigned(7), 7);
    assert_eq!(price_as_unsigned(i64::MAX), i64::MAX as u64);
    assert_eq!(price_as_unsigned(-1), u64::MAX);
    assert_eq!(price_as_unsigned(-2), u64::MAX - 1);
    assert_eq!(price_as_unsigned(i64::MIN), 1u64 << 63);
}

#[test]
fn exponent_loses_its_sign() {
    assert_eq!(exponent_magnitude(0), 0);
    assert_eq!(exponent_magnitude(8), 8);
    assert_eq!(exponent_magnitude(-8), 8);
    assert_eq!(exponent_magnitude(i32::MAX), 2_147_483_647);
    assert_eq!(exponent_magnitude(i32::MIN), 2_147_483_648);
}

#[test]
fn price_is_brought_to_whole_units() {
    assert_eq!(scale_price(12_345, -2), Some(123));
    assert_eq!(scale_price(12_345, 0), Some(12_345));
    assert_eq!(scale_price(5, 3), Some(5_000));
    assert_eq!(scale_price(99, -2), Some(0));
    assert_eq!(scale_price(1, 19), Some(10_000_000_000_000_000_000));
    assert_eq!(scale_price(-1, -8), Some(184_467_440_737));
    assert_eq!(scale_price(0, 19), Some(0));
}

#[test]
fn price_that_overflows_has_no_whole_units() {
    assert_eq!(scale_price(2, 19), None);
    assert_eq!(scale_price(1, 20), None);
    assert_eq!(scale_price(0, 20), None);
    assert_eq!(scale_price(1, -20), None);
    assert_eq!(scale_price(-1, 1), None);
    assert_eq!(scale_price(1, i32::MIN), None);
    assert_eq!(scale_price(1, i32::MAX), None);
}

#[test]
fn price_is_brought_to_hundredths() {
    assert_eq!(scale_price_to_cents(12_345, -2), 12_300);
    assert_eq!(scale_price_to_cents(2, 0), 200);
    assert_eq!(scale_price_to_cents(3, 2), 30_000);
    assert_eq!(scale_price_to_cents(99, -2), 0);
    assert_eq!(scale_price_to_cents(-1, -8), 18_446_744_073_700);
    assert_eq!(scale_price_to_cents(184_467_440_737_095_516, 0), 18_446_744_073_709_551_600);
}

#[test]
fn hundredths_that_overflow_count_as_zero() {
    assert_eq!(scale_price_to_cents(184_467_440_737_095_517, 0), 0);
    assert_eq!(scale_price_to_cents(1, 19), 0);
    assert_eq!(scale_price_to_cents(2, 19), 0);
    assert_eq!(scale_price_to_cents(1, 20), 0);
    assert_eq!(scale_price_to_cents(1, -20), 0);
    assert_eq!(scale_price_to_cents(-1, 0), 0);
    assert_eq!(scale_price_to_cents(7, i32::MIN), 0);
    assert_eq!(scale_price_to_cents(7, i32::MAX), 0);
}

#[test]
fn health_check_price_is_in_hundredths() {
    assert_eq!(get_pyth_price(&resolver(feed(1), 12_345, -2, 60), &feed(1)), Ok(12_300));
    assert_eq!(get_pyth_price(&resolver(feed(1), 1, 19, 0), &feed(1)), Ok(0));
    assert_eq!(
        get_pyth_price(&resolver(feed(1), 12_345, -2, 61), &feed(1)),
        Err(ErrorCode::PythPriceTooOld)
    );
    assert_eq!(
        get_pyth_price(&resolver(feed(1), 12_345, -2, 0), &feed(2)),
        Err(ErrorCode::MissingOraclePrice)
    );
}

#[test]
fn refresh_takes_the_price_of_the_oracle() {
    let mut registry = registry_with_asset(100);
    assert_eq!(update_price_from_pyth(&mut registry, &resolver(feed(1), 12_345, -2, 300), 1), Ok(()));
    assert_eq!(
        registry.assets,
        vec![AssetInfo { id: 1, price: 123, decimals: 0, pyth_feed_id: feed(1) }]
    );
    assert_eq!(update_price_from_pyth(&mut registry, &resolver(feed(1), 7, 2, 0), 1), Ok(()));
    assert_eq!(registry.asset(1).map(|a| a.price), Some(700));
}

#[test]
fn refresh_is_refused_without_a_usable_price() {
    let mut registry = registry_with_asset(100);
    let before = registry.clone();
    assert_eq!(
        update_price_from_pyth(&mut registry, &resolver(feed(1), 5, 0, 0), 2),
        Err(ErrorCode::AssetNotFound)
    );
    assert_eq!(
        update_price_from_pyth(&mut registry, &resolver(feed(1), 5, 0, 301), 1),
        Err(ErrorCode::PythPriceTooOld)
    );
    assert_eq!(
        update_price_from_pyth(&mut registry, &resolver(feed(2), 5, 0, 0), 1),
        Err(ErrorCode::MissingOraclePrice)
    );
    assert_eq!(
        update_price_from_pyth(&mut registry, &PriceResolver::unavailable(), 1),
        Err(ErrorCode::InvalidPriceUpdate)
    );
    assert_eq!(
        update_price_from_pyth(&mut registry, &resolver(feed(1), 5, 20, 0), 1),
        Err(ErrorCode::MathOverflow)
    );
    assert_eq!(
        update_price_from_pyth(&mut registry, &resolver(feed(1), i64::MAX, 1, 0), 1),
        Err(ErrorCode::MathOverflow)
    );
    assert_eq!(registry, before);
}

#[test]
fn oracle_price_is_fetched_with_its_source() {
    let info = AssetInfo { id: 1, price: 100, decimals: 0, pyth_feed_id: feed(1) };
    assert_eq!(
        fetch_oracle_price(&info, &resolver(feed(1), 12_345, -2, 299)),
        Ok((Price { price: 12_345, conf: 17, exponent: -2, publish_time: NOW - 299 }, 123))
    );
}

#[test]
fn oracle_price_is_compared_with_the_fallback() {
    let registry = registry_with_asset(100);
    assert_eq!(
        demonstrate_oracle_price_pull(&registry, &resolver(feed(1), 12_345, -2, 0), 1),
        Ok(PriceComparison {
            asset_id: 1,
            hardcoded_price: 100,
            pyth_feed_id: feed(1),
            raw_price: 12_345,
            exponent: -2,
            confidence: 17,
            oracle_price: 123,
            difference: 23,
            difference_percent: 23,
        })
    );
    let lower = demonstrate_oracle_price_pull(&registry, &resolver(feed(1), 33, 0, 0), 1).unwrap();
    assert_eq!(lower.difference, 67);
    assert_eq!(lower.difference_percent, 67);
    let pricey = registry_with_asset(300);
    let third = demonstrate_oracle_price_pull(&pricey, &resolver(feed(1), 400, 0, 0), 1).unwrap();
    assert_eq!(third.difference, 100);
    assert_eq!(third.difference_percent, 33);
}

#[test]
fn comparison_with_a_fallback_of_zero() {
    let registry = registry_with_asset(0);
    let found = demonstrate_oracle_price_pull(&registry, &resolver(feed(1), i64::MAX, 0, 0), 1).unwrap();
    assert_eq!(found.oracle_price, i64::MAX as u64);
    assert_eq!(found.difference, i64::MAX as u64);
    assert_eq!(found.difference_percent, 0);
}

#[test]
fn comparison_is_refused_without_a_usable_price() {
    let registry = registry_with_asset(1);
    assert_eq!(
        demonstrate_oracle_price_pull(&registry, &resolver(feed(1), 5, 0, 0), 9),
        Err(ErrorCode::AssetNotFound)
    );
    assert_eq!(
        demonstrate_oracle_price_pull(&registry, &resolver(feed(1), 5, 0, 301), 1),
        Err(ErrorCode::PythPriceTooOld)
    );
    assert_eq!(
        demonstrate_oracle_price_pull(&registry, &resolver(feed(1), 5, 30, 0), 1),
        Err(ErrorCode::MathOverflow)
    );
    assert_eq!(
        demonstrate_oracle_price_pull(&registry, &resolver(feed(1), i64::MAX, 0, 0), 1),
        Err(ErrorCode::MathOverflow)
    );
}
