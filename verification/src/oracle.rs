//! Live prices: what a Pyth price update account holds, when its price may be
//! used, and how that price is brought to the ledger's units.

use crate::error::ErrorCode;
use crate::error::OracleFailure;
use crate::valuation::lemma_pow10_monotonic;
use crate::valuation::pow10;
use crate::valuation::pow10_checked;
use anchor_lang::prelude::Clock;
use anchor_lang::prelude::Pubkey;
use anchor_lang::AccountDeserialize;
use pyth_solana_receiver_sdk::error::GetPriceError;
use pyth_solana_receiver_sdk::price_update::PriceFeedMessage;
use pyth_solana_receiver_sdk::price_update::PriceUpdateV2;
use pyth_solana_receiver_sdk::price_update::VerificationLevel as PythVerificationLevel;
use vstd::prelude::*;

verus! {

/// The oldest price, in seconds, that a health check accepts.
pub const HEALTH_MAX_AGE: u64 = 60;

/// The oldest price, in seconds, that a refresh of the fallback price accepts.
pub const REFRESH_MAX_AGE: u64 = 300;

/// How far the signatures under a price update were checked.
#[derive(Clone, Copy, Debug, PartialEq, Eq)]
pub enum VerificationLevel {
    /// Only `num_signatures` guardian signatures were checked.
    Partial { num_signatures: u8 },
    /// The signatures of two thirds of the guardians were checked.
    Full,
}

/// What a price update account says of one feed.
#[derive(Clone, Copy, Debug, PartialEq, Eq)]
pub struct PriceUpdate {
    pub verification_level: VerificationLevel,
    pub feed_id: [u8; 32],
    pub price: i64,
    pub conf: u64,
    pub exponent: i32,
    /// When the price was published, in seconds since the Unix epoch.
    pub publish_time: i64,
}

/// A price as the oracle states it: `price` times ten to the power `exponent`,
/// give or take `conf`.
#[derive(Clone, Copy, Debug, PartialEq, Eq)]
pub struct Price {
    pub price: i64,
    pub conf: u64,
    pub exponent: i32,
    pub publish_time: i64,
}

/// The source of live prices during one call: the price update at hand, if
/// the account held one, and the time by which its age is judged.
#[derive(Clone, Copy, Debug, PartialEq, Eq)]
pub struct PriceResolver {
    pub update: Option<PriceUpdate>,
    pub unix_timestamp: i64,
}

/// The last second at which a price published at `publish_time` is no older
/// than `maximum_age`; the sum stops at the largest `i64`.
pub open spec fn expiry(publish_time: i64, maximum_age: u64) -> int {
    if publish_time + maximum_age > i64::MAX {
        i64::MAX as int
    } else {
        publish_time + maximum_age
    }
}

/// The price that `update` gives for `feed_id` at the time `unix_timestamp`.
/// It must be fully verified, be for that feed, and not have expired; the
/// first of these that fails decides the failure.
pub open spec fn price_no_older_than(
    update: PriceUpdate,
    unix_timestamp: i64,
    maximum_age: u64,
    feed_id: Seq<u8>,
) -> Result<Price, OracleFailure> {
    if !(update.verification_level is Full) {
        Err(OracleFailure::Unavailable)
    } else if update.feed_id@ != feed_id {
        Err(OracleFailure::NotFound)
    } else if expiry(update.publish_time, maximum_age) < unix_timestamp {
        Err(OracleFailure::TooOld)
    } else {
        Ok(
            Price {
                price: update.price,
                conf: update.conf,
                exponent: update.exponent,
                publish_time: update.publish_time,
            },
        )
    }
}

/// What the bytes of an account decode to as a price update account, if they do.
pub uninterp spec fn decoded_price_update(data: Seq<u8>) -> Option<PriceUpdate>;

/// Calls `PriceUpdateV2::try_deserialize` on the bytes of an account and
/// copies out the fields that this library reads. The result depends on the
/// bytes alone; the contract only gives it a name.
#[verifier::external_body]
fn decode_price_update(data: &[u8]) -> (r: Option<PriceUpdate>)
    ensures
        r == decoded_price_update(data@),
{
    let account = PriceUpdateV2::try_deserialize(&mut &data[..]).ok()?;
    let message = account.price_message;
    Some(PriceUpdate {
        verification_level: match account.verification_level {
            PythVerificationLevel::Full => VerificationLevel::Full,
            PythVerificationLevel::Partial { num_signatures } => {
                VerificationLevel::Partial { num_signatures }
            },
        },
        feed_id: message.feed_id,
        price: message.price,
        conf: message.conf,
        exponent: message.exponent,
        publish_time: message.publish_time,
    })
}

/// Calls `PriceUpdateV2::get_price_no_older_than` on an account made of
/// `update`, with a clock that reads `unix_timestamp`. The contract restates
/// that method: it refuses an update that is not fully verified, then one of
/// another feed, then one whose publish time plus `maximum_age`, saturating,
/// lies before the clock; otherwise it hands the price back. The method
/// converts `maximum_age` to `i64` and panics where that fails.
#[verifier::external_body]
fn pyth_price_no_older_than(
    update: &PriceUpdate,
    unix_timestamp: i64,
    maximum_age: u64,
    feed_id: &[u8; 32],
) -> (r: Result<(i64, u64, i32, i64), OracleFailure>)
    requires
        maximum_age <= i64::MAX,
    ensures
        r == match price_no_older_than(*update, unix_timestamp, maximum_age, feed_id@) {
            Ok(p) => Ok::<(i64, u64, i32, i64), OracleFailure>(
                (p.price, p.conf, p.exponent, p.publish_time),
            ),
            Err(failure) => Err(failure),
        },
{
    let PriceUpdate { verification_level, feed_id: id, price, conf, exponent, publish_time } = *update;
    let verification_level = match verification_level {
        VerificationLevel::Full => PythVerificationLevel::Full,
        VerificationLevel::Partial { num_signatures } => PythVerificationLevel::Partial { num_signatures },
    };
    let price_message = PriceFeedMessage {
        feed_id: id, price, conf, exponent, publish_time, prev_publish_time: 0, ema_price: 0, ema_conf: 0,
    };
    let account = PriceUpdateV2 { write_authority: Pubkey::default(), verification_level, price_message, posted_slot: 0 };
    match account.get_price_no_older_than(&Clock { unix_timestamp, ..Clock::default() }, maximum_age, feed_id) {
        Ok(p) => Ok((p.price, p.conf, p.exponent, p.publish_time)),
        Err(GetPriceError::PriceTooOld) => Err(OracleFailure::TooOld),
        Err(GetPriceError::MismatchedFeedId) => Err(OracleFailure::NotFound),
        Err(_) => Err(OracleFailure::Unavailable),
    }
}

impl PriceResolver {
    /// The price that this resolver gives for `feed_id`, no older than
    /// `maximum_age` seconds.
    pub open spec fn price(&self, feed_id: Seq<u8>, maximum_age: u64) -> Result<
        Price,
        OracleFailure,
    > {
        match self.update {
            Some(update) => price_no_older_than(update, self.unix_timestamp, maximum_age, feed_id),
            None => Err(OracleFailure::Unavailable),
        }
    }

    /// A resolver over the bytes of a price update account, read at the time
    /// `unix_timestamp`.
    pub fn from_account_data(data: &[u8], unix_timestamp: i64) -> (resolver: PriceResolver)
        ensures
            resolver.update == decoded_price_update(data@),
            resolver.unix_timestamp == unix_timestamp,
    {
        PriceResolver { update: decode_price_update(data), unix_timestamp }
    }

    /// A resolver that has no price for any feed.
    pub fn unavailable() -> (resolver: PriceResolver)
        ensures
            resolver.update is None,
            resolver.unix_timestamp == 0,
    {
        PriceResolver { update: None, unix_timestamp: 0 }
    }

    /// Asks for the price of `feed_id`, no older than `maximum_age` seconds.
    pub fn get_price_no_older_than(&self, feed_id: &[u8; 32], maximum_age: u64) -> (r: Result<
        Price,
        OracleFailure,
    >)
        requires
            maximum_age <= i64::MAX,
        ensures
            r == self.price(feed_id@, maximum_age),
    {
        match &self.update {
            None => Err(OracleFailure::Unavailable),
            Some(update) => {
                match pyth_price_no_older_than(update, self.unix_timestamp, maximum_age, feed_id) {
                    Ok((price, conf, exponent, publish_time)) => Ok(
                        Price { price, conf, exponent, publish_time },
                    ),
                    Err(failure) => Err(failure),
                }
            },
        }
    }
}

/// A signed price read as the unsigned number with the same 64 bits.
pub open spec fn unsigned_price(price: i64) -> int {
    if price >= 0 {
        price as int
    } else {
        price + 0x1_0000_0000_0000_0000
    }
}

/// The size of an exponent, whatever its sign.
pub open spec fn magnitude(exponent: i32) -> nat {
    if exponent >= 0 {
        exponent as nat
    } else {
        (-exponent) as nat
    }
}

/// `x`, or zero where `x` is above the largest `u64`.
pub open spec fn zero_beyond(x: int) -> int {
    if x > u64::MAX {
        0
    } else {
        x
    }
}

/// The oracle's price in whole units: multiplied by the power of ten where
/// the exponent is not negative, else divided by it. There is none where the
/// power of ten or the product does not fit in a `u64`.
pub open spec fn scaled_price(price: i64, exponent: i32) -> Option<int> {
    let raw = unsigned_price(price);
    let factor = pow10(magnitude(exponent));
    if factor > u64::MAX {
        None
    } else if exponent < 0 {
        Some(raw / factor as int)
    } else if raw * factor > u64::MAX {
        None
    } else {
        Some(raw * factor)
    }
}

/// The oracle's price in hundredths of a unit, as a health check reads it:
/// scaled by the power of ten, then times 100. A product that does not fit in
/// a `u64` counts as zero.
pub open spec fn price_in_cents(price: i64, exponent: i32) -> int {
    let raw = unsigned_price(price);
    let factor = pow10(magnitude(exponent));
    let scaled = if exponent >= 0 {
        zero_beyond(raw * factor)
    } else {
        raw / factor as int
    };
    zero_beyond(scaled * 100)
}

/// Reads a signed price as the unsigned number with the same 64 bits.
pub fn price_as_unsigned(price: i64) -> (raw: u64)
    ensures
        raw == unsigned_price(price),
{
    if price >= 0 {
        price as u64
    } else {
        u64::MAX - ((-(price + 1)) as u64)
    }
}

/// Computes the size of an exponent.
pub fn exponent_magnitude(exponent: i32) -> (m: u32)
    ensures
        m == magnitude(exponent),
{
    if exponent >= 0 {
        exponent as u32
    } else {
        (-(exponent as i64)) as u32
    }
}

/// Brings an oracle price to whole units, or `None` on overflow.
pub fn scale_price(price: i64, exponent: i32) -> (r: Option<u64>)
    ensures
        match r {
            Some(v) => scaled_price(price, exponent) == Some(v as int),
            None => scaled_price(price, exponent) is None,
        },
{
    let raw = price_as_unsigned(price);
    match pow10_checked(exponent_magnitude(exponent)) {
        None => None,
        Some(factor) => {
            proof {
                lemma_pow10_monotonic(0, magnitude(exponent));
            }
            if exponent < 0 {
                Some(raw / factor)
            } else {
                raw.checked_mul(factor)
            }
        },
    }
}

/// Brings an oracle price to hundredths of a unit, with zero for a product
/// that overflows.
pub fn scale_price_to_cents(price: i64, exponent: i32) -> (cents: u64)
    ensures
        cents == price_in_cents(price, exponent),
{
    let raw = price_as_unsigned(price);
    let scaled: u64 = match pow10_checked(exponent_magnitude(exponent)) {
        Some(factor) => {
            proof {
                lemma_pow10_monotonic(0, magnitude(exponent));
            }
            if exponent >= 0 {
                match raw.checked_mul(factor) {
                    Some(v) => v,
                    None => 0,
                }
            } else {
                raw / factor
            }
        },
        None => {
            let ghost factor = pow10(magnitude(exponent)) as int;
            if exponent >= 0 {
                if raw != 0 {
                    assert(raw * factor > u64::MAX) by (nonlinear_arith)
                        requires
                            raw >= 1,
                            factor > u64::MAX,
                    ;
                } else {
                    assert(raw * factor == 0) by (nonlinear_arith)
                        requires
                            raw == 0,
                    ;
                }
            } else {
                assert(raw as int / factor == 0) by (nonlinear_arith)
                    requires
                        0 <= raw < factor,
                ;
            }
            0
        },
    };
    match scaled.checked_mul(100) {
        Some(v) => v,
        None => 0,
    }
}

/// The price of a feed in hundredths of a unit, as a health check reads it
/// from `resolver`.
pub open spec fn pyth_price(resolver: PriceResolver, feed_id: Seq<u8>) -> Result<u64, ErrorCode> {
    match resolver.price(feed_id, HEALTH_MAX_AGE) {
        Ok(p) => Ok(price_in_cents(p.price, p.exponent) as u64),
        Err(failure) => Err(ErrorCode::of_oracle(failure)),
    }
}

/// Asks `resolver` for the price of a feed, no older than a health check
/// accepts, in hundredths of a unit.
pub fn get_pyth_price(resolver: &PriceResolver, feed_id: &[u8; 32]) -> (r: Result<u64, ErrorCode>)
    ensures
        r == pyth_price(*resolver, feed_id@),
{
    match resolver.get_price_no_older_than(feed_id, HEALTH_MAX_AGE) {
        Ok(p) => Ok(scale_price_to_cents(p.price, p.exponent)),
        Err(failure) => Err(ErrorCode::from_oracle(failure)),
    }
}

} // verus!
