//! A ledger of collateralised borrowing positions.
//!
//! An [`AssetRegistry`] lists the assets that may be held, with a fallback
//! price each and a risk level for pairs of them. An [`Obligation`] records
//! what one owner has deposited and borrowed. Every change to an obligation
//! is first made on a tentative copy, scored by the risk engine against the
//! prices that a [`PriceResolver`] supplies, and committed only when the
//! result is healthy.

pub mod error;
pub mod feed;
pub mod health;
pub mod laws;
pub mod ledger;
pub mod lists;
pub mod obligation;
pub mod oracle;
pub mod refresh;
pub mod registry;
pub mod snapshot;
pub mod valuation;

pub use crate::error::ErrorCode;
pub use crate::error::OracleFailure;
pub use crate::feed::parse_feed_id;
pub use crate::health::evaluate_health;
pub use crate::health::perform_health_check;
pub use crate::health::resolve_price;
pub use crate::health::risk_score;
pub use crate::health::ResolvedPrice;
pub use crate::health::ValuedPosition;
pub use crate::ledger::add_borrow;
pub use crate::ledger::add_deposit;
pub use crate::ledger::remove_borrow;
pub use crate::ledger::remove_deposit;
pub use crate::obligation::delete_obligation;
pub use crate::obligation::init_obligation;
pub use crate::obligation::Obligation;
pub use crate::obligation::ObligationView;
pub use crate::obligation::Position;
pub use crate::oracle::get_pyth_price;
pub use crate::oracle::Price;
pub use crate::oracle::PriceResolver;
pub use crate::oracle::PriceUpdate;
pub use crate::oracle::VerificationLevel;
pub use crate::refresh::demonstrate_oracle_price_pull;
pub use crate::refresh::update_price_from_pyth;
pub use crate::refresh::PriceComparison;
pub use crate::registry::add_asset;
pub use crate::registry::add_risk_param;
pub use crate::registry::delete_asset_registry;
pub use crate::registry::initialize_asset_registry;
pub use crate::registry::update_asset_price;
pub use crate::registry::AssetInfo;
pub use crate::registry::AssetRegistry;
pub use crate::registry::PairRiskParam;
pub use crate::registry::RegistryView;
pub use crate::snapshot::debug_read_all_data;
pub use crate::snapshot::Snapshot;
pub use crate::valuation::calculate_value;
pub use crate::valuation::pow10_checked;
pub use crate::valuation::scale_amount;
pub use crate::valuation::unscale_amount;
