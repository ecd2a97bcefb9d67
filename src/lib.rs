//! Multi-asset bookkeeping: validated asset descriptors, accounting buckets,
//! and the imbalance tokens through which the per-asset totals change.
pub mod asset;
pub mod conservation;
pub mod imbalances;
pub mod store;
pub mod validation;

pub use asset::{Asset, AssetErr, AssetType, Chain, Desc, Memo, Precision, Token};
pub use imbalances::{NegativeImbalance, PositiveImbalance};
pub use store::{Balance, TotalAssetBalance};
pub use validation::{is_valid_desc, is_valid_memo, is_valid_token, is_valid_token_name};
