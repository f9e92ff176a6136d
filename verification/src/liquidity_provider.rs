pub mod error;
pub mod liquidity_provider;
pub mod order_store;
pub mod settlement;
pub mod storage_types;
