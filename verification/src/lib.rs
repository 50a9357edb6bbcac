//! Periodic sampling of swap quotes from several liquidity venues,
//! detection of profitable price discrepancies net of a fixed cost
//! estimate, and durable recording of detected opportunities.

pub mod quote;
pub mod decimal;
pub mod config;
mod clock;
pub mod evaluate;
pub mod scheduler;
pub mod store;

