//! Portfolio tracking: ledger import and cost-basis queries through the
//! `coinbasis` engine, rebalancing suggestions, value history, price
//! caching, configuration rules and the dashboard's controls, with their
//! contracts proved by Verus.

pub mod dec;
pub mod time;
pub mod text;
pub mod model;
pub mod table;
pub mod error;
pub mod engine;
pub mod portfolio;
pub mod rebalance;
pub mod ledger;
pub mod paths;
pub mod config;
pub mod controls;
pub mod event;
pub mod prices;
pub mod perf;
pub mod export;
pub mod tax;
pub mod price_table;

pub use dec::Dec;
