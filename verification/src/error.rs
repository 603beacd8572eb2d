//! Domain error type for failures the application branches on.

use vstd::prelude::*;

verus! {

/// Failures of configuration, ledger, engine, price and export work.
#[derive(Debug)]
pub enum AppError {
    /// The configuration at `path` could not be read.
    Config { path: String, reason: String },
    /// The ledger at `path` could not be read or written.
    Ledger { path: String, reason: String },
    /// The cost-basis engine rejected the ledger.
    Portfolio(coinbasis::PortfolioError),
    /// The price source failed.
    Price(String),
    /// The price or history cache failed.
    Cache(String),
    /// An export could not be written.
    Export(String),
    /// An amount or an instant left the representable range.
    OutOfRange(String),
}

} // verus!
