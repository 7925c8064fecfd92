//! Accounting and solvency-enforcement core of an over-collateralized
//! synthetic-asset issuance engine.
//!
//! Users deposit a reference collateral asset, mint a pegged synthetic debt
//! token against it, and every state transition guarantees that no account's
//! debt exceeds a configured fraction of its collateral value, measured
//! against an oracle price supplied by the host.
//!
//! The core is pure: every operation takes the ledger [`state::Store`] and the
//! current oracle price, computes a candidate post-state, validates the
//! health-factor invariant, commits the ledger only when every check passed,
//! and returns the outbound effects (mint, burn, native transfer) for the host
//! to execute. The host runtime — storage persistence, the price-oracle query,
//! message encoding — stays outside this crate.

pub mod contract;
pub mod error;
pub mod laws;
pub mod ledger;
pub mod msg;
pub mod state;

use vstd::prelude::*;

verus! {

/// Fixed-point scale of oracle prices: a price carries six implied decimals,
/// so `1_000_000` means 1.0 USD per collateral unit.
pub const PRICE_SCALE: u128 = 1_000_000;

} // verus!
