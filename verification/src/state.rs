//! The ledger store: global configuration, the bound synthetic-token
//! identity, and the per-account collateral and debt positions. The host owns
//! the store's lifecycle and hands it to every operation by reference.

use vstd::prelude::*;

use crate::ledger::AccountMap;

verus! {

/// Counter state kept for storage-layout compatibility; no operation of the
/// engine reads or writes it.
#[derive(Debug)]
pub struct State {
    pub count: i32,
    pub owner: String,
}

/// Global configuration singleton. Created once at initialization and
/// mutated only by the one-time token-binding operation.
#[derive(Debug)]
pub struct Config {
    pub owner: String,
    pub oracle: String,
    pub denom: String,
    pub min_threashold: u128,
    pub liquidity_threashold: u128,
    pub token_set: bool,
}

/// The whole persistent state of the engine.
pub struct Store {
    /// The configuration singleton; absent on fresh storage.
    pub config: Option<Config>,
    /// The bound synthetic-token identity; absent until `SetToken`.
    pub stable: Option<String>,
    /// Collateral deposited, per account.
    pub collateral_deposited: AccountMap,
    /// Synthetic debt tokens outstanding, per account.
    pub tokens_minted: AccountMap,
}

impl Store {
    /// Fresh storage: nothing configured, no token bound, no positions.
    pub fn new() -> (s: Store)
        ensures
            s.config is None,
            s.stable is None,
            s.collateral() == Map::<Seq<char>, u128>::empty(),
            s.debt() == Map::<Seq<char>, u128>::empty(),
    {
        Store {
            config: None,
            stable: None,
            collateral_deposited: AccountMap::new(),
            tokens_minted: AccountMap::new(),
        }
    }

    /// The collateral column, as a partial map.
    pub open spec fn collateral(self) -> Map<Seq<char>, u128> {
        self.collateral_deposited@
    }

    /// The debt column, as a partial map.
    pub open spec fn debt(self) -> Map<Seq<char>, u128> {
        self.tokens_minted@
    }

    pub open spec fn has_config(self) -> bool {
        self.config is Some
    }

    pub open spec fn cfg(self) -> Config {
        self.config->Some_0
    }

    pub open spec fn has_stable(self) -> bool {
        self.stable is Some
    }

    /// The bound synthetic-token identity.
    pub open spec fn stable_token(self) -> String {
        self.stable->Some_0
    }
}

/// The amount a column records for `a`, with an absent entry read as zero.
pub open spec fn map_or_zero(m: Map<Seq<char>, u128>, a: Seq<char>) -> u128 {
    if m.contains_key(a) {
        m[a]
    } else {
        0u128
    }
}

} // verus!
