//! Genesis bootstrap for a rollup runtime that embeds a Move ledger engine.
//!
//! The library holds the decisions of the one-time genesis procedure: where the
//! ledger database lives, whether a database may be bootstrapped with a given
//! genesis, which handles may be open at once, how the trust anchor is written
//! down, and in which order the steps run. The engine's own work (executing the
//! genesis write set, hashing state, opening storage) is done by the caller and
//! handed to the library as plain values.
pub mod encoding;
pub mod waypoint;
pub mod error;
pub mod paths;
pub mod ledger;
pub mod handles;
pub mod record;
pub mod orchestrator;
