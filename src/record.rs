//! The values genesis leaves in host state, and how writing them changes it.
use vstd::prelude::*;

use crate::waypoint::{WaypointView, waypoint_text};

verus! {

/// Host-state key of the encoded validator signer.
pub const VALIDATOR_SIGNER_KEY: &'static str = "validator_signer";

/// Host-state key of the ledger database path.
pub const DB_PATH_KEY: &'static str = "db_path";

/// Host-state key of the genesis waypoint's text form.
pub const WAYPOINT_KEY: &'static str = "waypoint";

/// Host-state key of the ledger version the host has seen.
pub const KNOWN_VERSION_KEY: &'static str = "known_version";

/// Host-state key of the committed genesis block identifier.
pub const GENESIS_HASH_KEY: &'static str = "genesis_hash";

/// The five values that genesis persists into host state.
pub struct GenesisRecord {
    pub validator_signer: Vec<u8>,
    pub db_path: String,
    pub waypoint: String,
    pub known_version: u64,
    pub genesis_hash: Vec<u8>,
}

pub struct GenesisRecordView {
    pub validator_signer: Seq<u8>,
    pub db_path: Seq<char>,
    pub waypoint: Seq<char>,
    pub known_version: nat,
    pub genesis_hash: Seq<u8>,
}

impl View for GenesisRecord {
    type V = GenesisRecordView;

    open spec fn view(&self) -> GenesisRecordView {
        GenesisRecordView {
            validator_signer: self.validator_signer@,
            db_path: self.db_path@,
            waypoint: self.waypoint@,
            known_version: self.known_version as nat,
            genesis_hash: self.genesis_hash@,
        }
    }
}

/// The record of a genesis with the given signer encoding, database path,
/// waypoint and committed block identifier. The host has seen version zero.
pub open spec fn record_of(
    validator_signer: Seq<u8>,
    db_path: Seq<char>,
    waypoint: WaypointView,
    genesis_hash: Seq<u8>,
) -> GenesisRecordView {
    GenesisRecordView {
        validator_signer,
        db_path,
        waypoint: waypoint_text(waypoint),
        known_version: 0,
        genesis_hash,
    }
}

/// A value held in host state.
pub enum HostValue {
    Bytes(Seq<u8>),
    Text(Seq<char>),
    Number(nat),
}

/// Host state after the five values of `r` are set under their keys.
pub open spec fn host_after(host: Map<Seq<char>, HostValue>, r: GenesisRecordView) -> Map<
    Seq<char>,
    HostValue,
> {
    host.insert(VALIDATOR_SIGNER_KEY@, HostValue::Bytes(r.validator_signer)).insert(
        DB_PATH_KEY@,
        HostValue::Text(r.db_path),
    ).insert(WAYPOINT_KEY@, HostValue::Text(r.waypoint)).insert(
        KNOWN_VERSION_KEY@,
        HostValue::Number(r.known_version),
    ).insert(GENESIS_HASH_KEY@, HostValue::Bytes(r.genesis_hash))
}

impl GenesisRecord {
    /// The record of a completed genesis.
    pub fn new(validator_signer: Vec<u8>, db_path: String, waypoint: &crate::waypoint::Waypoint, genesis_hash: Vec<u8>) -> (r: GenesisRecord)
        ensures
            r@ == record_of(validator_signer@, db_path@, waypoint@, genesis_hash@),
    {
        GenesisRecord {
            validator_signer,
            db_path,
            waypoint: waypoint.to_text(),
            known_version: 0,
            genesis_hash,
        }
    }
}

} // verus!
