//! The ways in which genesis can fail. Every one of them is fatal to the run.
use vstd::prelude::*;

use crate::waypoint::{Waypoint, waypoint_text};

verus! {

pub enum GenesisError {
    /// The database directory could not be created.
    DirectoryCreation { path: String },
    /// The database could not be opened: another handle holds it, or its
    /// on-disk format is unreadable.
    StorageOpen { path: String },
    /// The database already holds a genesis other than the one computed now.
    WaypointMismatch { expected: Waypoint, actual: Waypoint },
    /// The validator signer or the waypoint could not be encoded for host state.
    Serialization,
}

/// The message for `e`: it names the path, or the waypoint the ledger holds
/// and the one computed.
pub open spec fn message_of(e: GenesisError) -> Seq<char> {
    match e {
        GenesisError::DirectoryCreation { path } => "cannot create the ledger directory "@ + path@,
        GenesisError::StorageOpen { path } => "cannot open the ledger database at "@ + path@,
        GenesisError::WaypointMismatch { expected, actual } => "the ledger holds genesis "@
            + waypoint_text(actual@) + " but genesis "@ + waypoint_text(expected@)
            + " was computed"@,
        GenesisError::Serialization => "cannot encode a genesis value for host state"@,
    }
}

impl GenesisError {
    /// A message that names the path or both waypoints involved.
    pub fn describe(&self) -> (r: String)
        ensures
            r@ == message_of(*self),
    {
        let mut out = String::new();
        match self {
            GenesisError::DirectoryCreation { path } => {
                out.append("cannot create the ledger directory ");
                out.append(path.as_str());
            },
            GenesisError::StorageOpen { path } => {
                out.append("cannot open the ledger database at ");
                out.append(path.as_str());
            },
            GenesisError::WaypointMismatch { expected, actual } => {
                out.append("the ledger holds genesis ");
                out.append(actual.to_text().as_str());
                out.append(" but genesis ");
                out.append(expected.to_text().as_str());
                out.append(" was computed");
            },
            GenesisError::Serialization => {
                out.append("cannot encode a genesis value for host state");
            },
        }
        proof {
            assert(out@ =~= message_of(*self));
        }
        out
    }
}

} // verus!
