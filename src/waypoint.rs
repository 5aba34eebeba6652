//! The trust anchor of a ledger: a version together with the root hash of the
//! ledger's state at that version.
use vstd::prelude::*;

use crate::encoding::{append_decimal, append_hex, decimal_of, hex_of};

verus! {

/// Number of bytes in a state root hash.
pub const HASH_LENGTH: usize = 32;

/// A (version, state root hash) pair committing to one ledger state.
#[derive(Clone, Copy)]
pub struct Waypoint {
    pub version: u64,
    pub root_hash: [u8; 32],
}

/// What a waypoint commits to, as mathematical values.
pub struct WaypointView {
    pub version: nat,
    pub root_hash: Seq<u8>,
}

impl View for Waypoint {
    type V = WaypointView;

    open spec fn view(&self) -> WaypointView {
        WaypointView { version: self.version as nat, root_hash: self.root_hash@ }
    }
}

/// The text form of a waypoint: the version in decimal, a colon, and the root
/// hash in lower-case hexadecimal.
pub open spec fn waypoint_text(w: WaypointView) -> Seq<char> {
    decimal_of(w.version) + seq![':'] + hex_of(w.root_hash)
}

/// The hexadecimal encoding has two digits per byte.
pub proof fn lemma_hex_len(bytes: Seq<u8>)
    ensures
        hex_of(bytes).len() == 2 * bytes.len(),
    decreases bytes.len(),
{
    if bytes.len() > 0 {
        lemma_hex_len(bytes.drop_last());
    }
}

impl Waypoint {
    pub fn new(version: u64, root_hash: [u8; 32]) -> (r: Waypoint)
        ensures
            r@ == (WaypointView { version: version as nat, root_hash: root_hash@ }),
    {
        Waypoint { version, root_hash }
    }

    /// The text form, as stored in host state and handed to light clients.
    pub fn to_text(&self) -> (r: String)
        ensures
            r@ == waypoint_text(self@),
            r@.len() == decimal_of(self.version as nat).len() + 1 + 2 * HASH_LENGTH,
    {
        let mut out = String::new();
        append_decimal(&mut out, self.version);
        proof {
            reveal_strlit(":");
        }
        out.append(":");
        append_hex(&mut out, self.root_hash.as_slice());
        proof {
            lemma_hex_len(self.root_hash@);
            assert(out@ =~= waypoint_text(self@));
        }
        out
    }

    /// Whether two waypoints commit to the same ledger state.
    pub fn same_as(&self, other: &Waypoint) -> (r: bool)
        ensures
            r == (self@ == other@),
    {
        if self.version != other.version {
            return false;
        }
        let mut i: usize = 0;
        while i < HASH_LENGTH
            invariant
                i <= HASH_LENGTH,
                self.root_hash@.len() == HASH_LENGTH,
                other.root_hash@.len() == HASH_LENGTH,
                forall|j: int| 0 <= j < i ==> self.root_hash@[j] == other.root_hash@[j],
            decreases HASH_LENGTH - i,
        {
            if self.root_hash[i] != other.root_hash[i] {
                return false;
            }
            i = i + 1;
        }
        assert(self.root_hash@ =~= other.root_hash@);
        true
    }
}

} // verus!
