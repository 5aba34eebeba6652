//! The genesis a ledger database holds, and the decision whether a genesis
//! may be written into it.
use vstd::prelude::*;

use crate::error::GenesisError;
use crate::waypoint::{Waypoint, WaypointView};

verus! {

/// What bootstrapping does to a database.
#[derive(Clone, Copy, PartialEq, Eq, Structural, Debug)]
pub enum BootstrapStep {
    /// The database holds no committed block: the genesis is applied.
    ApplyGenesis,
    /// The database already holds this genesis: nothing is written.
    AlreadyBootstrapped,
}

/// The step that bootstrapping takes on a database whose committed genesis is
/// `committed`, or `None` where that genesis differs from `waypoint`.
pub open spec fn plan_of(committed: Option<WaypointView>, waypoint: WaypointView) -> Option<
    BootstrapStep,
> {
    match committed {
        None => Some(BootstrapStep::ApplyGenesis),
        Some(c) => if c == waypoint {
            Some(BootstrapStep::AlreadyBootstrapped)
        } else {
            None
        },
    }
}

/// The committed genesis after bootstrapping with `waypoint`: an empty
/// database takes it, a database with a genesis keeps its own.
pub open spec fn after_bootstrap(committed: Option<WaypointView>, waypoint: WaypointView) -> Option<
    WaypointView,
> {
    match committed {
        None => Some(waypoint),
        Some(c) => Some(c),
    }
}

/// The result of bootstrapping a database whose committed genesis is
/// `committed` with the genesis committed to by `waypoint`.
pub open spec fn bootstrap_result(
    committed: Option<Waypoint>,
    waypoint: Waypoint,
    r: Result<BootstrapStep, GenesisError>,
) -> bool {
    match committed {
        None => r == Ok::<BootstrapStep, GenesisError>(BootstrapStep::ApplyGenesis),
        Some(c) => if c@ == waypoint@ {
            r == Ok::<BootstrapStep, GenesisError>(BootstrapStep::AlreadyBootstrapped)
        } else {
            match r {
                Err(GenesisError::WaypointMismatch { expected, actual }) => expected@ == waypoint@
                    && actual@ == c@,
                _ => false,
            }
        },
    }
}

/// The genesis state of one ledger database: the waypoint of its committed
/// genesis, or nothing while the database holds no committed block.
pub struct LedgerGenesis {
    pub committed: Option<Waypoint>,
}

impl View for LedgerGenesis {
    type V = Option<WaypointView>;

    open spec fn view(&self) -> Option<WaypointView> {
        match self.committed {
            None => None,
            Some(w) => Some(w@),
        }
    }
}

impl LedgerGenesis {
    /// A database with no committed block.
    pub fn empty() -> (r: LedgerGenesis)
        ensures
            r@ == None::<WaypointView>,
            r.committed == None::<Waypoint>,
    {
        LedgerGenesis { committed: None }
    }

    /// A database whose committed genesis has the waypoint `w`.
    pub fn committed_at(w: Waypoint) -> (r: LedgerGenesis)
        ensures
            r@ == Some(w@),
            r.committed == Some(w),
    {
        LedgerGenesis { committed: Some(w) }
    }

    /// The waypoint of the committed genesis, if there is one.
    pub fn committed(&self) -> (r: Option<Waypoint>)
        ensures
            r == self.committed,
            r is None <==> self@ is None,
            r matches Some(w) ==> self@ == Some(w@),
    {
        self.committed
    }

    /// Decides how bootstrapping with `waypoint` proceeds, without changing
    /// the database.
    pub fn plan_bootstrap(&self, waypoint: &Waypoint) -> (r: Result<BootstrapStep, GenesisError>)
        ensures
            bootstrap_result(self.committed, *waypoint, r),
            r matches Ok(step) ==> plan_of(self@, waypoint@) == Some(step),
            r is Err <==> plan_of(self@, waypoint@) is None,
    {
        match &self.committed {
            None => Ok(BootstrapStep::ApplyGenesis),
            Some(c) => {
                if c.same_as(waypoint) {
                    Ok(BootstrapStep::AlreadyBootstrapped)
                } else {
                    Err(GenesisError::WaypointMismatch { expected: *waypoint, actual: *c })
                }
            },
        }
    }

    /// Bootstraps with the genesis committed to by `waypoint`: an empty
    /// database takes it; one that holds it already is left as it is; one that
    /// holds another genesis is left as it is and the call fails.
    pub fn bootstrap(&mut self, waypoint: &Waypoint) -> (r: Result<BootstrapStep, GenesisError>)
        ensures
            bootstrap_result(old(self).committed, *waypoint, r),
            r matches Ok(step) ==> plan_of(old(self)@, waypoint@) == Some(step),
            r is Err <==> plan_of(old(self)@, waypoint@) is None,
            final(self)@ == after_bootstrap(old(self)@, waypoint@),
    {
        let r = self.plan_bootstrap(waypoint);
        if let Ok(BootstrapStep::ApplyGenesis) = r {
            self.committed = Some(*waypoint);
        }
        r
    }
}

/// Bootstrapping an empty database and then bootstrapping it again with the
/// same genesis finds that genesis in place: the second run writes nothing and
/// the committed waypoint is the one computed before the first run.
pub proof fn lemma_bootstrap_round_trip(waypoint: WaypointView)
    ensures
        plan_of(None, waypoint) == Some(BootstrapStep::ApplyGenesis),
        after_bootstrap(None, waypoint) == Some(waypoint),
        plan_of(after_bootstrap(None, waypoint), waypoint) == Some(
            BootstrapStep::AlreadyBootstrapped,
        ),
        after_bootstrap(after_bootstrap(None, waypoint), waypoint) == after_bootstrap(
            None,
            waypoint,
        ),
{
}

/// A database bootstrapped with genesis `a` refuses a different genesis `b`,
/// and keeps `a` as its committed genesis.
pub proof fn lemma_divergence_detected(a: WaypointView, b: WaypointView)
    requires
        a != b,
    ensures
        plan_of(after_bootstrap(None, a), b) is None,
        after_bootstrap(after_bootstrap(None, a), b) == Some(a),
{
}

} // verus!
