//! The genesis procedure as a sequence of steps. The run tells its driver
//! which outside work to do next ([`Action`]); the driver does it and reports
//! the outcome through the method for that step. Every failure ends the run,
//! and the database handle is released on every path out of it.
use vstd::prelude::*;

use crate::error::GenesisError;
use crate::handles::{DatabaseHandles, DbHandle};
use crate::ledger::{BootstrapStep, LedgerGenesis, after_bootstrap, plan_of};
use crate::paths::{ledger_db_path, ledger_path};
use crate::record::{GenesisRecord, HostValue, host_after, record_of};
use crate::waypoint::{Waypoint, WaypointView};

verus! {

/// Genesis sets up a single validator.
pub const GENESIS_VALIDATOR_COUNT: u32 = 1;

/// Where a run stands: the step whose outcome it waits for.
#[derive(Clone, Copy, PartialEq, Eq, Structural, Debug)]
pub enum Phase {
    CreatingGenesis,
    PreparingDirectory,
    OpeningDatabase,
    ComputingWaypoint,
    ApplyingGenesis,
    ReleasingDatabase,
    ReadingGenesisBlock,
    Done,
    Failed,
}

/// Whether a run in phase `p` holds the ledger database.
pub open spec fn holds_database(p: Phase) -> bool {
    match p {
        Phase::OpeningDatabase | Phase::ComputingWaypoint | Phase::ApplyingGenesis
        | Phase::ReleasingDatabase | Phase::ReadingGenesisBlock => true,
        _ => false,
    }
}

/// Whether a run in phase `p` knows the genesis waypoint.
pub open spec fn knows_waypoint(p: Phase) -> bool {
    match p {
        Phase::ApplyingGenesis | Phase::ReleasingDatabase | Phase::ReadingGenesisBlock => true,
        _ => false,
    }
}

/// The outside work a run asks of its driver.
pub enum Action {
    /// Build the genesis change set and validator signer for this many
    /// validators, and encode the signer.
    CreateGenesis { validator_count: u32 },
    /// Create the directory at `path` unless it exists.
    EnsureDirectory { path: String },
    /// Open the ledger database at `path`.
    OpenDatabase { path: String },
    /// Compute the genesis waypoint against the open database and report what
    /// the database has committed.
    ComputeWaypoint,
    /// Apply the genesis transaction to the open database.
    ApplyGenesis { waypoint: Waypoint },
    /// Close the open database.
    ReleaseDatabase,
    /// Open the execution interface over `path` and read the committed block.
    ReadGenesisBlock { path: String },
    /// Write the record into host state; genesis is complete.
    Persist { record: GenesisRecord },
    /// Stop: genesis failed. Close the database first where `release_database`.
    Fail { error: GenesisError, release_database: bool },
}

/// What a run holds, as mathematical values.
pub struct RunView {
    pub phase: Phase,
    pub db_path: Seq<char>,
    pub validator_signer: Seq<u8>,
    pub waypoint: Option<WaypointView>,
    pub held: Set<Seq<char>>,
}

/// One run of the genesis procedure.
pub struct GenesisRun {
    phase: Phase,
    db_path: String,
    handles: DatabaseHandles,
    handle: Option<DbHandle>,
    validator_signer: Vec<u8>,
    waypoint: Option<Waypoint>,
}

impl View for GenesisRun {
    type V = RunView;

    closed spec fn view(&self) -> RunView {
        RunView {
            phase: self.phase,
            db_path: self.db_path@,
            validator_signer: self.validator_signer@,
            waypoint: match self.waypoint {
                None => None,
                Some(w) => Some(w@),
            },
            held: self.handles@,
        }
    }
}

impl GenesisRun {
    /// The run holds the database exactly in the phases that use it, and then
    /// holds nothing but the database path.
    pub closed spec fn wf(&self) -> bool {
        &&& self.handles.wf()
        &&& holds_database(self.phase) <==> self.handle is Some
        &&& self.handle matches Some(h) ==> h@ == self.db_path@ && self.handles@ == set![
            self.db_path@,
        ]
        &&& self.handle is None ==> self.handles@ == Set::<Seq<char>>::empty()
        &&& knows_waypoint(self.phase) ==> self.waypoint is Some
    }

    /// A run that will place the ledger database under `base_dir`.
    pub fn new(base_dir: &str) -> (r: GenesisRun)
        ensures
            r.wf(),
            r@.phase == Phase::CreatingGenesis,
            r@.db_path == ledger_path(base_dir@),
            r@.validator_signer == Seq::<u8>::empty(),
            r@.waypoint == None::<WaypointView>,
            r@.held == Set::<Seq<char>>::empty(),
    {
        GenesisRun {
            phase: Phase::CreatingGenesis,
            db_path: ledger_db_path(base_dir),
            handles: DatabaseHandles::new(),
            handle: None,
            validator_signer: Vec::new(),
            waypoint: None,
        }
    }

    /// The phase the run is in.
    pub fn phase(&self) -> (r: Phase)
        ensures
            r == self@.phase,
    {
        self.phase
    }

    /// The ledger database path.
    pub fn db_path(&self) -> (r: &String)
        ensures
            r@ == self@.db_path,
    {
        &self.db_path
    }

    /// The first action of a run.
    pub fn begin(&self) -> (r: Action)
        requires
            self@.phase == Phase::CreatingGenesis,
        ensures
            r matches Action::CreateGenesis { validator_count } && validator_count
                == GENESIS_VALIDATOR_COUNT,
    {
        Action::CreateGenesis { validator_count: GENESIS_VALIDATOR_COUNT }
    }

    /// Gives up the database, if held.
    fn release(&mut self)
        requires
            old(self).wf(),
        ensures
            final(self).handles.wf(),
            final(self).handle is None,
            final(self).handles@ == Set::<Seq<char>>::empty(),
            final(self).phase == old(self).phase,
            final(self).db_path == old(self).db_path,
            final(self).validator_signer == old(self).validator_signer,
            final(self).waypoint == old(self).waypoint,
    {
        let handle = self.handle.take();
        if let Some(h) = handle {
            self.handles.close(h);
            assert(self.handles@ =~= Set::<Seq<char>>::empty());
        }
    }

    /// Ends the run with `error`.
    fn fail(&mut self, error: GenesisError, release_database: bool) -> (r: Action)
        requires
            old(self).wf(),
        ensures
            final(self).wf(),
            final(self)@ == (RunView {
                phase: Phase::Failed,
                held: Set::<Seq<char>>::empty(),
                ..old(self)@
            }),
            r == (Action::Fail { error, release_database }),
    {
        self.release();
        self.phase = Phase::Failed;
        Action::Fail { error, release_database }
    }

    /// The genesis change set was built; `validator_signer` is the signer's
    /// encoding, or `None` where encoding failed.
    pub fn genesis_created(&mut self, validator_signer: Option<Vec<u8>>) -> (r: Action)
        requires
            old(self).wf(),
            old(self)@.phase == Phase::CreatingGenesis,
        ensures
            final(self).wf(),
            match validator_signer {
                None => final(self)@ == (RunView { phase: Phase::Failed, ..old(self)@ })
                    && (r matches Action::Fail {
                    error: GenesisError::Serialization,
                    release_database: false,
                }),
                Some(s) => final(self)@ == (RunView {
                    phase: Phase::PreparingDirectory,
                    validator_signer: s@,
                    ..old(self)@
                }) && (r matches Action::EnsureDirectory { path } && path@ == old(self)@.db_path),
            },
    {
        match validator_signer {
            None => self.fail(GenesisError::Serialization, false),
            Some(s) => {
                self.validator_signer = s;
                self.phase = Phase::PreparingDirectory;
                Action::EnsureDirectory { path: self.db_path.clone() }
            },
        }
    }

    /// The database directory was created, or found in place, where `ready`.
    pub fn directory_ensured(&mut self, ready: bool) -> (r: Action)
        requires
            old(self).wf(),
            old(self)@.phase == Phase::PreparingDirectory,
        ensures
            final(self).wf(),
            !ready ==> (final(self)@ == (RunView { phase: Phase::Failed, ..old(self)@ })
                && (r matches Action::Fail {
                error: GenesisError::DirectoryCreation { path },
                release_database: false,
            } && path@ == old(self)@.db_path)),
            ready ==> (final(self)@ == (RunView {
                phase: Phase::OpeningDatabase,
                held: set![old(self)@.db_path],
                ..old(self)@
            }) && (r matches Action::OpenDatabase { path } && path@ == old(self)@.db_path)),
    {
        if !ready {
            return self.fail(GenesisError::DirectoryCreation { path: self.db_path.clone() }, false);
        }
        match self.handles.open(&self.db_path) {
            Ok(h) => {
                self.handle = Some(h);
                self.phase = Phase::OpeningDatabase;
                proof {
                    assert(self.handles@ =~= set![self.db_path@]);
                }
                Action::OpenDatabase { path: self.db_path.clone() }
            },
            Err(e) => {
                // no handle is held before the database is opened
                assert(false);
                self.fail(e, false)
            },
        }
    }

    /// The database was opened where `opened`; otherwise it was locked or
    /// unreadable.
    pub fn database_opened(&mut self, opened: bool) -> (r: Action)
        requires
            old(self).wf(),
            old(self)@.phase == Phase::OpeningDatabase,
        ensures
            final(self).wf(),
            !opened ==> (final(self)@ == (RunView {
                phase: Phase::Failed,
                held: Set::<Seq<char>>::empty(),
                ..old(self)@
            }) && (r matches Action::Fail {
                error: GenesisError::StorageOpen { path },
                release_database: false,
            } && path@ == old(self)@.db_path)),
            opened ==> (final(self)@ == (RunView { phase: Phase::ComputingWaypoint, ..old(self)@ })
                && r is ComputeWaypoint),
    {
        if !opened {
            return self.fail(GenesisError::StorageOpen { path: self.db_path.clone() }, false);
        }
        self.phase = Phase::ComputingWaypoint;
        Action::ComputeWaypoint
    }

    /// The genesis waypoint is `waypoint`, and `ledger` is what the open
    /// database has committed.
    pub fn waypoint_computed(&mut self, waypoint: Waypoint, ledger: &LedgerGenesis) -> (r: Action)
        requires
            old(self).wf(),
            old(self)@.phase == Phase::ComputingWaypoint,
        ensures
            final(self).wf(),
            plan_of(ledger@, waypoint@) == Some(BootstrapStep::ApplyGenesis) ==> (final(self)@ == (
            RunView {
                phase: Phase::ApplyingGenesis,
                waypoint: Some(waypoint@),
                ..old(self)@
            }) && (r matches Action::ApplyGenesis { waypoint: w } && w@ == waypoint@)),
            plan_of(ledger@, waypoint@) == Some(BootstrapStep::AlreadyBootstrapped) ==> (final(self)@ == (RunView {
                phase: Phase::ReleasingDatabase,
                waypoint: Some(waypoint@),
                ..old(self)@
            }) && r is ReleaseDatabase),
            plan_of(ledger@, waypoint@) is None ==> (final(self)@ == (RunView {
                phase: Phase::Failed,
                held: Set::<Seq<char>>::empty(),
                ..old(self)@
            }) && (r matches Action::Fail {
                error: GenesisError::WaypointMismatch { expected, actual },
                release_database: true,
            } && expected@ == waypoint@ && ledger@ == Some(actual@))),
    {
        match ledger.plan_bootstrap(&waypoint) {
            Ok(BootstrapStep::ApplyGenesis) => {
                self.waypoint = Some(waypoint);
                self.phase = Phase::ApplyingGenesis;
                Action::ApplyGenesis { waypoint }
            },
            Ok(BootstrapStep::AlreadyBootstrapped) => {
                self.waypoint = Some(waypoint);
                self.phase = Phase::ReleasingDatabase;
                Action::ReleaseDatabase
            },
            Err(e) => self.fail(e, true),
        }
    }

    /// The genesis transaction was applied, and the database now reports
    /// `committed` as its genesis waypoint.
    pub fn genesis_applied(&mut self, committed: Waypoint) -> (r: Action)
        requires
            old(self).wf(),
            old(self)@.phase == Phase::ApplyingGenesis,
        ensures
            final(self).wf(),
            old(self)@.waypoint == Some(committed@) ==> (final(self)@ == (RunView {
                phase: Phase::ReleasingDatabase,
                ..old(self)@
            }) && r is ReleaseDatabase),
            old(self)@.waypoint != Some(committed@) ==> (final(self)@ == (RunView {
                phase: Phase::Failed,
                held: Set::<Seq<char>>::empty(),
                ..old(self)@
            }) && (r matches Action::Fail {
                error: GenesisError::WaypointMismatch { expected, actual },
                release_database: true,
            } && old(self)@.waypoint == Some(expected@) && actual@ == committed@)),
    {
        let expected = match self.waypoint {
            Some(w) => w,
            None => {
                // the waypoint is known once genesis is being applied
                assert(false);
                committed
            },
        };
        if expected.same_as(&committed) {
            self.phase = Phase::ReleasingDatabase;
            Action::ReleaseDatabase
        } else {
            self.fail(GenesisError::WaypointMismatch { expected, actual: committed }, true)
        }
    }

    /// The database was closed. The execution interface may now open the
    /// same path.
    pub fn database_released(&mut self) -> (r: Action)
        requires
            old(self).wf(),
            old(self)@.phase == Phase::ReleasingDatabase,
        ensures
            final(self).wf(),
            final(self)@ == (RunView { phase: Phase::ReadingGenesisBlock, ..old(self)@ }),
            r matches Action::ReadGenesisBlock { path } && path@ == old(self)@.db_path,
    {
        self.release();
        match self.handles.open(&self.db_path) {
            Ok(h) => {
                self.handle = Some(h);
                self.phase = Phase::ReadingGenesisBlock;
                proof {
                    assert(self.handles@ =~= set![self.db_path@]);
                }
                Action::ReadGenesisBlock { path: self.db_path.clone() }
            },
            Err(e) => {
                // the database handle was released just above
                assert(false);
                self.fail(e, true)
            },
        }
    }

    /// The execution interface reported `block_id` as its committed block, or
    /// could not be opened where `None`.
    pub fn genesis_block_read(&mut self, block_id: Option<Vec<u8>>) -> (r: Action)
        requires
            old(self).wf(),
            old(self)@.phase == Phase::ReadingGenesisBlock,
        ensures
            final(self).wf(),
            final(self)@.held == Set::<Seq<char>>::empty(),
            block_id is None ==> (final(self)@.phase == Phase::Failed && (r matches Action::Fail {
                error: GenesisError::StorageOpen { path },
                release_database: true,
            } && path@ == old(self)@.db_path)),
            block_id matches Some(id) ==> final(self)@ == (RunView {
                phase: Phase::Done,
                held: Set::<Seq<char>>::empty(),
                ..old(self)@
            }) && (r matches Action::Persist { record } && old(self)@.waypoint matches Some(w)
                && record@ == record_of(
                old(self)@.validator_signer,
                old(self)@.db_path,
                w,
                id@,
            )),
    {
        match block_id {
            None => self.fail(GenesisError::StorageOpen { path: self.db_path.clone() }, true),
            Some(id) => {
                self.release();
                self.phase = Phase::Done;
                let waypoint = match self.waypoint {
                    Some(w) => w,
                    None => {
                        // the waypoint is known once the block is read
                        assert(false);
                        Waypoint::new(0, [0u8; 32])
                    },
                };
                let record = GenesisRecord::new(
                    self.validator_signer.clone(),
                    self.db_path.clone(),
                    &waypoint,
                    id,
                );
                Action::Persist { record }
            },
        }
    }
}

/// Running genesis a second time against a database that already holds the
/// matching genesis leaves the database as it is, and, with the same signer,
/// path, waypoint and committed block, sets the same values in host state as
/// the first run: host state is unchanged by the second run.
pub proof fn lemma_genesis_rerun_is_noop(
    host: Map<Seq<char>, HostValue>,
    validator_signer: Seq<u8>,
    db_path: Seq<char>,
    waypoint: WaypointView,
    genesis_hash: Seq<u8>,
)
    ensures
        plan_of(after_bootstrap(None, waypoint), waypoint) == Some(
            BootstrapStep::AlreadyBootstrapped,
        ),
        after_bootstrap(after_bootstrap(None, waypoint), waypoint) == after_bootstrap(
            None,
            waypoint,
        ),
        host_after(
            host_after(host, record_of(validator_signer, db_path, waypoint, genesis_hash)),
            record_of(validator_signer, db_path, waypoint, genesis_hash),
        ) == host_after(host, record_of(validator_signer, db_path, waypoint, genesis_hash)),
{
    let r = record_of(validator_signer, db_path, waypoint, genesis_hash);
    assert(host_after(host_after(host, r), r) =~= host_after(host, r));
}

} // verus!
