//! The idempotent-mount orchestration state machine.
//!
//! One invocation walks Unresolved → PathResolved → DirectoryPrepared →
//! LockAcquired → (HelperSpawned →) MountRequested → Mounted → Confirmed,
//! or ends in Failed from any state. The machine decides; the caller
//! performs the demanded filesystem and process actions and feeds each
//! observed outcome back as an event. A pre-spawn mount check makes the
//! helper invocation idempotent: a mount that is already live is never
//! mounted again. Helper-reported success is necessary but not
//! sufficient — the kernel may register the mount asynchronously — so
//! visibility is polled under a bounded deadline.

use vstd::prelude::*;

use crate::errors::HelperFailure;
use crate::errors::XarError;
use crate::header::XarHeader;
use crate::mount_state::FsObservation;
use crate::mount_state::is_mounted;
use crate::mount_state::observation_mounted;
use crate::resolve::MountPath;
use crate::resolve::RootCandidate;
use crate::resolve::mount_dir_spec;
use crate::resolve::opt_string_view;
use crate::resolve::opt_u64_view;
use crate::resolve::resolve_mount_path;
use crate::resolve::resolved_root;
use crate::resolve::user_basedir_spec;
use crate::decimal::dec_digits;
use crate::decimal::push_u64_decimal;

verus! {

/// Interval between visibility polls, in microseconds.
pub const POLL_INTERVAL_MICROS: u64 = 100;

/// Deadline of the visibility wait, in microseconds (9 seconds).
pub const MOUNT_DEADLINE_MICROS: u64 = 9_000_000;

/// Fixed `timeout` option handed to the mount helper, in seconds.
pub const HELPER_TIMEOUT_SECS: u64 = 870;

/// Control states of one mount invocation.
#[derive(Clone, Copy, Debug, PartialEq, Eq, Structural)]
pub enum Phase {
    Unresolved,
    PathResolved,
    DirectoryPrepared,
    LockAcquired,
    /// The helper was spawned; its exit is awaited synchronously.
    HelperSpawned,
    /// The helper finished, or was skipped because the mount was already
    /// live; visibility is being polled.
    MountRequested,
    Mounted,
    /// Terminal success: the mount is visible and the heartbeat is fresh.
    Confirmed,
    /// Terminal failure; the error field holds why.
    Failed,
}

/// What the caller must do next.
#[derive(Clone, Copy, Debug, PartialEq, Eq, Structural)]
pub enum Action {
    /// Create the user directory and the mount directory if absent, then
    /// report `DirsPrepared`.
    PrepareDirectories,
    /// Open or create the sibling lockfile, then report `LockObtained`.
    AcquireLock,
    /// Query the mount table once before any spawn, then report `PreCheck`.
    CheckMounted,
    /// Spawn the mount helper, wait for its exit, report `HelperExited`.
    SpawnHelper,
    /// Query the mount table, report `Polled` with the elapsed wait time.
    PollMounted,
    /// Sleep one poll interval, then poll as in `PollMounted`.
    SleepThenPoll,
    /// Refresh the lockfile modification time, report `LockTouched`.
    TouchLock,
    /// Terminal: the mount is confirmed at the resolved path.
    Finish,
    /// Terminal: give up with the recorded error.
    Abort,
    /// The event did not match the phase; nothing to do.
    Idle,
}

/// How the spawned helper process terminated.
#[derive(Clone, Copy, Debug, PartialEq, Eq, Structural)]
pub enum HelperExit {
    Exited(i32),
    Signaled(i32),
}

/// An observed outcome the caller feeds back into the machine.
pub enum Event {
    /// The resolver inputs gathered at startup: the stat of the header's
    /// override root, if any, and the default candidates with their
    /// observed modes.
    RootsObserved { override_mode: Option<u32>, defaults: Vec<RootCandidate> },
    /// Whether both directories now exist.
    DirsPrepared { ok: bool },
    /// Whether the lockfile handle was obtained.
    LockObtained { ok: bool },
    /// The pre-spawn mount-table query.
    PreCheck { observation: FsObservation },
    /// The helper's exit status.
    HelperExited { status: HelperExit },
    /// A visibility poll, with the time elapsed since polling began.
    Polled { observation: FsObservation, elapsed_micros: u64 },
    /// Whether the heartbeat touch succeeded.
    LockTouched { ok: bool },
}

/// The orchestrator: immutable invocation inputs plus the control state.
pub struct MountOrchestrator {
    /// Parsed archive header.
    pub header: XarHeader,
    /// Effective uid of the caller.
    pub euid: u64,
    /// Environment seed, read verbatim; usability is decided here.
    pub seed: Option<String>,
    /// Inode of the mount-namespace handle, where statable.
    pub ns_inode: Option<u64>,
    /// Control state.
    pub phase: Phase,
    /// The resolved mount path, set on leaving `Unresolved` successfully.
    pub path: Option<MountPath>,
    /// The terminal error, set on entering `Failed`.
    pub error: Option<XarError>,
}

/// The phase the machine moves to on `ev`. Terminal phases and events
/// that do not match the phase leave the machine unchanged.
pub open spec fn next_phase(m: MountOrchestrator, ev: Event) -> Phase {
    match (m.phase, ev) {
        (Phase::Unresolved, Event::RootsObserved { override_mode, defaults }) => {
            if resolved_root(m.header.mount_root, override_mode, defaults@) is Some {
                Phase::PathResolved
            } else {
                Phase::Failed
            }
        },
        (Phase::PathResolved, Event::DirsPrepared { ok }) => {
            if ok {
                Phase::DirectoryPrepared
            } else {
                Phase::Failed
            }
        },
        (Phase::DirectoryPrepared, Event::LockObtained { ok }) => {
            if ok {
                Phase::LockAcquired
            } else {
                Phase::Failed
            }
        },
        (Phase::LockAcquired, Event::PreCheck { observation }) => {
            if observation_mounted(observation) {
                Phase::MountRequested
            } else {
                Phase::HelperSpawned
            }
        },
        (Phase::HelperSpawned, Event::HelperExited { status }) => {
            if status == HelperExit::Exited(0i32) {
                Phase::MountRequested
            } else {
                Phase::Failed
            }
        },
        (Phase::MountRequested, Event::Polled { observation, elapsed_micros }) => {
            if observation_mounted(observation) {
                Phase::Mounted
            } else if elapsed_micros > MOUNT_DEADLINE_MICROS {
                Phase::Failed
            } else {
                Phase::MountRequested
            }
        },
        (Phase::Mounted, Event::LockTouched { ok }) => {
            if ok {
                Phase::Confirmed
            } else {
                Phase::Failed
            }
        },
        _ => m.phase,
    }
}

/// The action the machine demands after consuming `ev`.
pub open spec fn next_action(m: MountOrchestrator, ev: Event) -> Action {
    match (m.phase, ev) {
        (Phase::Unresolved, Event::RootsObserved { override_mode, defaults }) => {
            if resolved_root(m.header.mount_root, override_mode, defaults@) is Some {
                Action::PrepareDirectories
            } else {
                Action::Abort
            }
        },
        (Phase::PathResolved, Event::DirsPrepared { ok }) => {
            if ok {
                Action::AcquireLock
            } else {
                Action::Abort
            }
        },
        (Phase::DirectoryPrepared, Event::LockObtained { ok }) => {
            if ok {
                Action::CheckMounted
            } else {
                Action::Abort
            }
        },
        (Phase::LockAcquired, Event::PreCheck { observation }) => {
            if observation_mounted(observation) {
                Action::PollMounted
            } else {
                Action::SpawnHelper
            }
        },
        (Phase::HelperSpawned, Event::HelperExited { status }) => {
            if status == HelperExit::Exited(0i32) {
                Action::PollMounted
            } else {
                Action::Abort
            }
        },
        (Phase::MountRequested, Event::Polled { observation, elapsed_micros }) => {
            if observation_mounted(observation) {
                Action::TouchLock
            } else if elapsed_micros > MOUNT_DEADLINE_MICROS {
                Action::Abort
            } else {
                Action::SleepThenPoll
            }
        },
        (Phase::Mounted, Event::LockTouched { ok }) => {
            if ok {
                Action::Finish
            } else {
                Action::Abort
            }
        },
        _ => Action::Idle,
    }
}

/// The error recorded when `ev` drives the machine into `Failed`.
pub open spec fn failure_of(m: MountOrchestrator, ev: Event) -> Option<XarError> {
    match (m.phase, ev) {
        (Phase::Unresolved, Event::RootsObserved { override_mode, defaults }) => {
            if resolved_root(m.header.mount_root, override_mode, defaults@) is Some {
                None
            } else {
                Some(XarError::Configuration)
            }
        },
        (Phase::PathResolved, Event::DirsPrepared { ok }) => {
            if ok {
                None
            } else {
                Some(XarError::Io)
            }
        },
        (Phase::DirectoryPrepared, Event::LockObtained { ok }) => {
            if ok {
                None
            } else {
                Some(XarError::Io)
            }
        },
        (Phase::HelperSpawned, Event::HelperExited { status }) => match status {
            HelperExit::Exited(code) => {
                if code == 0 {
                    None
                } else {
                    Some(XarError::Helper(HelperFailure::ExitCode(code)))
                }
            },
            HelperExit::Signaled(sig) => Some(XarError::Helper(HelperFailure::Signal(sig))),
        },
        (Phase::MountRequested, Event::Polled { observation, elapsed_micros }) => {
            if !observation_mounted(observation) && elapsed_micros > MOUNT_DEADLINE_MICROS {
                Some(XarError::Timeout)
            } else {
                None
            }
        },
        (Phase::Mounted, Event::LockTouched { ok }) => {
            if ok {
                None
            } else {
                Some(XarError::Io)
            }
        },
        _ => None,
    }
}

impl MountOrchestrator {
    /// Structural soundness of one machine value: the path is present in
    /// every phase past resolution, and the error exactly when failed.
    pub open spec fn wf(self) -> bool {
        &&& (self.error is Some <==> self.phase == Phase::Failed)
        &&& (self.phase == Phase::Unresolved ==> self.path is None)
        &&& (self.phase != Phase::Unresolved && self.phase != Phase::Failed ==> self.path is Some)
    }

    /// A fresh orchestrator for one invocation.
    pub fn new(header: XarHeader, euid: u64, seed: Option<String>, ns_inode: Option<u64>) -> (m:
        Self)
        ensures
            m.phase == Phase::Unresolved,
            m.path is None,
            m.error is None,
            m.header == header,
            m.euid == euid,
            m.seed == seed,
            m.ns_inode == ns_inode,
            m.wf(),
    {
        MountOrchestrator {
            header,
            euid,
            seed,
            ns_inode,
            phase: Phase::Unresolved,
            path: None,
            error: None,
        }
    }

    /// Consumes one observed outcome and moves the machine, returning
    /// what the caller must do next. Total: terminal phases and
    /// mismatched events leave the machine unchanged and demand nothing.
    pub fn step(&mut self, ev: Event) -> (a: Action)
        requires
            old(self).wf(),
        ensures
            final(self).wf(),
            final(self).phase == next_phase(*old(self), ev),
            a == next_action(*old(self), ev),
            final(self).header == old(self).header,
            final(self).euid == old(self).euid,
            final(self).seed == old(self).seed,
            final(self).ns_inode == old(self).ns_inode,
            match failure_of(*old(self), ev) {
                Some(e) => final(self).error == Some(e),
                None => final(self).error == old(self).error,
            },
            resolution_sets_path(*old(self), ev, *final(self)),
    {
        match (self.phase, ev) {
            (Phase::Unresolved, Event::RootsObserved { override_mode, defaults }) => {
                match resolve_mount_path(
                    &self.header,
                    &override_mode,
                    &defaults,
                    self.euid,
                    &self.seed,
                    &self.ns_inode,
                ) {
                    Ok(p) => {
                        self.path = Some(p);
                        self.phase = Phase::PathResolved;
                        Action::PrepareDirectories
                    },
                    Err(e) => {
                        self.error = Some(e);
                        self.phase = Phase::Failed;
                        Action::Abort
                    },
                }
            },
            (Phase::PathResolved, Event::DirsPrepared { ok }) => {
                if ok {
                    self.phase = Phase::DirectoryPrepared;
                    Action::AcquireLock
                } else {
                    self.error = Some(XarError::Io);
                    self.phase = Phase::Failed;
                    Action::Abort
                }
            },
            (Phase::DirectoryPrepared, Event::LockObtained { ok }) => {
                if ok {
                    self.phase = Phase::LockAcquired;
                    Action::CheckMounted
                } else {
                    self.error = Some(XarError::Io);
                    self.phase = Phase::Failed;
                    Action::Abort
                }
            },
            (Phase::LockAcquired, Event::PreCheck { observation }) => {
                if is_mounted(&observation) {
                    self.phase = Phase::MountRequested;
                    Action::PollMounted
                } else {
                    self.phase = Phase::HelperSpawned;
                    Action::SpawnHelper
                }
            },
            (Phase::HelperSpawned, Event::HelperExited { status }) => {
                match status {
                    HelperExit::Exited(code) => {
                        if code == 0 {
                            self.phase = Phase::MountRequested;
                            Action::PollMounted
                        } else {
                            self.error = Some(XarError::Helper(HelperFailure::ExitCode(code)));
                            self.phase = Phase::Failed;
                            Action::Abort
                        }
                    },
                    HelperExit::Signaled(sig) => {
                        self.error = Some(XarError::Helper(HelperFailure::Signal(sig)));
                        self.phase = Phase::Failed;
                        Action::Abort
                    },
                }
            },
            (Phase::MountRequested, Event::Polled { observation, elapsed_micros }) => {
                if is_mounted(&observation) {
                    self.phase = Phase::Mounted;
                    Action::TouchLock
                } else if elapsed_micros > MOUNT_DEADLINE_MICROS {
                    self.error = Some(XarError::Timeout);
                    self.phase = Phase::Failed;
                    Action::Abort
                } else {
                    Action::SleepThenPoll
                }
            },
            (Phase::Mounted, Event::LockTouched { ok }) => {
                if ok {
                    self.phase = Phase::Confirmed;
                    Action::Finish
                } else {
                    self.error = Some(XarError::Io);
                    self.phase = Phase::Failed;
                    Action::Abort
                }
            },
            _ => Action::Idle,
        }
    }

    /// The option string handed to the mount helper:
    /// `-ooffset=<header offset>,timeout=870`.
    pub fn helper_options(&self) -> (r: String)
        ensures
            r@ == helper_options_spec(self.header.offset as nat),
    {
        let mut out = String::from_str("-ooffset=");
        push_u64_decimal(&mut out, self.header.offset);
        out.append(",timeout=");
        push_u64_decimal(&mut out, HELPER_TIMEOUT_SECS);
        proof {
            assert(out@ =~= helper_options_spec(self.header.offset as nat));
        }
        out
    }
}

/// `-ooffset=<offset>,timeout=<fixed helper timeout>`.
pub open spec fn helper_options_spec(offset: nat) -> Seq<char> {
    "-ooffset="@ + dec_digits(offset) + ",timeout="@ + dec_digits(HELPER_TIMEOUT_SECS as nat)
}

/// How a successful resolution fills the path: its root is the resolved
/// root, its user directory and directory name are the specified ones.
/// Every other step leaves the path untouched.
pub open spec fn resolution_sets_path(
    pre: MountOrchestrator,
    ev: Event,
    post: MountOrchestrator,
) -> bool {
    match (pre.phase, ev) {
        (Phase::Unresolved, Event::RootsObserved { override_mode, defaults }) => {
            match resolved_root(pre.header.mount_root, override_mode, defaults@) {
                Some(rootp) => post.path matches Some(p) && p.root@ == rootp && p.user_dir@
                    == user_basedir_spec(pre.euid as nat) && p.base_name@ == mount_dir_spec(
                    pre.header.uuid@,
                    opt_string_view(pre.seed),
                    opt_u64_view(pre.ns_inode),
                ),
                None => post.path == pre.path,
            }
        },
        _ => post.path == pre.path,
    }
}

/// The machine `m` with its control state replaced by `p`; the
/// invocation inputs, which every step preserves, stay as they are.
pub open spec fn with_phase(m: MountOrchestrator, p: Phase) -> MountOrchestrator {
    MountOrchestrator { phase: p, ..m }
}

/// The control state after consuming the events of `evs` in order.
pub open spec fn run_phase(m: MountOrchestrator, evs: Seq<Event>) -> Phase
    decreases evs.len(),
{
    if evs.len() == 0 {
        m.phase
    } else {
        run_phase(with_phase(m, next_phase(m, evs[0])), evs.drop_first())
    }
}

/// Whether an event reports a live mount backing the path.
pub open spec fn reports_mounted(ev: Event) -> bool {
    match ev {
        Event::PreCheck { observation } => observation_mounted(observation),
        Event::Polled { observation, elapsed_micros } => observation_mounted(observation),
        _ => false,
    }
}

/// Whether an event is a pre-spawn check that reports the mount absent —
/// the only event that can ever demand a helper spawn.
pub open spec fn reports_unmounted_precheck(ev: Event) -> bool {
    ev matches Event::PreCheck { observation } && !observation_mounted(observation)
}

/// If the mount state never reports mounted, `Mounted` is never entered
/// and `Confirmed` is never reached, however long the run: visibility
/// can come only from an observation, never from the machine itself.
pub proof fn lemma_never_mounted_never_confirmed(m: MountOrchestrator, evs: Seq<Event>)
    requires
        m.phase != Phase::Mounted,
        m.phase != Phase::Confirmed,
        forall|k: int| 0 <= k < evs.len() ==> !reports_mounted(#[trigger] evs[k]),
    ensures
        run_phase(m, evs) != Phase::Mounted,
        run_phase(m, evs) != Phase::Confirmed,
    decreases evs.len(),
{
    if evs.len() > 0 {
        let m1 = with_phase(m, next_phase(m, evs[0]));
        assert(m1.phase != Phase::Mounted && m1.phase != Phase::Confirmed);
        assert(forall|k: int|
            0 <= k < evs.drop_first().len() ==> !reports_mounted(#[trigger] evs.drop_first()[k]));
        lemma_never_mounted_never_confirmed(m1, evs.drop_first());
    }
}

/// The helper is spawned only on a pre-spawn check that reports the
/// mount absent, and only from `LockAcquired`.
pub proof fn lemma_spawn_only_when_unmounted(m: MountOrchestrator, ev: Event)
    ensures
        next_action(m, ev) == Action::SpawnHelper <==> (m.phase == Phase::LockAcquired
            && reports_unmounted_precheck(ev)),
        next_phase(m, ev) == Phase::HelperSpawned ==> (m.phase == Phase::HelperSpawned || (m.phase
            == Phase::LockAcquired && reports_unmounted_precheck(ev))),
{
}

/// In a run in which no pre-spawn check ever reports the mount absent,
/// the machine never passes through `HelperSpawned`: the helper is never
/// spawned.
pub proof fn lemma_mounted_precheck_never_spawns(m: MountOrchestrator, evs: Seq<Event>)
    requires
        m.phase != Phase::HelperSpawned,
        forall|k: int| 0 <= k < evs.len() ==> !reports_unmounted_precheck(#[trigger] evs[k]),
    ensures
        run_phase(m, evs) != Phase::HelperSpawned,
    decreases evs.len(),
{
    if evs.len() > 0 {
        let m1 = with_phase(m, next_phase(m, evs[0]));
        assert(m1.phase != Phase::HelperSpawned);
        assert(forall|k: int|
            0 <= k < evs.drop_first().len() ==> !reports_unmounted_precheck(
                #[trigger] evs.drop_first()[k],
            ));
        lemma_mounted_precheck_never_spawns(m1, evs.drop_first());
    }
}

/// If the pre-spawn check reports mounted, the helper is never demanded
/// and `Confirmed` is reached directly: polling starts at once, the
/// first visible poll moves to `Mounted`, and the heartbeat confirms.
pub proof fn lemma_mounted_short_circuit(
    m: MountOrchestrator,
    obs1: FsObservation,
    obs2: FsObservation,
    elapsed_micros: u64,
)
    requires
        m.phase == Phase::LockAcquired,
        observation_mounted(obs1),
        observation_mounted(obs2),
    ensures
        next_phase(m, Event::PreCheck { observation: obs1 }) == Phase::MountRequested,
        next_action(m, Event::PreCheck { observation: obs1 }) == Action::PollMounted,
        ({
            let evs = seq![
                Event::PreCheck { observation: obs1 },
                Event::Polled { observation: obs2, elapsed_micros },
                Event::LockTouched { ok: true },
            ];
            &&& run_phase(m, evs) == Phase::Confirmed
            &&& next_action(run_prefix(m, evs, 0), evs[0]) != Action::SpawnHelper
            &&& next_action(run_prefix(m, evs, 1), evs[1]) != Action::SpawnHelper
            &&& next_action(run_prefix(m, evs, 2), evs[2]) != Action::SpawnHelper
        }),
{
    let evs = seq![
        Event::PreCheck { observation: obs1 },
        Event::Polled { observation: obs2, elapsed_micros },
        Event::LockTouched { ok: true },
    ];
    let m1 = with_phase(m, next_phase(m, evs[0]));
    let m2 = with_phase(m1, next_phase(m1, evs[1]));
    let m3 = with_phase(m2, next_phase(m2, evs[2]));
    assert(m1.phase == Phase::MountRequested);
    assert(m2.phase == Phase::Mounted);
    assert(m3.phase == Phase::Confirmed);
    let d1 = evs.drop_first();
    let d2 = d1.drop_first();
    let d3 = d2.drop_first();
    assert(d1.len() == 2 && d1[0] == evs[1] && d1[1] == evs[2]);
    assert(d2.len() == 1 && d2[0] == evs[2]);
    assert(d3.len() == 0);
    assert(run_phase(m, evs) == run_phase(m1, d1));
    assert(run_phase(m1, d1) == run_phase(m2, d2));
    assert(run_phase(m2, d2) == run_phase(m3, d3));
    assert(run_phase(m3, d3) == m3.phase);
    assert(run_phase(m, evs) == Phase::Confirmed);
    assert(run_prefix(m, evs, 0) == m);
    assert(run_prefix(m, evs, 1) == m1);
    assert(run_prefix(m, evs, 2) == m2);
}

/// The machine after the first `k` events of `evs`, with only the
/// control state tracked.
pub open spec fn run_prefix(m: MountOrchestrator, evs: Seq<Event>, k: int) -> MountOrchestrator
    decreases k,
{
    if k <= 0 {
        m
    } else {
        let prev = run_prefix(m, evs, k - 1);
        with_phase(prev, next_phase(prev, evs[k - 1]))
    }
}

/// The visibility wait fails with `Timeout` exactly on a poll that still
/// reports the mount absent after more than the deadline; any unexpired
/// absent poll keeps the machine polling after one sleep interval. So
/// the timeout is raised no earlier than the deadline, and — since each
/// further poll comes one interval after the last — no later than the
/// deadline plus one poll interval.
pub proof fn lemma_timeout_exact(
    m: MountOrchestrator,
    observation: FsObservation,
    elapsed_micros: u64,
)
    requires
        m.phase == Phase::MountRequested,
    ensures
        next_phase(m, Event::Polled { observation, elapsed_micros }) == Phase::Failed <==> (
        !observation_mounted(observation) && elapsed_micros > MOUNT_DEADLINE_MICROS),
        next_phase(m, Event::Polled { observation, elapsed_micros }) == Phase::Failed
            ==> failure_of(m, Event::Polled { observation, elapsed_micros }) == Some(
            XarError::Timeout,
        ),
        !observation_mounted(observation) && elapsed_micros <= MOUNT_DEADLINE_MICROS ==> (
        next_phase(m, Event::Polled { observation, elapsed_micros }) == Phase::MountRequested
            && next_action(m, Event::Polled { observation, elapsed_micros })
            == Action::SleepThenPoll),
{
}

} // verus!
