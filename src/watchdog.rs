use vstd::prelude::*;
use crate::denylist::{parse_denylist, text_lines, Denylist, Loaded};
use crate::enforce::{
    classify, outcome_notification, select_targets, spec_outcome, spec_outcome_notification,
    spec_targets, KillReport, ProcessRecord,
};
use crate::notice::{Notice, Notification, Severity};

verus! {

/// Pause between two poll cycles.
pub const POLL_INTERVAL_MS: u64 = 1000;

/// What happens after reading the denylist failed: wait `delay_ms`, then
/// restart, at most `max_restarts` times (`None`: without limit).
pub struct RetryPolicy {
    pub delay_ms: u64,
    pub max_restarts: Option<u64>,
}

impl RetryPolicy {
    /// Restart at once, forever.
    pub fn unlimited() -> (r: RetryPolicy)
        ensures
            r.delay_ms == 0,
            r.max_restarts is None,
    {
        RetryPolicy { delay_ms: 0, max_restarts: None }
    }
}

pub struct WatchdogConfig {
    pub denylist_path: String,
    pub poll_interval_ms: u64,
    pub retry: RetryPolicy,
}

impl WatchdogConfig {
    /// Polls `denylist_path` every second and restarts at once, forever,
    /// after a failed read.
    pub fn new(denylist_path: String) -> (r: WatchdogConfig)
        ensures
            r.denylist_path == denylist_path,
            r.poll_interval_ms == POLL_INTERVAL_MS,
            r.retry.delay_ms == 0,
            r.retry.max_restarts is None,
    {
        WatchdogConfig {
            denylist_path,
            poll_interval_ms: POLL_INTERVAL_MS,
            retry: RetryPolicy::unlimited(),
        }
    }
}

/// Where the watchdog stands; each phase waits for the answer to one action.
pub enum Phase {
    /// Waits for the text of the denylist file.
    Load,
    /// Holds this cycle's denylist and waits for a process snapshot.
    Snapshot(Denylist),
    /// Waits for the report on the kill request sent to `targets[next]`.
    Enforce { targets: Vec<ProcessRecord>, next: usize },
    /// Waits for the pause between cycles to end.
    Pause,
    /// Waits for the restart after a failed read.
    Recover,
    /// The retry policy allows no more restarts.
    Stopped,
}

/// What the caller is asked to do next.
#[derive(Clone, Copy, Debug, PartialEq, Eq, Structural)]
pub enum Action {
    /// Read the whole denylist file as text.
    ReadDenylist,
    /// Enumerate the running processes afresh.
    TakeSnapshot,
    /// Forcefully terminate the process with this identifier.
    Terminate(u32),
    /// Sleep this many milliseconds.
    Sleep(u64),
    /// Wait this many milliseconds, then set up a fresh process enumerator.
    Restart(u64),
    /// Stop watching.
    Stop,
}

/// The answer to an action.
pub enum Event {
    DenylistRead(String),
    /// Reading the denylist file failed, with this detail.
    DenylistFailed(String),
    Snapshot(Vec<ProcessRecord>),
    Terminated(KillReport),
    Slept,
    Restarted,
}

/// What one transition hands back: an optional message and the next action.
pub struct Step {
    pub notification: Option<Notification>,
    pub action: Action,
}

/// The poll / enforce / recover cycle. It keeps no record of earlier cycles:
/// each one starts from the denylist file and a fresh snapshot.
pub struct Watchdog {
    pub config: WatchdogConfig,
    pub phase: Phase,
    pub restarts_left: Option<u64>,
}

/// Reported, at `Error` and blocking, when the denylist file is empty.
pub open spec fn spec_empty_notification(path: String) -> Notification {
    Notification {
        notice: Notice::EmptyDenylist { path },
        severity: Severity::Error,
        threaded: false,
        delay_ms: 0,
    }
}

/// Reported, at `Error` and blocking, when reading the denylist failed.
pub open spec fn spec_fatal_notification(detail: String) -> Notification {
    Notification { notice: Notice::Fatal { detail }, severity: Severity::Error, threaded: false, delay_ms: 0 }
}

pub open spec fn spec_pending(w: Watchdog) -> Action {
    match w.phase {
        Phase::Load => Action::ReadDenylist,
        Phase::Snapshot(_) => Action::TakeSnapshot,
        Phase::Enforce { targets, next } => Action::Terminate(targets@[next as int].pid),
        Phase::Pause => Action::Sleep(w.config.poll_interval_ms),
        Phase::Recover => Action::Restart(w.config.retry.delay_ms),
        Phase::Stopped => Action::Stop,
    }
}

/// `post` differs from `pre` in its phase at most.
pub open spec fn same_setup(pre: Watchdog, post: Watchdog) -> bool {
    post.config == pre.config && post.restarts_left == pre.restarts_left
}

/// One transition of the watchdog on event `e`, handing back `s`.
pub open spec fn transition(pre: Watchdog, e: Event, post: Watchdog, s: Step) -> bool {
    match (pre.phase, e) {
        (Phase::Load, Event::DenylistRead(content)) => {
            &&& same_setup(pre, post)
            &&& if content@.len() == 0 {
                &&& post.phase is Pause
                &&& s.notification == Some(spec_empty_notification(pre.config.denylist_path))
                &&& s.action == Action::Sleep(pre.config.poll_interval_ms)
            } else {
                &&& post.phase matches Phase::Snapshot(d) && d.wf() && d@ == text_lines(
                    content@,
                ).to_set()
                &&& s.notification is None
                &&& s.action == Action::TakeSnapshot
            }
        },
        (Phase::Load, Event::DenylistFailed(detail)) => {
            &&& post.config == pre.config
            &&& s.notification == Some(spec_fatal_notification(detail))
            &&& if pre.restarts_left == Some(0u64) {
                &&& post.phase is Stopped
                &&& post.restarts_left == pre.restarts_left
                &&& s.action == Action::Stop
            } else {
                &&& post.phase is Recover
                &&& post.restarts_left == match pre.restarts_left {
                    Some(k) => Some((k - 1) as u64),
                    None => None,
                }
                &&& s.action == Action::Restart(pre.config.retry.delay_ms)
            }
        },
        (Phase::Snapshot(d), Event::Snapshot(records)) => {
            let t = spec_targets(d@, records@);
            &&& same_setup(pre, post)
            &&& s.notification is None
            &&& if t.len() == 0 {
                &&& post.phase is Pause
                &&& s.action == Action::Sleep(pre.config.poll_interval_ms)
            } else {
                &&& post.phase matches Phase::Enforce { targets, next } && targets@ == t && next
                    == 0
                &&& s.action == Action::Terminate(t[0].pid)
            }
        },
        (Phase::Enforce { targets, next }, Event::Terminated(report)) => {
            &&& same_setup(pre, post)
            &&& s.notification == Some(
                spec_outcome_notification(targets@[next as int].name, spec_outcome(report)),
            )
            &&& if next + 1 < targets@.len() {
                &&& post.phase == (Phase::Enforce { targets, next: (next + 1) as usize })
                &&& s.action == Action::Terminate(targets@[next + 1].pid)
            } else {
                &&& post.phase is Pause
                &&& s.action == Action::Sleep(pre.config.poll_interval_ms)
            }
        },
        (Phase::Pause, Event::Slept) | (Phase::Recover, Event::Restarted) => {
            &&& same_setup(pre, post)
            &&& post.phase is Load
            &&& s.notification is None
            &&& s.action == Action::ReadDenylist
        },
        _ => {
            &&& post == pre
            &&& s.notification is None
            &&& s.action == spec_pending(pre)
        },
    }
}

impl Watchdog {
    pub open spec fn wf(&self) -> bool {
        match self.phase {
            Phase::Snapshot(d) => d.wf(),
            Phase::Enforce { targets, next } => next < targets@.len(),
            _ => true,
        }
    }

    /// A watchdog about to read the denylist for its first cycle.
    pub fn new(config: WatchdogConfig) -> (r: Watchdog)
        ensures
            r.wf(),
            r.phase is Load,
            r.restarts_left == config.retry.max_restarts,
            r.config == config,
    {
        let restarts_left = config.retry.max_restarts;
        Watchdog { config, phase: Phase::Load, restarts_left }
    }

    /// The action that the current phase waits on.
    pub fn pending(&self) -> (r: Action)
        requires
            self.wf(),
        ensures
            r == spec_pending(*self),
    {
        match &self.phase {
            Phase::Load => Action::ReadDenylist,
            Phase::Snapshot(_) => Action::TakeSnapshot,
            Phase::Enforce { targets, next } => Action::Terminate(targets[*next].pid),
            Phase::Pause => Action::Sleep(self.config.poll_interval_ms),
            Phase::Recover => Action::Restart(self.config.retry.delay_ms),
            Phase::Stopped => Action::Stop,
        }
    }

    fn empty_notification(&self) -> (r: Notification)
        ensures
            r == spec_empty_notification(self.config.denylist_path),
    {
        Notification {
            notice: Notice::EmptyDenylist { path: self.config.denylist_path.clone() },
            severity: Severity::Error,
            threaded: false,
            delay_ms: 0,
        }
    }

    /// Feeds the answer to the pending action and returns what to do next.
    /// An event that does not answer the pending action changes nothing and
    /// asks for that action again.
    pub fn step(&mut self, e: Event) -> (s: Step)
        requires
            old(self).wf(),
        ensures
            final(self).wf(),
            transition(*old(self), e, *final(self), s),
    {
        let mut phase = Phase::Stopped;
        core::mem::swap(&mut self.phase, &mut phase);
        match (phase, e) {
            (Phase::Load, Event::DenylistRead(content)) => {
                match parse_denylist(content.as_str()) {
                    Loaded::Empty => {
                        self.phase = Phase::Pause;
                        Step {
                            notification: Some(self.empty_notification()),
                            action: Action::Sleep(self.config.poll_interval_ms),
                        }
                    },
                    Loaded::Entries(d) => {
                        self.phase = Phase::Snapshot(d);
                        Step { notification: None, action: Action::TakeSnapshot }
                    },
                }
            },
            (Phase::Load, Event::DenylistFailed(detail)) => {
                let n = Notification {
                    notice: Notice::Fatal { detail },
                    severity: Severity::Error,
                    threaded: false,
                    delay_ms: 0,
                };
                match self.restarts_left {
                    Some(k) => {
                        if k == 0 {
                            self.phase = Phase::Stopped;
                            return Step { notification: Some(n), action: Action::Stop };
                        }
                        self.restarts_left = Some(k - 1);
                    },
                    None => {},
                }
                self.phase = Phase::Recover;
                Step { notification: Some(n), action: Action::Restart(self.config.retry.delay_ms) }
            },
            (Phase::Snapshot(d), Event::Snapshot(records)) => {
                let targets = select_targets(&d, &records);
                if targets.len() == 0 {
                    self.phase = Phase::Pause;
                    Step { notification: None, action: Action::Sleep(self.config.poll_interval_ms) }
                } else {
                    let pid = targets[0].pid;
                    self.phase = Phase::Enforce { targets, next: 0 };
                    Step { notification: None, action: Action::Terminate(pid) }
                }
            },
            (Phase::Enforce { targets, next }, Event::Terminated(report)) => {
                let name = targets[next].name.clone();
                let n = outcome_notification(name, classify(report));
                if next < targets.len() - 1 {
                    let pid = targets[next + 1].pid;
                    self.phase = Phase::Enforce { targets, next: next + 1 };
                    Step { notification: Some(n), action: Action::Terminate(pid) }
                } else {
                    self.phase = Phase::Pause;
                    Step { notification: Some(n), action: Action::Sleep(self.config.poll_interval_ms) }
                }
            },
            (Phase::Pause, Event::Slept) | (Phase::Recover, Event::Restarted) => {
                self.phase = Phase::Load;
                Step { notification: None, action: Action::ReadDenylist }
            },
            (phase, _) => {
                self.phase = phase;
                Step { notification: None, action: self.pending() }
            },
        }
    }
}

/// An empty denylist file is reported once, at `Error` and blocking, and
/// the cycle that read it asks for no termination: whatever answers the
/// pause, the next action is a pause again or a fresh read.
pub proof fn lemma_empty_denylist_terminates_nothing(
    pre: Watchdog,
    content: String,
    mid: Watchdog,
    s1: Step,
    e2: Event,
    post: Watchdog,
    s2: Step,
)
    requires
        pre.phase is Load,
        content@.len() == 0,
        transition(pre, Event::DenylistRead(content), mid, s1),
        transition(mid, e2, post, s2),
    ensures
        s1.notification == Some(spec_empty_notification(pre.config.denylist_path)),
        s1.action == Action::Sleep(pre.config.poll_interval_ms),
        !(s2.action is Terminate),
        post.phase is Load || post.phase is Pause,
{
}

/// A failed read of the denylist (the file was deleted, say) brings exactly
/// one message, at `Error`, blocking and without delay, and a restart; once
/// restarted the watchdog reads the denylist again. Without a restart limit
/// it stays without one, so this repeats forever.
pub proof fn lemma_failed_read_recovers(
    pre: Watchdog,
    detail: String,
    mid: Watchdog,
    s1: Step,
    post: Watchdog,
    s2: Step,
)
    requires
        pre.phase is Load,
        pre.restarts_left != Some(0u64),
        transition(pre, Event::DenylistFailed(detail), mid, s1),
        transition(mid, Event::Restarted, post, s2),
    ensures
        s1.notification == Some(spec_fatal_notification(detail)),
        s1.notification->0.severity == Severity::Error,
        !s1.notification->0.threaded,
        s1.action == Action::Restart(pre.config.retry.delay_ms),
        post.phase is Load,
        post.config == pre.config,
        s2.notification is None,
        s2.action == Action::ReadDenylist,
        pre.restarts_left is None ==> post.restarts_left is None,
{
}

/// Whatever the kill mechanism reports for one target (success, another
/// exit code, or no start at all), the report is surfaced and the next
/// matched process is still terminated.
pub proof fn lemma_each_match_is_tried(
    pre: Watchdog,
    targets: Vec<ProcessRecord>,
    next: usize,
    report: KillReport,
    post: Watchdog,
    s: Step,
)
    requires
        pre.phase == (Phase::Enforce { targets, next }),
        next + 1 < targets@.len(),
        transition(pre, Event::Terminated(report), post, s),
    ensures
        s.notification == Some(
            spec_outcome_notification(targets@[next as int].name, spec_outcome(report)),
        ),
        s.action == Action::Terminate(targets@[next + 1].pid),
        post.phase == (Phase::Enforce { targets, next: (next + 1) as usize }),
{
}

/// Enforcement keeps no memory across cycles: two cycles that start from
/// any two watchdogs waiting to read, and see the same denylist text and
/// the same snapshot, pick the same processes to terminate, in the same
/// order, and ask for the same first action.
pub proof fn lemma_cycles_repeat(
    w1: Watchdog,
    w2: Watchdog,
    content: String,
    records: Vec<ProcessRecord>,
    a1: Watchdog,
    a2: Watchdog,
    s1: Step,
    s2: Step,
    b1: Watchdog,
    b2: Watchdog,
    t1: Step,
    t2: Step,
)
    requires
        w1.phase is Load,
        w2.phase is Load,
        content@.len() > 0,
        transition(w1, Event::DenylistRead(content), a1, s1),
        transition(w2, Event::DenylistRead(content), a2, s2),
        transition(a1, Event::Snapshot(records), b1, t1),
        transition(a2, Event::Snapshot(records), b2, t2),
    ensures
        b1.phase is Enforce <==> b2.phase is Enforce,
        b1.phase is Enforce ==> b1.phase->targets@ == b2.phase->targets@
            && b1.phase->targets@ == spec_targets(text_lines(content@).to_set(), records@)
            && t1.action == t2.action,
        !(b1.phase is Enforce) ==> b1.phase is Pause && b2.phase is Pause,
{
}

} // verus!
