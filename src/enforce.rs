use vstd::prelude::*;
use crate::denylist::Denylist;
use crate::notice::{Notice, Notification, Severity};

verus! {

/// One running process as seen when the snapshot was taken.
#[derive(Debug)]
pub struct ProcessRecord {
    pub pid: u32,
    pub name: String,
}

impl ProcessRecord {
    pub fn copy(&self) -> (r: ProcessRecord)
        ensures
            r == *self,
    {
        ProcessRecord { pid: self.pid, name: self.name.clone() }
    }
}

/// The records of `snapshot` whose name is in the denylist, in snapshot order.
pub open spec fn spec_targets(d: Set<Seq<char>>, snapshot: Seq<ProcessRecord>) -> Seq<ProcessRecord> {
    snapshot.filter(|p: ProcessRecord| d.contains(p.name@))
}

/// Picks the processes to terminate: exactly those whose name is a member of
/// the denylist (exact, case-sensitive match), each once, in snapshot order.
pub fn select_targets(denylist: &Denylist, snapshot: &Vec<ProcessRecord>) -> (r: Vec<ProcessRecord>)
    ensures
        r@ == spec_targets(denylist@, snapshot@),
{
    let mut r: Vec<ProcessRecord> = Vec::new();
    let mut i: usize = 0;
    proof {
        reveal(Seq::filter);
        assert(snapshot@.subrange(0, 0) =~= Seq::<ProcessRecord>::empty());
    }
    while i < snapshot.len()
        invariant
            i <= snapshot@.len(),
            r@ == spec_targets(denylist@, snapshot@.subrange(0, i as int)),
        decreases snapshot@.len() - i,
    {
        let p = &snapshot[i];
        proof {
            reveal(Seq::filter);
            assert(snapshot@.subrange(0, i + 1).drop_last() =~= snapshot@.subrange(0, i as int));
        }
        if denylist.contains(&p.name) {
            r.push(p.copy());
        }
        i += 1;
    }
    assert(snapshot@.subrange(0, i as int) =~= snapshot@);
    r
}

/// What the kill mechanism reported for one request.
#[derive(Debug)]
pub enum KillReport {
    /// The mechanism ran and ended with this exit code, or none it could give.
    Exited(Option<i32>),
    /// The mechanism could not be started.
    NotLaunched(String),
}

/// The classified result of one termination attempt.
#[derive(Debug)]
pub enum TerminationOutcome {
    Success,
    /// Exit code other than zero, or `None` where no code was reported.
    NonZeroExit(Option<i32>),
    LaunchFailure(String),
}

pub open spec fn spec_outcome(k: KillReport) -> TerminationOutcome {
    match k {
        KillReport::Exited(Some(c)) => if c == 0 {
            TerminationOutcome::Success
        } else {
            TerminationOutcome::NonZeroExit(Some(c))
        },
        KillReport::Exited(None) => TerminationOutcome::NonZeroExit(None),
        KillReport::NotLaunched(e) => TerminationOutcome::LaunchFailure(e),
    }
}

/// Success only on exit code zero; any other code, or none, is a
/// non-zero exit; a mechanism that did not start is a launch failure.
pub fn classify(report: KillReport) -> (r: TerminationOutcome)
    ensures
        r == spec_outcome(report),
{
    match report {
        KillReport::Exited(Some(c)) => if c == 0 {
            TerminationOutcome::Success
        } else {
            TerminationOutcome::NonZeroExit(Some(c))
        },
        KillReport::Exited(None) => TerminationOutcome::NonZeroExit(None),
        KillReport::NotLaunched(e) => TerminationOutcome::LaunchFailure(e),
    }
}

/// The message for an outcome on the process called `name`: `Info` on
/// success, `Error` otherwise, always delivered without blocking and
/// without delay.
pub open spec fn spec_outcome_notification(name: String, o: TerminationOutcome) -> Notification {
    match o {
        TerminationOutcome::Success => Notification {
            notice: Notice::Killed { name },
            severity: Severity::Info,
            threaded: true,
            delay_ms: 0,
        },
        TerminationOutcome::NonZeroExit(code) => Notification {
            notice: Notice::KillExitCode { name, code },
            severity: Severity::Error,
            threaded: true,
            delay_ms: 0,
        },
        TerminationOutcome::LaunchFailure(detail) => Notification {
            notice: Notice::KillNotLaunched { name, detail },
            severity: Severity::Error,
            threaded: true,
            delay_ms: 0,
        },
    }
}

pub fn outcome_notification(name: String, outcome: TerminationOutcome) -> (r: Notification)
    ensures
        r == spec_outcome_notification(name, outcome),
{
    match outcome {
        TerminationOutcome::Success => Notification {
            notice: Notice::Killed { name },
            severity: Severity::Info,
            threaded: true,
            delay_ms: 0,
        },
        TerminationOutcome::NonZeroExit(code) => Notification {
            notice: Notice::KillExitCode { name, code },
            severity: Severity::Error,
            threaded: true,
            delay_ms: 0,
        },
        TerminationOutcome::LaunchFailure(detail) => Notification {
            notice: Notice::KillNotLaunched { name, detail },
            severity: Severity::Error,
            threaded: true,
            delay_ms: 0,
        },
    }
}

} // verus!
