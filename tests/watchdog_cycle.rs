use proc_watchdog::enforce::{KillReport, ProcessRecord};
use proc_watchdog::notice::{Notice, Severity};
use proc_watchdog::watchdog::{
    Action, Event, Phase, RetryPolicy, Watchdog, WatchdogConfig, POLL_INTERVAL_MS,
};

fn rec(pid: u32, name: &str) -> ProcessRecord {
    ProcessRecord { pid, name: name.to_string() }
}

fn watchdog() -> Watchdog {
    Watchdog::new(WatchdogConfig::new("procs.txt".to_string()))
}

fn snapshot() -> Vec<ProcessRecord> {
    vec![rec(10, "x"), rec(11, "y"), rec(12, "x")]
}

/// Runs one full cycle that answers every kill with `code`, and returns the
/// pids asked to be terminated.
fn run_cycle(w: &mut Watchdog, text: &str, code: Option<i32>) -> Vec<u32> {
    assert_eq!(w.pending(), Action::ReadDenylist);
    let s = w.step(Event::DenylistRead(text.to_string()));
    assert!(s.notification.is_none());
    assert_eq!(s.action, Action::TakeSnapshot);
    let mut s = w.step(Event::Snapshot(snapshot()));
    let mut pids = Vec::new();
    while let Action::Terminate(pid) = s.action {
        pids.push(pid);
        s = w.step(Event::Terminated(KillReport::Exited(code)));
        assert!(s.notification.is_some());
    }
    assert_eq!(s.action, Action::Sleep(POLL_INTERVAL_MS));
    let s = w.step(Event::Slept);
    assert!(s.notification.is_none());
    assert_eq!(s.action, Action::ReadDenylist);
    pids
}

#[test]
fn default_config() {
    let c = WatchdogConfig::new("procs.txt".to_string());
    assert_eq!(c.denylist_path, "procs.txt");
    assert_eq!(c.poll_interval_ms, 1000);
    assert_eq!(c.retry.delay_ms, 0);
    assert!(c.retry.max_restarts.is_none());
    let w = Watchdog::new(c);
    assert!(matches!(w.phase, Phase::Load));
    assert!(w.restarts_left.is_none());
}

#[test]
fn cycle_terminates_only_listed_pids() {
    let mut w = watchdog();
    assert_eq!(run_cycle(&mut w, "x\n", Some(0)), vec![10, 12]);
}

#[test]
fn two_cycles_attempt_the_same_terminations() {
    let mut w = watchdog();
    let first = run_cycle(&mut w, "x\n", Some(0));
    let second = run_cycle(&mut w, "x\n", Some(0));
    assert_eq!(first, vec![10, 12]);
    assert_eq!(first, second);
}

#[test]
fn failed_kill_does_not_stop_the_cycle() {
    let mut w = watchdog();
    w.step(Event::DenylistRead("x".to_string()));
    let s = w.step(Event::Snapshot(snapshot()));
    assert_eq!(s.action, Action::Terminate(10));
    let s = w.step(Event::Terminated(KillReport::NotLaunched("missing".to_string())));
    let n = s.notification.unwrap();
    assert_eq!(n.severity, Severity::Error);
    assert!(matches!(n.notice, Notice::KillNotLaunched { ref name, .. } if name == "x"));
    assert_eq!(s.action, Action::Terminate(12));
    let s = w.step(Event::Terminated(KillReport::Exited(Some(1))));
    let n = s.notification.unwrap();
    assert_eq!(n.severity, Severity::Error);
    assert!(matches!(n.notice, Notice::KillExitCode { code: Some(1), .. }));
    assert_eq!(s.action, Action::Sleep(1000));
}

#[test]
fn successful_kill_reports_info() {
    let mut w = watchdog();
    w.step(Event::DenylistRead("x".to_string()));
    w.step(Event::Snapshot(vec![rec(10, "x"), rec(11, "y")]));
    let s = w.step(Event::Terminated(KillReport::Exited(Some(0))));
    let n = s.notification.unwrap();
    assert_eq!(n.severity, Severity::Info);
    assert!(n.threaded);
    assert!(matches!(n.notice, Notice::Killed { ref name } if name == "x"));
    assert_eq!(s.action, Action::Sleep(1000));
}

#[test]
fn empty_file_reports_and_terminates_nothing() {
    let mut w = watchdog();
    let s = w.step(Event::DenylistRead(String::new()));
    let n = s.notification.unwrap();
    assert_eq!(n.severity, Severity::Error);
    assert!(!n.threaded);
    assert!(matches!(n.notice, Notice::EmptyDenylist { ref path } if path == "procs.txt"));
    assert_eq!(s.action, Action::Sleep(1000));
    let s = w.step(Event::Slept);
    assert_eq!(s.action, Action::ReadDenylist);
}

#[test]
fn no_match_goes_straight_to_pause() {
    let mut w = watchdog();
    w.step(Event::DenylistRead("z".to_string()));
    let s = w.step(Event::Snapshot(snapshot()));
    assert!(s.notification.is_none());
    assert_eq!(s.action, Action::Sleep(1000));
}

#[test]
fn deleted_file_notifies_once_and_resumes_polling() {
    let mut w = watchdog();
    assert_eq!(run_cycle(&mut w, "x", Some(0)), vec![10, 12]);
    let s = w.step(Event::DenylistFailed("file not found".to_string()));
    let n = s.notification.unwrap();
    assert_eq!(n.severity, Severity::Error);
    assert!(!n.threaded);
    assert_eq!(n.delay_ms, 0);
    assert!(matches!(n.notice, Notice::Fatal { ref detail } if detail == "file not found"));
    assert_eq!(s.action, Action::Restart(0));
    let s = w.step(Event::Restarted);
    assert!(s.notification.is_none());
    assert_eq!(s.action, Action::ReadDenylist);
    for _ in 0..5 {
        let s = w.step(Event::DenylistFailed("file not found".to_string()));
        assert!(s.notification.is_some());
        assert_eq!(s.action, Action::Restart(0));
        assert_eq!(w.step(Event::Restarted).action, Action::ReadDenylist);
    }
    assert_eq!(run_cycle(&mut w, "x", Some(0)), vec![10, 12]);
}

#[test]
fn bounded_retry_stops_when_used_up() {
    let mut c = WatchdogConfig::new("procs.txt".to_string());
    c.retry = RetryPolicy { delay_ms: 250, max_restarts: Some(1) };
    let mut w = Watchdog::new(c);
    let s = w.step(Event::DenylistFailed("gone".to_string()));
    assert_eq!(s.action, Action::Restart(250));
    assert_eq!(w.restarts_left, Some(0));
    w.step(Event::Restarted);
    let s = w.step(Event::DenylistFailed("gone".to_string()));
    assert!(s.notification.is_some());
    assert_eq!(s.action, Action::Stop);
    assert_eq!(w.pending(), Action::Stop);
}

#[test]
fn unexpected_event_repeats_pending_action() {
    let mut w = watchdog();
    let s = w.step(Event::Slept);
    assert!(s.notification.is_none());
    assert_eq!(s.action, Action::ReadDenylist);
    assert!(matches!(w.phase, Phase::Load));
    w.step(Event::DenylistRead("x".to_string()));
    let s = w.step(Event::Terminated(KillReport::Exited(Some(0))));
    assert!(s.notification.is_none());
    assert_eq!(s.action, Action::TakeSnapshot);
}
