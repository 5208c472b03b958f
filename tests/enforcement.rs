use proc_watchdog::denylist::{parse_denylist, Denylist, Loaded};
use proc_watchdog::enforce::{
    classify, outcome_notification, select_targets, KillReport, ProcessRecord, TerminationOutcome,
};
use proc_watchdog::notice::{AlertIcon, Notice, Severity};

fn deny(text: &str) -> Denylist {
    match parse_denylist(text) {
        Loaded::Entries(d) => d,
        Loaded::Empty => panic!("empty"),
    }
}

fn rec(pid: u32, name: &str) -> ProcessRecord {
    ProcessRecord { pid, name: name.to_string() }
}

#[test]
fn only_listed_process_is_targeted() {
    let d = deny("x");
    let snap = vec![rec(10, "x"), rec(11, "y")];
    let t = select_targets(&d, &snap);
    assert_eq!(t.len(), 1);
    assert_eq!(t[0].pid, 10);
    assert_eq!(t[0].name, "x");
    assert!(t.iter().all(|p| p.pid != 11));
}

#[test]
fn every_process_sharing_a_name_is_targeted_by_pid() {
    let d = deny("x\nz");
    let snap = vec![rec(1, "x"), rec(2, "y"), rec(3, "x"), rec(4, "z")];
    let pids: Vec<u32> = select_targets(&d, &snap).iter().map(|p| p.pid).collect();
    assert_eq!(pids, vec![1, 3, 4]);
}

#[test]
fn empty_snapshot_gives_no_target() {
    let d = deny("x");
    assert!(select_targets(&d, &Vec::new()).is_empty());
}

#[test]
fn exit_code_zero_is_success() {
    assert!(matches!(classify(KillReport::Exited(Some(0))), TerminationOutcome::Success));
    let n = outcome_notification("x".to_string(), TerminationOutcome::Success);
    assert_eq!(n.severity, Severity::Info);
    assert!(n.threaded);
    assert_eq!(n.delay_ms, 0);
    assert!(matches!(n.notice, Notice::Killed { ref name } if name == "x"));
}

#[test]
fn exit_code_one_is_non_zero_exit() {
    let o = classify(KillReport::Exited(Some(1)));
    assert!(matches!(o, TerminationOutcome::NonZeroExit(Some(1))));
    let n = outcome_notification("x".to_string(), o);
    assert_eq!(n.severity, Severity::Error);
    assert!(n.threaded);
    assert!(matches!(n.notice, Notice::KillExitCode { ref name, code: Some(1) } if name == "x"));
}

#[test]
fn missing_exit_code_is_non_zero_exit() {
    let o = classify(KillReport::Exited(None));
    assert!(matches!(o, TerminationOutcome::NonZeroExit(None)));
    let n = outcome_notification("x".to_string(), o);
    assert_eq!(n.severity, Severity::Error);
    assert!(matches!(n.notice, Notice::KillExitCode { code: None, .. }));
}

#[test]
fn mechanism_absent_is_launch_failure() {
    let o = classify(KillReport::NotLaunched("not found".to_string()));
    assert!(matches!(o, TerminationOutcome::LaunchFailure(ref e) if e == "not found"));
    let n = outcome_notification("x".to_string(), o);
    assert_eq!(n.severity, Severity::Error);
    assert!(n.threaded);
    assert!(matches!(n.notice,
        Notice::KillNotLaunched { ref name, ref detail } if name == "x" && detail == "not found"));
}

#[test]
fn icons_follow_severity() {
    assert_eq!(Severity::Error.icon(), AlertIcon::Error);
    assert_eq!(Severity::Warn.icon(), AlertIcon::Warning);
    assert_eq!(Severity::Info.icon(), AlertIcon::Info);
    assert_eq!(Severity::Debug.icon(), AlertIcon::Plain);
    assert_eq!(Severity::Trace.icon(), AlertIcon::Plain);
}
