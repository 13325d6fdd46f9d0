//! The process inspector, the signal-name rules, and the pid-reuse guard.

use runners::process::{
    get_child_processes_by_session_id, is_valid_signal, parse_signal,
    select_session_members, should_signal, signal_processes_by_session_id,
    snapshot_process_table, SignalName, UniqueProcessId,
};

#[test]
fn recognized_signal_names() {
    assert_eq!(parse_signal("SIGTERM"), Some(SignalName::Term));
    assert_eq!(parse_signal("SIGKILL"), Some(SignalName::Kill));
    assert_eq!(parse_signal("SIGCONT"), Some(SignalName::Cont));
    assert_eq!(parse_signal("SIGSTOP"), Some(SignalName::Stop));
    assert_eq!(parse_signal("SIGINT"), Some(SignalName::Int));
    assert_eq!(parse_signal("SIGHUP"), None);
    assert!(is_valid_signal("SIGTERM"));
    assert!(!is_valid_signal("sigterm"));
    assert!(!is_valid_signal(""));
}

#[test]
fn session_member_selection() {
    let table: Vec<(u32, u32, u128)> = vec![(1, 5, 10), (2, 6, 11), (3, 5, 12)];
    let members = select_session_members(&table, 5);
    assert_eq!(members.len(), 2);
    assert_eq!(members[0], UniqueProcessId { pid: 1, stamp: 10 });
    assert_eq!(members[1], UniqueProcessId { pid: 3, stamp: 12 });
    assert!(select_session_members(&table, 9).is_empty());
}

#[test]
fn pid_reuse_guard() {
    let recorded = UniqueProcessId { pid: 5, stamp: 7 };
    assert!(should_signal(&recorded, &Some((5, 7))));
    assert!(!should_signal(&recorded, &Some((5, 8))));
    assert!(!should_signal(&recorded, &None));
}

#[test]
fn process_table_snapshot_is_not_empty() {
    let table = snapshot_process_table().unwrap();
    assert!(!table.is_empty());
}

#[test]
fn inspector_sees_a_fresh_session_and_broadcast_clears_it() {
    let handle = duct::cmd("setsid", ["-w", "--", "sleep", "30"]).start().unwrap();
    let sid = handle.pids()[0];
    let _ = duct::cmd("sleep", ["0.2"]).run();
    let members = get_child_processes_by_session_id(sid).unwrap();
    assert!(members.iter().any(|m| m.pid() == sid));
    signal_processes_by_session_id(sid, "SIGKILL").unwrap();
    let _ = handle.wait();
    let mut tries = 0;
    loop {
        let members = get_child_processes_by_session_id(sid).unwrap();
        if members.is_empty() {
            break;
        }
        tries += 1;
        assert!(tries < 20, "session survived the broadcast");
        let _ = duct::cmd("sleep", ["0.2"]).run();
    }
}
