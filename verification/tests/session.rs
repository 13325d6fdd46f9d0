//! The session supervisor: timed runs, teardown, and signal handling over
//! real child processes.

use runners::process::get_child_processes_by_session_id;
use runners::session::{RunOutcome, Session};


/// Run the test inside a fresh writable directory, since scratch
/// directories are created beneath the current directory.
fn enter_scratch() -> tempfile::TempDir {
    let dir = tempfile::tempdir().unwrap();
    nix::unistd::chdir(dir.path()).unwrap();
    dir
}

fn settle() {
    let _ = duct::cmd("sleep", ["0.3"]).run();
}

/// Whether every process still listed in the session is dead (a zombie not
/// yet reaped by the namespace's init counts as dead).
fn session_inactive(sid: u32) -> bool {
    get_child_processes_by_session_id(sid).unwrap().iter().all(|m| {
        match psutil::process::os::linux::procfs_stat(m.pid()) {
            Ok(st) => matches!(
                st.state,
                psutil::process::Status::Zombie | psutil::process::Status::Dead
            ),
            Err(_) => true,
        }
    })
}

#[test]
fn adhoc_test_tokio() {
    let session = Session::new("sleep").arg("10").timeout(2);
    session.run().ok();
}

#[test]
fn session_test_tokio() {
    let session = Session::new("sleep").arg("10").timeout(1);
    session.run().ok();
}

#[test]
fn completed_run_reports_exit_code() {
    let report = Session::new("sh").arg("-c").arg("exit 3").run().unwrap();
    assert_eq!(report.outcome, RunOutcome::Completed);
    assert_eq!(report.exit_code, Some(3));
    let ok = Session::new("true").run().unwrap();
    assert_eq!(ok.outcome, RunOutcome::Completed);
    assert_eq!(ok.exit_code, Some(0));
}

#[test]
fn timeout_kills_the_whole_session() {
    let report = Session::new("sleep").arg("30").timeout(1).run().unwrap();
    assert_eq!(report.outcome, RunOutcome::TimedOut);
    assert_eq!(report.exit_code, None);
    let mut tries = 0;
    while !session_inactive(report.sid) {
        tries += 1;
        assert!(tries < 20, "session still has processes after the kill");
        settle();
    }
}

#[test]
fn run_always_tears_the_session_down() {
    let report = Session::new("sh")
        .arg("-c")
        .arg("sleep 30 & sleep 30 & exit 0")
        .timeout(5)
        .run()
        .unwrap();
    assert_eq!(report.outcome, RunOutcome::Completed);
    let mut tries = 0;
    while !session_inactive(report.sid) {
        tries += 1;
        assert!(tries < 20, "orphans survived the post-run kill");
        settle();
    }
}

#[test]
fn signals_before_spawn_are_noops() {
    let mut s = Session::new("sleep");
    assert!(s.terminate().is_ok());
    assert!(s.kill().is_ok());
    assert!(s.pause().is_ok());
    assert!(s.resume().is_ok());
    assert!(s.signal("SIGINT").is_ok());
    assert_eq!(s.sid(), None);
}

#[test]
fn signals_reach_a_started_session() {
    let mut s = Session::new("sleep").arg("30").timeout(60);
    let active = s.start().unwrap();
    assert_eq!(s.sid(), Some(active.sid()));
    settle();
    s.pause().unwrap();
    s.resume().unwrap();
    s.kill().unwrap();
    active.kill_group();
    let mut tries = 0;
    while !session_inactive(active.sid()) {
        tries += 1;
        assert!(tries < 20, "session survived the supervisor kill");
        settle();
    }
}

#[test]
fn dropping_an_active_run_kills_its_group() {
    let mut s = Session::new("sleep").arg("30").timeout(60);
    let active = s.start().unwrap();
    let sid = active.sid();
    settle();
    drop(active);
    let mut tries = 0;
    while !session_inactive(sid) {
        tries += 1;
        assert!(tries < 20, "group survived the drop");
        settle();
    }
}

#[test]
fn child_runs_inside_its_scratch_dir() {
    let _scratch = enter_scratch();
    let mut db = runners::registry::Db::new();
    let id = db
        .insert_job(runners::job::Job::new("#!/bin/sh\nprintf %s \"$PWD\""))
        .unwrap();
    db.wait_job(id).unwrap();
    let out = db.get_job_file(id, "job.out").unwrap();
    let files = db.list_job_files(id).unwrap();
    let printed = String::from_utf8(out).unwrap();
    assert!(files.iter().any(|p| p.starts_with(&printed)), "child ran inside its scratch dir");
}
