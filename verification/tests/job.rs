//! The job type and the per-job lifecycle on one session, outside the
//! registry.

use runners::job::{Job, JobStatus, Session};


/// Run the test inside a fresh writable directory, since scratch
/// directories are created beneath the current directory.
fn enter_scratch() -> tempfile::TempDir {
    let dir = tempfile::tempdir().unwrap();
    nix::unistd::chdir(dir.path()).unwrap();
    dir
}

fn settle() {
    let _ = duct::cmd("sleep", ["0.3"]).run();
}

/// Whether every process still listed in the session is dead (a zombie not
/// yet reaped by the namespace's init counts as dead).
fn session_inactive(sid: u32) -> bool {
    runners::process::get_child_processes_by_session_id(sid).unwrap().iter().all(|m| {
        match psutil::process::os::linux::procfs_stat(m.pid()) {
            Ok(st) => matches!(
                st.state,
                psutil::process::Status::Zombie | psutil::process::Status::Dead
            ),
            Err(_) => true,
        }
    })
}

fn executable(path: &str) -> bool {
    duct::cmd("test", ["-x", path])
        .unchecked()
        .run()
        .map(|o| o.status.success())
        .unwrap_or(false)
}

#[test]
fn run_file_is_executable_after_build() {
    let _scratch = enter_scratch();
    let session = Session::new(Job::new("#!/bin/sh\ntrue")).unwrap();
    assert!(executable(&session.run_file()));
}

#[test]
fn derived_paths_join_the_working_directory() {
    let _scratch = enter_scratch();
    let session = Session::new(Job::new("#!/bin/sh\ntrue")).unwrap();
    let dir = session.wrk_dir().to_string();
    assert_eq!(session.run_file(), format!("{}/run", dir));
    assert_eq!(session.inp_file(), format!("{}/job.inp", dir));
    assert_eq!(session.out_file(), format!("{}/job.out", dir));
    assert_eq!(session.err_file(), format!("{}/job.err", dir));
}

#[test]
fn attach_file_rejects_duplicates() {
    let _scratch = enter_scratch();
    let mut job = Job::new("#!/bin/sh\ntrue");
    job.attach_file("data.bin");
    job.attach_file("grid.dat");
    job.attach_file("data.bin");
    let session = Session::new(job).unwrap();
    let dir = session.wrk_dir().to_string();
    let extras = session.extra_files();
    assert_eq!(
        extras,
        vec![format!("{}/data.bin", dir), format!("{}/grid.dat", dir)]
    );
}

#[test]
fn lifecycle_start_wait_terminates() {
    let _scratch = enter_scratch();
    let mut session = Session::new(Job::new("#!/bin/sh\ntrue")).unwrap();
    assert!(!session.is_started());
    assert_eq!(session.status(), JobStatus::NotStarted);
    session.start().unwrap();
    assert!(session.is_started());
    assert_eq!(session.status(), JobStatus::Running);
    assert!(session.sid().is_some());
    assert_eq!(session.start(), Err(runners::error::Error::AlreadyStarted));
    session.wait().unwrap();
    assert_eq!(session.status(), JobStatus::Success);
    session.terminate();
    session.kill();
}

#[test]
fn wait_before_start_is_an_error() {
    let _scratch = enter_scratch();
    let mut session = Session::new(Job::new("#!/bin/sh\ntrue")).unwrap();
    assert!(session.wait().is_err());
    assert_eq!(session.status(), JobStatus::NotStarted);
}

#[test]
fn failing_script_reports_its_exit_code() {
    let _scratch = enter_scratch();
    let mut session = Session::new(Job::new("#!/bin/sh\nexit 7")).unwrap();
    session.start().unwrap();
    session.wait().unwrap();
    assert_eq!(session.status(), JobStatus::Failure(7));
}

#[test]
fn done_rule_on_observations() {
    assert!(Session::done_given(true, Some((true, 10)), Some((true, 10))));
    assert!(Session::done_given(true, Some((true, 11)), Some((true, 10))));
    assert!(!Session::done_given(true, Some((true, 9)), Some((true, 10))));
    assert!(!Session::done_given(false, Some((true, 11)), Some((true, 10))));
    assert!(!Session::done_given(true, None, Some((true, 10))));
    assert!(!Session::done_given(true, Some((false, 11)), Some((true, 10))));
}

#[test]
fn fake_done_makes_is_done_true() {
    let _scratch = enter_scratch();
    let session = Session::new(Job::new("#!/bin/sh\ntrue")).unwrap();
    assert!(!session.is_done());
    session.fake_done().unwrap();
    assert!(session.is_done());
}

#[test]
fn dropping_a_started_session_kills_its_group() {
    let _scratch = enter_scratch();
    let mut session = Session::new(Job::new("#!/bin/sh\nsleep 30")).unwrap();
    session.start().unwrap();
    let sid = session.sid().unwrap();
    settle();
    drop(session);
    let mut tries = 0;
    while !session_inactive(sid) {
        tries += 1;
        assert!(tries < 20, "group survived the drop");
        settle();
    }
}

#[test]
fn default_status_is_not_started() {
    assert_eq!(JobStatus::default(), JobStatus::NotStarted);
}
