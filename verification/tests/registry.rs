//! Registry behavior through the public `Db` surface, with real scratch
//! directories and real child processes.

use runners::error::Error;
use runners::job::Job;
use runners::registry::Db;


/// Run the test inside a fresh writable directory, since scratch
/// directories are created beneath the current directory.
fn enter_scratch() -> tempfile::TempDir {
    let dir = tempfile::tempdir().unwrap();
    nix::unistd::chdir(dir.path()).unwrap();
    dir
}

fn dir_of(path: &str) -> String {
    match path.rfind('/') {
        Some(i) => path[..i].to_string(),
        None => String::new(),
    }
}

fn dir_exists(path: &str) -> bool {
    duct::cmd("test", ["-d", path])
        .unchecked()
        .run()
        .map(|o| o.status.success())
        .unwrap_or(false)
}

#[test]
fn echo_job_roundtrip() {
    let _scratch = enter_scratch();
    let mut db = Db::new();
    let job = Job::new("#!/bin/sh\ncat").with_stdin("hello\n");
    let id = db.insert_job(job).unwrap();
    assert_eq!(id, 1);
    db.wait_job(id).unwrap();
    let out = db.get_job_file(id, "job.out").unwrap();
    assert_eq!(out, b"hello\n".to_vec());
}

#[test]
fn stderr_capture() {
    let _scratch = enter_scratch();
    let mut db = Db::new();
    let job = Job::new("#!/bin/sh\necho oops 1>&2");
    let id = db.insert_job(job).unwrap();
    db.wait_job(id).unwrap();
    let err = db.get_job_file(id, "job.err").unwrap();
    assert_eq!(err, b"oops\n".to_vec());
    let out = db.get_job_file(id, "job.out").unwrap();
    assert!(out.is_empty());
}

#[test]
fn put_then_get_returns_exact_bytes() {
    let _scratch = enter_scratch();
    let mut db = Db::new();
    let id = db.insert_job(Job::new("#!/bin/sh\ntrue")).unwrap();
    db.put_job_file(id, "extra.dat", b"abc").unwrap();
    let back = db.get_job_file(id, "extra.dat").unwrap();
    assert_eq!(back, b"abc".to_vec());
    let files = db.list_job_files(id).unwrap();
    assert!(files.iter().any(|p| p.ends_with("/extra.dat")));
}

#[test]
fn listing_shows_exactly_the_new_ids() {
    let _scratch = enter_scratch();
    let mut db = Db::new();
    assert!(db.get_job_list().is_empty());
    let a = db.insert_job(Job::new("#!/bin/sh\ntrue")).unwrap();
    let b = db.insert_job(Job::new("#!/bin/sh\ntrue")).unwrap();
    let c = db.insert_job(Job::new("#!/bin/sh\ntrue")).unwrap();
    let ids = db.get_job_list();
    assert_eq!(ids, vec![a, b, c]);
    assert!(a != b && b != c && a != c);
}

#[test]
fn deleted_id_is_never_reused() {
    let _scratch = enter_scratch();
    let mut db = Db::new();
    let first = db.insert_job(Job::new("#!/bin/sh\ntrue")).unwrap();
    assert_eq!(first, 1);
    db.delete_job(first).unwrap();
    let second = db.insert_job(Job::new("#!/bin/sh\ntrue")).unwrap();
    assert_eq!(second, 2);
    assert_ne!(second, first);
}

#[test]
fn repeated_delete_returns_not_found() {
    let _scratch = enter_scratch();
    let mut db = Db::new();
    let id = db.insert_job(Job::new("#!/bin/sh\ntrue")).unwrap();
    assert!(db.delete_job(id).is_ok());
    assert_eq!(db.delete_job(id), Err(Error::NotFound));
    assert_eq!(db.delete_job(999), Err(Error::NotFound));
}

#[test]
fn repeated_clear_is_a_noop() {
    let _scratch = enter_scratch();
    let mut db = Db::new();
    db.insert_job(Job::new("#!/bin/sh\ntrue")).unwrap();
    db.insert_job(Job::new("#!/bin/sh\ntrue")).unwrap();
    db.clear_jobs();
    assert!(db.get_job_list().is_empty());
    db.clear_jobs();
    assert!(db.get_job_list().is_empty());
    let next = db.insert_job(Job::new("#!/bin/sh\ntrue")).unwrap();
    assert_eq!(next, 3);
}

#[test]
fn update_rejected_after_start() {
    let _scratch = enter_scratch();
    let mut db = Db::new();
    let id = db.insert_job(Job::new("#!/bin/sh\ntrue")).unwrap();
    db.wait_job(id).unwrap();
    let replacement = Job::new("#!/bin/sh\necho replaced");
    assert_eq!(db.update_job(id, replacement), Err(Error::AlreadyStarted));
    assert_eq!(db.get_job_list(), vec![id]);
}

#[test]
fn update_before_start_replaces_the_job() {
    let _scratch = enter_scratch();
    let mut db = Db::new();
    let id = db.insert_job(Job::new("#!/bin/sh\necho old")).unwrap();
    db.update_job(id, Job::new("#!/bin/sh\necho new")).unwrap();
    let script = db.get_job_file(id, "run").unwrap();
    assert_eq!(script, b"#!/bin/sh\necho new".to_vec());
    assert_eq!(db.update_job(42, Job::new("x")), Err(Error::NotFound));
}

#[test]
fn wait_job_errors() {
    let _scratch = enter_scratch();
    let mut db = Db::new();
    assert_eq!(db.wait_job(1), Err(Error::NotFound));
    let id = db.insert_job(Job::new("#!/bin/sh\ntrue")).unwrap();
    db.wait_job(id).unwrap();
    assert_eq!(db.wait_job(id), Err(Error::AlreadyStarted));
}

#[test]
fn unknown_id_gives_not_found_everywhere() {
    let _scratch = enter_scratch();
    let mut db = Db::new();
    assert_eq!(db.get_job_file(7, "job.out"), Err(Error::NotFound));
    assert_eq!(db.put_job_file(7, "x", b"y"), Err(Error::NotFound));
    assert!(matches!(db.list_job_files(7), Err(Error::NotFound)));
}

#[test]
fn scratch_dir_lives_with_the_job() {
    let _scratch = enter_scratch();
    let mut db = Db::new();
    let id = db.insert_job(Job::new("#!/bin/sh\ntrue")).unwrap();
    let files = db.list_job_files(id).unwrap();
    assert!(files.iter().any(|p| p.ends_with("/run")));
    assert!(files.iter().any(|p| p.ends_with("/job.inp")));
    let wrk_dir = dir_of(&files[0]);
    assert!(dir_exists(&wrk_dir));
    db.delete_job(id).unwrap();
    assert!(!dir_exists(&wrk_dir));
}

#[test]
fn shutdown_clears_before_signalling() {
    let _scratch = enter_scratch();
    let mut db = Db::new();
    db.insert_job(Job::new("#!/bin/sh\ntrue")).unwrap();
    let ready = db.shutdown();
    assert!(ready.cleared);
    assert!(db.get_job_list().is_empty());
}

#[test]
fn file_errors_inside_a_known_job() {
    let _scratch = enter_scratch();
    let mut db = Db::new();
    let id = db.insert_job(Job::new("#!/bin/sh\ntrue")).unwrap();
    assert_eq!(db.get_job_file(id, "no-such-file"), Err(Error::NotFound));
    assert_eq!(db.put_job_file(id, "no-such-dir/x", b"y"), Err(Error::Io));
}
