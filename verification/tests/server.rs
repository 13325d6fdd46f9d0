//! The server-side rules: body limit, status mapping, bind-address choice.

use runners::error::Error;
use runners::server::{
    choose_bind_address, default_server_address, job_body_accepted, response_status,
    status_for_error, MAX_JOB_BODY_BYTES,
};

#[test]
fn oversized_job_body_is_rejected() {
    assert_eq!(MAX_JOB_BODY_BYTES, 16 * 1024);
    assert!(job_body_accepted(0));
    assert!(job_body_accepted(16384));
    assert!(!job_body_accepted(16385));
}

#[test]
fn error_status_mapping() {
    assert_eq!(status_for_error(&Error::NotFound), 404);
    assert_eq!(status_for_error(&Error::AlreadyStarted), 400);
    assert_eq!(status_for_error(&Error::BadRequest), 400);
    assert_eq!(status_for_error(&Error::Io), 500);
    assert_eq!(status_for_error(&Error::Spawn), 500);
    assert_eq!(status_for_error(&Error::Inspection), 500);
    assert_eq!(status_for_error(&Error::BadAddress), 500);
}

#[test]
fn whole_response_status() {
    let ok: Result<(), Error> = Ok(());
    assert_eq!(response_status(&ok, 204), 204);
    let missing: Result<(), Error> = Err(Error::NotFound);
    assert_eq!(response_status(&missing, 204), 404);
}

#[test]
fn bind_address_choice() {
    assert_eq!(choose_bind_address(&vec![]), Err(Error::BadAddress));
    assert_eq!(choose_bind_address(&vec![false]), Ok(0));
    assert_eq!(choose_bind_address(&vec![true]), Ok(0));
    assert_eq!(choose_bind_address(&vec![false, true, true]), Ok(1));
    assert_eq!(choose_bind_address(&vec![false, false]), Err(Error::BadAddress));
}

#[test]
fn default_address() {
    assert_eq!(default_server_address(), "127.0.0.1:3030");
}

#[test]
fn error_messages_name_the_kind() {
    assert_eq!(Error::NotFound.message(), "job id or file not found");
    assert_eq!(Error::AlreadyStarted.message(), "job has already been started");
}
