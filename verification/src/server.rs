//! The HTTP-facing rules of the job server: the request-body limit, the
//! mapping from registry outcomes to status codes, and the choice of a bind
//! address. The transport itself lives outside the library.

use vstd::prelude::*;

use crate::error::Error;

verus! {

/// The default bind address of the job server.
pub fn default_server_address() -> (r: &'static str)
    ensures
        r@ == "127.0.0.1:3030"@,
{
    "127.0.0.1:3030"
}

/// The content-length limit for a Job JSON body: 16 KiB.
pub const MAX_JOB_BODY_BYTES: u64 = 16384;

/// Whether a Job JSON body of `len` bytes is accepted; a larger one is
/// rejected with status 400.
pub fn job_body_accepted(len: u64) -> (r: bool)
    ensures
        r == (len <= MAX_JOB_BODY_BYTES),
{
    len <= MAX_JOB_BODY_BYTES
}

/// The status code each error kind maps to: 404 for an unknown id or file,
/// 400 for a rejected update or a bad request, 500 for the rest.
pub open spec fn spec_status_for_error(e: Error) -> u16 {
    match e {
        Error::NotFound => 404,
        Error::AlreadyStarted => 400,
        Error::BadRequest => 400,
        Error::Inspection => 500,
        Error::Io => 500,
        Error::Spawn => 500,
        Error::BadAddress => 500,
    }
}

/// The status code for one error.
pub fn status_for_error(e: &Error) -> (r: u16)
    ensures
        r == spec_status_for_error(*e),
{
    match e {
        Error::NotFound => 404,
        Error::AlreadyStarted => 400,
        Error::BadRequest => 400,
        Error::Inspection => 500,
        Error::Io => 500,
        Error::Spawn => 500,
        Error::BadAddress => 500,
    }
}

/// The status code of a whole response: `ok_status` on success, the error
/// mapping otherwise.
pub fn response_status<T>(r: &Result<T, Error>, ok_status: u16) -> (s: u16)
    ensures
        s == (match *r {
            Ok(_) => ok_status,
            Err(e) => spec_status_for_error(e),
        }),
{
    match r {
        Ok(_) => ok_status,
        Err(e) => status_for_error(e),
    }
}

/// Pick the bind address among the candidates that resolution produced,
/// given which of them are IPv4: a single candidate is taken as it is;
/// among several, the first IPv4 one; none usable fails with `BadAddress`.
pub fn choose_bind_address(ipv4: &Vec<bool>) -> (r: Result<usize, Error>)
    ensures
        r matches Ok(i) ==> 0 <= i < ipv4@.len(),
        ipv4@.len() == 1 ==> r == Ok::<usize, Error>(0),
        ipv4@.len() > 1 ==> (match r {
            Ok(i) => ipv4@[i as int] && forall|j: int| 0 <= j < i ==> !ipv4@[j],
            Err(e) => e == Error::BadAddress && forall|j: int|
                0 <= j < ipv4@.len() ==> !ipv4@[j],
        }),
        ipv4@.len() == 0 ==> r == Err::<usize, Error>(Error::BadAddress),
{
    let n = ipv4.len();
    if n == 0 {
        return Err(Error::BadAddress);
    }
    if n == 1 {
        return Ok(0);
    }
    let mut i: usize = 0;
    while i < n
        invariant
            n == ipv4@.len(),
            i <= n,
            forall|j: int| 0 <= j < i ==> !ipv4@[j],
        decreases n - i,
    {
        if ipv4[i] {
            return Ok(i);
        }
        i += 1;
    }
    Err(Error::BadAddress)
}

} // verus!
