//! The process inspector and the session signal broadcast.
//!
//! A session member is identified by `(pid, start time)` so that a pid that
//! the kernel has reused is never signalled: the identity is re-resolved
//! immediately before each kill and compared against the recorded stamp.

use vstd::prelude::*;

use crate::error::Error;
use crate::text::str_eq;

verus! {

/// The closed set of signals the supervisor broadcasts.
#[derive(Clone, Copy, Debug, PartialEq, Eq, Structural)]
pub enum SignalName {
    Term,
    Kill,
    Cont,
    Stop,
    Int,
}

/// What `parse_signal` returns for a given name.
pub open spec fn spec_parse_signal(s: Seq<char>) -> Option<SignalName> {
    if s == "SIGTERM"@ {
        Some(SignalName::Term)
    } else if s == "SIGKILL"@ {
        Some(SignalName::Kill)
    } else if s == "SIGCONT"@ {
        Some(SignalName::Cont)
    } else if s == "SIGSTOP"@ {
        Some(SignalName::Stop)
    } else if s == "SIGINT"@ {
        Some(SignalName::Int)
    } else {
        None
    }
}

/// The signal names the supervisor recognizes.
pub open spec fn valid_signal_name(s: Seq<char>) -> bool {
    ||| s == "SIGTERM"@
    ||| s == "SIGKILL"@
    ||| s == "SIGCONT"@
    ||| s == "SIGSTOP"@
    ||| s == "SIGINT"@
}

/// Parse a signal name from the recognized set.
pub fn parse_signal(sig: &str) -> (r: Option<SignalName>)
    ensures
        r == spec_parse_signal(sig@),
{
    if str_eq(sig, "SIGTERM") {
        Some(SignalName::Term)
    } else if str_eq(sig, "SIGKILL") {
        Some(SignalName::Kill)
    } else if str_eq(sig, "SIGCONT") {
        Some(SignalName::Cont)
    } else if str_eq(sig, "SIGSTOP") {
        Some(SignalName::Stop)
    } else if str_eq(sig, "SIGINT") {
        Some(SignalName::Int)
    } else {
        None
    }
}

/// Whether `sig` is one of the recognized signal names.
pub fn is_valid_signal(sig: &str) -> (r: bool)
    ensures
        r == valid_signal_name(sig@),
{
    str_eq(sig, "SIGTERM") || str_eq(sig, "SIGKILL") || str_eq(sig, "SIGCONT")
        || str_eq(sig, "SIGSTOP") || str_eq(sig, "SIGINT")
}

/// A process identity that is stable against pid reuse: the pid together
/// with the process start time (in clock ticks since boot).
#[derive(Clone, Copy, Debug, PartialEq, Eq, Hash, Structural)]
pub struct UniqueProcessId {
    pub pid: u32,
    pub stamp: u128,
}

impl UniqueProcessId {
    /// The process id.
    pub fn pid(&self) -> (r: u32)
        ensures
            r == self.pid,
    {
        self.pid
    }
}

/// Relies on `psutil::process::pids`: the pids currently present in the
/// process table, read from /proc.
#[verifier::external_body]
fn os_pids() -> (r: Result<Vec<u32>, Error>)
    ensures
        r matches Err(e) ==> e == Error::Inspection,
{
    psutil::process::pids().map_err(|_| Error::Inspection)
}

/// Relies on `psutil::process::os::linux::procfs_stat`: the session id and
/// start time (clock ticks since boot) of `pid`; `None` when the process is
/// gone or its stat cannot be read.
#[verifier::external_body]
fn probe_process(pid: u32) -> Option<(u32, u128)> {
    match psutil::process::os::linux::procfs_stat(pid) {
        Ok(st) => Some((st.session as u32, st.starttime_ticks)),
        Err(_) => None,
    }
}

/// Relies on `nix::sys::signal::kill`: delivers the signal to `pid`.
#[verifier::external_body]
fn kill_pid(pid: u32, sig: &SignalName) -> Result<(), Error> {
    let s = match sig {
        SignalName::Term => nix::sys::signal::Signal::SIGTERM,
        SignalName::Kill => nix::sys::signal::Signal::SIGKILL,
        SignalName::Cont => nix::sys::signal::Signal::SIGCONT,
        SignalName::Stop => nix::sys::signal::Signal::SIGSTOP,
        SignalName::Int => nix::sys::signal::Signal::SIGINT,
    };
    nix::sys::signal::kill(nix::unistd::Pid::from_raw(pid as i32), s).map_err(|_| Error::Io)
}

/// One `(pid, session id, start stamp)` triple per process that could be
/// probed; the table is a best-effort snapshot, so nothing is pinned about
/// its contents.
pub fn snapshot_process_table() -> (r: Result<Vec<(u32, u32, u128)>, Error>)
    ensures
        r matches Err(e) ==> e == Error::Inspection,
{
    let pids = match os_pids() {
        Ok(p) => p,
        Err(e) => return Err(e),
    };
    let mut out: Vec<(u32, u32, u128)> = Vec::new();
    let mut i: usize = 0;
    while i < pids.len()
        invariant
            i <= pids@.len(),
        decreases pids@.len() - i,
    {
        match probe_process(pids[i]) {
            Some(st) => {
                out.push((pids[i], st.0, st.1));
            },
            None => {},
        }
        i += 1;
    }
    Ok(out)
}

/// The members of session `sid` in `table`, in table order.
pub open spec fn session_members(table: Seq<(u32, u32, u128)>, sid: u32) -> Seq<UniqueProcessId>
    decreases table.len(),
{
    if table.len() == 0 {
        Seq::empty()
    } else {
        let rest = session_members(table.drop_last(), sid);
        if table.last().1 == sid {
            rest.push(UniqueProcessId { pid: table.last().0, stamp: table.last().2 })
        } else {
            rest
        }
    }
}

proof fn lemma_members_step(table: Seq<(u32, u32, u128)>, sid: u32, i: int)
    requires
        0 <= i < table.len(),
    ensures
        session_members(table.subrange(0, i + 1), sid) == (if table[i].1 == sid {
            session_members(table.subrange(0, i), sid).push(
                UniqueProcessId { pid: table[i].0, stamp: table[i].2 },
            )
        } else {
            session_members(table.subrange(0, i), sid)
        }),
{
    let s = table.subrange(0, i + 1);
    assert(s.drop_last() =~= table.subrange(0, i));
    assert(s.last() == table[i]);
}

/// Keep exactly the table rows whose session id is `sid`, as identities.
pub fn select_session_members(table: &Vec<(u32, u32, u128)>, sid: u32) -> (r: Vec<
    UniqueProcessId,
>)
    ensures
        r@ == session_members(table@, sid),
{
    let mut out: Vec<UniqueProcessId> = Vec::new();
    let mut i: usize = 0;
    while i < table.len()
        invariant
            i <= table@.len(),
            out@ == session_members(table@.subrange(0, i as int), sid),
        decreases table@.len() - i,
    {
        proof {
            lemma_members_step(table@, sid, i as int);
        }
        let e = table[i];
        if e.1 == sid {
            out.push(UniqueProcessId { pid: e.0, stamp: e.2 });
        }
        i += 1;
    }
    proof {
        assert(table@.subrange(0, table@.len() as int) =~= table@);
    }
    out
}

/// The set of processes currently in session `sid`, each identified by
/// `(pid, start time)`. Fails with `Inspection` when the process table
/// cannot be enumerated; processes that vanish mid-read are skipped.
pub fn get_child_processes_by_session_id(sid: u32) -> (r: Result<Vec<UniqueProcessId>, Error>)
    ensures
        r matches Err(e) ==> e == Error::Inspection,
{
    let table = match snapshot_process_table() {
        Ok(t) => t,
        Err(e) => return Err(e),
    };
    Ok(select_session_members(&table, sid))
}

/// The pid-reuse guard: signal only when the freshly probed identity still
/// carries the recorded start stamp.
pub fn should_signal(recorded: &UniqueProcessId, current: &Option<(u32, u128)>) -> (r: bool)
    ensures
        r == (match *current {
            Some(c) => c.1 == recorded.stamp,
            None => false,
        }),
{
    match current {
        Some(c) => c.1 == recorded.stamp,
        None => false,
    }
}

/// Signal every process in session `sid` with the named signal, re-resolving
/// each pid immediately before the kill so a reused pid is never signalled.
/// Per-pid delivery failures do not short-circuit the broadcast; only an
/// enumeration failure surfaces, as `Inspection`.
pub fn signal_processes_by_session_id(sid: u32, signal: &str) -> (r: Result<(), Error>)
    requires
        valid_signal_name(signal@),
    ensures
        r matches Err(e) ==> e == Error::Inspection,
{
    let sig = match parse_signal(signal) {
        Some(s) => s,
        None => {
            proof {
                assert(false);
            }
            return Err(Error::Inspection);
        },
    };
    let members = match get_child_processes_by_session_id(sid) {
        Ok(m) => m,
        Err(e) => return Err(e),
    };
    let mut i: usize = 0;
    while i < members.len()
        invariant
            i <= members@.len(),
        decreases members@.len() - i,
    {
        let m = members[i];
        let cur = probe_process(m.pid);
        if should_signal(&m, &cur) {
            let _ = kill_pid(m.pid, &sig);
        }
        i += 1;
    }
    Ok(())
}

#[verifier::external_type_specification]
#[verifier::external_body]
pub struct ExDuctHandle(duct::Handle);

/// Relies on `duct::cmd` and `Expression::start`: spawns
/// `setsid -w -- <program> <args...>` so the child leads a fresh session,
/// with the given working directory and environment additions, streaming
/// `input` to the child's stdin; stdout and stderr are inherited. Also on
/// `Expression::unchecked`: a nonzero exit status is not an error.
#[verifier::external_body]
pub(crate) fn spawn_in_session(
    program: &str,
    args: &Vec<String>,
    env: &Vec<(String, String)>,
    dir: &str,
    input: &[u8],
) -> Result<duct::Handle, Error> {
    let mut argv: Vec<String> = vec!["-w".to_owned(), "--".to_owned(), program.to_owned()];
    argv.extend(args.iter().cloned());
    let mut e = duct::cmd("setsid", argv).dir(dir).stdin_bytes(input.to_vec()).unchecked();
    for (k, v) in env.iter() {
        e = e.env(k, v);
    }
    e.start().map_err(|_| Error::Spawn)
}

/// Relies on `duct::cmd` and `Expression::start` with `stdout_path` and
/// `stderr_path`: spawns `setsid -w -- <run>` in `dir`, streaming `input` to
/// the child's stdin and the child's stdout and stderr to the named files;
/// unchecked, so a nonzero exit is reported in the output, not as an error.
#[verifier::external_body]
pub(crate) fn spawn_job(
    run: &str,
    dir: &str,
    input: &[u8],
    out_path: &str,
    err_path: &str,
) -> Result<duct::Handle, Error> {
    let e = duct::cmd("setsid", ["-w", "--", run])
        .dir(dir)
        .stdin_bytes(input.to_vec())
        .stdout_path(out_path)
        .stderr_path(err_path)
        .unchecked();
    e.start().map_err(|_| Error::Spawn)
}

/// Relies on `duct::Handle::pids`: a single-command expression runs exactly
/// one child process, whose pid is the first and only element of the list.
#[verifier::external_body]
pub(crate) fn handle_pid(h: &duct::Handle) -> u32 {
    h.pids()[0]
}

/// Relies on `duct::Handle::wait` (with an unchecked status): blocks until
/// the expression exits and returns its exit code, `None` when the child was
/// ended by a signal.
#[verifier::external_body]
pub(crate) fn handle_wait(h: &duct::Handle) -> Result<Option<i32>, Error> {
    match h.wait() {
        Ok(out) => Ok(out.status.code()),
        Err(_) => Err(Error::Io),
    }
}

/// Relies on `duct::Handle::wait_timeout`: `Some(exit code)` when the
/// expression finished within `secs` seconds, `None` when it still runs.
/// The bound on `secs` keeps the deadline arithmetic inside `wait_timeout`
/// from overflowing.
#[verifier::external_body]
pub(crate) fn handle_wait_secs(h: &duct::Handle, secs: u64) -> (r: Result<
    Option<Option<i32>>,
    Error,
>)
    requires
        secs <= 8589934592,
    ensures
        r matches Err(e) ==> e == Error::Io,
{
    match h.wait_timeout(std::time::Duration::from_secs(secs)) {
        Ok(Some(out)) => Ok(Some(out.status.code())),
        Ok(None) => Ok(None),
        Err(_) => Err(Error::Io),
    }
}

/// Relies on `nix::sys::signal::killpg`: delivers SIGKILL to every process
/// in the process group `pgid`. A fresh session's leader also leads the
/// process group of the same id, so this reaches the group a dropped
/// session leaves behind. Declared unwind-free so that drop glue may call
/// it.
#[verifier::external_body]
pub(crate) fn kill_group_on_drop(pgid: u32)
    opens_invariants none
    no_unwind
{
    let pid = nix::unistd::Pid::from_raw(pgid as i32);
    let _ = nix::sys::signal::killpg(pid, nix::sys::signal::Signal::SIGKILL);
}

} // verus!
