//! The session supervisor: one child program spawned in a fresh process
//! session, signal broadcast over the whole session, and a timed run that
//! always tears the session down before returning.

use vstd::prelude::*;

use crate::error::Error;
use crate::process;

verus! {

/// The timeout applied when the caller sets none: two hours.
pub const DEFAULT_TIMEOUT_SECS: u32 = 7200;

/// The timeout the command-line runner applies when none is given: 30 days.
pub const DEFAULT_CLI_TIMEOUT_SECS: u32 = 2592000;

/// The timeout a run uses: the configured one, or the library default.
pub fn effective_timeout(t: &Option<u32>) -> (r: u32)
    ensures
        r == (match *t {
            Some(v) => v,
            None => DEFAULT_TIMEOUT_SECS,
        }),
{
    match t {
        Some(v) => *v,
        None => DEFAULT_TIMEOUT_SECS,
    }
}

/// How a supervised run ended: the child exited on its own, or the deadline
/// fired first.
#[derive(Clone, Copy, Debug, PartialEq, Eq, Structural)]
pub enum RunOutcome {
    Completed,
    TimedOut,
}

/// What a supervised run reports: how it ended, the exit code when the
/// child completed (`None` when it was ended by a signal), and the session
/// id the child group ran under.
pub struct RunReport {
    pub outcome: RunOutcome,
    pub exit_code: Option<i32>,
    pub sid: u32,
}

/// What a run reports for a waited outcome: a child that finished within
/// the deadline completed with its exit code; a deadline that fired first
/// timed out, with no exit code.
pub open spec fn spec_run_report(sid: u32, waited: Option<Option<i32>>) -> RunReport {
    match waited {
        Some(code) => RunReport { outcome: RunOutcome::Completed, exit_code: code, sid },
        None => RunReport { outcome: RunOutcome::TimedOut, exit_code: None, sid },
    }
}

/// The outcome-classification rule, as executable code.
pub fn classify_wait(sid: u32, waited: Option<Option<i32>>) -> (r: RunReport)
    ensures
        r == spec_run_report(sid, waited),
{
    match waited {
        Some(code) => RunReport { outcome: RunOutcome::Completed, exit_code: code, sid },
        None => RunReport { outcome: RunOutcome::TimedOut, exit_code: None, sid },
    }
}

/// A session supervisor: the program and arguments to run in a fresh
/// process session, its working directory, environment additions, stdin
/// bytes, and the run deadline.
pub struct Session {
    program: String,
    rest: Vec<String>,
    env_vars: Vec<(String, String)>,
    work_dir: Option<String>,
    timeout: Option<u32>,
    input: Vec<u8>,
    sid: Option<u32>,
}

/// The mathematical shape of a supervisor.
#[verifier::ext_equal]
pub struct SessionView {
    pub program: Seq<char>,
    pub rest: Seq<Seq<char>>,
    pub env_vars: Seq<(Seq<char>, Seq<char>)>,
    pub work_dir: Option<Seq<char>>,
    pub timeout: Option<u32>,
    pub input: Seq<u8>,
    pub sid: Option<u32>,
}

impl View for Session {
    type V = SessionView;

    closed spec fn view(&self) -> SessionView {
        SessionView {
            program: self.program@,
            rest: self.rest.deep_view(),
            env_vars: self.env_vars.deep_view(),
            work_dir: match self.work_dir {
                Some(ref d) => Some(d@),
                None => None,
            },
            timeout: self.timeout,
            input: self.input@,
            sid: self.sid,
        }
    }
}

impl Session {
    /// A new supervisor for `program`, with no arguments, no environment
    /// additions, the caller's working directory, the default timeout, an
    /// empty stdin, and no session yet.
    pub fn new(program: &str) -> (r: Session)
        ensures
            r@.program == program@,
            r@.rest == Seq::<Seq<char>>::empty(),
            r@.env_vars == Seq::<(Seq<char>, Seq<char>)>::empty(),
            r@.work_dir is None,
            r@.timeout is None,
            r@.input == Seq::<u8>::empty(),
            r@.sid is None,
    {
        let r = Session {
            program: program.to_owned(),
            rest: Vec::new(),
            env_vars: Vec::new(),
            work_dir: None,
            timeout: None,
            input: Vec::new(),
            sid: None,
        };
        proof {
            assert(r@.rest =~= Seq::<Seq<char>>::empty());
            assert(r@.env_vars =~= Seq::<(Seq<char>, Seq<char>)>::empty());
        }
        r
    }

    /// Append one argument to pass to the program.
    pub fn arg(self, arg: &str) -> (r: Session)
        ensures
            r@ == (SessionView { rest: self@.rest.push(arg@), ..self@ }),
    {
        let ghost pre = self@;
        let mut s = self;
        s.rest.push(arg.to_owned());
        proof {
            assert(s@.rest =~= pre.rest.push(arg@));
            assert(s@ =~= (SessionView { rest: pre.rest.push(arg@), ..pre }));
        }
        s
    }

    /// Append multiple arguments to pass to the program.
    pub fn args(self, args: Vec<String>) -> (r: Session)
        ensures
            r@ == (SessionView { rest: self@.rest + args.deep_view(), ..self@ }),
    {
        let ghost pre = self@;
        let ghost more = args.deep_view();
        let ghost oldraw = self.rest@;
        let ghost addraw = args@;
        let mut s = self;
        let mut args = args;
        s.rest.append(&mut args);
        proof {
            assert forall|j: int| 0 <= j < s.rest.deep_view().len() implies s.rest.deep_view()[j]
                == (pre.rest + more)[j] by {
                if j < oldraw.len() {
                    assert(s.rest@[j] == oldraw[j]);
                } else {
                    assert(s.rest@[j] == addraw[j - oldraw.len()]);
                }
            }
            assert(s@.rest =~= pre.rest + more);
            assert(s@ =~= (SessionView { rest: pre.rest + more, ..pre }));
        }
        s
    }

    /// Set the working directory for the child process.
    pub fn dir(self, dir: &str) -> (r: Session)
        ensures
            r@ == (SessionView { work_dir: Some(dir@), ..self@ }),
    {
        let ghost pre = self@;
        let mut s = self;
        s.work_dir = Some(dir.to_owned());
        proof {
            assert(s@ =~= (SessionView { work_dir: Some(dir@), ..pre }));
        }
        s
    }

    /// Append an environment variable mapping for the child process.
    pub fn env(self, key: &str, val: &str) -> (r: Session)
        ensures
            r@ == (SessionView { env_vars: self@.env_vars.push((key@, val@)), ..self@ }),
    {
        let ghost pre = self@;
        let mut s = self;
        s.env_vars.push((key.to_owned(), val.to_owned()));
        proof {
            assert(s@.env_vars =~= pre.env_vars.push((key@, val@)));
            assert(s@ =~= (SessionView { env_vars: pre.env_vars.push((key@, val@)), ..pre }));
        }
        s
    }

    /// Set the run deadline, in seconds.
    pub fn timeout(self, t: u32) -> (r: Session)
        ensures
            r@ == (SessionView { timeout: Some(t), ..self@ }),
    {
        let ghost pre = self@;
        let mut s = self;
        s.timeout = Some(t);
        proof {
            assert(s@ =~= (SessionView { timeout: Some(t), ..pre }));
        }
        s
    }

    /// Use the given bytes as the child's stdin.
    pub fn stdin_bytes(self, bytes: Vec<u8>) -> (r: Session)
        ensures
            r@ == (SessionView { input: bytes@, ..self@ }),
    {
        let ghost pre = self@;
        let ghost b = bytes@;
        let mut s = self;
        s.input = bytes;
        proof {
            assert(s@ =~= (SessionView { input: b, ..pre }));
        }
        s
    }

    /// The session id of the child group, once spawned.
    pub fn sid(&self) -> (r: Option<u32>)
        ensures
            r == self@.sid,
    {
        self.sid
    }

    /// Broadcast the named signal over the session. Before a child has been
    /// spawned this is a no-op.
    pub fn signal(&mut self, sig: &str) -> (r: Result<(), Error>)
        requires
            process::valid_signal_name(sig@),
        ensures
            final(self)@ == old(self)@,
            old(self)@.sid is None ==> r is Ok,
            r matches Err(e) ==> e == Error::Inspection,
    {
        match self.sid {
            Some(sid) => process::signal_processes_by_session_id(sid, sig),
            None => Ok(()),
        }
    }

    /// Broadcast SIGTERM over the session.
    pub fn terminate(&mut self) -> (r: Result<(), Error>)
        ensures
            final(self)@ == old(self)@,
            old(self)@.sid is None ==> r is Ok,
            r matches Err(e) ==> e == Error::Inspection,
    {
        self.signal("SIGTERM")
    }

    /// Broadcast SIGKILL over the session.
    pub fn kill(&mut self) -> (r: Result<(), Error>)
        ensures
            final(self)@ == old(self)@,
            old(self)@.sid is None ==> r is Ok,
            r matches Err(e) ==> e == Error::Inspection,
    {
        self.signal("SIGKILL")
    }

    /// Broadcast SIGCONT over the session.
    pub fn resume(&mut self) -> (r: Result<(), Error>)
        ensures
            final(self)@ == old(self)@,
            old(self)@.sid is None ==> r is Ok,
            r matches Err(e) ==> e == Error::Inspection,
    {
        self.signal("SIGCONT")
    }

    /// Broadcast SIGSTOP over the session.
    pub fn pause(&mut self) -> (r: Result<(), Error>)
        ensures
            final(self)@ == old(self)@,
            old(self)@.sid is None ==> r is Ok,
            r matches Err(e) ==> e == Error::Inspection,
    {
        self.signal("SIGSTOP")
    }

    /// Spawn the program in a fresh session, handing back the running child
    /// with its session id and the deadline this supervisor was configured
    /// with; the session id is also recorded here, so the signal methods
    /// reach the spawned group.
    pub fn start(&mut self) -> (r: Result<ActiveRun, Error>)
        ensures
            r matches Err(e) ==> e == Error::Spawn && final(self)@ == old(self)@,
            r matches Ok(a) ==> a@.timeout_secs == (match old(self)@.timeout {
                Some(v) => v,
                None => DEFAULT_TIMEOUT_SECS,
            }) && final(self)@ == (SessionView { sid: Some(a@.sid), ..old(self)@ }),
    {
        let t = effective_timeout(&self.timeout);
        let d: String = match &self.work_dir {
            Some(d) => d.clone(),
            None => ".".to_owned(),
        };
        let h = match process::spawn_in_session(
            self.program.as_str(),
            &self.rest,
            &self.env_vars,
            d.as_str(),
            self.input.as_slice(),
        ) {
            Ok(h) => h,
            Err(_) => {
                return Err(Error::Spawn);
            },
        };
        let sid = process::handle_pid(&h);
        self.sid = Some(sid);
        Ok(ActiveRun { handle: h, sid, timeout_secs: t })
    }

    /// Run the program in a fresh session and drive it to an outcome: the
    /// child exits within the deadline, or the deadline fires. In both
    /// cases, and also when waiting itself fails, SIGKILL is broadcast over
    /// the whole session and the immediate child is reaped before this
    /// returns, so no orphan survives in the session.
    pub fn run(self) -> (r: Result<RunReport, Error>)
        ensures
            r matches Ok(rep) ==> (exists|w: Option<Option<i32>>|
                rep == #[trigger] spec_run_report(rep.sid, w)),
            r matches Ok(rep) ==> (rep.outcome == RunOutcome::TimedOut ==> rep.exit_code is None),
            r matches Err(e) ==> (e == Error::Spawn || e == Error::Io),
    {
        let mut s = self;
        let active = match s.start() {
            Ok(a) => a,
            Err(e) => {
                return Err(e);
            },
        };
        let waited = active.wait_deadline();
        active.kill_group();
        match waited {
            Ok(w) => {
                let rep = classify_wait(active.sid(), w);
                proof {
                    assert(rep == spec_run_report(rep.sid, w));
                }
                Ok(rep)
            },
            Err(e) => Err(e),
        }
    }
}

/// A supervised child that has been spawned and not yet torn down: its
/// handle, the id of the fresh session it leads, and the run deadline.
pub struct ActiveRun {
    handle: duct::Handle,
    sid: u32,
    timeout_secs: u32,
}

/// The mathematical shape of a running supervised child.
#[verifier::ext_equal]
pub struct ActiveRunView {
    pub sid: u32,
    pub timeout_secs: u32,
}

impl View for ActiveRun {
    type V = ActiveRunView;

    closed spec fn view(&self) -> ActiveRunView {
        ActiveRunView { sid: self.sid, timeout_secs: self.timeout_secs }
    }
}

impl ActiveRun {
    /// The id of the session the child group runs in.
    pub fn sid(&self) -> (r: u32)
        ensures
            r == self@.sid,
    {
        self.sid
    }

    /// Block until the child exits or the configured deadline passes:
    /// `Some(exit code)` when it finished, `None` when the deadline fired.
    pub fn wait_deadline(&self) -> (r: Result<Option<Option<i32>>, Error>)
        ensures
            r matches Err(e) ==> e == Error::Io,
    {
        process::handle_wait_secs(&self.handle, self.timeout_secs as u64)
    }

    /// Tear the whole session down: broadcast SIGKILL over it and reap the
    /// immediate child. This is the unconditional final step of every
    /// supervised run, whatever ended it.
    pub fn kill_group(&self) {
        let _ = process::signal_processes_by_session_id(self.sid, "SIGKILL");
        let _ = process::handle_wait(&self.handle);
    }
}

impl Drop for ActiveRun {
    /// A spawned session must not outlive its handle: dropping it without
    /// an explicit kill still signals SIGKILL to the child's process group,
    /// so the supervisor, not the language runtime, controls teardown.
    fn drop(&mut self)
        opens_invariants none
        no_unwind
    {
        process::kill_group_on_drop(self.sid);
    }
}

} // verus!
