//! A computational job: its submitted form, and its active form bound to a
//! private scratch directory with the per-job lifecycle (materialize, start,
//! stream output to files, wait, terminate).

use vstd::prelude::*;

use crate::error::Error;
use crate::fsio;
use crate::process;
use crate::text::{join_path, str_eq};

verus! {

/// The mode bits the run file is created with: read, write and execute for
/// owner and group.
pub const RUN_FILE_MODE: u32 = 0o770;

/// The run-file mode includes the owner and the group execute bit, so the
/// materialized script can be invoked directly.
pub proof fn lemma_run_mode_executable()
    ensures
        RUN_FILE_MODE & 0o100 != 0,
        RUN_FILE_MODE & 0o010 != 0,
{
    assert(0o770u32 & 0o100 != 0) by (bit_vector);
    assert(0o770u32 & 0o010 != 0) by (bit_vector);
}

/// The submitted form of a job: the script whose contents become the run
/// file, the bytes streamed to the child's stdin, and the names of the
/// run, stdin, stdout and stderr files inside the working directory.
pub struct Job {
    script: String,
    input: String,
    inp_file: String,
    out_file: String,
    err_file: String,
    run_file: String,
    extra_files: Vec<String>,
}

/// The mathematical shape of a submitted job.
#[verifier::ext_equal]
pub struct JobView {
    pub script: Seq<char>,
    pub input: Seq<char>,
    pub inp_file: Seq<char>,
    pub out_file: Seq<char>,
    pub err_file: Seq<char>,
    pub run_file: Seq<char>,
    pub extra_files: Seq<Seq<char>>,
}

impl View for Job {
    type V = JobView;

    closed spec fn view(&self) -> JobView {
        JobView {
            script: self.script@,
            input: self.input@,
            inp_file: self.inp_file@,
            out_file: self.out_file@,
            err_file: self.err_file@,
            run_file: self.run_file@,
            extra_files: self.extra_files.deep_view(),
        }
    }
}

impl Job {
    /// Construct a job running the given shell script, with the
    /// conventional file names and an empty stdin.
    pub fn new(script: &str) -> (r: Job)
        ensures
            r@.script == script@,
            r@.input == Seq::<char>::empty(),
            r@.inp_file == "job.inp"@,
            r@.out_file == "job.out"@,
            r@.err_file == "job.err"@,
            r@.run_file == "run"@,
            r@.extra_files == Seq::<Seq<char>>::empty(),
    {
        let r = Job {
            script: script.to_owned(),
            input: String::new(),
            inp_file: "job.inp".to_owned(),
            out_file: "job.out".to_owned(),
            err_file: "job.err".to_owned(),
            run_file: "run".to_owned(),
            extra_files: Vec::new(),
        };
        proof {
            assert(r@.extra_files =~= Seq::<Seq<char>>::empty());
        }
        r
    }

    /// The same job with `content` as its stdin bytes.
    pub fn with_stdin(self, content: &str) -> (r: Job)
        ensures
            r@ == (JobView { input: content@, ..self@ }),
    {
        let r = Job { input: content.to_owned(), ..self };
        proof {
            assert(r@ =~= (JobView { input: content@, ..self@ }));
        }
        r
    }

    /// The same job with the four working-directory file names replaced.
    pub fn with_file_names(
        self,
        run_file: &str,
        inp_file: &str,
        out_file: &str,
        err_file: &str,
    ) -> (r: Job)
        ensures
            r@ == (JobView {
                run_file: run_file@,
                inp_file: inp_file@,
                out_file: out_file@,
                err_file: err_file@,
                ..self@
            }),
    {
        let r = Job {
            run_file: run_file.to_owned(),
            inp_file: inp_file.to_owned(),
            out_file: out_file.to_owned(),
            err_file: err_file.to_owned(),
            ..self
        };
        proof {
            assert(r@ =~= (JobView {
                run_file: run_file@,
                inp_file: inp_file@,
                out_file: out_file@,
                err_file: err_file@,
                ..self@
            }));
        }
        r
    }

    /// Whether `file` already stands in the extra-files list.
    pub open spec fn spec_has_extra(self, file: Seq<char>) -> bool {
        exists|i: int|
            0 <= i < self@.extra_files.len() && #[trigger] self@.extra_files[i] == file
    }

    /// Add a new file into the extra-files list; a duplicate is rejected and
    /// leaves the list unchanged.
    pub fn attach_file(&mut self, file: &str)
        ensures
            old(self).spec_has_extra(file@) ==> final(self)@ == old(self)@,
            !old(self).spec_has_extra(file@) ==> final(self)@ == (JobView {
                extra_files: old(self)@.extra_files.push(file@),
                ..old(self)@
            }),
    {
        let n = self.extra_files.len();
        let mut i: usize = 0;
        while i < n
            invariant
                n == self.extra_files@.len(),
                i <= n,
                *self == *old(self),
                forall|j: int| 0 <= j < i ==> #[trigger] self@.extra_files[j] != file@,
            decreases n - i,
        {
            if str_eq(self.extra_files[i].as_str(), file) {
                proof {
                    assert(self@.extra_files[i as int] == self.extra_files@[i as int]@);
                }
                return ;
            }
            i += 1;
        }
        self.extra_files.push(file.to_owned());
        proof {
            assert(final(self)@.extra_files =~= old(self)@.extra_files.push(file@));
            assert(final(self)@ =~= (JobView {
                extra_files: old(self)@.extra_files.push(file@),
                ..old(self)@
            }));
        }
    }
}

/// Where a job stands in its lifecycle. `Failure` carries the nonzero exit
/// code, or -1 when the child was ended by a signal.
#[derive(Clone, Copy, Debug, PartialEq, Eq, Structural)]
pub enum JobStatus {
    NotStarted,
    Running,
    Failure(i32),
    Success,
}

impl Default for JobStatus {
    fn default() -> (r: Self)
        ensures
            r == JobStatus::NotStarted,
    {
        JobStatus::NotStarted
    }
}

/// Whether a status is terminal: the child has exited or was torn down.
pub open spec fn is_terminal(s: JobStatus) -> bool {
    s == JobStatus::Success || s matches JobStatus::Failure(_)
}

/// The status a waited child is recorded with, from its exit code: 0 is
/// success, a nonzero code is a failure carrying that code, and a child
/// ended by a signal (no code) is recorded as `Failure(-1)`.
pub open spec fn spec_status_of_exit(code: Option<i32>) -> JobStatus {
    match code {
        Some(c) => if c == 0 {
            JobStatus::Success
        } else {
            JobStatus::Failure(c)
        },
        None => JobStatus::Failure(-1i32),
    }
}

/// The exit-code-to-status rule, as executable code.
pub fn status_of_exit(code: Option<i32>) -> (r: JobStatus)
    ensures
        r == spec_status_of_exit(code),
{
    match code {
        Some(c) => if c == 0 {
            JobStatus::Success
        } else {
            JobStatus::Failure(c)
        },
        None => JobStatus::Failure(-1),
    }
}

/// The active form of a submitted job: the job together with its private
/// scratch directory and, once started, its child session. The directory
/// handle owns the directory on disk; dropping the session releases it.
pub struct Session {
    job: Job,
    dir: tempfile::TempDir,
    wrk_dir: String,
    child: Option<duct::Handle>,
    sid: Option<u32>,
    status: JobStatus,
}

/// The mathematical shape of an active job.
#[verifier::ext_equal]
pub struct SessionView {
    pub job: JobView,
    pub wrk_dir: Seq<char>,
    pub sid: Option<u32>,
    pub status: JobStatus,
}

impl View for Session {
    type V = SessionView;

    closed spec fn view(&self) -> SessionView {
        SessionView {
            job: self.job@,
            wrk_dir: self.wrk_dir@,
            sid: self.sid,
            status: self.status,
        }
    }
}

impl Session {
    /// Materialize `job`: allocate a fresh scratch directory beneath the
    /// current directory, write the script to the run file with executable
    /// mode bits, and write the stdin bytes to the input file. Any I/O
    /// failure is fatal to the build.
    pub fn new(job: Job) -> (r: Result<Session, Error>)
        ensures
            r matches Ok(s) ==> s@.job == job@ && s@.status == JobStatus::NotStarted
                && s@.sid is None,
            r matches Err(e) ==> e == Error::Io,
    {
        let (dir, wrk_dir) = match fsio::scratch_dir_in(".") {
            Ok(p) => p,
            Err(_) => return Err(Error::Io),
        };
        let run_path = join_path(wrk_dir.as_str(), job.run_file.as_str());
        if fsio::write_file(run_path.as_str(), job.script.as_str().as_bytes()).is_err() {
            return Err(Error::Io);
        }
        if fsio::set_mode(run_path.as_str(), RUN_FILE_MODE).is_err() {
            return Err(Error::Io);
        }
        let inp_path = join_path(wrk_dir.as_str(), job.inp_file.as_str());
        if fsio::write_file(inp_path.as_str(), job.input.as_str().as_bytes()).is_err() {
            return Err(Error::Io);
        }
        Ok(Session { job, dir, wrk_dir, child: None, sid: None, status: JobStatus::NotStarted })
    }

    /// The full path to the working directory for running the job.
    pub fn wrk_dir(&self) -> (r: &str)
        ensures
            r@ == self@.wrk_dir,
    {
        self.wrk_dir.as_str()
    }

    /// The full path to the computation input file (stdin).
    pub fn inp_file(&self) -> (r: String)
        ensures
            r@ == self@.wrk_dir + "/"@ + self@.job.inp_file,
    {
        join_path(self.wrk_dir.as_str(), self.job.inp_file.as_str())
    }

    /// The full path to the computation output file (stdout).
    pub fn out_file(&self) -> (r: String)
        ensures
            r@ == self@.wrk_dir + "/"@ + self@.job.out_file,
    {
        join_path(self.wrk_dir.as_str(), self.job.out_file.as_str())
    }

    /// The full path to the computation error file (stderr).
    pub fn err_file(&self) -> (r: String)
        ensures
            r@ == self@.wrk_dir + "/"@ + self@.job.err_file,
    {
        join_path(self.wrk_dir.as_str(), self.job.err_file.as_str())
    }

    /// The full path to the script for running the job.
    pub fn run_file(&self) -> (r: String)
        ensures
            r@ == self@.wrk_dir + "/"@ + self@.job.run_file,
    {
        join_path(self.wrk_dir.as_str(), self.job.run_file.as_str())
    }

    /// The full paths of the extra files required for the computation.
    pub fn extra_files(&self) -> (r: Vec<String>)
        ensures
            r@.len() == self@.job.extra_files.len(),
            forall|i: int|
                0 <= i < r@.len() ==> #[trigger] r@[i]@ == self@.wrk_dir + "/"@
                    + self@.job.extra_files[i],
    {
        let n = self.job.extra_files.len();
        let mut out: Vec<String> = Vec::new();
        let mut i: usize = 0;
        while i < n
            invariant
                n == self.job.extra_files@.len(),
                i <= n,
                out@.len() == i,
                forall|j: int|
                    0 <= j < i ==> #[trigger] out@[j]@ == self@.wrk_dir + "/"@
                        + self@.job.extra_files[j],
            decreases n - i,
        {
            out.push(join_path(self.wrk_dir.as_str(), self.job.extra_files[i].as_str()));
            proof {
                assert(self@.job.extra_files[i as int] == self.job.extra_files@[i as int]@);
            }
            i += 1;
        }
        out
    }

    /// Whether the session has been started at some point.
    pub fn is_started(&self) -> (r: bool)
        ensures
            r == (self@.status != JobStatus::NotStarted),
    {
        match self.status {
            JobStatus::NotStarted => false,
            _ => true,
        }
    }

    /// The session id of the child group, once started.
    pub fn sid(&self) -> (r: Option<u32>)
        ensures
            r == self@.sid,
    {
        self.sid
    }

    /// Where the job stands in its lifecycle.
    pub fn status(&self) -> (r: JobStatus)
        ensures
            r == self@.status,
    {
        self.status
    }

    /// Launch the run file under the session supervisor with the working
    /// directory as cwd, streaming the stdin bytes to the child and the
    /// child's stdout and stderr to the output and error files. Starting a
    /// job that has already been started fails with `AlreadyStarted`.
    pub fn start(&mut self) -> (r: Result<(), Error>)
        ensures
            old(self)@.status != JobStatus::NotStarted ==> r == Err::<(), Error>(
                Error::AlreadyStarted,
            ) && final(self)@ == old(self)@,
            old(self)@.status == JobStatus::NotStarted && r is Ok ==> final(self)@ == (SessionView {
                status: JobStatus::Running,
                sid: final(self)@.sid,
                ..old(self)@
            }) && final(self)@.sid is Some,
            old(self)@.status == JobStatus::NotStarted && r is Err ==> r == Err::<(), Error>(
                Error::Spawn,
            ) && final(self)@ == old(self)@,
    {
        match self.status {
            JobStatus::NotStarted => {},
            _ => return Err(Error::AlreadyStarted),
        }
        let run_path = self.run_file();
        let out_path = self.out_file();
        let err_path = self.err_file();
        let h = match process::spawn_job(
            run_path.as_str(),
            self.wrk_dir.as_str(),
            self.job.input.as_str().as_bytes(),
            out_path.as_str(),
            err_path.as_str(),
        ) {
            Ok(h) => h,
            Err(_) => return Err(Error::Spawn),
        };
        let sid = process::handle_pid(&h);
        self.child = Some(h);
        self.sid = Some(sid);
        self.status = JobStatus::Running;
        Ok(())
    }

    /// Consume the stored child handle and block until the child exits; the
    /// exit is recorded through [`status_of_exit`], so any exit — code 0 or
    /// not — yields `Ok`, and a nonzero exit is a normal completion.
    pub fn wait(&mut self) -> (r: Result<(), Error>)
        ensures
            r is Ok ==> old(self)@.status == JobStatus::Running && is_terminal(final(self)@.status)
                && final(self)@ == (SessionView { status: final(self)@.status, ..old(self)@ })
                && (exists|c: Option<i32>|
                final(self)@.status == #[trigger] spec_status_of_exit(c)),
            r matches Err(e) ==> e == Error::Io && final(self)@ == old(self)@,
    {
        match self.status {
            JobStatus::Running => {},
            _ => return Err(Error::Io),
        }
        let h = match self.child.take() {
            Some(h) => h,
            None => return Err(Error::Io),
        };
        match process::handle_wait(&h) {
            Ok(code) => {
                self.status = status_of_exit(code);
                proof {
                    assert(final(self)@.status == spec_status_of_exit(code));
                }
                Ok(())
            },
            Err(_) => Err(Error::Io),
        }
    }

    /// Broadcast SIGTERM over the child session, if one was ever started.
    /// Safe to call at any time; a session that never started is a no-op.
    pub fn terminate(&self) {
        match self.sid {
            Some(sid) => {
                let _ = process::signal_processes_by_session_id(sid, "SIGTERM");
            },
            None => {},
        }
    }

    /// Broadcast SIGKILL over the child session, if one was ever started.
    pub fn kill(&self) {
        match self.sid {
            Some(sid) => {
                let _ = process::signal_processes_by_session_id(sid, "SIGKILL");
            },
            None => {},
        }
    }

    /// The advisory "done" rule on plain observations: the working directory
    /// exists, both files are regular files, and the output is no older than
    /// the input.
    pub fn done_given(dir_ok: bool, out_state: Option<(bool, u128)>, inp_state: Option<(bool, u128)>) -> (r:
        bool)
        ensures
            r == (match (out_state, inp_state) {
                (Some(o), Some(i)) => dir_ok && o.0 && i.0 && o.1 >= i.1,
                _ => false,
            }),
    {
        match (out_state, inp_state) {
            (Some(o), Some(i)) => dir_ok && o.0 && i.0 && o.1 >= i.1,
            _ => false,
        }
    }

    /// Check if the job looks done: a best-effort probe of the directory and
    /// the modification times of the input and output files.
    pub fn is_done(&self) -> bool {
        let dir_ok = fsio::dir_exists(self.wrk_dir.as_str());
        let out_path = self.out_file();
        let inp_path = self.inp_file();
        let out_state = fsio::file_status(out_path.as_str());
        let inp_state = fsio::file_status(inp_path.as_str());
        Session::done_given(dir_ok, out_state, inp_state)
    }

    /// Refresh the output file (rewriting its current bytes, or creating it
    /// empty) so that a later `is_done` sees it no older than the input.
    pub fn fake_done(&self) -> Result<(), Error> {
        let out_path = self.out_file();
        let bytes = match fsio::read_file(out_path.as_str()) {
            Ok(b) => b,
            Err(_) => Vec::new(),
        };
        fsio::write_file(out_path.as_str(), bytes.as_slice())
    }
}

impl Drop for Session {
    /// An active job must not outlive its value: if a child group was ever
    /// started, it is signalled SIGKILL when the session is dropped; the
    /// scratch directory is removed by the directory handle's own drop.
    /// The explicit removal paths signal SIGTERM first; this is the last
    /// resort for every other way a session can go away.
    fn drop(&mut self)
        opens_invariants none
        no_unwind
    {
        match self.sid {
            Some(sid) => process::kill_group_on_drop(sid),
            None => {},
        }
    }
}

} // verus!
