//! The typed client surface: the server address in normal form and the URL
//! of each REST call. The transport lives outside the library.

use vstd::prelude::*;

use crate::text::{has_prefix, push_decimal, spec_decimal};

verus! {

/// Whether `s` already carries the `http://` scheme.
pub open spec fn spec_has_http_prefix(s: Seq<char>) -> bool {
    "http://"@.len() <= s.len() && s.subrange(0, "http://"@.len() as int) == "http://"@
}

/// A client of the job server: the server address, with the `http://`
/// scheme made explicit.
#[derive(Clone, Debug)]
pub struct Client {
    server_addr: String,
}

impl View for Client {
    type V = Seq<char>;

    closed spec fn view(&self) -> Seq<char> {
        self.server_addr@
    }
}

impl Client {
    /// A client for the server at `addr`; a missing `http://` scheme is
    /// prepended.
    pub fn new(addr: &str) -> (r: Client)
        ensures
            r@ == (if spec_has_http_prefix(addr@) {
                addr@
            } else {
                "http://"@ + addr@
            }),
    {
        if has_prefix(addr, "http://") {
            Client { server_addr: addr.to_owned() }
        } else {
            Client { server_addr: "http://".to_owned().concat(addr) }
        }
    }

    /// The normalized server address.
    pub fn server_address(&self) -> (r: &str)
        ensures
            r@ == self@,
    {
        self.server_addr.as_str()
    }

    /// The URL of the job collection: list, create, shutdown.
    pub fn jobs_url(&self) -> (r: String)
        ensures
            r@ == self@ + "/jobs"@,
    {
        self.server_addr.clone().concat("/jobs")
    }

    /// The URL of one job: wait, update, delete.
    pub fn job_url(&self, id: usize) -> (r: String)
        ensures
            r@ == self@ + "/jobs/"@ + spec_decimal(id as nat),
    {
        let mut s = self.server_addr.clone().concat("/jobs/");
        push_decimal(&mut s, id);
        proof {
            assert(s@ =~= self@ + "/jobs/"@ + spec_decimal(id as nat));
        }
        s
    }

    /// The URL of one job's file list.
    pub fn job_files_url(&self, id: usize) -> (r: String)
        ensures
            r@ == self@ + "/jobs/"@ + spec_decimal(id as nat) + "/files"@,
    {
        let mut s = self.job_url(id);
        s.append("/files");
        proof {
            assert(s@ =~= self@ + "/jobs/"@ + spec_decimal(id as nat) + "/files"@);
        }
        s
    }

    /// The URL of one file inside one job's working directory.
    pub fn job_file_url(&self, id: usize, name: &str) -> (r: String)
        ensures
            r@ == self@ + "/jobs/"@ + spec_decimal(id as nat) + "/files/"@ + name@,
    {
        let mut s = self.job_url(id);
        s.append("/files/");
        s.append(name);
        proof {
            assert(s@ =~= self@ + "/jobs/"@ + spec_decimal(id as nat) + "/files/"@ + name@);
        }
        s
    }
}

impl Default for Client {
    /// A client for the default local server address.
    fn default() -> (r: Client)
        ensures
            r@ == "http://127.0.0.1:3030"@,
    {
        Client { server_addr: "http://127.0.0.1:3030".to_owned() }
    }
}

} // verus!
