//! Trusted bridges to the filesystem: scratch-directory creation and the
//! file reads and writes that jobs need. Each function wraps one small
//! outside-crate operation; nothing is promised of what is on disk.

use vstd::prelude::*;

use crate::error::Error;

verus! {

#[verifier::external_type_specification]
#[verifier::external_body]
pub struct ExTempDir(tempfile::TempDir);

/// Relies on `tempfile::TempDir::new_in`: creates a fresh private directory
/// under `parent`, removed when the returned handle is dropped; a parent
/// that cannot take the directory is an error. Also on
/// `tokio::fs::canonicalize` for the absolute form of its path.
#[verifier::external_body]
pub(crate) fn scratch_dir_in(parent: &str) -> Result<(tempfile::TempDir, String), Error> {
    let dir = match tempfile::TempDir::new_in(parent) {
        Ok(d) => d,
        Err(_) => return Err(Error::Io),
    };
    let rt = match tokio::runtime::Runtime::new() {
        Ok(rt) => rt,
        Err(_) => return Err(Error::Io),
    };
    match rt.block_on(tokio::fs::canonicalize(dir.path())) {
        Ok(p) => Ok((dir, p.to_string_lossy().into_owned())),
        Err(_) => Err(Error::Io),
    }
}

/// Relies on `tokio::fs::write`: creates or truncates the file at `path` and
/// writes `data` as its entire contents.
#[verifier::external_body]
pub(crate) fn write_file(path: &str, data: &[u8]) -> Result<(), Error> {
    let rt = match tokio::runtime::Runtime::new() {
        Ok(rt) => rt,
        Err(_) => return Err(Error::Io),
    };
    rt.block_on(tokio::fs::write(path, data)).map_err(|_| Error::Io)
}

/// Relies on `tokio::fs::read`: the entire contents of the file at `path`;
/// a missing file is reported as `NotFound`, any other failure as `Io`.
#[verifier::external_body]
pub(crate) fn read_file(path: &str) -> (r: Result<Vec<u8>, Error>)
    ensures
        r matches Err(e) ==> e == Error::NotFound || e == Error::Io,
{
    let rt = match tokio::runtime::Runtime::new() {
        Ok(rt) => rt,
        Err(_) => return Err(Error::Io),
    };
    rt.block_on(tokio::fs::read(path)).map_err(|e| match e.kind() {
        std::io::ErrorKind::NotFound => Error::NotFound,
        _ => Error::Io,
    })
}

/// Relies on `tokio::fs::read_dir`: one pair per directory entry of `path`,
/// holding the entry's full path and whether it is a regular file.
#[verifier::external_body]
pub(crate) fn list_dir(path: &str) -> Result<Vec<(String, bool)>, Error> {
    let rt = tokio::runtime::Runtime::new().map_err(|_| Error::Io)?;
    let mut rd = rt.block_on(tokio::fs::read_dir(path)).map_err(|_| Error::Io)?;
    let mut out: Vec<(String, bool)> = Vec::new();
    while let Ok(Some(ent)) = rt.block_on(rd.next_entry()) {
        let is_file = rt.block_on(ent.file_type()).map(|t| t.is_file()).unwrap_or(false);
        out.push((ent.path().to_string_lossy().into_owned(), is_file));
    }
    Ok(out)
}

/// Relies on `tokio::fs::metadata`: whether the entry at `path` is a regular
/// file, and its modification time in nanoseconds since the epoch; `None`
/// when the entry is missing or its metadata cannot be read.
#[verifier::external_body]
pub(crate) fn file_status(path: &str) -> Option<(bool, u128)> {
    let rt = tokio::runtime::Runtime::new().ok()?;
    let meta = rt.block_on(tokio::fs::metadata(path)).ok()?;
    let modified = meta.modified().ok()?;
    let nanos = modified.duration_since(std::time::SystemTime::UNIX_EPOCH).ok()?.as_nanos();
    Some((meta.is_file(), nanos))
}

/// Relies on `tokio::fs::metadata`: whether `path` names a directory.
#[verifier::external_body]
pub(crate) fn dir_exists(path: &str) -> bool {
    let rt = match tokio::runtime::Runtime::new() {
        Ok(rt) => rt,
        Err(_) => return false,
    };
    match rt.block_on(tokio::fs::metadata(path)) {
        Ok(meta) => meta.is_dir(),
        Err(_) => false,
    }
}

/// Relies on `nix::sys::stat::fchmodat`: sets the mode bits of `path` to
/// exactly `mode`.
#[verifier::external_body]
pub(crate) fn set_mode(path: &str, mode: u32) -> Result<(), Error> {
    let mode = nix::sys::stat::Mode::from_bits_truncate(mode);
    let flag = nix::sys::stat::FchmodatFlags::FollowSymlink;
    nix::sys::stat::fchmodat(nix::fcntl::AT_FDCWD, path, mode, flag).map_err(|_| Error::Io)
}

} // verus!
