//! Where stored files live: a local directory or an FTP server. The
//! transfers themselves are I/O; what is decided here is which path a file
//! is stored under and whether a backend is usable.

use crate::features::storage::config::{FileUploadConfig, StorageBackendSettings, StorageProtocol};
use crate::features::storage::error::StorageError;
use crate::text::{
    contains_char, contains_chars, contains_seq, copy_str, from_chars, push_char, push_str, str_eq,
    to_chars, trim, trim_chars, trim_end_by, trim_end_chars, trim_start_by, trim_start_chars,
    CharClass,
};
use crate::utility::format::{decimal, u64_to_string};
use vstd::prelude::*;

verus! {

/// `root` joined with a relative name, as `Path::join` does on Unix: the
/// name alone when the root is empty or the name is absolute, otherwise with
/// one `/` between them unless the root already ends with one.
pub open spec fn path_join(root: Seq<char>, name: Seq<char>) -> Seq<char> {
    if root.len() == 0 || (name.len() > 0 && name[0] == '/') {
        name
    } else if root.last() == '/' {
        root + name
    } else {
        root + seq!['/'] + name
    }
}

pub fn join_path(root: &str, name: &str) -> (res: String)
    ensures
        res@ == path_join(root@, name@),
{
    let r = to_chars(root);
    let n = to_chars(name);
    if r.len() == 0 || (n.len() > 0 && n[0] == '/') {
        return copy_str(name);
    }
    let mut out = copy_str(root);
    if r[r.len() - 1] != '/' {
        push_char(&mut out, '/');
    }
    push_str(&mut out, name);
    out
}

/// The directory where uploads are staged before they are stored.
pub fn upload_temp_dir(local_root: &str) -> (res: String)
    ensures
        res@ == path_join(local_root@, ".tmp"@),
{
    join_path(local_root, ".tmp")
}

/// Files stored in a local directory.
#[derive(Debug)]
pub struct LocalBackend {
    pub root: String,
}

impl LocalBackend {
    pub fn new(root: String) -> (res: Self)
        ensures
            res.root == root,
    {
        LocalBackend { root }
    }

    /// The path of a stored file; names with `..` or a path separator are refused.
    pub fn full_path(&self, remote_name: &str) -> (res: Result<String, StorageError>)
        ensures
            (contains_seq(remote_name@, seq!['.', '.']) || remote_name@.contains('/')
                || remote_name@.contains('\\')) ==> (res matches Err(StorageError::InvalidExtension(m))
                && m@ == "نام فایل نامعتبر است."@),
            !(contains_seq(remote_name@, seq!['.', '.']) || remote_name@.contains('/')
                || remote_name@.contains('\\')) ==> (res matches Ok(p) && p@ == path_join(
                self.root@,
                remote_name@,
            )),
    {
        let n = to_chars(remote_name);
        let dots = ['.', '.'];
        assert(dots@ =~= seq!['.', '.']);
        if contains_chars(n.as_slice(), dots.as_slice()) || contains_char(n.as_slice(), '/')
            || contains_char(n.as_slice(), '\\') {
            return Err(StorageError::InvalidExtension(copy_str("نام فایل نامعتبر است.")));
        }
        Ok(join_path(self.root.as_str(), remote_name))
    }
}

/// Files stored on an FTP server.
#[derive(Debug)]
pub struct FtpBackend {
    pub settings: StorageBackendSettings,
}

/// The remote path of a file under the base path: the base trimmed, without
/// trailing slashes; the name alone when that is empty or `/`, otherwise the
/// base without leading slashes, `/`, and the name.
pub open spec fn remote_path_spec(base_path: Seq<char>, remote_name: Seq<char>) -> Seq<char> {
    let base = trim_end_by(trim(base_path), CharClass::Exactly('/'));
    if base.len() == 0 || base == seq!['/'] {
        remote_name
    } else {
        trim_start_by(base, CharClass::Exactly('/')) + seq!['/'] + remote_name
    }
}

impl FtpBackend {
    pub fn new(settings: StorageBackendSettings) -> (res: Self)
        ensures
            res.settings == settings,
    {
        FtpBackend { settings }
    }

    pub fn remote_path(&self, remote_name: &str) -> (res: String)
        ensures
            res@ == remote_path_spec(self.settings.base_path@, remote_name@),
    {
        let b = trim_chars(to_chars(self.settings.base_path.as_str()).as_slice(), CharClass::Whitespace);
        let base = trim_end_chars(b.as_slice(), CharClass::Exactly('/'));
        if base.len() == 0 || (base.len() == 1 && base[0] == '/') {
            assert(base.len() == 1 ==> base@ =~= seq!['/']);
            return copy_str(remote_name);
        }
        assert(base@ != seq!['/']);
        let stripped = trim_start_chars(base.as_slice(), CharClass::Exactly('/'));
        let mut out = from_chars(stripped.as_slice());
        push_char(&mut out, '/');
        push_str(&mut out, remote_name);
        out
    }

    /// The `host:port` to connect to; a missing host is a configuration error.
    pub fn address(&self) -> (res: Result<String, StorageError>)
        ensures
            self.settings.host@.len() == 0 ==> (res matches Err(StorageError::Misconfigured(m))
                && m@ == "FILE_STORAGE_HOST is required for FTP"@),
            self.settings.host@.len() > 0 ==> (res matches Ok(a) && a@ == self.settings.host@
                + seq![':'] + decimal(self.settings.port as nat)),
    {
        if self.settings.host.as_str().unicode_len() == 0 {
            return Err(StorageError::Misconfigured(copy_str("FILE_STORAGE_HOST is required for FTP")));
        }
        let mut a = self.settings.host.clone();
        push_char(&mut a, ':');
        let port = u64_to_string(self.settings.port as u64);
        push_str(&mut a, port.as_str());
        Ok(a)
    }

    /// Explicit TLS is refused once connected.
    pub fn tls_check(&self) -> (res: Result<(), StorageError>)
        ensures
            self.settings.use_tls <==> res is Err,
            res matches Err(e) ==> (e matches StorageError::Misconfigured(m) && m@
                == "FTP explicit TLS is not supported yet; use FILE_STORAGE_USE_TLS=false or local storage"@),
    {
        if self.settings.use_tls {
            return Err(StorageError::Misconfigured(copy_str(
                "FTP explicit TLS is not supported yet; use FILE_STORAGE_USE_TLS=false or local storage",
            )));
        }
        Ok(())
    }
}

/// The backend that holds stored files.
pub enum StorageBackend {
    Local(LocalBackend),
    Ftp(FtpBackend),
}

/// The backend named by the configuration: the local directory, or the FTP
/// server with the configured settings.
pub fn build_backend(config: &FileUploadConfig) -> (res: StorageBackend)
    ensures
        match config.storage.protocol {
            StorageProtocol::Local => res matches StorageBackend::Local(b) && b.root == config.storage.local_root,
            StorageProtocol::Ftp => res matches StorageBackend::Ftp(b) && b.settings == config.storage,
        },
{
    match config.storage.protocol {
        StorageProtocol::Local => StorageBackend::Local(LocalBackend::new(config.storage.local_root.clone())),
        StorageProtocol::Ftp => StorageBackend::Ftp(FtpBackend::new(config.storage.clone())),
    }
}

/// A periodic job: its name and how often it runs.
#[derive(Debug)]
pub struct CleanupSchedule {
    pub name: String,
    pub interval_secs: u64,
}

/// The cleanup of expired files, run every `interval_secs` seconds but never
/// more often than every ten.
pub fn register_cleanup_job(interval_secs: u64) -> (res: CleanupSchedule)
    ensures
        res.name@ == "file_cleanup"@,
        res.interval_secs == if interval_secs < 10 {
            10
        } else {
            interval_secs
        },
{
    let interval = if interval_secs < 10 {
        10
    } else {
        interval_secs
    };
    CleanupSchedule { name: copy_str("file_cleanup"), interval_secs: interval }
}

/// The Redis sorted set that holds stored files by the time they expire.
pub const CLEANUP_ZSET_KEY: &'static str = "file_cleanup";

/// One step of a cleanup run.
pub enum CleanupAction {
    /// Delete the stored file (a failure is only logged).
    DeleteFile(String),
    /// Remove the file from the cleanup set.
    ForgetEntry(String),
}

pub open spec fn action_view(a: CleanupAction) -> (bool, Seq<char>) {
    match a {
        CleanupAction::DeleteFile(n) => (true, n@),
        CleanupAction::ForgetEntry(n) => (false, n@),
    }
}

/// What a cleanup run does with the expired files: for each, in order,
/// delete it and then remove it from the cleanup set.
pub open spec fn cleanup_plan(expired: Seq<Seq<char>>) -> Seq<(bool, Seq<char>)>
    decreases expired.len(),
{
    if expired.len() == 0 {
        Seq::empty()
    } else {
        cleanup_plan(expired.drop_last()).push((true, expired.last())).push((false, expired.last()))
    }
}

pub fn cleanup_actions(expired: &Vec<String>) -> (res: Vec<CleanupAction>)
    ensures
        res@.map_values(|a: CleanupAction| action_view(a)) == cleanup_plan(
            expired@.map_values(|n: String| n@),
        ),
{
    let mut out: Vec<CleanupAction> = Vec::new();
    let mut i: usize = 0;
    while i < expired.len()
        invariant
            i <= expired@.len(),
            out@.map_values(|a: CleanupAction| action_view(a)) == cleanup_plan(
                expired@.subrange(0, i as int).map_values(|n: String| n@),
            ),
        decreases expired@.len() - i,
    {
        let ghost prev = out@;
        let name = &expired[i];
        out.push(CleanupAction::DeleteFile(name.clone()));
        out.push(CleanupAction::ForgetEntry(name.clone()));
        let ghost names = expired@.subrange(0, i + 1).map_values(|n: String| n@);
        assert(names.drop_last() =~= expired@.subrange(0, i as int).map_values(|n: String| n@));
        assert(names.last() == expired@[i as int]@);
        assert(out@.map_values(|a: CleanupAction| action_view(a)) =~= prev.map_values(
            |a: CleanupAction| action_view(a),
        ).push((true, names.last())).push((false, names.last())));
        i = i + 1;
    }
    assert(expired@.subrange(0, expired@.len() as int) =~= expired@);
    out
}

} // verus!
