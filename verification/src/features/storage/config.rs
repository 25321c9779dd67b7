//! Configuration of file uploads, read from environment variables.

use crate::features::storage::extension::{allowed_extensions_of, parse_allowed_extensions, ExtensionSet};
use crate::text::{
    copy_str, join, join_chars, lex_sorted, parse_bool_spec, parse_bool_str, parse_u16,
    parse_u16_spec, parse_u64, parse_u64_spec, push_char, push_str, sort_strings, str_eq, to_chars,
    to_lowercase, unicode_lowercase,
};
use vstd::prelude::*;

verus! {

#[derive(Debug, Clone, Copy, PartialEq, Eq, Structural)]
pub enum FileDownloadMode {
    Direct,
    Proxy,
}

#[derive(Debug, Clone, Copy, PartialEq, Eq, Structural)]
pub enum StorageProtocol {
    Ftp,
    Local,
}

#[derive(Debug)]
pub struct StorageBackendSettings {
    pub protocol: StorageProtocol,
    pub host: String,
    pub port: u16,
    pub username: String,
    pub password: String,
    pub base_path: String,
    pub use_tls: bool,
    pub local_root: String,
}

impl Clone for StorageBackendSettings {
    fn clone(&self) -> (res: Self)
        ensures
            res == *self,
    {
        StorageBackendSettings {
            protocol: self.protocol,
            host: self.host.clone(),
            port: self.port,
            username: self.username.clone(),
            password: self.password.clone(),
            base_path: self.base_path.clone(),
            use_tls: self.use_tls,
            local_root: self.local_root.clone(),
        }
    }
}

#[derive(Debug, Clone, Copy)]
pub struct FileRateLimitConfig {
    pub enabled: bool,
    pub upload_max_per_window: u64,
    pub upload_window_secs: u64,
    pub upload_max_bytes_per_window: u64,
    pub upload_bytes_window_secs: u64,
    pub download_max_per_window: u64,
    pub download_window_secs: u64,
    pub download_max_per_share_per_window: u64,
    pub download_share_window_secs: u64,
    pub show_max_per_window: u64,
    pub show_window_secs: u64,
}

#[derive(Debug)]
pub struct FileUploadConfig {
    pub upload_enabled: bool,
    pub max_size_mb: u64,
    pub public_base_url: String,
    pub download_mode: FileDownloadMode,
    pub allowed_extensions: ExtensionSet,
    pub storage: StorageBackendSettings,
    pub cleanup_interval_secs: u64,
    pub rate_limit: FileRateLimitConfig,
}

// ---------------------------------------------------------------------------
// The environment
// ---------------------------------------------------------------------------

/// A snapshot of the process environment: name and value of each variable
/// whose name and value are valid Unicode.
#[derive(Debug)]
pub struct EnvVars {
    pub vars: Vec<(String, String)>,
}

impl EnvVars {
    pub open spec fn entries(self) -> Seq<(Seq<char>, Seq<char>)> {
        self.vars@.map_values(|p: (String, String)| (p.0@, p.1@))
    }

    /// The value of a variable (`std::env::var`, unset when absent).
    pub open spec fn lookup(self, name: Seq<char>) -> Option<Seq<char>> {
        lookup_in(self.entries(), name)
    }

    pub fn get(&self, name: &str) -> (res: Option<String>)
        ensures
            match self.lookup(name@) {
                Some(v) => res matches Some(s) && s@ == v,
                None => res is None,
            },
    {
        let ghost e = self.entries();
        let mut i: usize = 0;
        assert(e.skip(0) =~= e);
        while i < self.vars.len()
            invariant
                e == self.entries(),
                i <= self.vars@.len(),
                lookup_in(e, name@) == lookup_in(e.skip(i as int), name@),
            decreases self.vars@.len() - i,
        {
            assert(e.skip(i as int)[0] == (self.vars@[i as int].0@, self.vars@[i as int].1@));
            if str_eq(self.vars[i].0.as_str(), name) {
                return Some(self.vars[i].1.clone());
            }
            assert(e.skip(i as int).drop_first() =~= e.skip(i + 1));
            i = i + 1;
        }
        None
    }

    fn text_or(&self, name: &str, default: &str) -> (res: String)
        ensures
            res@ == text_setting(self.lookup(name@), default@),
    {
        match self.get(name) {
            Some(v) => v,
            None => copy_str(default),
        }
    }

    fn u64_or(&self, name: &str, default: u64) -> (res: u64)
        ensures
            res == u64_setting(self.lookup(name@), default),
    {
        match self.get(name) {
            Some(v) => match parse_u64(v.as_str()) {
                Some(n) => n,
                None => default,
            },
            None => default,
        }
    }

    fn bool_or(&self, name: &str, default: bool) -> (res: bool)
        ensures
            res == bool_setting(self.lookup(name@), default),
    {
        match self.get(name) {
            Some(v) => match parse_bool_str(v.as_str()) {
                Some(b) => b,
                None => default,
            },
            None => default,
        }
    }
}

/// The first value bound to `name`.
pub open spec fn lookup_in(entries: Seq<(Seq<char>, Seq<char>)>, name: Seq<char>) -> Option<Seq<char>>
    decreases entries.len(),
{
    if entries.len() == 0 {
        None
    } else if entries[0].0 == name {
        Some(entries[0].1)
    } else {
        lookup_in(entries.drop_first(), name)
    }
}

/// `env::var(name).unwrap_or(default)`.
pub open spec fn text_setting(v: Option<Seq<char>>, default: Seq<char>) -> Seq<char> {
    match v {
        Some(s) => s,
        None => default,
    }
}

/// `env::var(name)` parsed as `u64`, or `default` when unset or not a number.
pub open spec fn u64_setting(v: Option<Seq<char>>, default: u64) -> u64 {
    match v {
        Some(s) => match parse_u64_spec(s) {
            Some(n) => n,
            None => default,
        },
        None => default,
    }
}

/// `env::var(name)` parsed as `bool`, or `default` when unset or not `true`/`false`.
pub open spec fn bool_setting(v: Option<Seq<char>>, default: bool) -> bool {
    match v {
        Some(s) => match parse_bool_spec(s) {
            Some(b) => b,
            None => default,
        },
        None => default,
    }
}

pub open spec fn u16_setting(v: Option<Seq<char>>, default: u16) -> u16 {
    match v {
        Some(s) => match parse_u16_spec(s) {
            Some(n) => n,
            None => default,
        },
        None => default,
    }
}

pub open spec fn saturating_mul(a: u64, b: u64) -> u64 {
    if a * b > u64::MAX {
        u64::MAX
    } else {
        (a * b) as u64
    }
}

fn saturating_mul_u64(a: u64, b: u64) -> (res: u64)
    ensures
        res == saturating_mul(a, b),
{
    match a.checked_mul(b) {
        Some(p) => p,
        None => u64::MAX,
    }
}

impl FileRateLimitConfig {
    /// The rate limits named by the environment, with their defaults.
    pub open spec fn spec_from_env(env: EnvVars) -> Self {
        FileRateLimitConfig {
            enabled: bool_setting(env.lookup("FILE_RATE_LIMIT_ENABLED"@), true),
            upload_max_per_window: u64_setting(env.lookup("FILE_UPLOAD_MAX_PER_WINDOW"@), 20),
            upload_window_secs: u64_setting(env.lookup("FILE_UPLOAD_WINDOW_SECS"@), 3600),
            upload_max_bytes_per_window: saturating_mul(
                u64_setting(env.lookup("FILE_UPLOAD_MAX_MB_PER_WINDOW"@), 100),
                1048576,
            ),
            upload_bytes_window_secs: u64_setting(env.lookup("FILE_UPLOAD_BYTES_WINDOW_SECS"@), 86400),
            download_max_per_window: u64_setting(env.lookup("FILE_DOWNLOAD_MAX_PER_WINDOW"@), 60),
            download_window_secs: u64_setting(env.lookup("FILE_DOWNLOAD_WINDOW_SECS"@), 60),
            download_max_per_share_per_window: u64_setting(
                env.lookup("FILE_DOWNLOAD_MAX_PER_SHARE_PER_WINDOW"@),
                30,
            ),
            download_share_window_secs: u64_setting(
                env.lookup("FILE_DOWNLOAD_SHARE_WINDOW_SECS"@),
                3600,
            ),
            show_max_per_window: u64_setting(env.lookup("FILE_SHOW_MAX_PER_WINDOW"@), 60),
            show_window_secs: u64_setting(env.lookup("FILE_SHOW_WINDOW_SECS"@), 60),
        }
    }

    pub fn from_env(env: &EnvVars) -> (res: Self)
        ensures
            res == Self::spec_from_env(*env),
    {
        let mb = env.u64_or("FILE_UPLOAD_MAX_MB_PER_WINDOW", 100);
        FileRateLimitConfig {
            enabled: env.bool_or("FILE_RATE_LIMIT_ENABLED", true),
            upload_max_per_window: env.u64_or("FILE_UPLOAD_MAX_PER_WINDOW", 20),
            upload_window_secs: env.u64_or("FILE_UPLOAD_WINDOW_SECS", 3600),
            upload_max_bytes_per_window: saturating_mul_u64(mb, 1024 * 1024),
            upload_bytes_window_secs: env.u64_or("FILE_UPLOAD_BYTES_WINDOW_SECS", 86400),
            download_max_per_window: env.u64_or("FILE_DOWNLOAD_MAX_PER_WINDOW", 60),
            download_window_secs: env.u64_or("FILE_DOWNLOAD_WINDOW_SECS", 60),
            download_max_per_share_per_window: env.u64_or(
                "FILE_DOWNLOAD_MAX_PER_SHARE_PER_WINDOW",
                30,
            ),
            download_share_window_secs: env.u64_or("FILE_DOWNLOAD_SHARE_WINDOW_SECS", 3600),
            show_max_per_window: env.u64_or("FILE_SHOW_MAX_PER_WINDOW", 60),
            show_window_secs: env.u64_or("FILE_SHOW_WINDOW_SECS", 60),
        }
    }
}

/// `proxy` (in any case) selects proxy downloads; anything else, direct.
pub open spec fn download_mode_of(v: Seq<char>) -> FileDownloadMode {
    if unicode_lowercase(v) == "proxy"@ {
        FileDownloadMode::Proxy
    } else {
        FileDownloadMode::Direct
    }
}

/// `ftp` (in any case) selects FTP storage; anything else, local.
pub open spec fn protocol_of(v: Seq<char>) -> StorageProtocol {
    if unicode_lowercase(v) == "ftp"@ {
        StorageProtocol::Ftp
    } else {
        StorageProtocol::Local
    }
}

/// `.` followed by the extension.
pub open spec fn dotted(e: Seq<char>) -> Seq<char> {
    seq!['.'] + e
}

impl FileUploadConfig {
    /// Uploads are available when enabled and some extension is allowed.
    pub fn is_upload_available(&self) -> (res: bool)
        ensures
            res == (self.upload_enabled && self.allowed_extensions.elements().len() > 0),
    {
        self.upload_enabled && !self.allowed_extensions.is_empty()
    }

    pub fn max_size_bytes(&self) -> (res: u64)
        ensures
            res == saturating_mul(self.max_size_mb, 1048576),
    {
        saturating_mul_u64(self.max_size_mb, 1024 * 1024)
    }

    /// The `accept` attribute of the file input: each allowed extension after
    /// a dot, separated by commas.
    pub fn accept_attr(&self) -> (res: String)
        ensures
            res@ == join(self.allowed_extensions.elements().map_values(|e: Seq<char>| dotted(e)), ","@),
    {
        let set = &self.allowed_extensions;
        let mut list: Vec<Vec<char>> = Vec::new();
        let mut i: usize = 0;
        while i < set.len()
            invariant
                i <= set.elements().len(),
                list@.map_values(|v: Vec<char>| v@) == set.elements().subrange(0, i as int).map_values(
                    |e: Seq<char>| dotted(e),
                ),
            decreases set.elements().len() - i,
        {
            let mut item: Vec<char> = Vec::new();
            item.push('.');
            let chars = to_chars(set.get(i).as_str());
            let mut k: usize = 0;
            while k < chars.len()
                invariant
                    k <= chars@.len(),
                    item@ == seq!['.'] + chars@.subrange(0, k as int),
                decreases chars@.len() - k,
            {
                item.push(chars[k]);
                k = k + 1;
            }
            assert(chars@.subrange(0, chars@.len() as int) =~= chars@);
            assert(item@ =~= dotted(set.elements()[i as int]));
            let ghost prev = list@;
            let ghost item_view = item@;
            list.push(item);
            assert(list@ == prev.push(item));
            assert(set.elements().subrange(0, i + 1) =~= set.elements().subrange(0, i as int).push(
                set.elements()[i as int],
            ));
            assert(list@.map_values(|v: Vec<char>| v@) =~= prev.map_values(|v: Vec<char>| v@).push(
                item_view,
            ));
            assert(set.elements().subrange(0, i + 1).map_values(|e: Seq<char>| dotted(e))
                =~= set.elements().subrange(0, i as int).map_values(|e: Seq<char>| dotted(e)).push(
                dotted(set.elements()[i as int]),
            ));
            i = i + 1;
        }
        assert(set.elements().subrange(0, set.elements().len() as int) =~= set.elements());
        join_chars(&list, ",")
    }

    /// The allowed extensions, sorted, separated by `", "`.
    pub fn extensions_display(&self) -> (res: String)
        ensures
            exists|sorted: Seq<Seq<char>>|
                {
                    &&& sorted.to_multiset() == self.allowed_extensions.elements().to_multiset()
                    &&& lex_sorted(sorted)
                    &&& res@ == join(sorted, ", "@)
                },
    {
        let set = &self.allowed_extensions;
        let mut list: Vec<Vec<char>> = Vec::new();
        let mut i: usize = 0;
        while i < set.len()
            invariant
                i <= set.elements().len(),
                list@.map_values(|v: Vec<char>| v@) == set.elements().subrange(0, i as int),
            decreases set.elements().len() - i,
        {
            let ghost prev = list@;
            let item = to_chars(set.get(i).as_str());
            list.push(item);
            assert(list@ == prev.push(item));
            assert(set.elements().subrange(0, i + 1) =~= set.elements().subrange(0, i as int).push(
                set.elements()[i as int],
            ));
            assert(list@.map_values(|v: Vec<char>| v@) =~= set.elements().subrange(0, i + 1));
            i = i + 1;
        }
        assert(set.elements().subrange(0, set.elements().len() as int) =~= set.elements());
        let sorted = sort_strings(list);
        join_chars(&sorted, ", ")
    }

    /// File shares with password, IP lock, or one-time use must use proxy download.
    pub fn file_requires_proxy_download(require_password: bool, restrict_ip: bool, one_time_use: bool) -> (res: bool)
        ensures
            res == (require_password || restrict_ip || one_time_use),
    {
        require_password || restrict_ip || one_time_use
    }

    /// The upload configuration named by the environment, with its defaults.
    pub fn from_env(env: &EnvVars) -> (res: Self)
        ensures
            res.upload_enabled == bool_setting(env.lookup("FILE_UPLOAD_ENABLED"@), false),
            res.max_size_mb == u64_setting(env.lookup("FILE_MAX_SIZE_MB"@), 10),
            res.public_base_url@ == text_setting(env.lookup("FILE_PUBLIC_BASE_URL"@), ""@),
            res.download_mode == download_mode_of(text_setting(env.lookup("FILE_DOWNLOAD_MODE"@), "direct"@)),
            res.allowed_extensions.elements() == allowed_extensions_of(
                text_setting(env.lookup("FILE_ALLOWED_EXTENSIONS"@), ""@),
            ),
            res.storage.protocol == protocol_of(text_setting(env.lookup("FILE_STORAGE_PROTOCOL"@), "local"@)),
            res.storage.host@ == text_setting(env.lookup("FILE_STORAGE_HOST"@), ""@),
            res.storage.port == u16_setting(env.lookup("FILE_STORAGE_PORT"@), 21),
            res.storage.username@ == text_setting(env.lookup("FILE_STORAGE_USERNAME"@), ""@),
            res.storage.password@ == text_setting(env.lookup("FILE_STORAGE_PASSWORD"@), ""@),
            res.storage.base_path@ == text_setting(env.lookup("FILE_STORAGE_BASE_PATH"@), "/"@),
            res.storage.use_tls == bool_setting(env.lookup("FILE_STORAGE_USE_TLS"@), false),
            res.storage.local_root@ == text_setting(env.lookup("FILE_STORAGE_LOCAL_ROOT"@), "uploads"@),
            res.cleanup_interval_secs == u64_setting(env.lookup("FILE_CLEANUP_INTERVAL_SECS"@), 60),
            res.rate_limit == FileRateLimitConfig::spec_from_env(*env),
    {
        let upload_enabled = env.bool_or("FILE_UPLOAD_ENABLED", false);
        let max_size_mb = env.u64_or("FILE_MAX_SIZE_MB", 10);
        let public_base_url = env.text_or("FILE_PUBLIC_BASE_URL", "");
        let mode_text = env.text_or("FILE_DOWNLOAD_MODE", "direct");
        let mode_lower = to_lowercase(mode_text.as_str());
        let download_mode = if str_eq(mode_lower.as_str(), "proxy") {
            FileDownloadMode::Proxy
        } else {
            FileDownloadMode::Direct
        };
        let ext_text = env.text_or("FILE_ALLOWED_EXTENSIONS", "");
        let allowed_extensions = parse_allowed_extensions(ext_text.as_str());
        let proto_text = env.text_or("FILE_STORAGE_PROTOCOL", "local");
        let proto_lower = to_lowercase(proto_text.as_str());
        let protocol = if str_eq(proto_lower.as_str(), "ftp") {
            StorageProtocol::Ftp
        } else {
            StorageProtocol::Local
        };
        let port = match env.get("FILE_STORAGE_PORT") {
            Some(v) => match parse_u16(v.as_str()) {
                Some(p) => p,
                None => 21,
            },
            None => 21,
        };
        let storage = StorageBackendSettings {
            protocol,
            host: env.text_or("FILE_STORAGE_HOST", ""),
            port,
            username: env.text_or("FILE_STORAGE_USERNAME", ""),
            password: env.text_or("FILE_STORAGE_PASSWORD", ""),
            base_path: env.text_or("FILE_STORAGE_BASE_PATH", "/"),
            use_tls: env.bool_or("FILE_STORAGE_USE_TLS", false),
            local_root: env.text_or("FILE_STORAGE_LOCAL_ROOT", "uploads"),
        };
        FileUploadConfig {
            upload_enabled,
            max_size_mb,
            public_base_url,
            download_mode,
            allowed_extensions,
            storage,
            cleanup_interval_secs: env.u64_or("FILE_CLEANUP_INTERVAL_SECS", 60),
            rate_limit: FileRateLimitConfig::from_env(env),
        }
    }
}

} // verus!
