//! Platform statistics: counters kept as settings, their display, and the
//! cache in front of them.

use crate::text::{copy_str, parse_i64, parse_i64_spec, parse_u64, parse_u64_spec};
use crate::utility::format::{
    bytes_text, count_text, decimal, format_bytes, format_count, i64_to_string, signed_decimal, u64_to_string,
};
use vstd::prelude::*;

verus! {

/// The lifetime of cached statistics, in seconds.
pub const CACHE_TTL_SECS: u64 = 600;

#[derive(Debug, Clone, Copy, PartialEq, Eq, Structural)]
pub struct PlatformStats {
    pub total_shares: i64,
    pub text_shares: i64,
    pub file_shares: i64,
    pub bytes_uploaded: u64,
    pub bytes_downloaded: u64,
}

impl Default for PlatformStats {
    fn default() -> (res: Self)
        ensures
            res.total_shares == 0 && res.text_shares == 0 && res.file_shares == 0
                && res.bytes_uploaded == 0 && res.bytes_downloaded == 0,
    {
        PlatformStats {
            total_shares: 0,
            text_shares: 0,
            file_shares: 0,
            bytes_uploaded: 0,
            bytes_downloaded: 0,
        }
    }
}

#[derive(Debug)]
pub struct PlatformStatsDisplay {
    pub total_shares: String,
    pub text_shares: String,
    pub file_shares: String,
    pub uploaded_size: String,
    pub downloaded_size: String,
}

impl PlatformStatsDisplay {
    pub fn from_stats(stats: &PlatformStats) -> (res: Self)
        ensures
            res.total_shares@ == count_text(stats.total_shares as int),
            res.text_shares@ == count_text(stats.text_shares as int),
            res.file_shares@ == count_text(stats.file_shares as int),
            res.uploaded_size@ == bytes_text(stats.bytes_uploaded as nat),
            res.downloaded_size@ == bytes_text(stats.bytes_downloaded as nat),
    {
        PlatformStatsDisplay {
            total_shares: format_count(stats.total_shares),
            text_shares: format_count(stats.text_shares),
            file_shares: format_count(stats.file_shares),
            uploaded_size: format_bytes(stats.bytes_uploaded),
            downloaded_size: format_bytes(stats.bytes_downloaded),
        }
    }
}

/// The value of a counting setting: its text as a number, 0 when missing or not a number.
pub fn setting_i64(meta_value: &Option<String>) -> (res: i64)
    ensures
        res == match meta_value {
            Some(v) => match parse_i64_spec(v@) {
                Some(n) => n,
                None => 0,
            },
            None => 0,
        },
{
    match meta_value {
        Some(v) => match parse_i64(v.as_str()) {
            Some(n) => n,
            None => 0,
        },
        None => 0,
    }
}

/// The value of a byte-counting setting: its text as a number, 0 when missing or not a number.
pub fn setting_u64(meta_value: &Option<String>) -> (res: u64)
    ensures
        res == match meta_value {
            Some(v) => match parse_u64_spec(v@) {
                Some(n) => n,
                None => 0,
            },
            None => 0,
        },
{
    match meta_value {
        Some(v) => match parse_u64(v.as_str()) {
            Some(n) => n,
            None => 0,
        },
        None => 0,
    }
}

/// The new text of a counting setting whose value is `current`, after
/// adding `delta`.
pub fn increment_counter(current: i64, delta: i64) -> (res: String)
    requires
        i64::MIN <= current + delta <= i64::MAX,
    ensures
        res@ == signed_decimal(current + delta),
{
    i64_to_string(current + delta)
}

/// The new text of a byte-counting setting whose value is `current`, after
/// adding `delta`.
pub fn add_bytes(current: u64, delta: u64) -> (res: String)
    requires
        current + delta <= u64::MAX,
    ensures
        res@ == decimal((current + delta) as nat),
{
    u64_to_string(current + delta)
}

/// A change to one counter: its setting key and how much to add.
#[derive(Debug)]
pub struct CounterUpdate {
    pub key: String,
    pub delta: u64,
    pub is_bytes: bool,
}

pub open spec fn update_view(u: CounterUpdate) -> (Seq<char>, u64, bool) {
    (u.key@, u.delta, u.is_bytes)
}

/// What a new share adds: one share, one text share if it has text, and
/// for a non-empty file one file share and its bytes uploaded.
pub open spec fn created_updates(has_text: bool, file_size: Option<u64>) -> Seq<(Seq<char>, u64, bool)> {
    let base = seq![("used"@, 1u64, false)];
    let text = if has_text {
        seq![("stats_text"@, 1u64, false)]
    } else {
        Seq::empty()
    };
    let file = match file_size {
        Some(s) => if s > 0 {
            seq![("stats_files"@, 1u64, false), ("stats_bytes_uploaded"@, s, true)]
        } else {
            Seq::empty()
        },
        None => Seq::empty(),
    };
    base + text + file
}

pub fn record_share_created(has_text: bool, file_size: Option<u64>) -> (res: Vec<CounterUpdate>)
    ensures
        res@.map_values(|u: CounterUpdate| update_view(u)) == created_updates(has_text, file_size),
{
    let mut v: Vec<CounterUpdate> = Vec::new();
    v.push(CounterUpdate { key: copy_str("used"), delta: 1, is_bytes: false });
    if has_text {
        v.push(CounterUpdate { key: copy_str("stats_text"), delta: 1, is_bytes: false });
    }
    if let Some(size) = file_size {
        if size > 0 {
            v.push(CounterUpdate { key: copy_str("stats_files"), delta: 1, is_bytes: false });
            v.push(CounterUpdate { key: copy_str("stats_bytes_uploaded"), delta: size, is_bytes: true });
        }
    }
    assert(v@.map_values(|u: CounterUpdate| update_view(u)) =~= created_updates(has_text, file_size));
    v
}

/// What a download adds: its bytes downloaded, when there are any.
pub fn record_file_downloaded(bytes: u64) -> (res: Option<CounterUpdate>)
    ensures
        bytes == 0 ==> res is None,
        bytes > 0 ==> (res matches Some(u) && update_view(u) == ("stats_bytes_downloaded"@, bytes, true)),
{
    if bytes > 0 {
        Some(CounterUpdate { key: copy_str("stats_bytes_downloaded"), delta: bytes, is_bytes: true })
    } else {
        None
    }
}

/// What a cache holding `cached` gives at time `now`: the statistics while
/// they are younger than the cache's lifetime, else nothing.
pub open spec fn cache_lookup(cached: Option<(PlatformStats, u64)>, now: u64) -> Option<PlatformStats> {
    match cached {
        Some((s, at)) => if at <= now && now - at < CACHE_TTL_SECS {
            Some(s)
        } else {
            None
        },
        None => None,
    }
}

/// Statistics kept for a while, stamped with when they were read (in
/// seconds of a monotonic clock).
pub struct StatsCache {
    pub cached: Option<(PlatformStats, u64)>,
}

impl StatsCache {
    pub fn new() -> (res: Self)
        ensures
            res.cached is None,
    {
        StatsCache { cached: None }
    }

    /// The cached statistics while they are younger than the cache's lifetime.
    pub fn get(&self, now: u64) -> (res: Option<PlatformStats>)
        ensures
            res == cache_lookup(self.cached, now),
    {
        match self.cached {
            Some((s, at)) => if now >= at && now - at < CACHE_TTL_SECS {
                Some(s)
            } else {
                None
            },
            None => None,
        }
    }

    pub fn store(&mut self, stats: PlatformStats, now: u64)
        ensures
            final(self).cached == Some((stats, now)),
    {
        self.cached = Some((stats, now));
    }
}

/// Drops the cached statistics, so that the next read goes to the database.
pub fn invalidate_stats_cache(cache: &mut StatsCache)
    ensures
        final(cache).cached is None,
{
    cache.cached = None;
}

/// Statistics just stored are read back until the cache's lifetime has
/// passed, not after it, and nothing is read back after an invalidation.
pub proof fn law_cache_reads_back(s: PlatformStats, at: u64, now: u64)
    ensures
        at <= now < at + CACHE_TTL_SECS ==> cache_lookup(Some((s, at)), now) == Some(s),
        now >= at + CACHE_TTL_SECS ==> cache_lookup(Some((s, at)), now) is None,
        now < at ==> cache_lookup(Some((s, at)), now) is None,
        cache_lookup(None, now) is None,
{
}

} // verus!
