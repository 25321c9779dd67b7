//! The decisions of the locked read-modify-write of a stored share. The
//! lock, reads and writes are Redis commands run by the caller; what they
//! return decides how the update goes on.

use crate::features::share::retrieve::ShareError;
use crate::text::{copy_str, push_str};
use vstd::prelude::*;

verus! {

pub const LOCK_TTL_SECS: u64 = 8;

pub const LOCK_SPIN_MS: u64 = 25;

pub const MAX_LOCK_ATTEMPTS: u32 = 80;

/// The Redis key of a share's lock.
pub fn lock_key(key: &str) -> (res: String)
    ensures
        res@ == "share:lock:"@ + key@,
{
    let mut s = copy_str("share:lock:");
    push_str(&mut s, key);
    s
}

/// How the update goes on after trying to take the lock.
pub enum LockStep {
    Proceed,
    Retry,
    Busy(ShareError),
}

pub fn after_lock_attempt(acquired: bool, attempt: u32) -> (res: LockStep)
    requires
        attempt < MAX_LOCK_ATTEMPTS,
    ensures
        acquired ==> res is Proceed,
        !acquired && attempt + 1 < MAX_LOCK_ATTEMPTS ==> res is Retry,
        !acquired && attempt + 1 >= MAX_LOCK_ATTEMPTS ==> (res matches LockStep::Busy(e) && e.is(
            503,
            "سرور شلوغ است. لطفاً دوباره تلاش کنید."@,
        )),
{
    if acquired {
        return LockStep::Proceed;
    }
    if attempt + 1 >= MAX_LOCK_ATTEMPTS {
        return LockStep::Busy(ShareError::from_denial(503, "سرور شلوغ است. لطفاً دوباره تلاش کنید."));
    }
    LockStep::Retry
}

/// The stored text of a share, as read: a failed read or an empty value
/// means the share is gone.
pub fn check_fetched(json: Option<String>) -> (res: Result<String, ShareError>)
    ensures
        match json {
            Some(j) => if j@.len() > 0 {
                res matches Ok(s) && s@ == j@
            } else {
                res matches Err(e) && e.is(404, "اشتراک گذاری یافت نشد یا منقضی شده است."@)
            },
            None => res matches Err(e) && e.is(404, "اشتراک گذاری یافت نشد یا منقضی شده است."@),
        },
{
    match json {
        Some(j) => {
            if j.as_str().unicode_len() > 0 {
                Ok(j)
            } else {
                Err(ShareError::from_denial(404, "اشتراک گذاری یافت نشد یا منقضی شده است."))
            }
        },
        None => Err(ShareError::from_denial(404, "اشتراک گذاری یافت نشد یا منقضی شده است.")),
    }
}

/// The remaining lifetime of a share, as read: a failed read is a server
/// error, and a lifetime that is not positive means the share has expired.
pub fn check_ttl(ttl: Option<i64>) -> (res: Result<u64, ShareError>)
    ensures
        match ttl {
            None => res matches Err(e) && e.is(500, "خطا در دریافت زمان انقضا"@),
            Some(t) => if t <= 0 {
                res matches Err(e) && e.is(410, "اشتراک گذاری منقضی شده است."@)
            } else {
                res == Ok::<u64, ShareError>(t as u64)
            },
        },
{
    match ttl {
        None => Err(ShareError::from_denial(500, "خطا در دریافت زمان انقضا")),
        Some(t) => if t <= 0 {
            Err(ShareError::from_denial(410, "اشتراک گذاری منقضی شده است."))
        } else {
            Ok(t as u64)
        },
    }
}

/// A stored share that could not be read back.
pub fn parse_failed() -> (res: ShareError)
    ensures
        res.is(500, "خطا در پردازش اطلاعات"@),
{
    ShareError::from_denial(500, "خطا در پردازش اطلاعات")
}

/// A changed share that could not be written out.
pub fn serialize_failed() -> (res: ShareError)
    ensures
        res.is(500, "خطا در ذخیره‌سازی اطلاعات"@),
{
    ShareError::from_denial(500, "خطا در ذخیره‌سازی اطلاعات")
}

/// A changed share that Redis did not store.
pub fn store_failed() -> (res: ShareError)
    ensures
        res.is(500, "خطا در به‌روزرسانی اطلاعات"@),
{
    ShareError::from_denial(500, "خطا در به‌روزرسانی اطلاعات")
}

// ---------------------------------------------------------------------------
// The locked update, step by step
// ---------------------------------------------------------------------------

/// Where a locked update stands.
#[derive(Debug, Clone, Copy, PartialEq, Eq, Structural)]
pub enum AtomicPhase {
    Locking,
    Reading,
    ReadingTtl,
    Parsing,
    Mutating,
    Serializing,
    Writing,
    Done,
}

/// A locked update in progress: its phase, the lock attempt, the stored
/// text once read and the remaining lifetime once known.
#[derive(Debug)]
pub struct AtomicUpdate {
    pub phase: AtomicPhase,
    pub attempt: u32,
    pub json: String,
    pub ttl: u64,
}

/// What the caller reports of the step it was asked to do.
#[derive(Debug)]
pub enum AtomicEvent {
    /// Whether `SET lock NX EX` took the lock.
    Locked(bool),
    /// The stored text (`None` when the read failed).
    Fetched(Option<String>),
    /// The remaining lifetime (`None` when the read failed).
    TtlRead(Option<i64>),
    /// Whether the stored text parsed as a share.
    Parsed(bool),
    /// The outcome of the change applied to the share.
    Mutated(Result<(), ShareError>),
    /// Whether the changed share was written out as text.
    Serialized(bool),
    /// Whether Redis stored the text.
    Written(bool),
}

/// What the caller does next.
#[derive(Debug)]
pub enum AtomicAction {
    /// Try to take the lock.
    TryLock,
    /// Wait `LOCK_SPIN_MS` milliseconds, then try to take the lock again.
    Sleep,
    /// Read the stored text.
    Read,
    /// Read the remaining lifetime.
    ReadTtl,
    /// Parse this stored text.
    Parse(String),
    /// Apply the change to the parsed share.
    Mutate,
    /// Write the changed share out as text.
    Serialize,
    /// Store the text with this lifetime.
    Write(u64),
    /// Release the lock, then answer: the changed share on `Ok`, else the error.
    Release(Result<(), ShareError>),
    /// Answer with the error; the lock was never taken.
    Fail(ShareError),
}

pub open spec fn atomic_fits(phase: AtomicPhase, event: AtomicEvent) -> bool {
    match phase {
        AtomicPhase::Locking => event is Locked,
        AtomicPhase::Reading => event is Fetched,
        AtomicPhase::ReadingTtl => event is TtlRead,
        AtomicPhase::Parsing => event is Parsed,
        AtomicPhase::Mutating => event is Mutated,
        AtomicPhase::Serializing => event is Serialized,
        AtomicPhase::Writing => event is Written,
        AtomicPhase::Done => false,
    }
}

/// `a` releases the lock and answers with the error `status`, `message`.
pub open spec fn releases_with(a: AtomicAction, status: u16, message: Seq<char>) -> bool {
    a matches AtomicAction::Release(r) && (r matches Err(e) && e.is(status, message))
}

impl AtomicUpdate {
    /// The first step: try to take the lock.
    pub fn begin() -> (res: (AtomicUpdate, AtomicAction))
        ensures
            res.0.phase == AtomicPhase::Locking,
            res.0.attempt == 0,
            res.1 is TryLock,
    {
        (AtomicUpdate { phase: AtomicPhase::Locking, attempt: 0, json: String::new(), ttl: 0 }, AtomicAction::TryLock)
    }

    /// The next step after the outcome of the current one. Once the lock is
    /// held, every way out releases it; nothing is written unless the change
    /// succeeded; the write keeps the lifetime that was read.
    pub fn step(&mut self, event: AtomicEvent) -> (res: AtomicAction)
        requires
            atomic_fits(old(self).phase, event),
            old(self).phase == AtomicPhase::Locking ==> old(self).attempt < MAX_LOCK_ATTEMPTS,
        ensures
            final(self).phase == AtomicPhase::Locking ==> final(self).attempt < MAX_LOCK_ATTEMPTS,
            match event {
                AtomicEvent::Locked(acquired) => if acquired {
                    final(self).phase == AtomicPhase::Reading && res is Read
                } else if old(self).attempt + 1 < MAX_LOCK_ATTEMPTS {
                    final(self).phase == AtomicPhase::Locking && final(self).attempt == old(self).attempt + 1
                        && res is Sleep
                } else {
                    final(self).phase == AtomicPhase::Done && (res matches AtomicAction::Fail(e) && e.is(
                        503,
                        "سرور شلوغ است. لطفاً دوباره تلاش کنید."@,
                    ))
                },
                AtomicEvent::Fetched(json) => match json {
                    Some(j) => if j@.len() > 0 {
                        final(self).phase == AtomicPhase::ReadingTtl && final(self).json@ == j@ && res is ReadTtl
                    } else {
                        final(self).phase == AtomicPhase::Done && releases_with(
                            res,
                            404,
                            "اشتراک گذاری یافت نشد یا منقضی شده است."@,
                        )
                    },
                    None => final(self).phase == AtomicPhase::Done && releases_with(
                        res,
                        404,
                        "اشتراک گذاری یافت نشد یا منقضی شده است."@,
                    ),
                },
                AtomicEvent::TtlRead(ttl) => match ttl {
                    None => final(self).phase == AtomicPhase::Done && releases_with(
                        res,
                        500,
                        "خطا در دریافت زمان انقضا"@,
                    ),
                    Some(t) => if t <= 0 {
                        final(self).phase == AtomicPhase::Done && releases_with(
                            res,
                            410,
                            "اشتراک گذاری منقضی شده است."@,
                        )
                    } else {
                        final(self).phase == AtomicPhase::Parsing && final(self).ttl == t && (res matches AtomicAction::Parse(
                            j,
                        ) && j@ == old(self).json@)
                    },
                },
                AtomicEvent::Parsed(ok) => if ok {
                    final(self).phase == AtomicPhase::Mutating && final(self).ttl == old(self).ttl && res is Mutate
                } else {
                    final(self).phase == AtomicPhase::Done && releases_with(res, 500, "خطا در پردازش اطلاعات"@)
                },
                AtomicEvent::Mutated(r) => match r {
                    Ok(()) => final(self).phase == AtomicPhase::Serializing && final(self).ttl == old(self).ttl
                        && res is Serialize,
                    Err(e) => final(self).phase == AtomicPhase::Done && (res matches AtomicAction::Release(out) && (out matches Err(
                        x,
                    ) && x.code@ == e.code@ && x.title@ == e.title@ && x.message@ == e.message@)),
                },
                AtomicEvent::Serialized(ok) => if ok {
                    final(self).phase == AtomicPhase::Writing && (res matches AtomicAction::Write(t) && t
                        == old(self).ttl)
                } else {
                    final(self).phase == AtomicPhase::Done && releases_with(
                        res,
                        500,
                        "خطا در ذخیره‌سازی اطلاعات"@,
                    )
                },
                AtomicEvent::Written(ok) => final(self).phase == AtomicPhase::Done && if ok {
                    res matches AtomicAction::Release(Ok(()))
                } else {
                    releases_with(res, 500, "خطا در به‌روزرسانی اطلاعات"@)
                },
            },
    {
        match event {
            AtomicEvent::Locked(acquired) => match after_lock_attempt(acquired, self.attempt) {
                LockStep::Proceed => {
                    self.phase = AtomicPhase::Reading;
                    AtomicAction::Read
                },
                LockStep::Retry => {
                    self.attempt = self.attempt + 1;
                    AtomicAction::Sleep
                },
                LockStep::Busy(e) => {
                    self.phase = AtomicPhase::Done;
                    AtomicAction::Fail(e)
                },
            },
            AtomicEvent::Fetched(json) => match check_fetched(json) {
                Ok(j) => {
                    self.phase = AtomicPhase::ReadingTtl;
                    self.json = j;
                    AtomicAction::ReadTtl
                },
                Err(e) => {
                    self.phase = AtomicPhase::Done;
                    AtomicAction::Release(Err(e))
                },
            },
            AtomicEvent::TtlRead(ttl) => match check_ttl(ttl) {
                Ok(t) => {
                    self.phase = AtomicPhase::Parsing;
                    self.ttl = t;
                    AtomicAction::Parse(self.json.clone())
                },
                Err(e) => {
                    self.phase = AtomicPhase::Done;
                    AtomicAction::Release(Err(e))
                },
            },
            AtomicEvent::Parsed(ok) => if ok {
                self.phase = AtomicPhase::Mutating;
                AtomicAction::Mutate
            } else {
                self.phase = AtomicPhase::Done;
                AtomicAction::Release(Err(parse_failed()))
            },
            AtomicEvent::Mutated(r) => match r {
                Ok(()) => {
                    self.phase = AtomicPhase::Serializing;
                    AtomicAction::Serialize
                },
                Err(e) => {
                    self.phase = AtomicPhase::Done;
                    AtomicAction::Release(Err(e))
                },
            },
            AtomicEvent::Serialized(ok) => if ok {
                self.phase = AtomicPhase::Writing;
                AtomicAction::Write(self.ttl)
            } else {
                self.phase = AtomicPhase::Done;
                AtomicAction::Release(Err(serialize_failed()))
            },
            AtomicEvent::Written(ok) => {
                self.phase = AtomicPhase::Done;
                if ok {
                    AtomicAction::Release(Ok(()))
                } else {
                    AtomicAction::Release(Err(store_failed()))
                }
            },
        }
    }
}

} // verus!
