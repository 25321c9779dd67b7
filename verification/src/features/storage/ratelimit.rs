//! Per-IP rate limits on uploads, downloads and views, kept as counters with
//! an expiry in Redis. The counters live in Redis; what is decided here is
//! which counters a request increments, in what order, what an increment's
//! result means, and what is rolled back when a limit is hit.

use crate::features::storage::config::FileRateLimitConfig;
use crate::text::{copy_str, push_char, push_str};
use vstd::prelude::*;

verus! {

#[derive(Debug, Clone, Copy, PartialEq, Eq, Structural)]
pub struct RateLimitExceeded {
    pub retry_after_secs: u64,
}

/// One counter to increment: its key, by how much, its limit, the window it
/// expires after, and the key of an earlier counter of the same check to
/// decrement by one when this one is over its limit.
#[derive(Debug)]
pub struct LimitStep {
    pub key: String,
    pub amount: u64,
    pub limit: u64,
    pub window_secs: u64,
    pub rollback: Option<String>,
}

pub struct FileRateLimiter {
    pub config: FileRateLimitConfig,
}

pub open spec fn ip_key_spec(ip: Option<Seq<char>>) -> Seq<char> {
    match ip {
        Some(a) => a,
        None => "unknown"@,
    }
}

/// The client's address as it appears in counter keys, or `unknown`.
pub fn ip_key(ip: &Option<String>) -> (res: String)
    ensures
        res@ == ip_key_spec(
            match ip {
                Some(a) => Some(a@),
                None => None,
            },
        ),
{
    match ip {
        Some(a) => a.clone(),
        None => copy_str("unknown"),
    }
}

fn prefixed(prefix: &str, rest: &str) -> (res: String)
    ensures
        res@ == prefix@ + rest@,
{
    let mut s = copy_str(prefix);
    push_str(&mut s, rest);
    s
}

/// A step as plain values: key, amount, limit, window and rollback key.
pub type StepView = (Seq<char>, u64, u64, u64, Option<Seq<char>>);

pub open spec fn step_view(s: LimitStep) -> StepView {
    (
        s.key@,
        s.amount,
        s.limit,
        s.window_secs,
        match s.rollback {
            Some(k) => Some(k@),
            None => None,
        },
    )
}

pub open spec fn plan_view(p: Seq<LimitStep>) -> Seq<StepView> {
    p.map_values(|s: LimitStep| step_view(s))
}

/// The counters an upload increments: the number of uploads, then the bytes
/// uploaded (rolling back the number when the bytes are over the limit).
/// A limit of zero turns its counter off, as does an empty file for bytes.
pub open spec fn upload_plan_spec(c: FileRateLimitConfig, ip: Seq<char>, file_size: u64) -> Seq<StepView> {
    let count_key = "rl:upload:count:"@ + ip;
    let count: Seq<StepView> = if c.upload_max_per_window > 0 {
        seq![(count_key, 1u64, c.upload_max_per_window, c.upload_window_secs, None::<Seq<char>>)]
    } else {
        Seq::<StepView>::empty()
    };
    let bytes: Seq<StepView> = if c.upload_max_bytes_per_window > 0 && file_size > 0 {
        seq![
            (
                "rl:upload:bytes:"@ + ip,
                file_size,
                c.upload_max_bytes_per_window,
                c.upload_bytes_window_secs,
                if c.upload_max_per_window > 0 {
                    Some(count_key)
                } else {
                    None::<Seq<char>>
                },
            ),
        ]
    } else {
        Seq::<StepView>::empty()
    };
    if !c.enabled {
        Seq::<StepView>::empty()
    } else {
        count + bytes
    }
}

/// The counters a download increments: downloads by this IP, then downloads
/// of this share by this IP (rolling back the first when over the limit).
pub open spec fn download_plan_spec(c: FileRateLimitConfig, ip: Seq<char>, share_key: Seq<char>) -> Seq<StepView> {
    let count_key = "rl:download:count:"@ + ip;
    let count: Seq<StepView> = if c.download_max_per_window > 0 {
        seq![(count_key, 1u64, c.download_max_per_window, c.download_window_secs, None::<Seq<char>>)]
    } else {
        Seq::<StepView>::empty()
    };
    let share: Seq<StepView> = if c.download_max_per_share_per_window > 0 {
        seq![
            (
                "rl:download:share:"@ + share_key + seq![':'] + ip,
                1u64,
                c.download_max_per_share_per_window,
                c.download_share_window_secs,
                if c.download_max_per_window > 0 {
                    Some(count_key)
                } else {
                    None::<Seq<char>>
                },
            ),
        ]
    } else {
        Seq::<StepView>::empty()
    };
    if !c.enabled {
        Seq::<StepView>::empty()
    } else {
        count + share
    }
}

/// The counter a view increments: views by this IP.
pub open spec fn show_plan_spec(c: FileRateLimitConfig, ip: Seq<char>) -> Seq<StepView> {
    if c.enabled && c.show_max_per_window > 0 {
        seq![("rl:show:count:"@ + ip, 1u64, c.show_max_per_window, c.show_window_secs, None::<Seq<char>>)]
    } else {
        Seq::<StepView>::empty()
    }
}

impl FileRateLimiter {
    pub fn from_state(config: FileRateLimitConfig) -> (res: Self)
        ensures
            res.config == config,
    {
        FileRateLimiter { config }
    }

    pub fn is_enabled(&self) -> (res: bool)
        ensures
            res == self.config.enabled,
    {
        self.config.enabled
    }

    pub fn upload_plan(&self, ip: &Option<String>, file_size: u64) -> (res: Vec<LimitStep>)
        ensures
            plan_view(res@) == upload_plan_spec(
                self.config,
                ip_key_spec(
                    match ip {
                        Some(a) => Some(a@),
                        None => None,
                    },
                ),
                file_size,
            ),
    {
        let mut plan: Vec<LimitStep> = Vec::new();
        if !self.config.enabled {
            assert(plan_view(plan@) =~= Seq::<StepView>::empty());
            return plan;
        }
        let ipk = ip_key(ip);
        let count_key = prefixed("rl:upload:count:", ipk.as_str());
        if self.config.upload_max_per_window > 0 {
            plan.push(
                LimitStep {
                    key: count_key.clone(),
                    amount: 1,
                    limit: self.config.upload_max_per_window,
                    window_secs: self.config.upload_window_secs,
                    rollback: None,
                },
            );
        }
        if self.config.upload_max_bytes_per_window > 0 && file_size > 0 {
            let rollback = if self.config.upload_max_per_window > 0 {
                Some(count_key.clone())
            } else {
                None
            };
            plan.push(
                LimitStep {
                    key: prefixed("rl:upload:bytes:", ipk.as_str()),
                    amount: file_size,
                    limit: self.config.upload_max_bytes_per_window,
                    window_secs: self.config.upload_bytes_window_secs,
                    rollback,
                },
            );
        }
        assert(plan_view(plan@) =~= upload_plan_spec(self.config, ipk@, file_size));
        plan
    }

    pub fn download_plan(&self, ip: &Option<String>, share_key: &str) -> (res: Vec<LimitStep>)
        ensures
            plan_view(res@) == download_plan_spec(
                self.config,
                ip_key_spec(
                    match ip {
                        Some(a) => Some(a@),
                        None => None,
                    },
                ),
                share_key@,
            ),
    {
        let mut plan: Vec<LimitStep> = Vec::new();
        if !self.config.enabled {
            assert(plan_view(plan@) =~= Seq::<StepView>::empty());
            return plan;
        }
        let ipk = ip_key(ip);
        let count_key = prefixed("rl:download:count:", ipk.as_str());
        if self.config.download_max_per_window > 0 {
            plan.push(
                LimitStep {
                    key: count_key.clone(),
                    amount: 1,
                    limit: self.config.download_max_per_window,
                    window_secs: self.config.download_window_secs,
                    rollback: None,
                },
            );
        }
        if self.config.download_max_per_share_per_window > 0 {
            let rollback = if self.config.download_max_per_window > 0 {
                Some(count_key.clone())
            } else {
                None
            };
            let mut key = prefixed("rl:download:share:", share_key);
            push_char(&mut key, ':');
            push_str(&mut key, ipk.as_str());
            assert(key@ =~= "rl:download:share:"@ + share_key@ + seq![':'] + ipk@);
            plan.push(
                LimitStep {
                    key,
                    amount: 1,
                    limit: self.config.download_max_per_share_per_window,
                    window_secs: self.config.download_share_window_secs,
                    rollback,
                },
            );
        }
        assert(plan_view(plan@) =~= download_plan_spec(self.config, ipk@, share_key@));
        plan
    }

    pub fn show_plan(&self, ip: &Option<String>) -> (res: Vec<LimitStep>)
        ensures
            plan_view(res@) == show_plan_spec(
                self.config,
                ip_key_spec(
                    match ip {
                        Some(a) => Some(a@),
                        None => None,
                    },
                ),
            ),
    {
        let mut plan: Vec<LimitStep> = Vec::new();
        if self.config.enabled && self.config.show_max_per_window > 0 {
            let ipk = ip_key(ip);
            plan.push(
                LimitStep {
                    key: prefixed("rl:show:count:", ipk.as_str()),
                    amount: 1,
                    limit: self.config.show_max_per_window,
                    window_secs: self.config.show_window_secs,
                    rollback: None,
                },
            );
        }
        assert(plan_view(plan@) =~= show_plan_spec(
            self.config,
            ip_key_spec(
                match ip {
                    Some(a) => Some(a@),
                    None => None,
                },
            ),
        ));
        plan
    }
}

// ---------------------------------------------------------------------------
// One increment
// ---------------------------------------------------------------------------

/// What follows an increment of a counter by `amount`: whether to set the
/// counter's expiry (it was just created), whether the request is within the
/// limit, and whether to take the increment back. When Redis failed, the
/// request is let through.
#[derive(Debug, Clone, Copy, PartialEq, Eq, Structural)]
pub struct IncrDecision {
    pub set_expiry: bool,
    pub allowed: bool,
    pub undo: bool,
}

pub open spec fn incr_decision_spec(new_value: Option<u64>, amount: u64, limit: u64) -> IncrDecision {
    match new_value {
        None => IncrDecision { set_expiry: false, allowed: true, undo: false },
        Some(v) => IncrDecision { set_expiry: v == amount, allowed: v <= limit, undo: v > limit },
    }
}

/// `new_value` is what Redis `INCRBY` returned (`None` on error).
pub fn incr_within_limit(new_value: Option<u64>, amount: u64, limit: u64) -> (res: IncrDecision)
    ensures
        res == incr_decision_spec(new_value, amount, limit),
{
    match new_value {
        None => IncrDecision { set_expiry: false, allowed: true, undo: false },
        Some(v) => IncrDecision { set_expiry: v == amount, allowed: v <= limit, undo: v > limit },
    }
}

// ---------------------------------------------------------------------------
// Running a plan
// ---------------------------------------------------------------------------

/// What to do next in a rate-limit check.
pub enum RateAction {
    /// Increment the counter of this step and report whether it was allowed.
    Increment { key: String, amount: u64, limit: u64, window_secs: u64 },
    /// The request is refused: decrement `rollback` by one if given, and
    /// answer with the retry delay.
    Deny { rollback: Option<String>, retry_after_secs: u64 },
    /// Every counter is within its limit.
    Allow,
}

/// A rate-limit check in progress: the plan and how many steps have passed.
pub struct RateCheck {
    pub plan: Vec<LimitStep>,
    pub passed: usize,
    pub denied: bool,
}

impl RateCheck {
    pub fn start(plan: Vec<LimitStep>) -> (res: Self)
        ensures
            res.plan == plan,
            res.passed == 0,
            !res.denied,
    {
        RateCheck { plan, passed: 0, denied: false }
    }

    /// The next step to run, or `Allow` once every step has passed.
    pub fn next_action(&self) -> (res: RateAction)
        requires
            self.passed <= self.plan@.len(),
            !self.denied,
        ensures
            self.passed < self.plan@.len() ==> (res matches RateAction::Increment {
                key,
                amount,
                limit,
                window_secs,
            } && key@ == self.plan@[self.passed as int].key@ && amount == self.plan@[self.passed as int].amount
                && limit == self.plan@[self.passed as int].limit && window_secs
                == self.plan@[self.passed as int].window_secs),
            self.passed == self.plan@.len() ==> res is Allow,
    {
        if self.passed < self.plan.len() {
            let s = &self.plan[self.passed];
            RateAction::Increment {
                key: s.key.clone(),
                amount: s.amount,
                limit: s.limit,
                window_secs: s.window_secs,
            }
        } else {
            RateAction::Allow
        }
    }

    /// Takes the outcome of the current step: on to the next one when it was
    /// allowed, otherwise refused with the step's window as the retry delay
    /// and its rollback.
    pub fn on_result(&mut self, allowed: bool) -> (res: RateAction)
        requires
            old(self).passed < old(self).plan@.len(),
            !old(self).denied,
        ensures
            final(self).plan == old(self).plan,
            allowed ==> final(self).passed == old(self).passed + 1 && !final(self).denied,
            !allowed ==> final(self).denied && final(self).passed == old(self).passed,
            !allowed ==> (res matches RateAction::Deny { rollback, retry_after_secs } && retry_after_secs
                == old(self).plan@[old(self).passed as int].window_secs && match old(
                self,
            ).plan@[old(self).passed as int].rollback {
                Some(k) => rollback matches Some(r) && r@ == k@,
                None => rollback is None,
            }),
            allowed && final(self).passed < final(self).plan@.len() ==> (res matches RateAction::Increment {
                key,
                ..
            } && key@ == final(self).plan@[final(self).passed as int].key@),
            allowed && final(self).passed == final(self).plan@.len() ==> res is Allow,
    {
        let n = self.plan.len();
        if allowed {
            self.passed = self.passed + 1;
            self.next_action()
        } else {
            self.denied = true;
            let s = &self.plan[self.passed];
            let rollback = match &s.rollback {
                Some(k) => Some(k.clone()),
                None => None,
            };
            RateAction::Deny { rollback, retry_after_secs: s.window_secs }
        }
    }
}

// ---------------------------------------------------------------------------
// Counters
// ---------------------------------------------------------------------------

pub open spec fn counter(c: Map<Seq<char>, int>, k: Seq<char>) -> int {
    if c.contains_key(k) {
        c[k]
    } else {
        0
    }
}

/// The counters after running the steps of a plan from `from`, with Redis
/// answering every command: each step adds its amount and passes when the
/// new value is within its limit; the first step over its limit takes its
/// own increment back and decrements its rollback key by one.
pub open spec fn run_plan(plan: Seq<StepView>, c: Map<Seq<char>, int>) -> (bool, Map<Seq<char>, int>)
    decreases plan.len(),
{
    if plan.len() == 0 {
        (true, c)
    } else {
        let s = plan[0];
        let v = counter(c, s.0) + s.1;
        if v <= s.2 {
            run_plan(plan.drop_first(), c.insert(s.0, v))
        } else {
            let back = c.insert(s.0, v - s.1);
            match s.4 {
                Some(k) => (false, back.insert(k, counter(back, k) - 1)),
                None => (false, back),
            }
        }
    }
}

/// A plan whose second step, if any, increments another counter than the
/// first and rolls back the first one, which counts one at a time.
pub open spec fn well_formed_plan(plan: Seq<StepView>) -> bool {
    &&& plan.len() <= 2
    &&& plan.len() >= 1 ==> plan[0].4 is None
    &&& plan.len() == 2 ==> {
        &&& plan[1].4 == Some(plan[0].0)
        &&& plan[0].1 == 1
        &&& plan[1].0 != plan[0].0
    }
}

proof fn lemma_refusal_restores(plan: Seq<StepView>, c: Map<Seq<char>, int>)
    requires
        well_formed_plan(plan),
    ensures
        !run_plan(plan, c).0 ==> forall|k: Seq<char>| counter(run_plan(plan, c).1, k) == counter(c, k),
{
    reveal_with_fuel(run_plan, 3);
    if plan.len() >= 1 {
        let s = plan[0];
        let v = counter(c, s.0) + s.1;
        let rest = plan.drop_first();
        if v <= s.2 {
            let c1 = c.insert(s.0, v);
            if rest.len() == 1 {
                let t = rest[0];
                assert(t == plan[1]);
                let w = counter(c1, t.0) + t.1;
                if w > t.2 {
                    let back = c1.insert(t.0, w - t.1);
                    assert(run_plan(plan, c).1 == back.insert(s.0, counter(back, s.0) - 1));
                    assert forall|k: Seq<char>| counter(run_plan(plan, c).1, k) == counter(c, k) by {
                        if k == s.0 {
                        } else if k == t.0 {
                        } else {
                        }
                    }
                }
            } else {
                assert(rest.len() == 0);
            }
        } else {
            assert(run_plan(plan, c).1 == c.insert(s.0, v - s.1));
            assert forall|k: Seq<char>| counter(run_plan(plan, c).1, k) == counter(c, k) by {
                if k == s.0 {
                } else {
                }
            }
        }
    }
}

proof fn lemma_prefixes_differ(a: Seq<char>, b: Seq<char>, x: Seq<char>, y: Seq<char>, i: int)
    requires
        0 <= i < a.len(),
        i < b.len(),
        a[i] != b[i],
    ensures
        a + x != b + y,
{
    assert((a + x)[i] == a[i]);
    assert((b + y)[i] == b[i]);
}

/// When an upload, a download or a view is refused (with Redis answering
/// every command), every counter is back where it was before the check: what
/// the check added is taken back.
pub proof fn law_refused_check_leaves_counters(c: Map<Seq<char>, int>, cfg: FileRateLimitConfig, ip: Seq<char>, size: u64, share: Seq<char>)
    ensures
        !run_plan(upload_plan_spec(cfg, ip, size), c).0 ==> forall|k: Seq<char>|
            counter(run_plan(upload_plan_spec(cfg, ip, size), c).1, k) == counter(c, k),
        !run_plan(download_plan_spec(cfg, ip, share), c).0 ==> forall|k: Seq<char>|
            counter(run_plan(download_plan_spec(cfg, ip, share), c).1, k) == counter(c, k),
        !run_plan(show_plan_spec(cfg, ip), c).0 ==> forall|k: Seq<char>|
            counter(run_plan(show_plan_spec(cfg, ip), c).1, k) == counter(c, k),
{
    reveal_strlit("rl:upload:count:");
    reveal_strlit("rl:upload:bytes:");
    reveal_strlit("rl:download:count:");
    reveal_strlit("rl:download:share:");
    lemma_prefixes_differ("rl:upload:bytes:"@, "rl:upload:count:"@, ip, ip, 10);
    lemma_prefixes_differ(
        "rl:download:share:"@,
        "rl:download:count:"@,
        share + seq![':'] + ip,
        ip,
        12,
    );
    assert("rl:download:share:"@ + share + seq![':'] + ip == "rl:download:share:"@ + (share + seq![':'] + ip));
    let up = upload_plan_spec(cfg, ip, size);
    let down = download_plan_spec(cfg, ip, share);
    assert(well_formed_plan(up));
    assert(well_formed_plan(down));
    assert(well_formed_plan(show_plan_spec(cfg, ip)));
    lemma_refusal_restores(up, c);
    lemma_refusal_restores(down, c);
    lemma_refusal_restores(show_plan_spec(cfg, ip), c);
}

/// `n` checks of the same plan in a row, starting from the counters `c`:
/// whether each passed, in order, and the counters afterwards.
pub open spec fn run_series(plan: Seq<StepView>, c: Map<Seq<char>, int>, n: nat) -> (Seq<bool>, Map<Seq<char>, int>)
    decreases n,
{
    if n == 0 {
        (Seq::empty(), c)
    } else {
        let prev = run_series(plan, c, (n - 1) as nat);
        let next = run_plan(plan, prev.1);
        (prev.0.push(next.0), next.1)
    }
}

proof fn lemma_show_series(cfg: FileRateLimitConfig, ip: Seq<char>, c: Map<Seq<char>, int>, n: nat)
    requires
        cfg.enabled,
        cfg.show_max_per_window > 0,
        counter(c, "rl:show:count:"@ + ip) == 0,
    ensures
        ({
            let key = "rl:show:count:"@ + ip;
            let r = run_series(show_plan_spec(cfg, ip), c, n);
            &&& r.0.len() == n
            &&& forall|i: int| 0 <= i < n ==> r.0[i] == (i < cfg.show_max_per_window)
            &&& counter(r.1, key) == if n <= cfg.show_max_per_window {
                n as int
            } else {
                cfg.show_max_per_window as int
            }
            &&& forall|k: Seq<char>| k != key ==> counter(r.1, k) == counter(c, k)
        }),
    decreases n,
{
    let key = "rl:show:count:"@ + ip;
    let plan = show_plan_spec(cfg, ip);
    if n > 0 {
        lemma_show_series(cfg, ip, c, (n - 1) as nat);
        let prev = run_series(plan, c, (n - 1) as nat);
        reveal_with_fuel(run_plan, 2);
        assert(plan.drop_first() =~= Seq::<StepView>::empty());
        let r = run_series(plan, c, n);
        assert(r.0 == prev.0.push(run_plan(plan, prev.1).0));
        assert forall|i: int| 0 <= i < n implies r.0[i] == (i < cfg.show_max_per_window) by {
            if i < n - 1 {
                assert(r.0[i] == prev.0[i]);
            }
        }
    }
}

/// A run of views from one address, starting with its counter at zero: with
/// the limit on, exactly the first `show_max_per_window` views pass and every
/// later one is refused (a refusal's retry delay is the plan step's window,
/// `show_window_secs`), the counter ends at the number of views that passed,
/// and no other counter changes. With the limit off, every view passes and
/// no counter changes.
pub proof fn law_show_limit_series(cfg: FileRateLimitConfig, ip: Seq<char>, c: Map<Seq<char>, int>, n: nat)
    requires
        counter(c, "rl:show:count:"@ + ip) == 0,
    ensures
        ({
            let key = "rl:show:count:"@ + ip;
            let r = run_series(show_plan_spec(cfg, ip), c, n);
            &&& r.0.len() == n
            &&& cfg.enabled && cfg.show_max_per_window > 0 ==> {
                &&& forall|i: int| 0 <= i < n ==> r.0[i] == (i < cfg.show_max_per_window)
                &&& counter(r.1, key) == if n <= cfg.show_max_per_window {
                    n as int
                } else {
                    cfg.show_max_per_window as int
                }
                &&& forall|k: Seq<char>| k != key ==> counter(r.1, k) == counter(c, k)
                &&& show_plan_spec(cfg, ip)[0].3 == cfg.show_window_secs
            }
            &&& !(cfg.enabled && cfg.show_max_per_window > 0) ==> {
                &&& forall|i: int| 0 <= i < n ==> r.0[i]
                &&& r.1 == c
            }
        }),
{
    if cfg.enabled && cfg.show_max_per_window > 0 {
        lemma_show_series(cfg, ip, c, n);
    } else {
        lemma_series_empty_plan(c, n);
    }
}

proof fn lemma_series_empty_plan(c: Map<Seq<char>, int>, n: nat)
    ensures
        run_series(Seq::<StepView>::empty(), c, n).0.len() == n,
        forall|i: int| 0 <= i < n ==> run_series(Seq::<StepView>::empty(), c, n).0[i],
        run_series(Seq::<StepView>::empty(), c, n).1 == c,
    decreases n,
{
    if n > 0 {
        lemma_series_empty_plan(c, (n - 1) as nat);
        let prev = run_series(Seq::<StepView>::empty(), c, (n - 1) as nat);
        let r = run_series(Seq::<StepView>::empty(), c, n);
        assert forall|i: int| 0 <= i < n implies r.0[i] by {
            if i < n - 1 {
                assert(r.0[i] == prev.0[i]);
            }
        }
    }
}

/// An increment's decision, in terms of the counter before it: with `before`
/// the value before `INCRBY amount` (for any amount, not only one), the
/// expiry is set exactly when the counter was new (`before` is zero), the
/// request passes exactly when the new total is within the limit, and a
/// refused increment is taken back.
pub proof fn law_expiry_set_when_counter_created(before: u64, amount: u64, limit: u64)
    requires
        amount > 0,
        before + amount <= u64::MAX,
    ensures
        ({
            let d = incr_decision_spec(Some((before + amount) as u64), amount, limit);
            &&& d.set_expiry <==> before == 0
            &&& d.allowed <==> before + amount <= limit
            &&& d.undo <==> !d.allowed
        }),
        incr_decision_spec(None, amount, limit).allowed,
        !incr_decision_spec(None, amount, limit).set_expiry,
{
}

} // verus!
