use tshare::features::storage::config::{EnvVars, FileRateLimitConfig};
use tshare::features::storage::ratelimit::{
    incr_within_limit, ip_key, FileRateLimiter, RateAction, RateCheck,
};

fn config() -> FileRateLimitConfig {
    FileRateLimitConfig::from_env(&EnvVars { vars: Vec::new() })
}

#[test]
fn defaults_come_from_an_empty_environment() {
    let c = config();
    assert!(c.enabled);
    assert_eq!(c.upload_max_per_window, 20);
    assert_eq!(c.upload_window_secs, 3600);
    assert_eq!(c.upload_max_bytes_per_window, 100 * 1024 * 1024);
    assert_eq!(c.upload_bytes_window_secs, 86400);
    assert_eq!(c.download_max_per_window, 60);
    assert_eq!(c.download_max_per_share_per_window, 30);
    assert_eq!(c.show_max_per_window, 60);
}

#[test]
fn environment_overrides_and_ignores_garbage() {
    let env = EnvVars {
        vars: vec![
            ("FILE_RATE_LIMIT_ENABLED".to_string(), "false".to_string()),
            ("FILE_UPLOAD_MAX_PER_WINDOW".to_string(), "5".to_string()),
            ("FILE_UPLOAD_WINDOW_SECS".to_string(), "ten".to_string()),
            ("FILE_UPLOAD_MAX_MB_PER_WINDOW".to_string(), "18446744073709551615".to_string()),
        ],
    };
    let c = FileRateLimitConfig::from_env(&env);
    assert!(!c.enabled);
    assert_eq!(c.upload_max_per_window, 5);
    assert_eq!(c.upload_window_secs, 3600);
    assert_eq!(c.upload_max_bytes_per_window, u64::MAX);
}

#[test]
fn upload_plan_counts_then_bytes() {
    let limiter = FileRateLimiter::from_state(config());
    assert!(limiter.is_enabled());
    let plan = limiter.upload_plan(&Some("1.2.3.4".to_string()), 500);
    assert_eq!(plan.len(), 2);
    assert_eq!(plan[0].key, "rl:upload:count:1.2.3.4");
    assert_eq!((plan[0].amount, plan[0].limit, plan[0].window_secs), (1, 20, 3600));
    assert_eq!(plan[0].rollback, None);
    assert_eq!(plan[1].key, "rl:upload:bytes:1.2.3.4");
    assert_eq!(plan[1].amount, 500);
    assert_eq!(plan[1].rollback.as_deref(), Some("rl:upload:count:1.2.3.4"));
    assert_eq!(limiter.upload_plan(&None, 0).len(), 1);
    assert_eq!(ip_key(&None), "unknown");
}

#[test]
fn download_and_show_plans() {
    let limiter = FileRateLimiter::from_state(config());
    let plan = limiter.download_plan(&Some("ip".to_string()), "abc");
    assert_eq!(plan.len(), 2);
    assert_eq!(plan[0].key, "rl:download:count:ip");
    assert_eq!(plan[1].key, "rl:download:share:abc:ip");
    assert_eq!(plan[1].rollback.as_deref(), Some("rl:download:count:ip"));
    let show = limiter.show_plan(&Some("ip".to_string()));
    assert_eq!(show.len(), 1);
    assert_eq!(show[0].key, "rl:show:count:ip");
    let mut off = config();
    off.enabled = false;
    let disabled = FileRateLimiter::from_state(off);
    assert!(disabled.upload_plan(&None, 10).is_empty());
    assert!(disabled.download_plan(&None, "k").is_empty());
    assert!(disabled.show_plan(&None).is_empty());
}

#[test]
fn increments_are_judged_against_the_limit() {
    let first = incr_within_limit(Some(1), 1, 5);
    assert!(first.set_expiry && first.allowed && !first.undo);
    let over = incr_within_limit(Some(6), 1, 5);
    assert!(!over.set_expiry && !over.allowed && over.undo);
    let failed = incr_within_limit(None, 1, 5);
    assert!(failed.allowed && !failed.set_expiry && !failed.undo);
}

#[test]
fn a_check_runs_its_plan_step_by_step() {
    let limiter = FileRateLimiter::from_state(config());
    let mut check = RateCheck::start(limiter.upload_plan(&Some("ip".to_string()), 10));
    match check.next_action() {
        RateAction::Increment { key, .. } => assert_eq!(key, "rl:upload:count:ip"),
        _ => panic!("expected an increment"),
    }
    match check.on_result(true) {
        RateAction::Increment { key, amount, .. } => {
            assert_eq!(key, "rl:upload:bytes:ip");
            assert_eq!(amount, 10);
        }
        _ => panic!("expected an increment"),
    }
    match check.on_result(false) {
        RateAction::Deny { rollback, retry_after_secs } => {
            assert_eq!(rollback.as_deref(), Some("rl:upload:count:ip"));
            assert_eq!(retry_after_secs, 86400);
        }
        _ => panic!("expected a refusal"),
    }
    let mut ok = RateCheck::start(limiter.show_plan(&None));
    assert!(matches!(ok.on_result(true), RateAction::Allow));
}
