use std::collections::HashMap;
use tshare::features::share::controller::ShareController;
use tshare::features::share::form::ShareForm;
use tshare::features::share::retrieve::ShareError;
use tshare::features::storage::config::{EnvVars, FileRateLimitConfig, FileUploadConfig};
use tshare::features::storage::ratelimit::{incr_within_limit, FileRateLimiter, RateAction, RateCheck};
use tshare::utility::url::SiteConfig;
use tshare::web::pages::{BaseContext, Page};

fn site() -> SiteConfig {
    SiteConfig { final_domain: "t.io".to_string(), https: true }
}

fn upload_config(vars: &[(&str, &str)]) -> FileUploadConfig {
    FileUploadConfig::from_env(&EnvVars {
        vars: vars.iter().map(|(k, v)| (k.to_string(), v.to_string())).collect(),
    })
}

#[test]
fn show_page_renders_a_share() {
    let ctx = BaseContext::new("1", &site());
    let mut s = ShareForm::empty();
    s.note = Some("hello".to_string());
    s.viewed = Some(3);
    s.require_password = Some(true);
    s.file_stored_name = Some("u.pdf".to_string());
    s.file_original_name = Some("dir/report.pdf".to_string());
    let cfg = upload_config(&[("FILE_DOWNLOAD_MODE", "direct"), ("FILE_PUBLIC_BASE_URL", "https://cdn")]);
    match ShareController::show_page(&ctx, Ok(s), "k1", &Some("p w".to_string()), &cfg, &site()) {
        Page::Show(t) => {
            assert_eq!(t.count, "3");
            assert!(t.has_note);
            assert_eq!(t.note, "hello");
            assert!(t.has_file);
            assert_eq!(t.file_download_url, "https://t.io/c/k1/file?password=p%20w");
            assert_eq!(t.file_display_name, "report.pdf");
        }
        _ => panic!("expected the share page"),
    }
}

#[test]
fn show_page_refusals() {
    let ctx = BaseContext::new("1", &site());
    let cfg = upload_config(&[]);
    let prompt = ShareController::show_page(&ctx, Err(ShareError::new(401, "need".to_string())), "k", &None, &cfg, &site());
    assert!(matches!(prompt, Page::PasswordPrompt(ref p) if p.message == "need"));
    let gone = ShareController::show_page(&ctx, Err(ShareError::new(410, "gone".to_string())), "k", &None, &cfg, &site());
    match gone {
        Page::Error(t, status) => {
            assert_eq!(status, 200);
            assert_eq!((t.code.as_str(), t.title.as_str(), t.message.as_str()), ("410", "منقضی شده", "gone"));
        }
        _ => panic!("expected an error page"),
    }
    match ShareController::show_rate_limited(&ctx, 30) {
        Page::Error(t, 429) => assert_eq!(t.message, "تعداد درخواست‌های شما بیش از حد مجاز است. لطفاً 30 ثانیه دیگر تلاش کنید."),
        _ => panic!("expected 429"),
    }
}

#[test]
fn download_pages_and_headers() {
    let ctx = BaseContext::new("1", &site());
    match ShareController::download_denied(&ctx, ShareError::new(403, "no".to_string())) {
        Page::Error(t, 403) => assert_eq!(t.message, "no"),
        _ => panic!("expected 403"),
    }
    match ShareController::download_not_found(&ctx, true) {
        Page::Error(t, 404) => assert_eq!(t.message, "فایل یافت نشد."),
        _ => panic!("expected 404"),
    }
    match ShareController::download_rate_limited(&ctx, 5) {
        Page::Error(t, 429) => assert!(t.message.contains("5")),
        _ => panic!("expected 429"),
    }
    let mut s = ShareForm::empty();
    s.file_original_name = Some("docs/a.pdf".to_string());
    let (mime, disposition, bytes) = ShareController::download_headers(&s, 99);
    assert_eq!(mime, "application/pdf");
    assert_eq!(disposition, "attachment; filename=\"a.pdf\"; filename*=UTF-8''a.pdf");
    assert_eq!(bytes, 99);
    s.file_size = Some(7);
    assert_eq!(ShareController::download_headers(&s, 99).2, 7);
    let (mime, _, _) = ShareController::download_headers(&ShareForm::empty(), 0);
    assert_eq!(mime, "application/octet-stream");
}

/// Runs a check against an in-memory counter store, the way Redis answers.
fn run(check_plan: Vec<tshare::features::storage::ratelimit::LimitStep>, counters: &mut HashMap<String, u64>) -> bool {
    let mut check = RateCheck::start(check_plan);
    let mut action = check.next_action();
    loop {
        match action {
            RateAction::Allow => return true,
            RateAction::Deny { rollback, .. } => {
                if let Some(k) = rollback {
                    *counters.get_mut(&k).unwrap() -= 1;
                }
                return false;
            }
            RateAction::Increment { key, amount, limit, .. } => {
                let v = counters.entry(key.clone()).or_insert(0);
                *v += amount;
                let d = incr_within_limit(Some(*v), amount, limit);
                if d.undo {
                    *v -= amount;
                }
                action = check.on_result(d.allowed);
            }
        }
    }
}

#[test]
fn refused_checks_leave_counters_unchanged() {
    let mut c = FileRateLimitConfig::from_env(&EnvVars { vars: Vec::new() });
    c.upload_max_per_window = 2;
    c.upload_max_bytes_per_window = 100;
    let limiter = FileRateLimiter::from_state(c);
    let ip = Some("ip".to_string());
    let mut counters: HashMap<String, u64> = HashMap::new();
    assert!(run(limiter.upload_plan(&ip, 60), &mut counters));
    let before = counters.clone();
    assert!(!run(limiter.upload_plan(&ip, 60), &mut counters));
    assert_eq!(counters, before);
    assert!(run(limiter.upload_plan(&ip, 40), &mut counters));
    let before = counters.clone();
    assert!(!run(limiter.upload_plan(&ip, 1), &mut counters));
    assert_eq!(counters, before);
}

#[test]
fn show_limit_passes_the_first_views_only() {
    let mut c = FileRateLimitConfig::from_env(&EnvVars { vars: Vec::new() });
    c.show_max_per_window = 3;
    c.show_window_secs = 45;
    let limiter = FileRateLimiter::from_state(c);
    let ip = Some("9.9.9.9".to_string());
    let mut counters: HashMap<String, u64> = HashMap::new();
    let outcomes: Vec<bool> = (0..5).map(|_| run(limiter.show_plan(&ip), &mut counters)).collect();
    assert_eq!(outcomes, vec![true, true, true, false, false]);
    assert_eq!(counters.get("rl:show:count:9.9.9.9"), Some(&3));
    assert_eq!(counters.len(), 1);
    let mut check = RateCheck::start(limiter.show_plan(&ip));
    match check.on_result(false) {
        RateAction::Deny { retry_after_secs, rollback } => {
            assert_eq!(retry_after_secs, 45);
            assert!(rollback.is_none());
        }
        _ => panic!("expected a refusal"),
    }
    c.enabled = false;
    let off = FileRateLimiter::from_state(c);
    let mut untouched: HashMap<String, u64> = HashMap::new();
    assert!((0..5).all(|_| run(off.show_plan(&ip), &mut untouched)));
    assert!(untouched.is_empty());
}
