use tshare::cron::Cron;
use tshare::features::share::client_ip::{
    forwarded_for_candidate_of, get_client_ip, ip_from_forwarded_headers, real_ip_candidate_of,
};
use tshare::features::share::platform_stats::{
    add_bytes, increment_counter, invalidate_stats_cache, record_file_downloaded, record_share_created,
    setting_i64, setting_u64, PlatformStats, PlatformStatsDisplay, StatsCache,
};
use tshare::features::share::share_atomic::{after_lock_attempt, check_fetched, check_ttl, lock_key, LockStep};
use tshare::features::storage::backend::{
    build_backend, cleanup_actions, register_cleanup_job, upload_temp_dir, CleanupAction, FtpBackend,
    LocalBackend, StorageBackend,
};
use tshare::features::storage::config::{EnvVars, FileUploadConfig};
use tshare::features::storage::error::StorageError;
use tshare::features::storage::service::{generate_stored_name, StorageService};
use tshare::utility::content_disposition::attachment_disposition;
use tshare::utility::url::SiteConfig;

fn upload_config(vars: &[(&str, &str)]) -> FileUploadConfig {
    FileUploadConfig::from_env(&EnvVars {
        vars: vars.iter().map(|(k, v)| (k.to_string(), v.to_string())).collect(),
    })
}

#[test]
fn upload_config_defaults() {
    let c = upload_config(&[]);
    assert!(!c.upload_enabled);
    assert_eq!(c.max_size_mb, 10);
    assert_eq!(c.max_size_bytes(), 10 * 1024 * 1024);
    assert!(!c.is_upload_available());
    assert_eq!(c.storage.port, 21);
    assert_eq!(c.storage.local_root, "uploads");
    assert_eq!(c.cleanup_interval_secs, 60);
    assert!(FileUploadConfig::file_requires_proxy_download(false, true, false));
    assert!(!FileUploadConfig::file_requires_proxy_download(false, false, false));
}

#[test]
fn stored_names_and_paths() {
    let n = generate_stored_name("..pdf");
    assert_eq!(n.len(), 40);
    assert!(n.ends_with(".pdf"));
    assert!(n[..36].chars().all(|c| c == '-' || c.is_ascii_hexdigit() && !c.is_ascii_uppercase()));
    assert_eq!(upload_temp_dir("uploads"), "uploads/.tmp");
    assert_eq!(upload_temp_dir("/data/"), "/data/.tmp");
    let local = LocalBackend::new("root".to_string());
    assert_eq!(local.full_path("a.txt").unwrap(), "root/a.txt");
    assert!(local.full_path("../a.txt").is_err());
}

#[test]
fn ftp_paths_and_checks() {
    let cfg = upload_config(&[
        ("FILE_STORAGE_PROTOCOL", "FTP"),
        ("FILE_STORAGE_BASE_PATH", " /files/ "),
        ("FILE_STORAGE_HOST", "ftp.example"),
        ("FILE_STORAGE_PORT", "2121"),
    ]);
    let ftp = FtpBackend::new(cfg.storage.clone());
    assert_eq!(ftp.remote_path("x.bin"), "files/x.bin");
    assert_eq!(ftp.address().unwrap(), "ftp.example:2121");
    assert!(ftp.tls_check().is_ok());
    assert!(matches!(build_backend(&cfg), StorageBackend::Ftp(_)));
    assert!(matches!(build_backend(&upload_config(&[])), StorageBackend::Local(_)));
    let empty_host = FtpBackend::new(upload_config(&[]).storage);
    assert!(matches!(empty_host.address(), Err(StorageError::Misconfigured(_))));
}

#[test]
fn download_links() {
    let site = SiteConfig { final_domain: "s.io".to_string(), https: true };
    let direct = StorageService::new(upload_config(&[("FILE_PUBLIC_BASE_URL", " https://cdn.io ")]));
    assert_eq!(direct.build_download_url(&site, "f.pdf", "k", false).as_deref(), Some("https://cdn.io/f.pdf"));
    assert_eq!(direct.build_download_url(&site, "f.pdf", "k", true).as_deref(), Some("https://s.io/c/k/file"));
    let none = StorageService::new(upload_config(&[]));
    assert_eq!(none.build_download_url(&site, "f.pdf", "k", false), None);
    assert_eq!(StorageService::display_filename("a/b\\c.txt"), "c.txt");
}

#[test]
fn uploads_are_checked_before_storing() {
    let off = StorageService::new(upload_config(&[]));
    assert!(matches!(off.upload_precheck(1), Err(StorageError::UploadDisabled)));
    let on = StorageService::new(upload_config(&[
        ("FILE_UPLOAD_ENABLED", "true"),
        ("FILE_ALLOWED_EXTENSIONS", "pdf"),
        ("FILE_MAX_SIZE_MB", "1"),
    ]));
    assert!(matches!(on.upload_precheck(1024 * 1024 + 1), Err(StorageError::FileTooLarge)));
    assert!(on.upload_precheck(1024 * 1024).is_ok());
    let name = on.stored_name_for("doc.PDF", b"%PDF-1.4").unwrap();
    assert!(name.ends_with(".pdf"));
    assert!(on.stored_name_for("doc.exe", b"MZ").is_err());
}

#[test]
fn attachment_headers() {
    assert_eq!(
        attachment_disposition("report.pdf"),
        "attachment; filename=\"report.pdf\"; filename*=UTF-8''report.pdf"
    );
    assert_eq!(
        attachment_disposition("\"/\\"),
        "attachment; filename=\"download.bin\"; filename*=UTF-8''"
    );
    assert_eq!(
        attachment_disposition("گزارش 1.txt"),
        "attachment; filename=\"گزارش 1.txt\"; filename*=UTF-8''%DA%AF%D8%B2%D8%A7%D8%B1%D8%B4%201.txt"
    );
}

#[test]
fn cleanup_jobs() {
    let job = register_cleanup_job(3);
    assert_eq!((job.name.as_str(), job.interval_secs), ("file_cleanup", 10));
    assert_eq!(register_cleanup_job(120).interval_secs, 120);
    assert!(Cron::start(&upload_config(&[])).is_none());
    let on = Cron::start(&upload_config(&[("FILE_UPLOAD_ENABLED", "true"), ("FILE_CLEANUP_INTERVAL_SECS", "5")])).unwrap();
    assert_eq!(on.interval_secs, 10);
    assert!(!Cron::cleanup_runs(&upload_config(&[])));
    assert!(Cron::cleanup_runs(&upload_config(&[("FILE_UPLOAD_ENABLED", "true")])));
    let actions = cleanup_actions(&vec!["a".to_string(), "b".to_string()]);
    assert_eq!(actions.len(), 4);
    assert!(matches!(&actions[0], CleanupAction::DeleteFile(n) if n == "a"));
    assert!(matches!(&actions[1], CleanupAction::ForgetEntry(n) if n == "a"));
    assert!(matches!(&actions[3], CleanupAction::ForgetEntry(n) if n == "b"));
}

#[test]
fn client_address_selection() {
    assert_eq!(forwarded_for_candidate_of(" 10.0.0.1 , 10.0.0.2"), "10.0.0.1");
    assert_eq!(forwarded_for_candidate_of(""), "");
    assert_eq!(real_ip_candidate_of("  ::1 "), "::1");
    assert_eq!(ip_from_forwarded_headers(Some(1), Some(2)), Some(1));
    assert_eq!(ip_from_forwarded_headers(None, Some(2)), Some(2));
    assert_eq!(get_client_ip(9, true, None, Some(2)), 2);
    assert_eq!(get_client_ip(9, false, Some(1), Some(2)), 9);
    assert_eq!(get_client_ip(9, true, None, None), 9);
}

#[test]
fn statistics() {
    let s = PlatformStats { total_shares: 1234, text_shares: -5, file_shares: 0, bytes_uploaded: 1536, bytes_downloaded: 0 };
    let d = PlatformStatsDisplay::from_stats(&s);
    assert_eq!(d.total_shares, "1،234");
    assert_eq!(d.text_shares, "-5");
    assert_eq!(d.uploaded_size, "1.5 کیلو");
    assert_eq!(d.downloaded_size, "0 بایت");
    assert_eq!(setting_i64(&Some("-7".to_string())), -7);
    assert_eq!(setting_i64(&Some("x".to_string())), 0);
    assert_eq!(setting_u64(&None), 0);
    assert_eq!(increment_counter(41, 1), "42");
    assert_eq!(add_bytes(10, 5), "15");
    let ups = record_share_created(true, Some(10));
    let keys: Vec<&str> = ups.iter().map(|u| u.key.as_str()).collect();
    assert_eq!(keys, vec!["used", "stats_text", "stats_files", "stats_bytes_uploaded"]);
    assert_eq!(ups[3].delta, 10);
    assert_eq!(record_share_created(false, Some(0)).len(), 1);
    assert!(record_file_downloaded(0).is_none());
    assert_eq!(record_file_downloaded(7).unwrap().key, "stats_bytes_downloaded");
    assert_eq!(PlatformStats::default().total_shares, 0);
}

#[test]
fn stats_cache_expires_and_invalidates() {
    let mut cache = StatsCache::new();
    assert!(cache.get(0).is_none());
    let s = PlatformStats::default();
    cache.store(s, 100);
    assert!(cache.get(100).is_some());
    assert!(cache.get(699).is_some());
    assert!(cache.get(700).is_none());
    assert!(cache.get(99).is_none());
    invalidate_stats_cache(&mut cache);
    assert!(cache.get(100).is_none());
}

#[test]
fn atomic_update_decisions() {
    assert_eq!(lock_key("abc"), "share:lock:abc");
    assert!(matches!(after_lock_attempt(true, 79), LockStep::Proceed));
    assert!(matches!(after_lock_attempt(false, 0), LockStep::Retry));
    match after_lock_attempt(false, 79) {
        LockStep::Busy(e) => assert_eq!((e.code.as_str(), e.message.as_str()), ("503", "سرور شلوغ است. لطفاً دوباره تلاش کنید.")),
        _ => panic!("expected busy"),
    }
    assert_eq!(check_fetched(Some("{}".to_string())).unwrap(), "{}");
    assert_eq!(check_fetched(Some(String::new())).unwrap_err().code, "404");
    assert_eq!(check_fetched(None).unwrap_err().code, "404");
    assert_eq!(check_ttl(Some(30)).unwrap(), 30);
    assert_eq!(check_ttl(Some(0)).unwrap_err().code, "410");
    assert_eq!(check_ttl(Some(-2)).unwrap_err().code, "410");
    assert_eq!(check_ttl(None).unwrap_err().code, "500");
}
