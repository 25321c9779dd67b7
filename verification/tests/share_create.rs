use base64::Engine;
use tshare::features::share::create::{
    note_has_text, rate_limit_to_response, storage_to_response, CreatedShare, ShareCreate,
};
use tshare::features::share::delete::ShareDelete;
use tshare::features::share::form::{Expiry, ShareForm};
use tshare::features::share::key::{candidate_key, key_prefix};
use tshare::features::share::parse_create_form::{
    chunk_fits, classify_field, file_chunk_fits, upload_file_name, CreateFormBuilder, FormField,
};
use tshare::features::share::retrieve::ShareError;
use tshare::features::share::update::ShareUpdate;
use tshare::features::storage::config::{EnvVars, FileUploadConfig};
use tshare::features::storage::error::StorageError;
use tshare::features::storage::ratelimit::RateLimitExceeded;
use tshare::features::storage::service::UploadedFile;
use tshare::utility::url::SiteConfig;

fn upload_config(vars: &[(&str, &str)]) -> FileUploadConfig {
    FileUploadConfig::from_env(&EnvVars {
        vars: vars.iter().map(|(k, v)| (k.to_string(), v.to_string())).collect(),
    })
}

fn text_form(note: &str) -> ShareForm {
    let mut f = ShareForm::empty();
    f.note = Some(note.to_string());
    f
}

#[test]
fn requirements_are_checked_in_order() {
    let cfg = upload_config(&[]);
    let mut f = text_form("hi");
    f.require_password = Some(true);
    let e = ShareCreate::validate_requirements(&f, false, &cfg).unwrap_err();
    assert_eq!((e.status, e.message.as_str()), (400, "پسورد الزامی می باشد."));
    let mut g = text_form("hi");
    g.restrict_ip = Some(true);
    let e = ShareCreate::validate_requirements(&g, false, &cfg).unwrap_err();
    assert_eq!(e.message, "آدرس آی پی الزامی می باشد.");
    let e = ShareCreate::validate_requirements(&text_form("   "), false, &cfg).unwrap_err();
    assert_eq!(e.message, "متن یا فایل الزامی است.");
    let e = ShareCreate::validate_requirements(&text_form(""), true, &cfg).unwrap_err();
    assert_eq!(e.message, "آپلود فایل غیرفعال است.");
    assert!(ShareCreate::validate_requirements(&text_form("hi"), false, &cfg).is_ok());
}

#[test]
fn protected_files_need_proxy_downloads() {
    let direct = upload_config(&[("FILE_UPLOAD_ENABLED", "true"), ("FILE_ALLOWED_EXTENSIONS", "pdf")]);
    let mut f = text_form("");
    f.one_time_use = Some(true);
    let e = ShareCreate::validate_requirements(&f, true, &direct).unwrap_err();
    assert_eq!(
        e.message,
        "برای فایل با پسورد، محدودیت IP یا یک‌بارمصرف، FILE_DOWNLOAD_MODE باید proxy باشد."
    );
    let proxy = upload_config(&[
        ("FILE_UPLOAD_ENABLED", "true"),
        ("FILE_ALLOWED_EXTENSIONS", "pdf"),
        ("FILE_DOWNLOAD_MODE", "Proxy"),
    ]);
    assert!(ShareCreate::validate_requirements(&f, true, &proxy).is_ok());
}

#[test]
fn prepared_record_hashes_and_encrypts() {
    let mut f = text_form("  secret note ");
    f.require_password = Some(true);
    f.password = Some("pw".to_string());
    f.expiry = Some(Expiry::N30);
    let data = ShareCreate::prepare_data(
        &f,
        "abc123",
        &Ok("PWHASH".to_string()),
        &Err(()),
        &Ok("TOKHASH".to_string()),
    )
    .unwrap();
    assert_eq!(data.password.as_deref(), Some("PWHASH"));
    assert_eq!(data.ip, None);
    assert_eq!(data.token.as_deref(), Some("TOKHASH"));
    assert_eq!(data.expiry, Some(Expiry::N30));
    let sealed = data.note.clone().unwrap();
    assert_eq!(tshare::utility::encrypt::decrypt(&sealed, "abc123").unwrap(), "  secret note ");
    assert_eq!(ShareCreate::calculate_expiry(&data), 1800);
    assert_eq!(ShareCreate::calculate_expiry(&ShareForm::empty()), 600);
    assert_eq!(ShareCreate::stats_delta(&data), (true, None));
}

#[test]
fn preparation_failures_are_reported() {
    let mut f = text_form("x");
    f.require_password = Some(true);
    f.password = Some("pw".to_string());
    let e = ShareCreate::prepare_data(&f, "k", &Err(()), &Err(()), &Ok("t".to_string())).unwrap_err();
    assert_eq!((e.status, e.message.as_str()), (500, "Failed to hash password"));
    let mut g = text_form("x");
    g.restrict_ip = Some(true);
    g.ip = Some("1.1.1.1".to_string());
    let e = ShareCreate::prepare_data(&g, "k", &Err(()), &Err(()), &Ok("t".to_string())).unwrap_err();
    assert_eq!(e.message, "Failed to hash IP");
    let e = ShareCreate::prepare_data(&text_form(" "), "k", &Err(()), &Err(()), &Err(())).unwrap_err();
    assert_eq!(e.message, "Failed to hash token");
    let blank = ShareCreate::prepare_data(&text_form(" "), "k", &Err(()), &Err(()), &Ok("t".to_string())).unwrap();
    assert_eq!(blank.note, None);
}

#[test]
fn creator_gets_link_and_token_that_deletes() {
    let site = SiteConfig { final_domain: "t.example".to_string(), https: true };
    let mut data = ShareForm::empty();
    data.token = Some("stored-token-hash".to_string());
    let created: CreatedShare = ShareCreate::build_response(&site, "k1", &data);
    assert_eq!(created.id, "k1");
    assert_eq!(created.url, "https://t.example/c/k1");
    assert_eq!(created.token, base64::engine::general_purpose::STANDARD.encode("stored-token-hash"));
    assert!(ShareUpdate::verify_token(&created.token, &data).is_ok());
}

#[test]
fn token_errors() {
    let mut data = ShareForm::empty();
    data.token = Some("h".to_string());
    let e = ShareUpdate::verify_token("%%%", &data).unwrap_err();
    assert_eq!((e.status, e.message.as_str()), (400, "توکن نامعتبر است."));
    let not_utf8 = base64::engine::general_purpose::STANDARD.encode([0xFFu8, 0xFE]);
    assert_eq!(ShareUpdate::verify_token(&not_utf8, &data).unwrap_err().status, 400);
    let other = base64::engine::general_purpose::STANDARD.encode("other");
    let e = ShareUpdate::verify_token(&other, &data).unwrap_err();
    assert_eq!((e.status, e.message.as_str()), (401, "توکن نامعتبر است."));
    let e = ShareUpdate::verify_token(&other, &ShareForm::empty()).unwrap_err();
    assert_eq!((e.status, e.message.as_str()), (500, "Configuration error"));
}

#[test]
fn delete_outcomes() {
    assert!(ShareDelete::delete_result(1).is_ok());
    let e = ShareDelete::delete_result(0).unwrap_err();
    assert_eq!((e.status, e.message.as_str()), (404, "اشتراک گذاری یافت نشد."));
    let lookup = ShareError::new(410, "gone".to_string());
    assert_eq!(ShareDelete::lookup_failure(&lookup), ("410".to_string(), "منقضی شده".to_string()));
}

#[test]
fn error_responses() {
    let e = rate_limit_to_response(RateLimitExceeded { retry_after_secs: 60 });
    assert_eq!(e.status, 429);
    assert_eq!(e.message, "تعداد درخواست‌های آپلود شما بیش از حد مجاز است. لطفاً 60 ثانیه دیگر تلاش کنید.");
    let s = storage_to_response(StorageError::FileTooLarge);
    assert_eq!((s.status, s.message.as_str()), (400, "حجم فایل بیش از حد مجاز است"));
    let s = storage_to_response(StorageError::Io("disk".to_string()));
    assert_eq!((s.status, s.message.as_str()), (500, "خطای ذخیره‌سازی: disk"));
}

#[test]
fn keys() {
    assert_eq!(key_prefix(&"abc".to_string()), "share:-abc");
    assert_ne!(key_prefix(&"ab".to_string()), key_prefix(&"abc".to_string()));
    let k = candidate_key();
    assert_eq!(k.len(), 6);
    assert!(k.chars().all(|c| c.is_ascii_digit() || c.is_ascii_lowercase()));
    assert!(note_has_text(&Some(" a ".to_string())));
    assert!(!note_has_text(&None));
}

#[test]
fn create_form_is_assembled() {
    assert_eq!(classify_field("max_views"), FormField::MaxViews);
    assert_eq!(classify_field("nope"), FormField::Other);
    assert_eq!(FormField::Note.text_limit(), Some(10_000));
    assert_eq!(FormField::Password.text_limit(), Some(24));
    assert_eq!(FormField::File.text_limit(), None);
    assert!(chunk_fits(10, 14, 24));
    assert!(!chunk_fits(10, 15, 24));
    assert!(file_chunk_fits(0, 5, 5));
    assert!(!file_chunk_fits(5, 1, 5));
    // The running total saturates instead of overflowing.
    assert!(file_chunk_fits(u64::MAX, 1, u64::MAX));
    assert_eq!(upload_file_name(None), "upload.bin");

    let mut b = CreateFormBuilder::new();
    b.apply_text(FormField::Note, "  hello  ");
    b.apply_text(FormField::Expiry, "60");
    b.apply_text(FormField::OneTimeUse, "on");
    let input = b.finish(false).unwrap();
    assert_eq!(input.form.note.as_deref(), Some("hello"));
    assert_eq!(input.form.expiry, Some(Expiry::N60));
    assert_eq!(input.form.one_time_use, Some(true));
    assert!(input.file.is_none());

    let mut c = CreateFormBuilder::new();
    c.set_file(UploadedFile { original_name: "a.pdf".to_string(), temp_path: "/tmp/x".to_string(), size: 3 });
    let e = c.finish(false).unwrap_err();
    assert_eq!((e.status, e.message.as_str()), (400, "آپلود فایل غیرفعال است."));
}
