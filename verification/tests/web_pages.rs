use tshare::features::storage::config::{EnvVars, FileUploadConfig};
use tshare::utility::url::{append_password_query, url, SiteConfig};
use tshare::web::pages::{BaseContext, ErrorTemplate, HomeController};
use tshare::web::router::{hmac_key_acceptable, upload_body_limit_bytes, upload_timeout_secs, Router};

fn site(https: bool) -> SiteConfig {
    SiteConfig { final_domain: "example.com".to_string(), https }
}

fn upload_config(vars: &[(&str, &str)]) -> FileUploadConfig {
    FileUploadConfig::from_env(&EnvVars {
        vars: vars.iter().map(|(k, v)| (k.to_string(), v.to_string())).collect(),
    })
}

#[test]
fn urls_are_absolute() {
    assert_eq!(url(&site(true), "/c/abc"), "https://example.com/c/abc");
    assert_eq!(url(&site(false), ""), "http://example.com/");
    assert_eq!(url(&site(true), "//x"), "https://example.com/x");
}

#[test]
fn password_query_is_appended_and_encoded() {
    assert_eq!(append_password_query("https://a/c/k/file", "p w&"), "https://a/c/k/file?password=p%20w%26");
    assert_eq!(append_password_query("https://a/x?y=1", "ab"), "https://a/x?y=1&password=ab");
    assert_eq!(append_password_query("u", "رمز"), "u?password=%D8%B1%D9%85%D8%B2");
}

#[test]
fn route_prefixes_are_normalized() {
    assert_eq!(Router::normalize_prefix(""), "/");
    assert_eq!(Router::normalize_prefix(" / "), "/");
    assert_eq!(Router::normalize_prefix("/api/"), "/api");
    assert_eq!(Router::normalize_prefix("api"), "/api");
    assert!(Router::mounted_at_root("/"));
    assert!(!Router::mounted_at_root("/api"));
}

#[test]
fn asset_paths_are_guarded() {
    assert_eq!(Router::asset_path("/css/app.css").as_deref(), Some("css/app.css"));
    assert_eq!(Router::asset_path("/../secret"), None);
    assert_eq!(Router::asset_path("a\\b"), None);
}

#[test]
fn security_headers_depend_on_https() {
    let plain = Router::security_headers(false);
    let secure = Router::security_headers(true);
    assert_eq!(plain.len(), 4);
    assert_eq!(secure.len(), 5);
    assert!(plain.iter().any(|(k, v)| k == "x-frame-options" && v == "DENY"));
    assert!(secure.iter().any(|(k, v)| k == "strict-transport-security" && v == "max-age=63072000; includeSubDomains"));
}

#[test]
fn server_settings() {
    assert!(hmac_key_acceptable("0123456789abcdef0123456789abcdef"));
    assert!(!hmac_key_acceptable("short"));
    assert!(!hmac_key_acceptable("{random-string}{random-string}{random-string}"));
    assert_eq!(upload_timeout_secs(None), 300);
    assert_eq!(upload_timeout_secs(Some("0")), 300);
    assert_eq!(upload_timeout_secs(Some("45")), 45);
    assert_eq!(upload_body_limit_bytes(&upload_config(&[("FILE_MAX_SIZE_MB", "2")])), 2 * 1024 * 1024 + 512 * 1024);
}

#[test]
fn error_status_codes() {
    assert_eq!(ErrorTemplate::status_from_code("401"), 401);
    assert_eq!(ErrorTemplate::status_from_code("410"), 410);
    assert_eq!(ErrorTemplate::status_from_code("429"), 429);
    assert_eq!(ErrorTemplate::status_from_code("503"), 400);
    assert_eq!(ErrorTemplate::status_from_code("abc"), 400);
}

#[test]
fn home_pages() {
    let ctx = BaseContext::new("1.2.3", &site(true));
    assert_eq!(ctx.url, "https://example.com/");
    let cfg = upload_config(&[
        ("FILE_UPLOAD_ENABLED", "true"),
        ("FILE_ALLOWED_EXTENSIONS", "zip,pdf"),
        ("FILE_MAX_SIZE_MB", "25"),
    ]);
    let page = HomeController::index(&ctx, 1234, &cfg);
    assert_eq!(page.used, "1234");
    assert!(page.file_upload_enabled);
    assert!(!page.note_required);
    assert_eq!(page.file_max_size_mb, 25);
    assert_eq!(page.file_accept_attr, ".zip,.pdf");
    assert_eq!(page.file_allowed_extensions_display, "pdf, zip");
    let off = HomeController::index(&ctx, 0, &upload_config(&[]));
    assert!(!off.file_upload_enabled);
    assert!(off.note_required);
    let nf = HomeController::not_found(&ctx);
    assert_eq!((nf.code.as_str(), nf.title.as_str()), ("404", "صفحه مورد نظر یافت نشد"));
    let h = HomeController::history(&ctx);
    assert_eq!(h.version, "1.2.3");
}

fn percent_decode(s: &str) -> Vec<u8> {
    let b = s.as_bytes();
    let mut out = Vec::new();
    let mut i = 0;
    while i < b.len() {
        if b[i] == b'%' && i + 2 < b.len() {
            out.push(u8::from_str_radix(&s[i + 1..i + 3], 16).unwrap());
            i += 3;
        } else {
            out.push(b[i]);
            i += 1;
        }
    }
    out
}

#[test]
fn password_query_decodes_back() {
    for pw in ["p w&", "رمز عبور", "a~b.c_d-e", "%41", "?=&/"] {
        let u = append_password_query("https://x/c/k/file", pw);
        let encoded = u.strip_prefix("https://x/c/k/file?password=").unwrap();
        assert!(encoded.chars().all(|c| c.is_ascii_alphanumeric() || "-_.~%".contains(c)));
        assert_eq!(percent_decode(encoded), pw.as_bytes());
    }
}
