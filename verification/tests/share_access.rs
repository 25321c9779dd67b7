use tshare::features::share::form::{
    parse_bool, parse_expiry, parse_max_views, Expiry, MaxViews, ShareForm, ShowRequest,
};
use tshare::features::share::retrieve::{DownloadMode, HashCheck, ShareError, ShareRetrieve};

fn request(password: Option<&str>) -> ShowRequest {
    ShowRequest {
        key: "abc123".to_string(),
        password: password.map(|p| p.to_string()),
        ip: "1.2.3.4".to_string(),
    }
}

fn err_of(r: Result<(), ShareError>) -> (String, String, String) {
    let e = r.unwrap_err();
    (e.code, e.title, e.message)
}

#[test]
fn share_error_titles_follow_status() {
    let e = ShareError::new(404, "x".to_string());
    assert_eq!((e.code.as_str(), e.title.as_str(), e.message.as_str()), ("404", "یافت نشد", "x"));
    assert_eq!(ShareError::new(401, String::new()).title, "عدم دسترسی");
    assert_eq!(ShareError::new(403, String::new()).title, "ممنوع");
    assert_eq!(ShareError::new(410, String::new()).title, "منقضی شده");
    assert_eq!(ShareError::new(500, String::new()).title, "خطای سرور");
    assert_eq!(ShareError::new(503, String::new()).title, "خطا");
}

#[test]
fn password_is_required_and_checked() {
    let mut s = ShareForm::empty();
    s.require_password = Some(true);
    s.password = Some("hash".to_string());
    let (code, _, msg) = err_of(ShareRetrieve::validate_access(&s, &request(None), HashCheck::Match, HashCheck::Match));
    assert_eq!((code.as_str(), msg.as_str()), ("401", "برای مشاهده این متن وارد کردن پسورد الزامی می باشد."));
    let (code, _, msg) = err_of(ShareRetrieve::validate_access(&s, &request(Some("x")), HashCheck::Mismatch, HashCheck::Match));
    assert_eq!((code.as_str(), msg.as_str()), ("401", "پسورد نادرست است."));
    let (code, _, msg) = err_of(ShareRetrieve::validate_access(&s, &request(Some("x")), HashCheck::Failed, HashCheck::Match));
    assert_eq!((code.as_str(), msg.as_str()), ("500", "خطا در بررسی رمز عبور"));
    assert!(ShareRetrieve::validate_access(&s, &request(Some("x")), HashCheck::Match, HashCheck::Mismatch).is_ok());
    s.password = None;
    let (code, _, msg) = err_of(ShareRetrieve::validate_access(&s, &request(Some("x")), HashCheck::Match, HashCheck::Match));
    assert_eq!((code.as_str(), msg.as_str()), ("500", "خطا در پیکربندی سیستم"));
}

#[test]
fn ip_lock_is_checked_after_password() {
    let mut s = ShareForm::empty();
    s.restrict_ip = Some(true);
    s.ip = Some("iphash".to_string());
    let (code, _, msg) = err_of(ShareRetrieve::validate_access(&s, &request(None), HashCheck::Match, HashCheck::Mismatch));
    assert_eq!((code.as_str(), msg.as_str()), ("403", "دسترسی از این آی پی مجاز نیست."));
    let (code, _, msg) = err_of(ShareRetrieve::validate_access(&s, &request(None), HashCheck::Match, HashCheck::Failed));
    assert_eq!((code.as_str(), msg.as_str()), ("500", "خطا در بررسی آی پی"));
    assert!(ShareRetrieve::validate_access(&s, &request(None), HashCheck::Mismatch, HashCheck::Match).is_ok());
}

#[test]
fn views_are_counted_until_the_limit() {
    let mut s = ShareForm::empty();
    s.max_views = Some(MaxViews::V1);
    let req = request(None);
    assert!(ShareRetrieve::apply_view(&mut s, &req, HashCheck::Match, HashCheck::Match).is_ok());
    assert_eq!(s.viewed, Some(1));
    assert!(ShareRetrieve::apply_view(&mut s, &req, HashCheck::Match, HashCheck::Match).is_ok());
    assert_eq!(s.viewed, Some(2));
    let e = ShareRetrieve::apply_view(&mut s, &req, HashCheck::Match, HashCheck::Match).unwrap_err();
    assert_eq!((e.code.as_str(), e.message.as_str()), ("410", "حداکثر تعداد مشاهده به پایان رسیده است."));
    assert_eq!(s.viewed, Some(2));
}

#[test]
fn unlimited_views_never_run_out() {
    let mut s = ShareForm::empty();
    s.max_views = Some(MaxViews::UNLIMITED);
    s.viewed = Some(1000);
    assert!(ShareRetrieve::check_show_limits(&s).is_ok());
}

#[test]
fn one_time_text_is_shown_once() {
    let mut s = ShareForm::empty();
    s.one_time_use = Some(true);
    let req = request(None);
    assert!(ShareRetrieve::apply_view(&mut s, &req, HashCheck::Match, HashCheck::Match).is_ok());
    let e = ShareRetrieve::apply_view(&mut s, &req, HashCheck::Match, HashCheck::Match).unwrap_err();
    assert_eq!(e.code, "410");
    assert_eq!(e.message, "این اشتراک گذاری یکبار مصرف بوده و قبلاً استفاده شده است.");
}

#[test]
fn one_time_file_is_downloaded_once() {
    let mut s = ShareForm::empty();
    s.one_time_use = Some(true);
    s.file_stored_name = Some("x.pdf".to_string());
    let req = request(None);
    assert!(matches!(ShareRetrieve::download_mode(&s), Ok(DownloadMode::Consume)));
    assert!(ShareRetrieve::apply_view(&mut s, &req, HashCheck::Match, HashCheck::Match).is_ok());
    assert!(ShareRetrieve::apply_download(&mut s, &req, HashCheck::Match, HashCheck::Match).is_ok());
    assert_eq!(s.downloaded, Some(true));
    assert_eq!(s.viewed, Some(1));
    assert!(ShareRetrieve::apply_download(&mut s, &req, HashCheck::Match, HashCheck::Match).is_err());
    assert!(ShareRetrieve::apply_view(&mut s, &req, HashCheck::Match, HashCheck::Match).is_err());
    assert!(ShareRetrieve::authorize_download(&s, &req, HashCheck::Match, HashCheck::Match).is_err());
}

#[test]
fn download_mode_needs_a_file() {
    let s = ShareForm::empty();
    let e = ShareRetrieve::download_mode(&s).unwrap_err();
    assert_eq!((e.code.as_str(), e.message.as_str()), ("404", "فایلی برای این اشتراک وجود ندارد."));
    let mut t = ShareForm::empty();
    t.file_stored_name = Some("f.txt".to_string());
    assert!(matches!(ShareRetrieve::download_mode(&t), Ok(DownloadMode::Authorize)));
    assert!(ShareRetrieve::has_attached_file(&t));
}

#[test]
fn notes_are_decrypted_with_the_key() {
    let sealed = tshare::utility::encrypt::encrypt("سلام", "k3y").unwrap();
    let mut s = ShareForm::empty();
    s.note = Some(sealed);
    assert!(ShareRetrieve::decrypt_note(&mut s, "k3y").is_ok());
    assert_eq!(s.note.as_deref(), Some("سلام"));

    let mut empty = ShareForm::empty();
    empty.note = Some(String::new());
    assert!(ShareRetrieve::decrypt_note(&mut empty, "k").is_ok());
    assert_eq!(empty.note, None);

    let mut bad = ShareForm::empty();
    bad.note = Some("not base64!".to_string());
    let e = ShareRetrieve::decrypt_note(&mut bad, "k").unwrap_err();
    assert_eq!((e.code.as_str(), e.message.as_str()), ("500", "خطا در رمزگشایی محتوا"));
}

#[test]
fn form_values_are_parsed() {
    assert_eq!(parse_bool(Some(" ON ")), Some(true));
    assert_eq!(parse_bool(Some("1")), Some(true));
    assert_eq!(parse_bool(Some("yes")), Some(false));
    assert_eq!(parse_bool(None), None);
    assert_eq!(parse_expiry(Some(" 60 ")), Some(Expiry::N60));
    assert_eq!(parse_expiry(Some("7")), None);
    assert_eq!(parse_max_views(Some("v10")), Some(MaxViews::V10));
    assert_eq!(parse_max_views(Some("unlimited")), Some(MaxViews::UNLIMITED));
    assert_eq!(parse_max_views(Some("v2")), None);
    assert_eq!(Expiry::N1440.as_seconds(), 86400);
    assert_eq!(MaxViews::V5.as_int(), 6);
}
