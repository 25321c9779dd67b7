//! Access to a stored share: the password and IP checks, the view and
//! download limits, and the changes that a successful view or download
//! makes to the stored share.

use crate::features::share::form::{flag, MaxViews, ShareForm, ShowRequest};
use crate::text::copy_str;
use crate::utility::encrypt::{decrypt, decrypts_to, is_sealed_note};
use crate::utility::format::{decimal, u64_to_string};
use crate::utility::hash::{hash_spec, verify};
use vstd::prelude::*;

verus! {

/// An error answered to a request for a share: the HTTP status code as
/// text, a short title and a message.
#[derive(Debug)]
pub struct ShareError {
    pub code: String,
    pub title: String,
    pub message: String,
}

/// The title that goes with a status code.
pub open spec fn status_title(status: u16) -> Seq<char> {
    if status == 404 {
        "یافت نشد"@
    } else if status == 401 {
        "عدم دسترسی"@
    } else if status == 403 {
        "ممنوع"@
    } else if status == 410 {
        "منقضی شده"@
    } else if status == 500 {
        "خطای سرور"@
    } else {
        "خطا"@
    }
}

/// A refusal: status code and message.
pub type Denial = (u16, Seq<char>);

impl ShareError {
    /// `e` is the error for `status` with `message`.
    pub open spec fn is(self, status: u16, message: Seq<char>) -> bool {
        &&& self.code@ == decimal(status as nat)
        &&& self.title@ == status_title(status)
        &&& self.message@ == message
    }

    pub open spec fn denies(self, d: Denial) -> bool {
        self.is(d.0, d.1)
    }

    pub fn new(status: u16, message: String) -> (res: Self)
        ensures
            res.is(status, message@),
    {
        let title = if status == 404 {
            copy_str("یافت نشد")
        } else if status == 401 {
            copy_str("عدم دسترسی")
        } else if status == 403 {
            copy_str("ممنوع")
        } else if status == 410 {
            copy_str("منقضی شده")
        } else if status == 500 {
            copy_str("خطای سرور")
        } else {
            copy_str("خطا")
        };
        ShareError { code: u64_to_string(status as u64), title, message }
    }

    /// The error for a refusal.
    pub fn from_denial(status: u16, message: &str) -> (res: Self)
        ensures
            res.is(status, message@),
    {
        ShareError::new(status, copy_str(message))
    }
}

// ---------------------------------------------------------------------------
// Messages
// ---------------------------------------------------------------------------

pub open spec fn msg_config() -> Seq<char> {
    "خطا در پیکربندی سیستم"@
}

pub open spec fn msg_password_required() -> Seq<char> {
    "برای مشاهده این متن وارد کردن پسورد الزامی می باشد."@
}

pub open spec fn msg_password_wrong() -> Seq<char> {
    "پسورد نادرست است."@
}

pub open spec fn msg_password_check_failed() -> Seq<char> {
    "خطا در بررسی رمز عبور"@
}

pub open spec fn msg_ip_forbidden() -> Seq<char> {
    "دسترسی از این آی پی مجاز نیست."@
}

pub open spec fn msg_ip_check_failed() -> Seq<char> {
    "خطا در بررسی آی پی"@
}

pub open spec fn msg_one_time_consumed() -> Seq<char> {
    "این اشتراک گذاری یکبار مصرف بوده و قبلاً استفاده شده است."@
}

pub open spec fn msg_view_limit() -> Seq<char> {
    "حداکثر تعداد مشاهده به پایان رسیده است."@
}

pub open spec fn msg_decrypt_failed() -> Seq<char> {
    "خطا در رمزگشایی محتوا"@
}

pub open spec fn msg_no_file() -> Seq<char> {
    "فایلی برای این اشتراک وجود ندارد."@
}

// ---------------------------------------------------------------------------
// Checks
// ---------------------------------------------------------------------------

/// The outcome of checking a value against a stored hash.
#[derive(Debug, Clone, Copy, PartialEq, Eq, Structural)]
pub enum HashCheck {
    Match,
    Mismatch,
    Failed,
}

/// What the password check refuses, if anything. `check` is the outcome of
/// verifying the provided password against the stored hash; it only counts
/// when both are present.
pub open spec fn password_denial(s: ShareForm, password_given: bool, check: HashCheck) -> Option<Denial> {
    if !flag(s.require_password) {
        None
    } else if s.password is None {
        Some((500u16, msg_config()))
    } else if !password_given {
        Some((401u16, msg_password_required()))
    } else {
        match check {
            HashCheck::Match => None,
            HashCheck::Mismatch => Some((401u16, msg_password_wrong())),
            HashCheck::Failed => Some((500u16, msg_password_check_failed())),
        }
    }
}

/// What the IP check refuses, if anything. `check` is the outcome of
/// verifying the request's IP against the stored hash.
pub open spec fn ip_denial(s: ShareForm, check: HashCheck) -> Option<Denial> {
    if !flag(s.restrict_ip) {
        None
    } else if s.ip is None {
        Some((500u16, msg_config()))
    } else {
        match check {
            HashCheck::Match => None,
            HashCheck::Mismatch => Some((403u16, msg_ip_forbidden())),
            HashCheck::Failed => Some((500u16, msg_ip_check_failed())),
        }
    }
}

/// The access check: the password first, then the IP.
pub open spec fn access_denial(s: ShareForm, password_given: bool, pw: HashCheck, ip: HashCheck) -> Option<Denial> {
    match password_denial(s, password_given, pw) {
        Some(d) => Some(d),
        None => ip_denial(s, ip),
    }
}

/// What the view limits refuse, if anything.
pub open spec fn show_limit_denial(s: ShareForm) -> Option<Denial> {
    if flag(s.one_time_use) && s.has_file() && flag(s.downloaded) {
        Some((410u16, msg_one_time_consumed()))
    } else if flag(s.one_time_use) && !s.has_file() && s.views() >= 1 {
        Some((410u16, msg_one_time_consumed()))
    } else {
        match s.max_views {
            Some(m) => if m.limit() != -1 && s.views() >= m.limit() {
                Some((410u16, msg_view_limit()))
            } else {
                None
            },
            None => None,
        }
    }
}

/// What the download limit refuses, if anything.
pub open spec fn download_limit_denial(s: ShareForm) -> Option<Denial> {
    if flag(s.one_time_use) && flag(s.downloaded) {
        Some((410u16, msg_one_time_consumed()))
    } else {
        None
    }
}

/// The stored share after a successful view.
pub open spec fn viewed_once_more(s: ShareForm) -> ShareForm {
    ShareForm { viewed: Some((s.views() + 1) as u64), ..s }
}

/// The stored share after a successful one-time download.
pub open spec fn marked_downloaded(s: ShareForm) -> ShareForm {
    ShareForm { downloaded: Some(true), ..s }
}

/// A view of a stored share: refused by the access check or the view
/// limits, otherwise the share with one more view.
pub open spec fn view_transition(s: ShareForm, password_given: bool, pw: HashCheck, ip: HashCheck) -> Result<ShareForm, Denial> {
    match access_denial(s, password_given, pw, ip) {
        Some(d) => Err(d),
        None => match show_limit_denial(s) {
            Some(d) => Err(d),
            None => Ok(viewed_once_more(s)),
        },
    }
}

/// A one-time download of a stored share: refused by the access check or the
/// download limit, otherwise the share marked as downloaded.
pub open spec fn download_transition(s: ShareForm, password_given: bool, pw: HashCheck, ip: HashCheck) -> Result<ShareForm, Denial> {
    match access_denial(s, password_given, pw, ip) {
        Some(d) => Err(d),
        None => match download_limit_denial(s) {
            Some(d) => Err(d),
            None => Ok(marked_downloaded(s)),
        },
    }
}

/// The password check of a request under the server secret: when the share
/// requires a password and both the stored hash and a provided password are
/// there, a match exactly when the provided password hashes to the stored
/// hash. (In the other cases the check does not count.)
pub open spec fn password_check(secret: Seq<char>, s: ShareForm, provided: Option<Seq<char>>) -> HashCheck {
    if flag(s.require_password) && s.password is Some && provided is Some {
        if hash_spec(secret, provided->Some_0) == s.password->Some_0@ {
            HashCheck::Match
        } else {
            HashCheck::Mismatch
        }
    } else {
        HashCheck::Match
    }
}

/// The IP check of a request under the server secret: when access is
/// restricted and an IP hash is stored, a match exactly when the request's
/// IP hashes to it.
pub open spec fn ip_check(secret: Seq<char>, s: ShareForm, ip: Seq<char>) -> HashCheck {
    if flag(s.restrict_ip) && s.ip is Some {
        if hash_spec(secret, ip) == s.ip->Some_0@ {
            HashCheck::Match
        } else {
            HashCheck::Mismatch
        }
    } else {
        HashCheck::Match
    }
}

pub open spec fn opt_str_view(o: Option<String>) -> Option<Seq<char>> {
    match o {
        Some(s) => Some(s@),
        None => None,
    }
}

pub struct ShareRetrieve;

impl ShareRetrieve {
    fn verify_password(share_data: &ShareForm, provided_password: &Option<String>, check: HashCheck) -> (res: Result<(), ShareError>)
        ensures
            match password_denial(*share_data, provided_password is Some, check) {
                Some(d) => res matches Err(e) && e.denies(d),
                None => res is Ok,
            },
    {
        if !share_data.require_password.unwrap_or(false) {
            return Ok(());
        }
        if share_data.password.is_none() {
            return Err(ShareError::from_denial(500, "خطا در پیکربندی سیستم"));
        }
        if provided_password.is_none() {
            return Err(
                ShareError::from_denial(401, "برای مشاهده این متن وارد کردن پسورد الزامی می باشد."),
            );
        }
        match check {
            HashCheck::Match => Ok(()),
            HashCheck::Mismatch => Err(ShareError::from_denial(401, "پسورد نادرست است.")),
            HashCheck::Failed => Err(ShareError::from_denial(500, "خطا در بررسی رمز عبور")),
        }
    }

    fn verify_ip(share_data: &ShareForm, check: HashCheck) -> (res: Result<(), ShareError>)
        ensures
            match ip_denial(*share_data, check) {
                Some(d) => res matches Err(e) && e.denies(d),
                None => res is Ok,
            },
    {
        if !share_data.restrict_ip.unwrap_or(false) {
            return Ok(());
        }
        if share_data.ip.is_none() {
            return Err(ShareError::from_denial(500, "خطا در پیکربندی سیستم"));
        }
        match check {
            HashCheck::Match => Ok(()),
            HashCheck::Mismatch => Err(ShareError::from_denial(403, "دسترسی از این آی پی مجاز نیست.")),
            HashCheck::Failed => Err(ShareError::from_denial(500, "خطا در بررسی آی پی")),
        }
    }

    /// The access check for a request: the password, then the IP. `pw` and
    /// `ip` are the outcomes of checking the request's password and IP
    /// against the stored hashes.
    pub fn validate_access(share_data: &ShareForm, request: &ShowRequest, pw: HashCheck, ip: HashCheck) -> (res: Result<(), ShareError>)
        ensures
            match access_denial(*share_data, request.password is Some, pw, ip) {
                Some(d) => res matches Err(e) && e.denies(d),
                None => res is Ok,
            },
    {
        Self::verify_password(share_data, &request.password, pw)?;
        Self::verify_ip(share_data, ip)?;
        Ok(())
    }

    pub fn has_attached_file(share_data: &ShareForm) -> (res: bool)
        ensures
            res == share_data.has_file(),
    {
        share_data.file_stored_name.is_some()
    }

    fn one_time_consumed_error() -> (res: ShareError)
        ensures
            res.is(410, msg_one_time_consumed()),
    {
        ShareError::from_denial(410, "این اشتراک گذاری یکبار مصرف بوده و قبلاً استفاده شده است.")
    }

    pub fn check_show_limits(share_data: &ShareForm) -> (res: Result<(), ShareError>)
        ensures
            match show_limit_denial(*share_data) {
                Some(d) => res matches Err(e) && e.denies(d),
                None => res is Ok,
            },
    {
        let current_views = share_data.viewed.unwrap_or(0);
        let one_time = share_data.one_time_use.unwrap_or(false);
        if one_time {
            if Self::has_attached_file(share_data) {
                if share_data.downloaded.unwrap_or(false) {
                    return Err(Self::one_time_consumed_error());
                }
            } else if current_views >= 1 {
                return Err(Self::one_time_consumed_error());
            }
        }
        if let Some(max_views) = &share_data.max_views {
            let limit = max_views.as_int();
            if limit != -1 && current_views >= limit as u64 {
                return Err(ShareError::from_denial(410, "حداکثر تعداد مشاهده به پایان رسیده است."));
            }
        }
        Ok(())
    }

    pub fn check_download_limits(share_data: &ShareForm) -> (res: Result<(), ShareError>)
        ensures
            match download_limit_denial(*share_data) {
                Some(d) => res matches Err(e) && e.denies(d),
                None => res is Ok,
            },
    {
        if share_data.one_time_use.unwrap_or(false) && share_data.downloaded.unwrap_or(false) {
            return Err(Self::one_time_consumed_error());
        }
        Ok(())
    }

    /// The change that viewing makes to the stored share: checked access and
    /// view limits, then one more view. On a refusal the share is unchanged.
    pub fn apply_view(share: &mut ShareForm, request: &ShowRequest, pw: HashCheck, ip: HashCheck) -> (res: Result<(), ShareError>)
        requires
            old(share).views() < u64::MAX,
        ensures
            match view_transition(*old(share), request.password is Some, pw, ip) {
                Ok(t) => res is Ok && *final(share) == t,
                Err(d) => res matches Err(e) && e.denies(d) && *final(share) == *old(share),
            },
    {
        Self::validate_access(share, request, pw, ip)?;
        Self::check_show_limits(share)?;
        let views = share.viewed.unwrap_or(0);
        share.viewed = Some(views + 1);
        Ok(())
    }

    /// The change that a one-time download makes to the stored share: checked
    /// access and download limit, then marked as downloaded.
    pub fn apply_download(share: &mut ShareForm, request: &ShowRequest, pw: HashCheck, ip: HashCheck) -> (res: Result<(), ShareError>)
        ensures
            match download_transition(*old(share), request.password is Some, pw, ip) {
                Ok(t) => res is Ok && *final(share) == t,
                Err(d) => res matches Err(e) && e.denies(d) && *final(share) == *old(share),
            },
    {
        Self::validate_access(share, request, pw, ip)?;
        Self::check_download_limits(share)?;
        share.downloaded = Some(true);
        Ok(())
    }

    /// A download that does not change the stored share: checked access and
    /// download limit.
    pub fn authorize_download(share: &ShareForm, request: &ShowRequest, pw: HashCheck, ip: HashCheck) -> (res: Result<(), ShareError>)
        ensures
            match download_transition(*share, request.password is Some, pw, ip) {
                Ok(_) => res is Ok,
                Err(d) => res matches Err(e) && e.denies(d),
            },
    {
        Self::validate_access(share, request, pw, ip)?;
        Self::check_download_limits(share)?;
        Ok(())
    }

    /// The password and IP checks of a request against a stored share, with
    /// the hashes computed under the server secret (`verify`).
    pub fn hash_checks(secret: &str, share: &ShareForm, request: &ShowRequest) -> (res: (HashCheck, HashCheck))
        ensures
            res.0 == password_check(secret@, *share, opt_str_view(request.password)),
            res.1 == ip_check(secret@, *share, request.ip@),
    {
        let pw = match (&request.password, &share.password) {
            (Some(p), Some(h)) => if share.require_password.unwrap_or(false) {
                verify(secret, p.as_str(), h.as_str())
            } else {
                HashCheck::Match
            },
            _ => HashCheck::Match,
        };
        let ip = match &share.ip {
            Some(h) => if share.restrict_ip.unwrap_or(false) {
                verify(secret, request.ip.as_str(), h.as_str())
            } else {
                HashCheck::Match
            },
            None => HashCheck::Match,
        };
        (pw, ip)
    }

    /// A view checked under the server secret: `apply_view` with the hash
    /// checks of `hash_checks`.
    pub fn view_with_secret(share: &mut ShareForm, request: &ShowRequest, secret: &str) -> (res: Result<(), ShareError>)
        requires
            old(share).views() < u64::MAX,
        ensures
            match view_transition(
                *old(share),
                request.password is Some,
                password_check(secret@, *old(share), opt_str_view(request.password)),
                ip_check(secret@, *old(share), request.ip@),
            ) {
                Ok(t) => res is Ok && *final(share) == t,
                Err(d) => res matches Err(e) && e.denies(d) && *final(share) == *old(share),
            },
    {
        let (pw, ip) = Self::hash_checks(secret, share, request);
        Self::apply_view(share, request, pw, ip)
    }

    /// A one-time download checked under the server secret: `apply_download`
    /// with the hash checks of `hash_checks`.
    pub fn download_with_secret(share: &mut ShareForm, request: &ShowRequest, secret: &str) -> (res: Result<(), ShareError>)
        ensures
            match download_transition(
                *old(share),
                request.password is Some,
                password_check(secret@, *old(share), opt_str_view(request.password)),
                ip_check(secret@, *old(share), request.ip@),
            ) {
                Ok(t) => res is Ok && *final(share) == t,
                Err(d) => res matches Err(e) && e.denies(d) && *final(share) == *old(share),
            },
    {
        let (pw, ip) = Self::hash_checks(secret, share, request);
        Self::apply_download(share, request, pw, ip)
    }

    /// A download that does not change the share, checked under the server
    /// secret: `authorize_download` with the hash checks of `hash_checks`.
    pub fn authorize_with_secret(share: &ShareForm, request: &ShowRequest, secret: &str) -> (res: Result<(), ShareError>)
        ensures
            match download_transition(
                *share,
                request.password is Some,
                password_check(secret@, *share, opt_str_view(request.password)),
                ip_check(secret@, *share, request.ip@),
            ) {
                Ok(_) => res is Ok,
                Err(d) => res matches Err(e) && e.denies(d),
            },
    {
        let (pw, ip) = Self::hash_checks(secret, share, request);
        Self::authorize_download(share, request, pw, ip)
    }

    /// Replaces the stored (encrypted) note by its plaintext under the share
    /// key. An empty note becomes no note; a note that does not decrypt is a
    /// server error.
    pub fn decrypt_note(share_data: &mut ShareForm, key: &str) -> (res: Result<(), ShareError>)
        ensures
            match old(share_data).note {
                None => res is Ok && *final(share_data) == *old(share_data),
                Some(n) => if n@.len() == 0 {
                    res is Ok && *final(share_data) == ShareForm { note: None, ..*old(share_data) }
                } else {
                    match res {
                        Ok(_) => {
                            &&& final(share_data).note matches Some(plain)
                            &&& decrypts_to(n@, key@, plain@)
                            &&& *final(share_data) == ShareForm {
                                note: final(share_data).note,
                                ..*old(share_data)
                            }
                        },
                        Err(e) => {
                            &&& e.is(500, msg_decrypt_failed())
                            &&& *final(share_data) == *old(share_data)
                            &&& forall|t: Seq<char>| !decrypts_to(n@, key@, t)
                        },
                    }
                },
            },
            forall|t: Seq<char>|
                #![trigger is_sealed_note(old(share_data).note->Some_0@, t, key@)]
                old(share_data).note is Some && old(share_data).note->Some_0@.len() > 0
                    && is_sealed_note(old(share_data).note->Some_0@, t, key@) ==> (res is Ok
                    && (final(share_data).note matches Some(plain) && plain@ == t)),
    {
        let encrypted = match &share_data.note {
            Some(n) => n,
            None => {
                return Ok(());
            },
        };
        if encrypted.as_str().unicode_len() == 0 {
            share_data.note = None;
            return Ok(());
        }
        match decrypt(encrypted.as_str(), key) {
            Ok(plain) => {
                share_data.note = Some(plain);
                Ok(())
            },
            Err(_) => Err(ShareError::from_denial(500, "خطا در رمزگشایی محتوا")),
        }
    }

    /// How a file download goes on after a first look at the share: refused
    /// when there is no file, consumed atomically for a one-time share,
    /// otherwise only authorized.
    pub fn download_mode(peek: &ShareForm) -> (res: Result<DownloadMode, ShareError>)
        ensures
            !peek.has_file() ==> (res matches Err(e) && e.is(404, msg_no_file())),
            peek.has_file() && flag(peek.one_time_use) ==> res == Ok::<
                DownloadMode,
                ShareError,
            >(DownloadMode::Consume),
            peek.has_file() && !flag(peek.one_time_use) ==> res == Ok::<
                DownloadMode,
                ShareError,
            >(DownloadMode::Authorize),
    {
        if peek.file_stored_name.is_none() {
            return Err(ShareError::from_denial(404, "فایلی برای این اشتراک وجود ندارد."));
        }
        if peek.one_time_use.unwrap_or(false) {
            Ok(DownloadMode::Consume)
        } else {
            Ok(DownloadMode::Authorize)
        }
    }
}

/// How a file download is carried out.
#[derive(Debug, Clone, Copy, PartialEq, Eq, Structural)]
pub enum DownloadMode {
    /// Mark the share as downloaded in the same atomic update.
    Consume,
    /// Check access without changing the share.
    Authorize,
}

// ---------------------------------------------------------------------------
// Laws of access
// ---------------------------------------------------------------------------

/// A successful view adds exactly one to the view count and changes nothing else.
pub proof fn law_view_counts_once(s: ShareForm, password_given: bool, pw: HashCheck, ip: HashCheck)
    requires
        s.views() < u64::MAX,
    ensures
        view_transition(s, password_given, pw, ip) matches Ok(t) ==> (t == viewed_once_more(s)
            && t.views() == s.views() + 1),
{
}

/// Neither a view nor a download is granted without the password when the
/// share requires one, nor from another IP when the share is locked to one.
pub proof fn law_access_is_checked(s: ShareForm, password_given: bool, pw: HashCheck, ip: HashCheck)
    ensures
        view_transition(s, password_given, pw, ip) is Ok || download_transition(
            s,
            password_given,
            pw,
            ip,
        ) is Ok ==> {
            &&& flag(s.require_password) ==> password_given && pw == HashCheck::Match
            &&& flag(s.restrict_ip) ==> ip == HashCheck::Match
        },
{
}

/// A view is granted only while the count is below the limit, so a share's
/// view count never passes its limit.
pub proof fn law_view_limit(s: ShareForm, password_given: bool, pw: HashCheck, ip: HashCheck)
    requires
        s.max_views matches Some(m) && m.limit() != -1,
        s.views() < u64::MAX,
    ensures
        view_transition(s, password_given, pw, ip) matches Ok(t) ==> t.views() <= s.max_views.unwrap().limit(),
{
}

/// `n` views in a row, each with the same request.
pub open spec fn view_run(s: ShareForm, n: nat, password_given: bool, pw: HashCheck, ip: HashCheck) -> Result<ShareForm, Denial>
    decreases n,
{
    if n == 0 {
        Ok(s)
    } else {
        match view_run(s, (n - 1) as nat, password_given, pw, ip) {
            Ok(t) => view_transition(t, password_given, pw, ip),
            Err(d) => Err(d),
        }
    }
}

proof fn lemma_view_run(s: ShareForm, n: nat, password_given: bool, pw: HashCheck, ip: HashCheck)
    requires
        s.views() + n <= u64::MAX,
    ensures
        view_run(s, n, password_given, pw, ip) matches Ok(t) ==> {
            &&& t.views() == s.views() + n
            &&& t.max_views == s.max_views
            &&& t.one_time_use == s.one_time_use
            &&& t.file_stored_name == s.file_stored_name
            &&& (n > 0 ==> (s.max_views matches Some(m) ==> (m.limit() != -1 ==> t.views() <= m.limit())))
            &&& (n > 0 && flag(s.one_time_use) && !s.has_file() ==> t.views() <= 1)
        },
    decreases n,
{
    if n > 0 {
        lemma_view_run(s, (n - 1) as nat, password_given, pw, ip);
    }
}

/// Starting from no views, a share with a view limit `L` is shown at most `L`
/// times, and a one-time share without a file at most once.
pub proof fn law_successful_views_bounded(s: ShareForm, n: nat, password_given: bool, pw: HashCheck, ip: HashCheck)
    requires
        s.views() == 0,
        n <= u64::MAX,
        view_run(s, n, password_given, pw, ip) is Ok,
    ensures
        s.max_views matches Some(m) ==> (m.limit() != -1 ==> n <= m.limit()),
        flag(s.one_time_use) && !s.has_file() ==> n <= 1,
{
    lemma_view_run(s, n, password_given, pw, ip);
}

/// After a one-time share without a file has been viewed, every further view
/// is refused as consumed.
pub proof fn law_one_time_text_viewed_once(s: ShareForm, g1: bool, pw1: HashCheck, ip1: HashCheck, g2: bool, pw2: HashCheck, ip2: HashCheck)
    requires
        flag(s.one_time_use),
        !s.has_file(),
        s.views() < u64::MAX,
        view_transition(s, g1, pw1, ip1) is Ok,
    ensures
        match view_transition(view_transition(s, g1, pw1, ip1)->Ok_0, g2, pw2, ip2) {
            Ok(_) => false,
            Err(d) => d == (410u16, msg_one_time_consumed()) || access_denial(s, g2, pw2, ip2) == Some(d),
        },
{
}

/// After a one-time file share has been downloaded, every further download
/// and every further view is refused (as consumed, unless the access check
/// refuses first).
pub proof fn law_one_time_file_downloaded_once(s: ShareForm, g1: bool, pw1: HashCheck, ip1: HashCheck, g2: bool, pw2: HashCheck, ip2: HashCheck)
    requires
        flag(s.one_time_use),
        s.has_file(),
        download_transition(s, g1, pw1, ip1) is Ok,
    ensures
        match download_transition(download_transition(s, g1, pw1, ip1)->Ok_0, g2, pw2, ip2) {
            Ok(_) => false,
            Err(d) => d == (410u16, msg_one_time_consumed()) || access_denial(s, g2, pw2, ip2) == Some(d),
        },
        match view_transition(download_transition(s, g1, pw1, ip1)->Ok_0, g2, pw2, ip2) {
            Ok(_) => false,
            Err(d) => d == (410u16, msg_one_time_consumed()) || access_denial(s, g2, pw2, ip2) == Some(d),
        },
{
}

/// A download leaves the view count alone, and a view leaves the download mark alone.
pub proof fn law_view_and_download_independent(s: ShareForm, g: bool, pw: HashCheck, ip: HashCheck)
    ensures
        download_transition(s, g, pw, ip) matches Ok(t) ==> t.viewed == s.viewed,
        view_transition(s, g, pw, ip) matches Ok(t) ==> t.downloaded == s.downloaded,
{
}

/// Under the server secret, a view or download of a share that requires a
/// password is granted only when a password was given whose hash is the
/// stored hash, and of a share locked to an IP only when the request's IP
/// hashes to the stored IP hash.
pub proof fn law_access_needs_matching_hashes(secret: Seq<char>, s: ShareForm, password: Option<Seq<char>>, ip: Seq<char>)
    ensures
        ({
            let pw = password_check(secret, s, password);
            let ipc = ip_check(secret, s, ip);
            view_transition(s, password is Some, pw, ipc) is Ok || download_transition(
                s,
                password is Some,
                pw,
                ipc,
            ) is Ok ==> {
                &&& flag(s.require_password) ==> (password is Some && s.password is Some && hash_spec(
                    secret,
                    password->Some_0,
                ) == s.password->Some_0@)
                &&& flag(s.restrict_ip) ==> (s.ip is Some && hash_spec(secret, ip) == s.ip->Some_0@)
            }
        }),
{
}

} // verus!
