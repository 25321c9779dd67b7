//! Reading the multipart create form: how large each field may be, what
//! each field's text sets, and the checks once all fields are read. The
//! fields themselves are streamed by the caller.

use crate::features::share::form::{
    parse_bool, parse_bool_spec, parse_expiry, parse_max_views, expiry_from_text,
    max_views_from_text, CreateShareInput, ShareForm, flag,
};
use crate::features::storage::service::UploadedFile;
use crate::text::{copy_str, from_chars, str_eq, trim, trim_str};
use crate::web::response::ApiError;
use vstd::prelude::*;

verus! {

pub const MAX_NOTE_LEN: usize = 10000;

pub const MAX_PASSWORD_LEN: usize = 24;

pub const MAX_IP_FIELD_LEN: usize = 45;

pub const MAX_TEXT_FIELD_LEN: usize = 64;

/// The fields of the create form.
#[derive(Debug, Clone, Copy, PartialEq, Eq, Structural)]
pub enum FormField {
    Note,
    Expiry,
    MaxViews,
    OneTimeUse,
    RestrictIp,
    RequirePassword,
    Password,
    Ip,
    File,
    Other,
}

pub open spec fn field_of(name: Seq<char>) -> FormField {
    if name == "note"@ {
        FormField::Note
    } else if name == "expiry"@ {
        FormField::Expiry
    } else if name == "max_views"@ {
        FormField::MaxViews
    } else if name == "one_time_use"@ {
        FormField::OneTimeUse
    } else if name == "restrict_ip"@ {
        FormField::RestrictIp
    } else if name == "require_password"@ {
        FormField::RequirePassword
    } else if name == "password"@ {
        FormField::Password
    } else if name == "ip"@ {
        FormField::Ip
    } else if name == "file"@ {
        FormField::File
    } else {
        FormField::Other
    }
}

/// The form field of a multipart field name.
pub fn classify_field(name: &str) -> (res: FormField)
    ensures
        res == field_of(name@),
{
    if str_eq(name, "note") {
        FormField::Note
    } else if str_eq(name, "expiry") {
        FormField::Expiry
    } else if str_eq(name, "max_views") {
        FormField::MaxViews
    } else if str_eq(name, "one_time_use") {
        FormField::OneTimeUse
    } else if str_eq(name, "restrict_ip") {
        FormField::RestrictIp
    } else if str_eq(name, "require_password") {
        FormField::RequirePassword
    } else if str_eq(name, "password") {
        FormField::Password
    } else if str_eq(name, "ip") {
        FormField::Ip
    } else if str_eq(name, "file") {
        FormField::File
    } else {
        FormField::Other
    }
}

impl FormField {
    pub open spec fn limit_spec(self) -> Option<usize> {
        match self {
            FormField::Note => Some(10000usize),
            FormField::Password => Some(24usize),
            FormField::Ip => Some(45usize),
            FormField::Expiry | FormField::MaxViews | FormField::OneTimeUse | FormField::RestrictIp
            | FormField::RequirePassword => Some(64usize),
            FormField::File | FormField::Other => None,
        }
    }

    /// How many bytes a text field may hold; `None` for the file and for
    /// fields that are skipped.
    pub fn text_limit(&self) -> (res: Option<usize>)
        ensures
            res == self.limit_spec(),
    {
        match self {
            FormField::Note => Some(MAX_NOTE_LEN),
            FormField::Password => Some(MAX_PASSWORD_LEN),
            FormField::Ip => Some(MAX_IP_FIELD_LEN),
            FormField::Expiry | FormField::MaxViews | FormField::OneTimeUse | FormField::RestrictIp
            | FormField::RequirePassword => Some(MAX_TEXT_FIELD_LEN),
            FormField::File | FormField::Other => None,
        }
    }
}

/// A text field may take the next chunk while the total stays within its limit.
pub fn chunk_fits(current: usize, chunk: usize, max_bytes: usize) -> (res: bool)
    requires
        current + chunk <= usize::MAX,
    ensures
        res == (current + chunk <= max_bytes),
{
    current + chunk <= max_bytes
}

/// A file may take the next chunk while the (saturating) total stays within its limit.
pub fn file_chunk_fits(total: u64, chunk: u64, max_bytes: u64) -> (res: bool)
    ensures
        res == (if total + chunk > u64::MAX {
            u64::MAX
        } else {
            (total + chunk) as u64
        } <= max_bytes),
{
    let sum = match total.checked_add(chunk) {
        Some(s) => s,
        None => u64::MAX,
    };
    sum <= max_bytes
}

pub fn field_too_large() -> (res: ApiError)
    ensures
        res.is(400, "مقدار فیلد بیش از حد مجاز است."@),
{
    ApiError::new(400, "مقدار فیلد بیش از حد مجاز است.")
}

pub fn file_too_large() -> (res: ApiError)
    ensures
        res.is(413, "حجم فایل بیش از حد مجاز است."@),
{
    ApiError::new(413, "حجم فایل بیش از حد مجاز است.")
}

pub fn empty_file() -> (res: ApiError)
    ensures
        res.is(400, "فایل خالی مجاز نیست."@),
{
    ApiError::new(400, "فایل خالی مجاز نیست.")
}

pub fn bad_request() -> (res: ApiError)
    ensures
        res.is(400, "درخواست نامعتبر است."@),
{
    ApiError::new(400, "درخواست نامعتبر است.")
}

/// The name of an uploaded file: the one the client sent, or `upload.bin`.
pub fn upload_file_name(name: Option<&str>) -> (res: String)
    ensures
        res@ == match name {
            Some(n) => n@,
            None => "upload.bin"@,
        },
{
    match name {
        Some(n) => copy_str(n),
        None => copy_str("upload.bin"),
    }
}

/// The values read so far from a create form.
pub struct CreateFormBuilder {
    pub note: Option<String>,
    pub expiry: Option<crate::features::share::form::Expiry>,
    pub max_views: Option<crate::features::share::form::MaxViews>,
    pub one_time_use: Option<bool>,
    pub restrict_ip: Option<bool>,
    pub require_password: Option<bool>,
    pub password: Option<String>,
    pub ip: Option<String>,
    pub file: Option<UploadedFile>,
}

impl CreateFormBuilder {
    pub fn new() -> (res: Self)
        ensures
            res.note is None && res.expiry is None && res.max_views is None && res.one_time_use is None
                && res.restrict_ip is None && res.require_password is None && res.password is None
                && res.ip is None && res.file is None,
    {
        CreateFormBuilder {
            note: None,
            expiry: None,
            max_views: None,
            one_time_use: None,
            restrict_ip: None,
            require_password: None,
            password: None,
            ip: None,
            file: None,
        }
    }

    /// Records the text of one field.
    pub fn apply_text(&mut self, field: FormField, text: &str)
        ensures
            field == FormField::Note ==> (if trim(text@).len() > 0 {
                final(self).note matches Some(n) && n@ == trim(text@)
            } else {
                final(self).note == old(self).note
            }),
            field == FormField::Expiry ==> final(self).expiry == expiry_from_text(trim(text@)),
            field == FormField::MaxViews ==> final(self).max_views == max_views_from_text(trim(text@)),
            field == FormField::OneTimeUse ==> final(self).one_time_use == parse_bool_spec(Some(text@)),
            field == FormField::RestrictIp ==> final(self).restrict_ip == parse_bool_spec(Some(text@)),
            field == FormField::RequirePassword ==> final(self).require_password == parse_bool_spec(
                Some(text@),
            ),
            field == FormField::Password ==> (if trim(text@).len() > 0 {
                final(self).password matches Some(p) && p@ == text@
            } else {
                final(self).password == old(self).password
            }),
            field == FormField::Ip ==> (if trim(text@).len() > 0 {
                final(self).ip matches Some(p) && p@ == text@
            } else {
                final(self).ip == old(self).ip
            }),
            field != FormField::Note ==> final(self).note == old(self).note,
            field != FormField::Expiry ==> final(self).expiry == old(self).expiry,
            field != FormField::MaxViews ==> final(self).max_views == old(self).max_views,
            field != FormField::OneTimeUse ==> final(self).one_time_use == old(self).one_time_use,
            field != FormField::RestrictIp ==> final(self).restrict_ip == old(self).restrict_ip,
            field != FormField::RequirePassword ==> final(self).require_password == old(
                self,
            ).require_password,
            field != FormField::Password ==> final(self).password == old(self).password,
            field != FormField::Ip ==> final(self).ip == old(self).ip,
            final(self).file == old(self).file,
    {
        match field {
            FormField::Note => {
                let trimmed = trim_str(text);
                if trimmed.len() > 0 {
                    self.note = Some(from_chars(trimmed.as_slice()));
                }
            },
            FormField::Expiry => {
                self.expiry = parse_expiry(Some(text));
            },
            FormField::MaxViews => {
                self.max_views = parse_max_views(Some(text));
            },
            FormField::OneTimeUse => {
                self.one_time_use = parse_bool(Some(text));
            },
            FormField::RestrictIp => {
                self.restrict_ip = parse_bool(Some(text));
            },
            FormField::RequirePassword => {
                self.require_password = parse_bool(Some(text));
            },
            FormField::Password => {
                if trim_str(text).len() > 0 {
                    self.password = Some(copy_str(text));
                }
            },
            FormField::Ip => {
                if trim_str(text).len() > 0 {
                    self.ip = Some(copy_str(text));
                }
            },
            FormField::File | FormField::Other => {},
        }
    }

    /// Records the uploaded file.
    pub fn set_file(&mut self, file: UploadedFile)
        ensures
            final(self).file == Some(file),
            final(self).note == old(self).note,
            final(self).password == old(self).password,
            final(self).ip == old(self).ip,
            final(self).expiry == old(self).expiry,
            final(self).max_views == old(self).max_views,
            final(self).one_time_use == old(self).one_time_use,
            final(self).restrict_ip == old(self).restrict_ip,
            final(self).require_password == old(self).require_password,
    {
        self.file = Some(file);
    }

    /// The create input, refused when a file came but uploads are not available.
    pub fn finish(self, upload_available: bool) -> (res: Result<CreateShareInput, ApiError>)
        ensures
            self.file is Some && !upload_available ==> (res matches Err(e) && e.is(400, "آپلود فایل غیرفعال است."@)),
            !(self.file is Some && !upload_available) ==> (res matches Ok(input) && {
                &&& input.file == self.file
                &&& input.form.note == self.note
                &&& input.form.expiry == self.expiry
                &&& input.form.max_views == self.max_views
                &&& input.form.one_time_use == self.one_time_use
                &&& input.form.restrict_ip == self.restrict_ip
                &&& input.form.require_password == self.require_password
                &&& input.form.password == self.password
                &&& input.form.ip == self.ip
                &&& input.form.viewed is None
                &&& input.form.downloaded is None
                &&& input.form.token is None
                &&& input.form.file_stored_name is None
                &&& input.form.file_original_name is None
                &&& input.form.file_size is None
            }),
    {
        if self.file.is_some() && !upload_available {
            return Err(ApiError::new(400, "آپلود فایل غیرفعال است."));
        }
        let form = ShareForm {
            note: self.note,
            expiry: self.expiry,
            max_views: self.max_views,
            viewed: None,
            downloaded: None,
            one_time_use: self.one_time_use,
            restrict_ip: self.restrict_ip,
            require_password: self.require_password,
            password: self.password,
            ip: self.ip,
            token: None,
            file_stored_name: None,
            file_original_name: None,
            file_size: None,
        };
        Ok(CreateShareInput { form, file: self.file })
    }
}

/// Each name of the create form maps to its own field, every other name to
/// `Other`, and no two names to the same field.
pub proof fn law_form_fields_by_name(a: Seq<char>, b: Seq<char>)
    ensures
        field_of("note"@) == FormField::Note,
        field_of("expiry"@) == FormField::Expiry,
        field_of("max_views"@) == FormField::MaxViews,
        field_of("one_time_use"@) == FormField::OneTimeUse,
        field_of("restrict_ip"@) == FormField::RestrictIp,
        field_of("require_password"@) == FormField::RequirePassword,
        field_of("password"@) == FormField::Password,
        field_of("ip"@) == FormField::Ip,
        field_of("file"@) == FormField::File,
        field_of(a) == field_of(b) && field_of(a) != FormField::Other ==> a == b,
        field_of(a) == FormField::Other <==> !(a == "note"@ || a == "expiry"@ || a == "max_views"@
            || a == "one_time_use"@ || a == "restrict_ip"@ || a == "require_password"@ || a == "password"@
            || a == "ip"@ || a == "file"@),
{
    reveal_strlit("note");
    reveal_strlit("expiry");
    reveal_strlit("max_views");
    reveal_strlit("one_time_use");
    reveal_strlit("restrict_ip");
    reveal_strlit("require_password");
    reveal_strlit("password");
    reveal_strlit("ip");
    reveal_strlit("file");
    assert("expiry"@ != "note"@) by {
        assert("expiry"@.len() != "note"@.len());
    }
    assert("max_views"@ != "note"@) by {
        assert("max_views"@.len() != "note"@.len());
    }
    assert("max_views"@ != "expiry"@) by {
        assert("max_views"@.len() != "expiry"@.len());
    }
    assert("one_time_use"@ != "note"@) by {
        assert("one_time_use"@.len() != "note"@.len());
    }
    assert("one_time_use"@ != "expiry"@) by {
        assert("one_time_use"@.len() != "expiry"@.len());
    }
    assert("one_time_use"@ != "max_views"@) by {
        assert("one_time_use"@.len() != "max_views"@.len());
    }
    assert("restrict_ip"@ != "note"@) by {
        assert("restrict_ip"@.len() != "note"@.len());
    }
    assert("restrict_ip"@ != "expiry"@) by {
        assert("restrict_ip"@.len() != "expiry"@.len());
    }
    assert("restrict_ip"@ != "max_views"@) by {
        assert("restrict_ip"@.len() != "max_views"@.len());
    }
    assert("restrict_ip"@ != "one_time_use"@) by {
        assert("restrict_ip"@.len() != "one_time_use"@.len());
    }
    assert("require_password"@ != "note"@) by {
        assert("require_password"@.len() != "note"@.len());
    }
    assert("require_password"@ != "expiry"@) by {
        assert("require_password"@.len() != "expiry"@.len());
    }
    assert("require_password"@ != "max_views"@) by {
        assert("require_password"@.len() != "max_views"@.len());
    }
    assert("require_password"@ != "one_time_use"@) by {
        assert("require_password"@.len() != "one_time_use"@.len());
    }
    assert("require_password"@ != "restrict_ip"@) by {
        assert("require_password"@.len() != "restrict_ip"@.len());
    }
    assert("password"@ != "note"@) by {
        assert("password"@.len() != "note"@.len());
    }
    assert("password"@ != "expiry"@) by {
        assert("password"@.len() != "expiry"@.len());
    }
    assert("password"@ != "max_views"@) by {
        assert("password"@.len() != "max_views"@.len());
    }
    assert("password"@ != "one_time_use"@) by {
        assert("password"@.len() != "one_time_use"@.len());
    }
    assert("password"@ != "restrict_ip"@) by {
        assert("password"@.len() != "restrict_ip"@.len());
    }
    assert("password"@ != "require_password"@) by {
        assert("password"@.len() != "require_password"@.len());
    }
    assert("ip"@ != "note"@) by {
        assert("ip"@.len() != "note"@.len());
    }
    assert("ip"@ != "expiry"@) by {
        assert("ip"@.len() != "expiry"@.len());
    }
    assert("ip"@ != "max_views"@) by {
        assert("ip"@.len() != "max_views"@.len());
    }
    assert("ip"@ != "one_time_use"@) by {
        assert("ip"@.len() != "one_time_use"@.len());
    }
    assert("ip"@ != "restrict_ip"@) by {
        assert("ip"@.len() != "restrict_ip"@.len());
    }
    assert("ip"@ != "require_password"@) by {
        assert("ip"@.len() != "require_password"@.len());
    }
    assert("ip"@ != "password"@) by {
        assert("ip"@.len() != "password"@.len());
    }
    assert("file"@ != "note"@) by {
        assert("file"@[0] != "note"@[0]);
    }
    assert("file"@ != "expiry"@) by {
        assert("file"@.len() != "expiry"@.len());
    }
    assert("file"@ != "max_views"@) by {
        assert("file"@.len() != "max_views"@.len());
    }
    assert("file"@ != "one_time_use"@) by {
        assert("file"@.len() != "one_time_use"@.len());
    }
    assert("file"@ != "restrict_ip"@) by {
        assert("file"@.len() != "restrict_ip"@.len());
    }
    assert("file"@ != "require_password"@) by {
        assert("file"@.len() != "require_password"@.len());
    }
    assert("file"@ != "password"@) by {
        assert("file"@.len() != "password"@.len());
    }
    assert("file"@ != "ip"@) by {
        assert("file"@.len() != "ip"@.len());
    }
}

} // verus!
