//! The share record and the values of the create form.

use crate::text::{seq_eq, to_lowercase, trim_str, unicode_lowercase, trim};
use vstd::prelude::*;

verus! {

/// How long a share lives, in minutes.
#[derive(Debug, Clone, Copy, PartialEq, Eq, Structural)]
pub enum Expiry {
    N5,
    N10,
    N30,
    N60,
    N180,
    N360,
    N720,
    N1440,
}

impl Expiry {
    pub open spec fn minutes(self) -> nat {
        match self {
            Expiry::N5 => 5,
            Expiry::N10 => 10,
            Expiry::N30 => 30,
            Expiry::N60 => 60,
            Expiry::N180 => 180,
            Expiry::N360 => 360,
            Expiry::N720 => 720,
            Expiry::N1440 => 1440,
        }
    }

    /// The lifetime in seconds.
    pub fn as_seconds(&self) -> (res: u64)
        ensures
            res == self.minutes() * 60,
    {
        match *self {
            Expiry::N5 => 5 * 60,
            Expiry::N10 => 10 * 60,
            Expiry::N30 => 30 * 60,
            Expiry::N60 => 60 * 60,
            Expiry::N180 => 180 * 60,
            Expiry::N360 => 360 * 60,
            Expiry::N720 => 720 * 60,
            Expiry::N1440 => 1440 * 60,
        }
    }
}

/// The view limit chosen on the form.
#[derive(Debug, Clone, Copy, PartialEq, Eq, Structural)]
#[allow(non_camel_case_types)]
pub enum MaxViews {
    V1,
    V5,
    V10,
    UNLIMITED,
}

impl MaxViews {
    /// The stored limit: one more than the label (the creator's own first
    /// view counts), or -1 for no limit.
    pub open spec fn limit(self) -> int {
        match self {
            MaxViews::V1 => 2,
            MaxViews::V5 => 6,
            MaxViews::V10 => 11,
            MaxViews::UNLIMITED => -1,
        }
    }

    pub fn as_int(&self) -> (res: i32)
        ensures
            res == self.limit(),
    {
        match *self {
            MaxViews::V1 => 2,
            MaxViews::V5 => 6,
            MaxViews::V10 => 11,
            MaxViews::UNLIMITED => -1,
        }
    }
}

/// A share as it is stored: the form's choices, the protected values in
/// hashed or encrypted form, counters, and the attached file if any.
#[derive(Debug)]
pub struct ShareForm {
    pub note: Option<String>,
    pub expiry: Option<Expiry>,
    pub max_views: Option<MaxViews>,
    pub viewed: Option<u64>,
    pub downloaded: Option<bool>,
    pub one_time_use: Option<bool>,
    pub restrict_ip: Option<bool>,
    pub require_password: Option<bool>,
    pub password: Option<String>,
    pub ip: Option<String>,
    pub token: Option<String>,
    pub file_stored_name: Option<String>,
    pub file_original_name: Option<String>,
    pub file_size: Option<u64>,
}

pub fn clone_opt_string(o: &Option<String>) -> (res: Option<String>)
    ensures
        res == *o,
{
    match o {
        Some(s) => Some(s.clone()),
        None => None,
    }
}

impl Clone for ShareForm {
    fn clone(&self) -> (res: Self)
        ensures
            res == *self,
    {
        ShareForm {
            note: clone_opt_string(&self.note),
            expiry: self.expiry,
            max_views: self.max_views,
            viewed: self.viewed,
            downloaded: self.downloaded,
            one_time_use: self.one_time_use,
            restrict_ip: self.restrict_ip,
            require_password: self.require_password,
            password: clone_opt_string(&self.password),
            ip: clone_opt_string(&self.ip),
            token: clone_opt_string(&self.token),
            file_stored_name: clone_opt_string(&self.file_stored_name),
            file_original_name: clone_opt_string(&self.file_original_name),
            file_size: self.file_size,
        }
    }
}

/// `Option<bool>::unwrap_or(false)`.
pub open spec fn flag(b: Option<bool>) -> bool {
    match b {
        Some(v) => v,
        None => false,
    }
}

impl ShareForm {
    /// A form with every field empty.
    pub fn empty() -> (res: Self)
        ensures
            res.note is None && res.expiry is None && res.max_views is None && res.viewed is None
                && res.downloaded is None && res.one_time_use is None && res.restrict_ip is None
                && res.require_password is None && res.password is None && res.ip is None
                && res.token is None && res.file_stored_name is None && res.file_original_name is None
                && res.file_size is None,
    {
        ShareForm {
            note: None,
            expiry: None,
            max_views: None,
            viewed: None,
            downloaded: None,
            one_time_use: None,
            restrict_ip: None,
            require_password: None,
            password: None,
            ip: None,
            token: None,
            file_stored_name: None,
            file_original_name: None,
            file_size: None,
        }
    }

    pub open spec fn views(self) -> nat {
        match self.viewed {
            Some(v) => v as nat,
            None => 0,
        }
    }

    pub open spec fn has_file(self) -> bool {
        self.file_stored_name is Some
    }
}

/// What the request to show or download a share carries.
#[derive(Debug)]
pub struct ShowRequest {
    pub key: String,
    pub password: Option<String>,
    pub ip: String,
}

/// The request to delete a share.
#[derive(Debug)]
pub struct DeleteRequest {
    pub key: String,
    pub token: String,
}

impl DeleteRequest {
    /// A delete request names a share and carries a token: both non-empty.
    pub fn is_valid(&self) -> (res: bool)
        ensures
            res == (self.key@.len() >= 1 && self.token@.len() >= 1),
    {
        self.key.as_str().unicode_len() >= 1 && self.token.as_str().unicode_len() >= 1
    }
}

/// The body of a delete request.
#[derive(Debug)]
pub struct DeletePayload {
    pub token: String,
}

/// The query of a show or download request.
#[derive(Debug)]
pub struct ShowQuery {
    pub password: Option<String>,
}

/// A request to update a share.
#[derive(Debug)]
pub struct UpdateRequest {
    pub key: String,
    pub note: Option<String>,
    pub expiry: Option<Expiry>,
    pub max_views: Option<MaxViews>,
    pub one_time_use: Option<bool>,
    pub restrict_ip: Option<bool>,
    pub require_password: Option<bool>,
    pub password: Option<String>,
    pub ip: Option<String>,
    pub token: String,
}

/// A share as the form describes it.
#[derive(Debug)]
pub struct Model {
    pub id: String,
    pub note: String,
    pub expiry: Expiry,
    pub max_views: MaxViews,
    pub one_time_use: bool,
    pub restrict_ip: bool,
    pub require_password: bool,
    pub password: Option<String>,
    pub ip: String,
}

/// What a create request carries: the form, and the uploaded file if any.
#[derive(Debug)]
pub struct CreateShareInput {
    pub form: ShareForm,
    pub file: Option<crate::features::storage::service::UploadedFile>,
}

// ---------------------------------------------------------------------------
// Parsing the values of the create form
// ---------------------------------------------------------------------------

pub open spec fn truthy_text(s: Seq<char>) -> bool {
    ||| s == seq!['t', 'r', 'u', 'e']
    ||| s == seq!['o', 'n']
    ||| s == seq!['1']
}

/// A checkbox value: `true`, `on` or `1` after trimming and lower-casing.
pub open spec fn parse_bool_spec(value: Option<Seq<char>>) -> Option<bool> {
    match value {
        Some(v) => Some(truthy_text(unicode_lowercase(trim(v)))),
        None => None,
    }
}

pub fn parse_bool(value: Option<&str>) -> (res: Option<bool>)
    ensures
        res == parse_bool_spec(
            match value {
                Some(v) => Some(v@),
                None => None,
            },
        ),
{
    match value {
        None => None,
        Some(v) => {
            let trimmed = crate::text::from_chars(trim_str(v).as_slice());
            let lower = to_lowercase(trimmed.as_str());
            let l = crate::text::to_chars(lower.as_str());
            let t = ['t', 'r', 'u', 'e'];
            let o = ['o', 'n'];
            let one = ['1'];
            assert(t@ =~= seq!['t', 'r', 'u', 'e']);
            assert(o@ =~= seq!['o', 'n']);
            assert(one@ =~= seq!['1']);
            Some(seq_eq(l.as_slice(), t.as_slice()) || seq_eq(l.as_slice(), o.as_slice()) || seq_eq(
                l.as_slice(),
                one.as_slice(),
            ))
        },
    }
}

pub open spec fn expiry_from_text(s: Seq<char>) -> Option<Expiry> {
    if s == seq!['5'] {
        Some(Expiry::N5)
    } else if s == seq!['1', '0'] {
        Some(Expiry::N10)
    } else if s == seq!['3', '0'] {
        Some(Expiry::N30)
    } else if s == seq!['6', '0'] {
        Some(Expiry::N60)
    } else if s == seq!['1', '8', '0'] {
        Some(Expiry::N180)
    } else if s == seq!['3', '6', '0'] {
        Some(Expiry::N360)
    } else if s == seq!['7', '2', '0'] {
        Some(Expiry::N720)
    } else if s == seq!['1', '4', '4', '0'] {
        Some(Expiry::N1440)
    } else {
        None
    }
}

/// The expiry chosen on the form: the number of minutes, after trimming.
pub fn parse_expiry(value: Option<&str>) -> (res: Option<Expiry>)
    ensures
        res == match value {
            Some(v) => expiry_from_text(trim(v@)),
            None => None,
        },
{
    let v = match value {
        Some(v) => v,
        None => {
            return None;
        },
    };
    let t = trim_str(v);
    let s = t.as_slice();
    let e5 = ['5'];
    let e10 = ['1', '0'];
    let e30 = ['3', '0'];
    let e60 = ['6', '0'];
    let e180 = ['1', '8', '0'];
    let e360 = ['3', '6', '0'];
    let e720 = ['7', '2', '0'];
    let e1440 = ['1', '4', '4', '0'];
    assert(e5@ =~= seq!['5']);
    assert(e10@ =~= seq!['1', '0']);
    assert(e30@ =~= seq!['3', '0']);
    assert(e60@ =~= seq!['6', '0']);
    assert(e180@ =~= seq!['1', '8', '0']);
    assert(e360@ =~= seq!['3', '6', '0']);
    assert(e720@ =~= seq!['7', '2', '0']);
    assert(e1440@ =~= seq!['1', '4', '4', '0']);
    if seq_eq(s, e5.as_slice()) {
        Some(Expiry::N5)
    } else if seq_eq(s, e10.as_slice()) {
        Some(Expiry::N10)
    } else if seq_eq(s, e30.as_slice()) {
        Some(Expiry::N30)
    } else if seq_eq(s, e60.as_slice()) {
        Some(Expiry::N60)
    } else if seq_eq(s, e180.as_slice()) {
        Some(Expiry::N180)
    } else if seq_eq(s, e360.as_slice()) {
        Some(Expiry::N360)
    } else if seq_eq(s, e720.as_slice()) {
        Some(Expiry::N720)
    } else if seq_eq(s, e1440.as_slice()) {
        Some(Expiry::N1440)
    } else {
        None
    }
}

pub open spec fn max_views_from_text(s: Seq<char>) -> Option<MaxViews> {
    if s == seq!['v', '1'] {
        Some(MaxViews::V1)
    } else if s == seq!['v', '5'] {
        Some(MaxViews::V5)
    } else if s == seq!['v', '1', '0'] {
        Some(MaxViews::V10)
    } else if s == seq!['u', 'n', 'l', 'i', 'm', 'i', 't', 'e', 'd'] {
        Some(MaxViews::UNLIMITED)
    } else {
        None
    }
}

/// The view limit chosen on the form (`v1`, `v5`, `v10` or `unlimited`), after trimming.
pub fn parse_max_views(value: Option<&str>) -> (res: Option<MaxViews>)
    ensures
        res == match value {
            Some(v) => max_views_from_text(trim(v@)),
            None => None,
        },
{
    let v = match value {
        Some(v) => v,
        None => {
            return None;
        },
    };
    let t = trim_str(v);
    let s = t.as_slice();
    let v1 = ['v', '1'];
    let v5 = ['v', '5'];
    let v10 = ['v', '1', '0'];
    let un = ['u', 'n', 'l', 'i', 'm', 'i', 't', 'e', 'd'];
    assert(v1@ =~= seq!['v', '1']);
    assert(v5@ =~= seq!['v', '5']);
    assert(v10@ =~= seq!['v', '1', '0']);
    assert(un@ =~= seq!['u', 'n', 'l', 'i', 'm', 'i', 't', 'e', 'd']);
    if seq_eq(s, v1.as_slice()) {
        Some(MaxViews::V1)
    } else if seq_eq(s, v5.as_slice()) {
        Some(MaxViews::V5)
    } else if seq_eq(s, v10.as_slice()) {
        Some(MaxViews::V10)
    } else if seq_eq(s, un.as_slice()) {
        Some(MaxViews::UNLIMITED)
    } else {
        None
    }
}

/// The stored view limit of a choice on the form is one more than the
/// number in its label (`v1` allows 2 views counting the creator's, `v5` 6,
/// `v10` 11), and only `unlimited` has no limit (-1).
pub proof fn law_view_limit_is_label_plus_one(text: Seq<char>, m: MaxViews)
    requires
        max_views_from_text(text) == Some(m),
    ensures
        m != MaxViews::UNLIMITED ==> m.limit() >= 2 && text == seq!['v'] + crate::utility::format::decimal(
            (m.limit() - 1) as nat,
        ),
        m == MaxViews::UNLIMITED <==> m.limit() == -1,
        m == MaxViews::UNLIMITED ==> text == seq!['u', 'n', 'l', 'i', 'm', 'i', 't', 'e', 'd'],
{
    reveal_with_fuel(crate::utility::format::decimal, 3);
    assert(crate::utility::format::decimal(1) =~= seq!['1']);
    assert(crate::utility::format::decimal(5) =~= seq!['5']);
    assert(crate::utility::format::decimal(10) =~= seq!['1', '0']);
    assert(seq!['v'] + seq!['1'] =~= seq!['v', '1']);
    assert(seq!['v'] + seq!['5'] =~= seq!['v', '5']);
    assert(seq!['v'] + seq!['1', '0'] =~= seq!['v', '1', '0']);
}

} // verus!
