//! Which file extensions may be uploaded, and the checks on an uploaded
//! file's name and first bytes.

use crate::features::storage::error::StorageError;
use crate::text::{
    after_last, after_last_chars, contains_char, contains_chars, contains_class, copy_str,
    from_chars, is_ascii_alnum, is_ascii_alphanumeric, seq_eq, split_chars, split_on, str_eq,
    to_chars, to_lowercase, trim, trim_by, trim_chars, trim_start_by, trim_start_chars,
    unicode_lowercase, CharClass, contains_seq,
};
use vstd::prelude::*;

verus! {

pub const MAX_EXTENSION_LEN: usize = 10;

// ---------------------------------------------------------------------------
// A set of extensions
// ---------------------------------------------------------------------------

/// A set of extensions, kept in the order they were first added.
#[derive(Debug)]
pub struct ExtensionSet {
    items: Vec<String>,
}

pub open spec fn views_of(items: Seq<String>) -> Seq<Seq<char>> {
    items.map_values(|s: String| s@)
}

impl ExtensionSet {
    #[verifier::type_invariant]
    spec fn no_repeats(self) -> bool {
        views_of(self.items@).no_duplicates()
    }

    /// The extensions, in the order they were added.
    pub closed spec fn elements(self) -> Seq<Seq<char>> {
        views_of(self.items@)
    }

    pub open spec fn contains_spec(self, e: Seq<char>) -> bool {
        self.elements().contains(e)
    }

    pub fn new() -> (res: Self)
        ensures
            res.elements() == Seq::<Seq<char>>::empty(),
    {
        let res = ExtensionSet { items: Vec::new() };
        assert(views_of(res.items@) =~= Seq::<Seq<char>>::empty());
        res
    }

    pub fn len(&self) -> (res: usize)
        ensures
            res == self.elements().len(),
    {
        self.items.len()
    }

    pub fn is_empty(&self) -> (res: bool)
        ensures
            res == (self.elements().len() == 0),
    {
        self.items.len() == 0
    }

    /// The extension at a position.
    pub fn get(&self, i: usize) -> (res: &String)
        requires
            i < self.elements().len(),
        ensures
            res@ == self.elements()[i as int],
    {
        &self.items[i]
    }

    pub fn contains(&self, e: &str) -> (res: bool)
        ensures
            res == self.contains_spec(e@),
    {
        let mut i: usize = 0;
        while i < self.items.len()
            invariant
                i <= self.items@.len(),
                forall|j: int| 0 <= j < i ==> self.items@[j]@ != e@,
            decreases self.items@.len() - i,
        {
            if str_eq(self.items[i].as_str(), e) {
                assert(self.elements()[i as int] == e@);
                return true;
            }
            i = i + 1;
        }
        assert(!self.elements().contains(e@)) by {
            if self.elements().contains(e@) {
                let j = choose|j: int| 0 <= j < self.elements().len() && self.elements()[j] == e@;
                assert(self.items@[j]@ == e@);
            }
        }
        false
    }

    /// Adds an extension; nothing changes when it is already present.
    pub fn insert(&mut self, e: String)
        ensures
            final(self).elements() == if old(self).contains_spec(e@) {
                old(self).elements()
            } else {
                old(self).elements().push(e@)
            },
    {
        if self.contains(e.as_str()) {
            return;
        }
        proof {
            use_type_invariant(&*self);
        }
        let mut items: Vec<String> = Vec::new();
        let mut i: usize = 0;
        while i < self.items.len()
            invariant
                i <= self.items@.len(),
                items@ == self.items@.subrange(0, i as int),
            decreases self.items@.len() - i,
        {
            items.push(self.items[i].clone());
            i = i + 1;
        }
        assert(items@ =~= self.items@);
        let ghost before = views_of(items@);
        items.push(e);
        assert(views_of(items@) =~= before.push(e@));
        self.items = items;
    }
}

impl Clone for ExtensionSet {
    fn clone(&self) -> (res: Self)
        ensures
            res.elements() == self.elements(),
    {
        proof {
            use_type_invariant(self);
        }
        let mut items: Vec<String> = Vec::new();
        let mut i: usize = 0;
        while i < self.items.len()
            invariant
                i <= self.items@.len(),
                items@ == self.items@.subrange(0, i as int),
            decreases self.items@.len() - i,
        {
            items.push(self.items[i].clone());
            i = i + 1;
        }
        assert(items@ =~= self.items@);
        assert(views_of(items@) == views_of(self.items@));
        ExtensionSet { items }
    }
}

// ---------------------------------------------------------------------------
// Denied extensions
// ---------------------------------------------------------------------------

/// Extensions that are never accepted, whatever the configuration allows.
pub open spec fn denylist() -> Seq<&'static str> {
    seq![
        "exe", "bat", "cmd", "com", "msi", "scr", "ps1", "vbs", "js", "jar", "sh", "bash", "php",
        "asp", "aspx", "jsp", "cgi", "dll", "sys", "hta", "reg", "inf", "lnk", "dmg", "app", "deb",
        "rpm", "apk", "html", "htm", "svg", "wasm",
    ]
}

pub open spec fn is_denylisted(e: Seq<char>) -> bool {
    exists|i: int| 0 <= i < denylist().len() && (#[trigger] denylist()[i])@ == e
}

pub fn denylist_contains(e: &str) -> (res: bool)
    ensures
        res == is_denylisted(e@),
{
    let list: [&str; 32] = [
        "exe", "bat", "cmd", "com", "msi", "scr", "ps1", "vbs", "js", "jar", "sh", "bash", "php",
        "asp", "aspx", "jsp", "cgi", "dll", "sys", "hta", "reg", "inf", "lnk", "dmg", "app", "deb",
        "rpm", "apk", "html", "htm", "svg", "wasm",
    ];
    assert(list@ =~= denylist());
    let mut i: usize = 0;
    while i < 32
        invariant
            list@ == denylist(),
            i <= 32,
            forall|j: int| 0 <= j < i ==> (#[trigger] denylist()[j])@ != e@,
        decreases 32 - i,
    {
        if str_eq(list[i], e) {
            assert(denylist()[i as int]@ == e@);
            return true;
        }
        i = i + 1;
    }
    false
}

// ---------------------------------------------------------------------------
// Parsing the configured list
// ---------------------------------------------------------------------------

/// One entry of the configured list: trimmed, without leading dots, lower-cased.
pub open spec fn normalized_entry(piece: Seq<char>) -> Seq<char> {
    unicode_lowercase(trim_start_by(trim(piece), CharClass::Exactly('.')))
}

/// An entry is kept when it is not empty, at most ten bytes long in UTF-8,
/// and not denied.
pub open spec fn entry_kept(e: Seq<char>) -> bool {
    &&& e.len() > 0
    &&& vstd::utf8::encode_utf8(e).len() <= MAX_EXTENSION_LEN
    &&& !is_denylisted(e)
}

/// The extensions that a list of entries allows, in order of first appearance.
pub open spec fn allowed_from(pieces: Seq<Seq<char>>) -> Seq<Seq<char>>
    decreases pieces.len(),
{
    if pieces.len() == 0 {
        Seq::<Seq<char>>::empty()
    } else {
        let acc = allowed_from(pieces.drop_last());
        let e = normalized_entry(pieces.last());
        if entry_kept(e) && !acc.contains(e) {
            acc.push(e)
        } else {
            acc
        }
    }
}

/// The extensions allowed by a comma-separated configuration value.
pub open spec fn allowed_extensions_of(config: Seq<char>) -> Seq<Seq<char>> {
    allowed_from(split_on(config, ','))
}

/// Every extension that a configured list allows is a kept entry (never a
/// denied one), and none appears twice.
pub proof fn law_allowed_entries_kept(pieces: Seq<Seq<char>>)
    ensures
        forall|i: int| 0 <= i < allowed_from(pieces).len() ==> entry_kept(#[trigger] allowed_from(pieces)[i]),
        forall|i: int, j: int|
            0 <= i < j < allowed_from(pieces).len() ==> allowed_from(pieces)[i] != allowed_from(pieces)[j],
    decreases pieces.len(),
{
    if pieces.len() > 0 {
        law_allowed_entries_kept(pieces.drop_last());
        let acc = allowed_from(pieces.drop_last());
        let e = normalized_entry(pieces.last());
        if entry_kept(e) && !acc.contains(e) {
            assert forall|i: int| 0 <= i < acc.len() implies acc.push(e)[i] != e by {
                assert(acc[i] == acc.push(e)[i]);
            }
        }
    }
}

fn normalize_entry(piece: &[char]) -> (res: String)
    ensures
        res@ == normalized_entry(piece@),
{
    let t = trim_chars(piece, CharClass::Whitespace);
    let u = trim_start_chars(t.as_slice(), CharClass::Exactly('.'));
    let s = from_chars(u.as_slice());
    to_lowercase(s.as_str())
}

/// The set of extensions that the configuration value allows: its
/// comma-separated entries, trimmed, without leading dots, lower-cased, kept
/// when not empty, at most ten bytes and not denied.
pub fn parse_allowed_extensions(env: &str) -> (res: ExtensionSet)
    ensures
        res.elements() == allowed_extensions_of(env@),
{
    let chars = to_chars(env);
    let pieces = split_chars(chars.as_slice(), ',');
    let ghost all = split_on(env@, ',');
    let mut set = ExtensionSet::new();
    let mut i: usize = 0;
    while i < pieces.len()
        invariant
            pieces@.len() == all.len(),
            forall|k: int| 0 <= k < pieces@.len() ==> (#[trigger] pieces@[k])@ == all[k],
            i <= pieces@.len(),
            set.elements() == allowed_from(all.subrange(0, i as int)),
        decreases pieces@.len() - i,
    {
        let e = normalize_entry(pieces[i].as_slice());
        assert(all.subrange(0, i + 1).drop_last() =~= all.subrange(0, i as int));
        let blen = crate::utility::encoding::str_bytes(e.as_str()).len();
        let kept = blen > 0 && blen <= MAX_EXTENSION_LEN
            && !denylist_contains(e.as_str());
        proof {
            assert(e@.len() > 0 <==> vstd::utf8::encode_utf8(e@).len() > 0) by {
                vstd::utf8::encode_utf8_decode_utf8(e@);
                if e@.len() > 0 && vstd::utf8::encode_utf8(e@).len() == 0 {
                    assert(vstd::utf8::encode_utf8(e@) =~= Seq::<u8>::empty());
                    assert(vstd::utf8::decode_utf8(Seq::<u8>::empty()) =~= Seq::<char>::empty());
                }
                if e@.len() == 0 {
                    assert(e@ =~= Seq::<char>::empty());
                    assert(vstd::utf8::encode_utf8(Seq::<char>::empty()) =~= Seq::<u8>::empty());
                }
            }
        }
        let ghost prev = set.elements();
        assert(all.subrange(0, i + 1).last() == all[i as int]);
        assert(e@ == normalized_entry(all[i as int]));
        assert(kept == entry_kept(e@));
        if kept {
            set.insert(e);
        }
        i = i + 1;
    }
    assert(all.subrange(0, all.len() as int) =~= all);
    set
}

// ---------------------------------------------------------------------------
// Checking an upload
// ---------------------------------------------------------------------------

pub open spec fn msg_bad_name() -> Seq<char> {
    "نام فایل نامعتبر است."@
}

pub open spec fn msg_no_extension() -> Seq<char> {
    "فایل باید دارای پسوند باشد."@
}

pub open spec fn msg_bad_extension() -> Seq<char> {
    "پسوند فایل نامعتبر است."@
}

pub open spec fn msg_type_denied() -> Seq<char> {
    "نوع فایل مجاز نیست."@
}

pub open spec fn msg_type_mismatch() -> Seq<char> {
    "نوع فایل با پسوند آن مطابقت ندارد."@
}

/// A file name is safe when, trimmed, it is not empty and holds no `..`,
/// no path separator and no NUL.
pub open spec fn filename_safe(name: Seq<char>) -> bool {
    let n = trim(name);
    &&& n.len() > 0
    &&& !contains_seq(n, seq!['.', '.'])
    &&& !n.contains('/')
    &&& !n.contains('\\')
    &&& !n.contains('\0')
}

pub fn validate_filename_safe(filename: &str) -> (res: Result<(), StorageError>)
    ensures
        res is Ok <==> filename_safe(filename@),
        res matches Err(e) ==> e matches StorageError::InvalidExtension(m) && m@ == msg_bad_name(),
{
    let name = crate::text::trim_str(filename);
    let dots = ['.', '.'];
    assert(dots@ =~= seq!['.', '.']);
    if name.len() == 0 || contains_chars(name.as_slice(), dots.as_slice()) || contains_char(
        name.as_slice(),
        '/',
    ) || contains_char(name.as_slice(), '\\') || contains_char(name.as_slice(), '\0') {
        return Err(StorageError::InvalidExtension(copy_str("نام فایل نامعتبر است.")));
    }
    Ok(())
}

/// The extension of a file name: the part after the last `.` of its last
/// path segment (trimmed), when that segment holds a `.`.
pub open spec fn extension_of(filename: Seq<char>) -> Option<Seq<char>> {
    let base = trim(after_last(filename, CharClass::PathSeparator));
    if base.contains('.') {
        Some(after_last(base, CharClass::Exactly('.')))
    } else {
        None
    }
}

pub fn extract_extension(filename: &str) -> (res: Result<String, StorageError>)
    ensures
        match extension_of(filename@) {
            Some(e) => res matches Ok(x) && x@ == e,
            None => res matches Err(StorageError::InvalidExtension(m)) && m@ == msg_no_extension(),
        },
{
    let chars = to_chars(filename);
    let last = after_last_chars(chars.as_slice(), CharClass::PathSeparator);
    let base = trim_chars(last.as_slice(), CharClass::Whitespace);
    if !contains_char(base.as_slice(), '.') {
        return Err(StorageError::InvalidExtension(copy_str("فایل باید دارای پسوند باشد.")));
    }
    let ext = after_last_chars(base.as_slice(), CharClass::Exactly('.'));
    Ok(from_chars(ext.as_slice()))
}

/// An extension, trimmed, without leading dots and lower-cased, when that is
/// 1 to 10 bytes of ASCII letters and digits.
pub open spec fn normalized_extension(ext: Seq<char>) -> Option<Seq<char>> {
    let e = unicode_lowercase(trim_start_by(trim(ext), CharClass::Exactly('.')));
    if e.len() == 0 || vstd::utf8::encode_utf8(e).len() > MAX_EXTENSION_LEN {
        None
    } else if exists|i: int| 0 <= i < e.len() && !is_ascii_alnum(#[trigger] e[i]) {
        None
    } else {
        Some(e)
    }
}

pub fn normalize_extension(ext: &str) -> (res: Result<String, StorageError>)
    ensures
        match normalized_extension(ext@) {
            Some(e) => res matches Ok(x) && x@ == e,
            None => res matches Err(StorageError::InvalidExtension(m)) && m@ == msg_bad_extension(),
        },
{
    let e = normalize_entry(to_chars(ext).as_slice());
    let n = crate::utility::encoding::str_bytes(e.as_str()).len();
    proof {
        assert(e@.len() == 0 <==> vstd::utf8::encode_utf8(e@).len() == 0) by {
            if e@.len() > 0 && vstd::utf8::encode_utf8(e@).len() == 0 {
                vstd::utf8::encode_utf8_decode_utf8(e@);
                assert(vstd::utf8::encode_utf8(e@) =~= Seq::<u8>::empty());
                assert(vstd::utf8::decode_utf8(Seq::<u8>::empty()) =~= Seq::<char>::empty());
            }
            if e@.len() == 0 {
                assert(e@ =~= Seq::<char>::empty());
                assert(vstd::utf8::encode_utf8(Seq::<char>::empty()) =~= Seq::<u8>::empty());
            }
        }
    }
    if n == 0 || n > MAX_EXTENSION_LEN {
        return Err(StorageError::InvalidExtension(copy_str("پسوند فایل نامعتبر است.")));
    }
    let v = to_chars(e.as_str());
    let mut i: usize = 0;
    while i < v.len()
        invariant
            v@ == e@,
            e@ == normalized_entry(ext@),
            e@.len() > 0,
            vstd::utf8::encode_utf8(e@).len() <= MAX_EXTENSION_LEN,
            i <= v@.len(),
            forall|j: int| 0 <= j < i ==> is_ascii_alnum(#[trigger] v@[j]),
        decreases v@.len() - i,
    {
        if !is_ascii_alphanumeric(v[i]) {
            assert(!is_ascii_alnum(e@[i as int]));
            return Err(StorageError::InvalidExtension(copy_str("پسوند فایل نامعتبر است.")));
        }
        i = i + 1;
    }
    assert(!exists|j: int| 0 <= j < e@.len() && !is_ascii_alnum(#[trigger] e@[j]));
    Ok(e)
}

// ---------------------------------------------------------------------------
// Content sniffing
// ---------------------------------------------------------------------------

/// What `mime_guess::from_ext(ext).first_or_octet_stream()` returns, as its
/// essence `type/subtype`.
pub uninterp spec fn mime_essence_of_ext(ext: Seq<char>) -> Seq<char>;

/// Calls `mime_guess::from_ext(ext).first_or_octet_stream()` and returns the
/// MIME type's essence; the extension table is not stated here.
#[verifier::external_body]
fn mime_of_extension(ext: &str) -> (res: String)
    ensures
        res@ == mime_essence_of_ext(ext@),
{
    mime_guess::from_ext(ext).first_or_octet_stream().essence_str().to_string()
}

pub open spec fn starts_with_bytes(content: Seq<u8>, prefix: Seq<u8>) -> bool {
    prefix.len() <= content.len() && content.take(prefix.len() as int) == prefix
}

/// The MIME type that the first bytes of a file announce.
pub open spec fn sniffed_mime(content: Seq<u8>) -> Seq<char> {
    if starts_with_bytes(content, seq![0x25u8, 0x50, 0x44, 0x46]) {
        "application/pdf"@
    } else if starts_with_bytes(content, seq![0x89u8, 0x50, 0x4e, 0x47]) {
        "image/png"@
    } else if starts_with_bytes(content, seq![0xffu8, 0xd8, 0xff]) {
        "image/jpeg"@
    } else if starts_with_bytes(content, seq![0x47u8, 0x49, 0x46, 0x38, 0x37, 0x61])
        || starts_with_bytes(content, seq![0x47u8, 0x49, 0x46, 0x38, 0x39, 0x61]) {
        "image/gif"@
    } else if starts_with_bytes(content, seq![0x52u8, 0x49, 0x46, 0x46]) {
        "image/webp"@
    } else if starts_with_bytes(content, seq![0x50u8, 0x4b, 0x03, 0x04]) {
        "application/zip"@
    } else {
        "application/octet-stream"@
    }
}

fn bytes_start_with(content: &[u8], prefix: &[u8]) -> (res: bool)
    ensures
        res == starts_with_bytes(content@, prefix@),
{
    if prefix.len() > content.len() {
        return false;
    }
    let mut i: usize = 0;
    while i < prefix.len()
        invariant
            prefix@.len() <= content@.len(),
            i <= prefix@.len(),
            forall|j: int| 0 <= j < i ==> content@[j] == prefix@[j],
        decreases prefix@.len() - i,
    {
        if content[i] != prefix[i] {
            assert(content@.take(prefix@.len() as int)[i as int] != prefix@[i as int]);
            return false;
        }
        i = i + 1;
    }
    assert(content@.take(prefix@.len() as int) =~= prefix@);
    true
}

/// The MIME type that the first bytes of a file announce.
pub fn infer_mime_from_bytes(content: &[u8]) -> (res: String)
    ensures
        res@ == sniffed_mime(content@),
{
    let pdf: [u8; 4] = [0x25, 0x50, 0x44, 0x46];
    let png: [u8; 4] = [0x89, 0x50, 0x4e, 0x47];
    let jpeg: [u8; 3] = [0xff, 0xd8, 0xff];
    let gif7: [u8; 6] = [0x47, 0x49, 0x46, 0x38, 0x37, 0x61];
    let gif9: [u8; 6] = [0x47, 0x49, 0x46, 0x38, 0x39, 0x61];
    let riff: [u8; 4] = [0x52, 0x49, 0x46, 0x46];
    let zip: [u8; 4] = [0x50, 0x4b, 0x03, 0x04];
    assert(pdf@ =~= seq![0x25u8, 0x50, 0x44, 0x46]);
    assert(png@ =~= seq![0x89u8, 0x50, 0x4e, 0x47]);
    assert(jpeg@ =~= seq![0xffu8, 0xd8, 0xff]);
    assert(gif7@ =~= seq![0x47u8, 0x49, 0x46, 0x38, 0x37, 0x61]);
    assert(gif9@ =~= seq![0x47u8, 0x49, 0x46, 0x38, 0x39, 0x61]);
    assert(riff@ =~= seq![0x52u8, 0x49, 0x46, 0x46]);
    assert(zip@ =~= seq![0x50u8, 0x4b, 0x03, 0x04]);
    if bytes_start_with(content, pdf.as_slice()) {
        copy_str("application/pdf")
    } else if bytes_start_with(content, png.as_slice()) {
        copy_str("image/png")
    } else if bytes_start_with(content, jpeg.as_slice()) {
        copy_str("image/jpeg")
    } else if bytes_start_with(content, gif7.as_slice()) || bytes_start_with(content, gif9.as_slice()) {
        copy_str("image/gif")
    } else if bytes_start_with(content, riff.as_slice()) {
        copy_str("image/webp")
    } else if bytes_start_with(content, zip.as_slice()) {
        copy_str("application/zip")
    } else {
        copy_str("application/octet-stream")
    }
}

/// The type of a MIME essence: the part before the first `/`.
pub open spec fn mime_type_part(m: Seq<char>) -> Seq<char> {
    split_on(m, '/')[0]
}

/// The subtype: the part after the first `/`.
pub open spec fn mime_subtype_part(m: Seq<char>) -> Seq<char> {
    let t = mime_type_part(m);
    if t.len() < m.len() {
        m.skip(t.len() + 1 as int)
    } else {
        Seq::<char>::empty()
    }
}

/// Whether the first bytes of a file fit its extension: the announced type is
/// the extension's, or generic binary or zip, or of the same top-level type,
/// and never an executable.
pub open spec fn mime_consistent(ext: Seq<char>, content: Seq<u8>) -> Result<(), Seq<char>> {
    let guessed = sniffed_mime(content);
    let expected = mime_essence_of_ext(ext);
    let gt = mime_type_part(guessed);
    let gs = mime_subtype_part(guessed);
    if guessed == expected {
        Ok(())
    } else if gt == "application"@ && (gs == "octet-stream"@ || gs == "zip"@) {
        Ok(())
    } else if gt == "application"@ && (contains_seq(gs, "executable"@) || gs == "x-msdownload"@
        || gs == "x-dosexec"@) {
        Err(msg_type_denied())
    } else if gt == mime_type_part(expected) {
        Ok(())
    } else {
        Err(msg_type_mismatch())
    }
}

fn mime_parts(m: &str) -> (res: (Vec<char>, Vec<char>))
    ensures
        res.0@ == mime_type_part(m@),
        res.1@ == mime_subtype_part(m@),
{
    let v = to_chars(m);
    let parts = split_chars(v.as_slice(), '/');
    proof {
        crate::text::lemma_split_nonempty(m@, '/');
    }
    let t = crate::text::slice_range(parts[0].as_slice(), 0, parts[0].len());
    proof {
        crate::text::lemma_split_first_is_prefix(m@, '/');
    }
    let sub = if t.len() < v.len() {
        crate::text::slice_range(v.as_slice(), t.len() + 1, v.len())
    } else {
        Vec::new()
    };
    assert(t@ =~= mime_type_part(m@));
    assert(sub@ =~= mime_subtype_part(m@));
    (t, sub)
}

fn validate_mime_consistency(ext: &str, content: &[u8]) -> (res: Result<(), StorageError>)
    ensures
        match mime_consistent(ext@, content@) {
            Ok(()) => res is Ok,
            Err(m) => res matches Err(StorageError::InvalidExtension(x)) && x@ == m,
        },
{
    let guessed = infer_mime_from_bytes(content);
    let expected = mime_of_extension(ext);
    if str_eq(guessed.as_str(), expected.as_str()) {
        return Ok(());
    }
    let (gt, gs) = mime_parts(guessed.as_str());
    let app = to_chars("application");
    let octet = to_chars("octet-stream");
    let zip = to_chars("zip");
    if seq_eq(gt.as_slice(), app.as_slice()) && (seq_eq(gs.as_slice(), octet.as_slice()) || seq_eq(
        gs.as_slice(),
        zip.as_slice(),
    )) {
        return Ok(());
    }
    let exe = to_chars("executable");
    let msd = to_chars("x-msdownload");
    let dos = to_chars("x-dosexec");
    if seq_eq(gt.as_slice(), app.as_slice()) && (contains_chars(gs.as_slice(), exe.as_slice())
        || seq_eq(gs.as_slice(), msd.as_slice()) || seq_eq(gs.as_slice(), dos.as_slice())) {
        return Err(StorageError::InvalidExtension(copy_str("نوع فایل مجاز نیست.")));
    }
    let (et, _es) = mime_parts(expected.as_str());
    if seq_eq(gt.as_slice(), et.as_slice()) {
        return Ok(());
    }
    Err(StorageError::InvalidExtension(copy_str("نوع فایل با پسوند آن مطابقت ندارد.")))
}

/// What the checks of an upload decide: the extension under which it is
/// stored, or why it is refused (`None` when uploads are disabled because no
/// extension is allowed, else the message shown). The checks, in order: some
/// extension is allowed, the name is safe, it has a valid extension, that is
/// neither denied nor outside the allowed set, and (when the first bytes are
/// given) the content fits the extension.
pub open spec fn upload_outcome(filename: Seq<char>, allowed: ExtensionSet, content: Option<Seq<u8>>) -> Result<Seq<char>, Option<Seq<char>>> {
    if allowed.elements().len() == 0 {
        Err(None)
    } else if !filename_safe(filename) {
        Err(Some(msg_bad_name()))
    } else {
        match extension_of(filename) {
            None => Err(Some(msg_no_extension())),
            Some(raw) => match normalized_extension(raw) {
                None => Err(Some(msg_bad_extension())),
                Some(e) => if is_denylisted(e) || !allowed.contains_spec(e) {
                    Err(Some(msg_type_denied()))
                } else {
                    match content {
                        Some(c) => match mime_consistent(e, c) {
                            Ok(()) => Ok(e),
                            Err(m) => Err(Some(m)),
                        },
                        None => Ok(e),
                    }
                },
            },
        }
    }
}

/// The refusal an upload outcome stands for.
pub open spec fn refusal_matches(err: StorageError, why: Option<Seq<char>>) -> bool {
    match why {
        None => err is UploadDisabled,
        Some(m) => err matches StorageError::InvalidExtension(x) && x@ == m,
    }
}

pub fn validate_upload(filename: &str, allowed: &ExtensionSet, content: Option<&[u8]>) -> (res: Result<String, StorageError>)
    ensures
        match upload_outcome(
            filename@,
            *allowed,
            match content {
                Some(c) => Some(c@),
                None => None,
            },
        ) {
            Ok(e) => res matches Ok(x) && x@ == e,
            Err(why) => res matches Err(err) && refusal_matches(err, why),
        },
        res matches Ok(x) ==> allowed.contains_spec(x@) && !is_denylisted(x@),
{
    if allowed.is_empty() {
        return Err(StorageError::UploadDisabled);
    }
    match validate_filename_safe(filename) {
        Ok(()) => {},
        Err(e) => {
            return Err(e);
        },
    }
    let raw = match extract_extension(filename) {
        Ok(r) => r,
        Err(e) => {
            return Err(e);
        },
    };
    let ext = match normalize_extension(raw.as_str()) {
        Ok(x) => x,
        Err(e) => {
            return Err(e);
        },
    };
    if denylist_contains(ext.as_str()) {
        return Err(StorageError::InvalidExtension(copy_str("نوع فایل مجاز نیست.")));
    }
    if !allowed.contains(ext.as_str()) {
        return Err(StorageError::InvalidExtension(copy_str("نوع فایل مجاز نیست.")));
    }
    if let Some(bytes) = content {
        match validate_mime_consistency(ext.as_str(), bytes) {
            Ok(()) => {},
            Err(e) => {
                return Err(e);
            },
        }
    }
    Ok(ext)
}

/// Content whose sniffed type differs from the extension's type, also in its
/// top-level part, is refused unless it is generic binary
/// (`application/octet-stream` or `application/zip`); content of the
/// extension's own type, or generic binary, is accepted, and so is content
/// of the extension's top-level type outside `application`.
pub proof fn law_mismatched_content_refused(ext: Seq<char>, content: Seq<u8>)
    ensures
        ({
            let g = sniffed_mime(content);
            let e = mime_essence_of_ext(ext);
            let generic = mime_type_part(g) == "application"@ && (mime_subtype_part(g) == "octet-stream"@
                || mime_subtype_part(g) == "zip"@);
            &&& (g != e && mime_type_part(g) != mime_type_part(e) && !generic) ==> mime_consistent(
                ext,
                content,
            ) is Err
            &&& (g == e || generic) ==> mime_consistent(ext, content) is Ok
            &&& (mime_type_part(g) == mime_type_part(e) && mime_type_part(g) != "application"@)
                ==> mime_consistent(ext, content) is Ok
            &&& mime_consistent(ext, content) is Ok ==> (g == e || generic || mime_type_part(g)
                == mime_type_part(e))
        }),
{
}

} // verus!
