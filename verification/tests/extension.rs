use tshare::features::storage::error::StorageError;
use tshare::features::storage::extension::{
    extract_extension, infer_mime_from_bytes, normalize_extension, parse_allowed_extensions,
    validate_filename_safe, validate_upload, ExtensionSet,
};

fn allowed_of(items: &[&str]) -> ExtensionSet {
    let mut allowed = ExtensionSet::new();
    for e in items {
        allowed.insert(e.to_string());
    }
    allowed
}

fn invalid_message(r: Result<String, StorageError>) -> String {
    match r {
        Err(StorageError::InvalidExtension(m)) => m,
        other => panic!("expected an invalid extension, got {:?}", other),
    }
}

#[test]
fn rejects_denylisted_even_if_in_allowed() {
    let mut allowed = ExtensionSet::new();
    allowed.insert("exe".into());
    assert!(validate_upload("malware.exe", &allowed, None).is_err());
}

#[test]
fn accepts_whitelisted_pdf() {
    let mut allowed = ExtensionSet::new();
    allowed.insert("pdf".into());
    assert_eq!(validate_upload("doc.pdf", &allowed, None).unwrap(), "pdf");
}

#[test]
fn upload_refused_when_nothing_allowed() {
    let allowed = ExtensionSet::new();
    assert!(matches!(
        validate_upload("doc.pdf", &allowed, None),
        Err(StorageError::UploadDisabled)
    ));
}

#[test]
fn upload_refuses_unsafe_names() {
    let allowed = allowed_of(&["pdf"]);
    assert_eq!(invalid_message(validate_upload("../doc.pdf", &allowed, None)), "نام فایل نامعتبر است.");
    assert_eq!(invalid_message(validate_upload("   ", &allowed, None)), "نام فایل نامعتبر است.");
    assert_eq!(invalid_message(validate_upload("a\\b.pdf", &allowed, None)), "نام فایل نامعتبر است.");
}

#[test]
fn upload_refuses_missing_and_bad_extensions() {
    let allowed = allowed_of(&["pdf"]);
    assert_eq!(invalid_message(validate_upload("readme", &allowed, None)), "فایل باید دارای پسوند باشد.");
    assert_eq!(invalid_message(validate_upload("a.p-f", &allowed, None)), "پسوند فایل نامعتبر است.");
    assert_eq!(invalid_message(validate_upload("a.txt", &allowed, None)), "نوع فایل مجاز نیست.");
}

#[test]
fn upload_extension_is_normalized() {
    let allowed = allowed_of(&["pdf"]);
    assert_eq!(validate_upload("Report.PDF", &allowed, None).unwrap(), "pdf");
}

#[test]
fn upload_checks_content_against_extension() {
    let allowed = allowed_of(&["png", "pdf"]);
    let png = [0x89u8, b'P', b'N', b'G', 0x0D, 0x0A, 0x1A, 0x0A, 0, 0];
    assert_eq!(validate_upload("a.png", &allowed, Some(&png)).unwrap(), "png");
    // Unrecognized content is generic binary, which any extension accepts.
    let exe = [b'M', b'Z', 0x90, 0];
    assert_eq!(validate_upload("a.pdf", &allowed, Some(&exe)).unwrap(), "pdf");
    assert_eq!(
        invalid_message(validate_upload("a.pdf", &allowed, Some(&png))),
        "نوع فایل با پسوند آن مطابقت ندارد."
    );
}

#[test]
fn sniffing_recognizes_common_signatures() {
    assert_eq!(infer_mime_from_bytes(b"%PDF-1.7"), "application/pdf");
    assert_eq!(infer_mime_from_bytes(&[0xFF, 0xD8, 0xFF, 0xE0]), "image/jpeg");
    assert_eq!(infer_mime_from_bytes(b"hello"), "application/octet-stream");
}

#[test]
fn allowed_list_is_parsed_and_normalized() {
    let set = parse_allowed_extensions(" .PDF, png,,exe, pdf ,toolongextension");
    assert_eq!(set.len(), 2);
    assert_eq!(set.get(0), "pdf");
    assert_eq!(set.get(1), "png");
    assert!(set.contains("png"));
    assert!(!set.contains("exe"));
}

#[test]
fn extension_pieces() {
    assert_eq!(extract_extension("dir/archive.tar.gz").unwrap(), "gz");
    assert!(validate_filename_safe("ok.txt").is_ok());
    assert!(validate_filename_safe("a\0b").is_err());
    assert_eq!(normalize_extension(" ..Md ").unwrap(), "md");
}

#[test]
fn inserting_twice_keeps_one() {
    let mut set = ExtensionSet::new();
    set.insert("pdf".to_string());
    set.insert("pdf".to_string());
    assert_eq!(set.len(), 1);
    assert!(!set.is_empty());
}
