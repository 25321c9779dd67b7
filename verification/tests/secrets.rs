use base64::Engine;
use tshare::features::share::create::ShareCreate;
use tshare::features::share::delete::{DeleteDecision, ShareDelete};
use tshare::features::share::form::{DeleteRequest, ShareForm, ShowRequest};
use tshare::features::share::retrieve::{HashCheck, ShareError, ShareRetrieve};
use tshare::features::share::share_atomic::{AtomicAction, AtomicEvent, AtomicPhase, AtomicUpdate};
use tshare::utility::hash::hash;

const SECRET: &str = "0123456789abcdef0123456789abcdef";

fn protected_form() -> ShareForm {
    let mut f = ShareForm::empty();
    f.note = Some("secret text".to_string());
    f.require_password = Some(true);
    f.password = Some("hunter2".to_string());
    f.restrict_ip = Some(true);
    f.ip = Some("10.0.0.7".to_string());
    f
}

fn request(password: Option<&str>, ip: &str) -> ShowRequest {
    ShowRequest { key: "k1".to_string(), password: password.map(|p| p.to_string()), ip: ip.to_string() }
}

#[test]
fn prepared_record_hashes_secrets_under_the_server_secret() {
    let data = ShareCreate::prepare_record(&protected_form(), "k1", SECRET).unwrap();
    assert_eq!(data.password, Some(hash(SECRET, "hunter2")));
    assert_eq!(data.ip, Some(hash(SECRET, "10.0.0.7")));
    assert_eq!(data.token, Some(hash(SECRET, "k1")));
    let mut open = ShareForm::empty();
    open.note = Some("x".to_string());
    open.password = Some("kept".to_string());
    let plain = ShareCreate::prepare_record(&open, "k2", SECRET).unwrap();
    assert_eq!(plain.password.as_deref(), Some("kept"));
}

#[test]
fn created_share_opens_with_its_password_and_ip() {
    let mut data = ShareCreate::prepare_record(&protected_form(), "k1", SECRET).unwrap();
    assert_eq!(
        ShareRetrieve::hash_checks(SECRET, &data, &request(Some("hunter2"), "10.0.0.7")),
        (HashCheck::Match, HashCheck::Match)
    );
    assert_eq!(
        ShareRetrieve::hash_checks(SECRET, &data, &request(Some("wrong"), "10.0.0.8")),
        (HashCheck::Mismatch, HashCheck::Mismatch)
    );
    let e = ShareRetrieve::view_with_secret(&mut data, &request(Some("wrong"), "10.0.0.7"), SECRET).unwrap_err();
    assert_eq!((e.code.as_str(), e.message.as_str()), ("401", "پسورد نادرست است."));
    let e = ShareRetrieve::view_with_secret(&mut data, &request(Some("hunter2"), "10.0.0.8"), SECRET).unwrap_err();
    assert_eq!(e.code, "403");
    assert!(ShareRetrieve::view_with_secret(&mut data, &request(Some("hunter2"), "10.0.0.7"), SECRET).is_ok());
    assert_eq!(data.viewed, Some(1));
    let e = ShareRetrieve::view_with_secret(&mut data, &request(Some("hunter2"), "10.0.0.7"), "another-secret-of-thirty-two-byte").unwrap_err();
    assert_eq!(e.code, "401");
}

#[test]
fn downloads_under_the_secret() {
    let mut f = protected_form();
    f.one_time_use = Some(true);
    f.file_stored_name = Some("a.pdf".to_string());
    let mut data = ShareCreate::prepare_record(&f, "k1", SECRET).unwrap();
    assert!(ShareRetrieve::authorize_with_secret(&data, &request(Some("hunter2"), "10.0.0.7"), SECRET).is_ok());
    assert!(ShareRetrieve::authorize_with_secret(&data, &request(None, "10.0.0.7"), SECRET).is_err());
    assert!(ShareRetrieve::download_with_secret(&mut data, &request(Some("hunter2"), "10.0.0.7"), SECRET).is_ok());
    assert_eq!(data.downloaded, Some(true));
    assert!(ShareRetrieve::download_with_secret(&mut data, &request(Some("hunter2"), "10.0.0.7"), SECRET).is_err());
}

#[test]
fn deletion_needs_the_issued_token() {
    let data = ShareCreate::prepare_record(&protected_form(), "k1", SECRET).unwrap();
    let token = base64::engine::general_purpose::STANDARD.encode(hash(SECRET, "k1"));
    let ok = DeleteRequest { key: "k1".to_string(), token: token.clone() };
    assert!(matches!(ShareDelete::authorize(&ok, Ok(data)), DeleteDecision::Proceed { stored_file: None }));
    let mut with_file = ShareCreate::prepare_record(&protected_form(), "k1", SECRET).unwrap();
    with_file.file_stored_name = Some("f.bin".to_string());
    match ShareDelete::authorize(&ok, Ok(with_file)) {
        DeleteDecision::Proceed { stored_file } => assert_eq!(stored_file.as_deref(), Some("f.bin")),
        _ => panic!("expected to proceed"),
    }
    let data = ShareCreate::prepare_record(&protected_form(), "k1", SECRET).unwrap();
    let wrong = DeleteRequest {
        key: "k1".to_string(),
        token: base64::engine::general_purpose::STANDARD.encode("nope"),
    };
    match ShareDelete::authorize(&wrong, Ok(data)) {
        DeleteDecision::Refuse(e) => assert_eq!(e.status, 401),
        _ => panic!("expected a refusal"),
    }
    let empty = DeleteRequest { key: String::new(), token: token.clone() };
    match ShareDelete::authorize(&empty, Err(ShareError::new(404, "x".to_string()))) {
        DeleteDecision::Refuse(e) => assert_eq!((e.status, e.message.as_str()), (400, "key and token must not be empty")),
        _ => panic!("expected a refusal"),
    }
    match ShareDelete::authorize(&ok, Err(ShareError::new(404, "x".to_string()))) {
        DeleteDecision::Refuse(e) => assert_eq!((e.status, e.message.as_str()), (404, "یافت نشد")),
        _ => panic!("expected a refusal"),
    }
}

#[test]
fn locked_update_steps() {
    let (mut u, a) = AtomicUpdate::begin();
    assert!(matches!(a, AtomicAction::TryLock));
    assert!(matches!(u.step(AtomicEvent::Locked(false)), AtomicAction::Sleep));
    assert_eq!(u.attempt, 1);
    assert!(matches!(u.step(AtomicEvent::Locked(true)), AtomicAction::Read));
    assert!(matches!(u.step(AtomicEvent::Fetched(Some("{}".to_string()))), AtomicAction::ReadTtl));
    assert!(matches!(u.step(AtomicEvent::TtlRead(Some(120))), AtomicAction::Parse(ref j) if j == "{}"));
    assert!(matches!(u.step(AtomicEvent::Parsed(true)), AtomicAction::Mutate));
    assert!(matches!(u.step(AtomicEvent::Mutated(Ok(()))), AtomicAction::Serialize));
    assert!(matches!(u.step(AtomicEvent::Serialized(true)), AtomicAction::Write(120)));
    assert!(matches!(u.step(AtomicEvent::Written(true)), AtomicAction::Release(Ok(()))));
    assert_eq!(u.phase, AtomicPhase::Done);
}

#[test]
fn locked_update_failures_release_the_lock() {
    let (mut u, _) = AtomicUpdate::begin();
    u.step(AtomicEvent::Locked(true));
    match u.step(AtomicEvent::Fetched(None)) {
        AtomicAction::Release(Err(e)) => assert_eq!(e.code, "404"),
        _ => panic!("expected a release"),
    }
    let (mut u, _) = AtomicUpdate::begin();
    u.step(AtomicEvent::Locked(true));
    u.step(AtomicEvent::Fetched(Some("x".to_string())));
    u.step(AtomicEvent::TtlRead(Some(5)));
    u.step(AtomicEvent::Parsed(true));
    match u.step(AtomicEvent::Mutated(Err(ShareError::new(410, "gone".to_string())))) {
        AtomicAction::Release(Err(e)) => assert_eq!((e.code.as_str(), e.message.as_str()), ("410", "gone")),
        _ => panic!("expected a release without a write"),
    }
    let (mut u, _) = AtomicUpdate::begin();
    let mut last = AtomicAction::TryLock;
    for _ in 0..80 {
        last = u.step(AtomicEvent::Locked(false));
        if matches!(last, AtomicAction::Fail(_)) {
            break;
        }
    }
    match last {
        AtomicAction::Fail(e) => assert_eq!(e.code, "503"),
        _ => panic!("expected busy"),
    }
}
