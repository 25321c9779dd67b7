use tshare::features::share::create_flow::{CreateAction, CreateEvent, CreateFlow, CreatePhase};
use tshare::features::share::form::ShareForm;
use tshare::features::storage::config::{EnvVars, FileUploadConfig};
use tshare::features::storage::error::StorageError;
use tshare::features::storage::ratelimit::RateLimitExceeded;
use tshare::web::response::ApiError;

fn cfg(upload: bool) -> FileUploadConfig {
    let mut vars = Vec::new();
    if upload {
        vars.push(("FILE_UPLOAD_ENABLED".to_string(), "true".to_string()));
        vars.push(("FILE_ALLOWED_EXTENSIONS".to_string(), "pdf".to_string()));
    }
    FileUploadConfig::from_env(&EnvVars { vars })
}

fn note(text: &str) -> ShareForm {
    let mut f = ShareForm::empty();
    f.note = Some(text.to_string());
    f
}

#[test]
fn text_share_runs_to_the_answer() {
    let (mut flow, a) = CreateFlow::begin(&note("hi"), false, &cfg(false));
    assert!(matches!(a, CreateAction::GenerateKey));
    assert!(matches!(flow.step(CreateEvent::KeyGenerated(true)), CreateAction::PrepareData));
    assert!(matches!(flow.step(CreateEvent::DataPrepared(Ok(()))), CreateAction::StoreData));
    assert!(matches!(flow.step(CreateEvent::DataStored(Ok(()))), CreateAction::Respond { cleanup: None }));
    assert_eq!(flow.phase, CreatePhase::Finished);
}

#[test]
fn refused_form_fails_at_once() {
    let (flow, a) = CreateFlow::begin(&note("  "), false, &cfg(false));
    assert_eq!(flow.phase, CreatePhase::Finished);
    match a {
        CreateAction::Fail { rollback: None, error } => assert_eq!((error.status, error.message.as_str()), (400, "متن یا فایل الزامی است.")),
        _ => panic!("expected a failure"),
    }
}

#[test]
fn file_share_rolls_back_after_upload() {
    let (mut flow, _) = CreateFlow::begin(&note(""), true, &cfg(true));
    assert!(matches!(flow.step(CreateEvent::KeyGenerated(true)), CreateAction::CheckUploadRate));
    assert!(matches!(flow.step(CreateEvent::RateChecked(Ok(()))), CreateAction::UploadFile));
    assert!(matches!(flow.step(CreateEvent::FileStored(Ok("f.pdf".to_string()))), CreateAction::PrepareData));
    assert!(matches!(flow.step(CreateEvent::DataPrepared(Ok(()))), CreateAction::StoreData));
    match flow.step(CreateEvent::DataStored(Err("Redis error: down".to_string()))) {
        CreateAction::Fail { rollback, error } => {
            assert_eq!(rollback.as_deref(), Some("f.pdf"));
            assert_eq!((error.status, error.message.as_str()), (500, "Redis error: down"));
        }
        _ => panic!("expected a failure"),
    }
}

#[test]
fn failures_before_upload_roll_back_nothing() {
    let (mut flow, _) = CreateFlow::begin(&note(""), true, &cfg(true));
    flow.step(CreateEvent::KeyGenerated(true));
    match flow.step(CreateEvent::RateChecked(Err(RateLimitExceeded { retry_after_secs: 9 }))) {
        CreateAction::Fail { rollback: None, error } => assert_eq!(error.status, 429),
        _ => panic!("expected a refusal"),
    }
    let (mut flow, _) = CreateFlow::begin(&note(""), true, &cfg(true));
    flow.step(CreateEvent::KeyGenerated(true));
    flow.step(CreateEvent::RateChecked(Ok(())));
    match flow.step(CreateEvent::FileStored(Err(StorageError::FileTooLarge))) {
        CreateAction::Fail { rollback: None, error } => assert_eq!(error.status, 400),
        _ => panic!("expected a refusal"),
    }
    let (mut flow, _) = CreateFlow::begin(&note("x"), false, &cfg(false));
    match flow.step(CreateEvent::KeyGenerated(false)) {
        CreateAction::Fail { rollback: None, error } => assert_eq!(error.message, "Failed to generate key"),
        _ => panic!("expected a failure"),
    }
    let (mut flow, _) = CreateFlow::begin(&note("x"), false, &cfg(false));
    flow.step(CreateEvent::KeyGenerated(true));
    let e = ApiError { status: 500, message: "Failed to hash token".to_string() };
    assert!(matches!(flow.step(CreateEvent::DataPrepared(Err(e))), CreateAction::Fail { rollback: None, .. }));
}
