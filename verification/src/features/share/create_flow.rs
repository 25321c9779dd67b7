//! The order of a create request: check the form, draw a key, check the
//! upload rate and store the file (when one came), prepare the record, store
//! it, and answer. Each step is I/O done by the caller, which reports its
//! outcome; what comes next, and what is undone on a failure, is decided here.

use crate::features::share::create::{
    rate_limit_to_response, requirement_denial, storage_status, storage_to_response, upload_rate_message,
    ShareCreate,
};
use crate::features::share::form::ShareForm;
use crate::features::storage::config::FileUploadConfig;
use crate::features::storage::error::StorageError;
use crate::features::storage::ratelimit::RateLimitExceeded;
use crate::web::response::ApiError;
use vstd::prelude::*;

verus! {

/// Where a create request stands.
#[derive(Debug, Clone, Copy, PartialEq, Eq, Structural)]
pub enum CreatePhase {
    GenerateKey,
    CheckUploadRate,
    UploadFile,
    PrepareData,
    StoreData,
    Finished,
}

/// A create request in progress: its phase, whether a file came with it, and
/// the name of the file once it is stored.
#[derive(Debug)]
pub struct CreateFlow {
    pub phase: CreatePhase,
    pub has_file: bool,
    pub stored: Option<String>,
}

/// What the caller reports of the step it was asked to do.
#[derive(Debug)]
pub enum CreateEvent {
    /// A free share key was found, or the search failed.
    KeyGenerated(bool),
    RateChecked(Result<(), RateLimitExceeded>),
    /// The file was stored under this name, or refused.
    FileStored(Result<String, StorageError>),
    /// The record was prepared (`ShareCreate::prepare_data`), or not.
    DataPrepared(Result<(), ApiError>),
    /// The record was written to Redis, or the write failed with this message.
    DataStored(Result<(), String>),
}

/// What the caller does next.
#[derive(Debug)]
pub enum CreateAction {
    GenerateKey,
    CheckUploadRate,
    UploadFile,
    PrepareData,
    StoreData,
    /// Success: schedule the cleanup of the stored file if any, record the
    /// statistics, and answer with the key, link and token.
    Respond { cleanup: Option<String> },
    /// Failure: delete the stored file if any, and answer with the error.
    Fail { rollback: Option<String>, error: ApiError },
}

/// The event that answers the step a phase asked for.
pub open spec fn fits(phase: CreatePhase, event: CreateEvent) -> bool {
    match phase {
        CreatePhase::GenerateKey => event is KeyGenerated,
        CreatePhase::CheckUploadRate => event is RateChecked,
        CreatePhase::UploadFile => event is FileStored,
        CreatePhase::PrepareData => event is DataPrepared,
        CreatePhase::StoreData => event is DataStored,
        CreatePhase::Finished => false,
    }
}

pub open spec fn opt_view(o: Option<String>) -> Option<Seq<char>> {
    match o {
        Some(s) => Some(s@),
        None => None,
    }
}

/// `a` is a failure that rolls back `rollback` and answers `status` with `message`.
pub open spec fn fails_with(a: CreateAction, rollback: Option<Seq<char>>, status: u16, message: Seq<char>) -> bool {
    a matches CreateAction::Fail { rollback: r, error } && opt_view(r) == rollback && error.is(status, message)
}

impl CreateFlow {
    /// The first step: the form's requirements, then a key.
    pub fn begin(form: &ShareForm, has_file: bool, config: &FileUploadConfig) -> (res: (CreateFlow, CreateAction))
        ensures
            res.0.has_file == has_file,
            res.0.stored is None,
            match requirement_denial(
                *form,
                has_file,
                config.upload_enabled && config.allowed_extensions.elements().len() > 0,
                config.download_mode,
            ) {
                Some(d) => res.0.phase == CreatePhase::Finished && fails_with(res.1, None, d.0, d.1),
                None => res.0.phase == CreatePhase::GenerateKey && res.1 is GenerateKey,
            },
    {
        match ShareCreate::validate_requirements(form, has_file, config) {
            Ok(()) => (CreateFlow { phase: CreatePhase::GenerateKey, has_file, stored: None }, CreateAction::GenerateKey),
            Err(e) => (
                CreateFlow { phase: CreatePhase::Finished, has_file, stored: None },
                CreateAction::Fail { rollback: None, error: e },
            ),
        }
    }

    /// The next step after the outcome of the current one. A failure before
    /// the file is stored undoes nothing; a failure after it deletes it.
    pub fn step(&mut self, event: CreateEvent) -> (res: CreateAction)
        requires
            fits(old(self).phase, event),
        ensures
            final(self).has_file == old(self).has_file,
            match event {
                CreateEvent::KeyGenerated(found) => if !found {
                    final(self).phase == CreatePhase::Finished && final(self).stored == old(self).stored
                        && fails_with(res, None, 500, "Failed to generate key"@)
                } else if old(self).has_file {
                    final(self).phase == CreatePhase::CheckUploadRate && final(self).stored == old(self).stored
                        && res is CheckUploadRate
                } else {
                    final(self).phase == CreatePhase::PrepareData && final(self).stored == old(self).stored
                        && res is PrepareData
                },
                CreateEvent::RateChecked(r) => match r {
                    Err(l) => final(self).phase == CreatePhase::Finished && final(self).stored == old(self).stored
                        && fails_with(res, None, 429, upload_rate_message(l.retry_after_secs)),
                    Ok(()) => final(self).phase == CreatePhase::UploadFile && final(self).stored == old(self).stored
                        && res is UploadFile,
                },
                CreateEvent::FileStored(r) => match r {
                    Err(e) => final(self).phase == CreatePhase::Finished && final(self).stored == old(self).stored
                        && fails_with(res, None, storage_status(e), e.text()),
                    Ok(name) => final(self).phase == CreatePhase::PrepareData && opt_view(final(self).stored)
                        == Some(name@) && res is PrepareData,
                },
                CreateEvent::DataPrepared(r) => match r {
                    Err(e) => final(self).phase == CreatePhase::Finished && final(self).stored == old(self).stored
                        && fails_with(res, opt_view(old(self).stored), e.status, e.message@),
                    Ok(()) => final(self).phase == CreatePhase::StoreData && final(self).stored == old(self).stored
                        && res is StoreData,
                },
                CreateEvent::DataStored(r) => match r {
                    Err(m) => final(self).phase == CreatePhase::Finished && final(self).stored == old(self).stored
                        && fails_with(res, opt_view(old(self).stored), 500, m@),
                    Ok(()) => final(self).phase == CreatePhase::Finished && final(self).stored == old(self).stored
                        && (res matches CreateAction::Respond { cleanup } && opt_view(cleanup) == opt_view(
                        old(self).stored,
                    )),
                },
            },
    {
        match event {
            CreateEvent::KeyGenerated(found) => {
                if !found {
                    self.phase = CreatePhase::Finished;
                    CreateAction::Fail { rollback: None, error: ApiError::new(500, "Failed to generate key") }
                } else if self.has_file {
                    self.phase = CreatePhase::CheckUploadRate;
                    CreateAction::CheckUploadRate
                } else {
                    self.phase = CreatePhase::PrepareData;
                    CreateAction::PrepareData
                }
            },
            CreateEvent::RateChecked(r) => match r {
                Err(l) => {
                    self.phase = CreatePhase::Finished;
                    CreateAction::Fail { rollback: None, error: rate_limit_to_response(l) }
                },
                Ok(()) => {
                    self.phase = CreatePhase::UploadFile;
                    CreateAction::UploadFile
                },
            },
            CreateEvent::FileStored(r) => match r {
                Err(e) => {
                    self.phase = CreatePhase::Finished;
                    CreateAction::Fail { rollback: None, error: storage_to_response(e) }
                },
                Ok(name) => {
                    self.phase = CreatePhase::PrepareData;
                    self.stored = Some(name);
                    CreateAction::PrepareData
                },
            },
            CreateEvent::DataPrepared(r) => match r {
                Err(e) => {
                    self.phase = CreatePhase::Finished;
                    let rollback = clone_opt(&self.stored);
                    CreateAction::Fail { rollback, error: e }
                },
                Ok(()) => {
                    self.phase = CreatePhase::StoreData;
                    CreateAction::StoreData
                },
            },
            CreateEvent::DataStored(r) => match r {
                Err(m) => {
                    self.phase = CreatePhase::Finished;
                    let rollback = clone_opt(&self.stored);
                    CreateAction::Fail { rollback, error: ApiError { status: 500, message: m } }
                },
                Ok(()) => {
                    self.phase = CreatePhase::Finished;
                    CreateAction::Respond { cleanup: clone_opt(&self.stored) }
                },
            },
        }
    }
}

fn clone_opt(o: &Option<String>) -> (res: Option<String>)
    ensures
        opt_view(res) == opt_view(*o),
{
    match o {
        Some(s) => Some(s.clone()),
        None => None,
    }
}

} // verus!
