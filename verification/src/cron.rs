//! The periodic jobs started with the server.

use crate::features::storage::backend::{register_cleanup_job, CleanupSchedule};
use crate::features::storage::config::FileUploadConfig;
use vstd::prelude::*;

verus! {

pub struct Cron;

impl Cron {
    /// Whether a cleanup run does anything: only while uploads are enabled.
    pub fn cleanup_runs(file_upload: &FileUploadConfig) -> (res: bool)
        ensures
            res == file_upload.upload_enabled,
    {
        file_upload.upload_enabled
    }

    /// The jobs to start: the cleanup of expired files when uploads are
    /// enabled, every `cleanup_interval_secs` seconds (never under ten).
    pub fn start(file_upload: &FileUploadConfig) -> (res: Option<CleanupSchedule>)
        ensures
            res is Some <==> file_upload.upload_enabled,
            res matches Some(job) ==> job.name@ == "file_cleanup"@ && job.interval_secs == (
            if file_upload.cleanup_interval_secs < 10 {
                10
            } else {
                file_upload.cleanup_interval_secs
            }),
    {
        if file_upload.upload_enabled {
            Some(register_cleanup_job(file_upload.cleanup_interval_secs))
        } else {
            None
        }
    }
}

} // verus!
