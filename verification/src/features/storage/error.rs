//! Errors of file storage.

use crate::text::{concat2, copy_str};
use vstd::prelude::*;

verus! {

#[derive(Debug)]
pub enum StorageError {
    UploadDisabled,
    InvalidExtension(String),
    FileTooLarge,
    Io(String),
    Ftp(String),
    NotFound,
    Misconfigured(String),
}

impl StorageError {
    /// The text shown to users for this error.
    pub open spec fn text(&self) -> Seq<char> {
        match self {
            StorageError::UploadDisabled => "آپلود فایل غیرفعال است"@,
            StorageError::InvalidExtension(msg) => msg@,
            StorageError::FileTooLarge => "حجم فایل بیش از حد مجاز است"@,
            StorageError::Io(msg) => "خطای ذخیره‌سازی: "@ + msg@,
            StorageError::Ftp(msg) => "خطای FTP: "@ + msg@,
            StorageError::NotFound => "فایل یافت نشد"@,
            StorageError::Misconfigured(msg) => "پیکربندی storage: "@ + msg@,
        }
    }

    /// The text of the error, as its `Display` prints it.
    pub fn message(&self) -> (res: String)
        ensures
            res@ == self.text(),
    {
        match self {
            StorageError::UploadDisabled => copy_str("آپلود فایل غیرفعال است"),
            StorageError::InvalidExtension(msg) => msg.clone(),
            StorageError::FileTooLarge => copy_str("حجم فایل بیش از حد مجاز است"),
            StorageError::Io(msg) => concat2("خطای ذخیره‌سازی: ", msg.as_str()),
            StorageError::Ftp(msg) => concat2("خطای FTP: ", msg.as_str()),
            StorageError::NotFound => copy_str("فایل یافت نشد"),
            StorageError::Misconfigured(msg) => concat2("پیکربندی storage: ", msg.as_str()),
        }
    }

    /// The HTTP status a create request answers with for this error.
    pub fn status(&self) -> (res: u16)
        ensures
            res == match self {
                StorageError::FileTooLarge | StorageError::InvalidExtension(_)
                | StorageError::UploadDisabled => 400u16,
                _ => 500u16,
            },
    {
        match self {
            StorageError::FileTooLarge | StorageError::InvalidExtension(_)
            | StorageError::UploadDisabled => 400,
            _ => 500,
        }
    }
}

} // verus!
