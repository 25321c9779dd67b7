pub mod content_disposition;
pub mod encoding;
pub mod encrypt;
pub mod format;
pub mod hash;
pub mod url;
