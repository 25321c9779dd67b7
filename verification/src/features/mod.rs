pub mod share;
pub mod storage;
