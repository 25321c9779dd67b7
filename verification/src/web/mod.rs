pub mod response;
pub mod pages;
pub mod router;
