pub mod buffer;
pub mod error;
pub mod file_header;
pub mod file_trailer;
pub mod page;
pub mod tablespace;
