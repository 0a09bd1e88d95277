pub mod direction;
pub mod format_flag;
pub mod header;
pub mod page;
pub mod records;
