pub mod header;
pub mod layout;
pub mod row;
