pub mod header;
pub mod page;
pub mod x_des_entry;
