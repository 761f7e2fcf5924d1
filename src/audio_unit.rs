pub mod list;
pub mod list_units;
