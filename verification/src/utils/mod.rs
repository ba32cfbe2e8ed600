pub mod name_map;
pub mod url;
