pub mod cache;
pub mod enums;
pub mod finance;
pub mod laws;
