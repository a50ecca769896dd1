pub mod decoder;
pub mod stub;
