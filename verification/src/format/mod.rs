pub mod input;
pub mod stream;
