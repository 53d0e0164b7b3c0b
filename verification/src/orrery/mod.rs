pub mod alignment;
pub mod hub;
