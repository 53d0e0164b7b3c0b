pub mod buffer;
pub mod schema;
