pub mod runtime;
pub mod script;
