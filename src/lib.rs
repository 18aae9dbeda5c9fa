pub mod binder;
pub mod cookie;
pub mod error;
pub mod header;
