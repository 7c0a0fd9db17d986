//! The alert store.
pub mod errors;
pub mod models;
pub mod store;

pub use errors::DbError;
pub use store::Db;
