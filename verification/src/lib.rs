pub mod callback;
pub mod config;
pub mod get_stream;
pub mod login;
pub mod query;
pub mod reply;
pub mod router;
pub mod store;
pub mod utils;
