pub mod client;
pub mod requests;
pub mod types;
