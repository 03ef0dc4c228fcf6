pub mod app;
pub mod handler;
pub mod view;
