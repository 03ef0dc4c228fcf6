pub mod engine;
pub mod queue;
pub mod state;
