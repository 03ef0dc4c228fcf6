pub mod manager;
pub mod storage;
