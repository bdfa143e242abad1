pub mod text;
pub mod exception;
pub mod config;
pub mod extract;
pub mod mega;
pub mod storage;
pub mod message;
pub mod pipeline;
