pub mod classify;
pub mod config;
pub mod notify;
pub mod payload;
pub mod runner;
pub mod signature;
pub mod text;
