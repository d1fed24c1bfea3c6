pub mod chat;
pub mod config;
pub mod decoder;
pub mod exchange;
pub mod session;
pub mod stats;
pub mod text;
pub mod wire;
