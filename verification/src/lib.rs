pub mod channel;
pub mod cli;
pub mod event;
pub mod laws;
pub mod publisher;
pub mod session;
