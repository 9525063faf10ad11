pub mod connection;
pub mod exchange;
pub mod queue;
