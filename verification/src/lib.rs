//! A RabbitMQ client library over librabbitmq: the AMQP decisions (how frames
//! are assembled into messages, how broker replies and status codes become
//! results, how a channel pool hands channels out) with their contracts.

pub mod error;
pub mod cstring;
pub mod amqp;
pub mod buffer;
pub mod read_message;
pub mod rpc_message;
pub mod rpc;
pub mod types;
pub mod producer;
pub mod channel_pool;
pub mod consumer;
pub mod config;
