use vstd::prelude::*;

verus! {

/// Where the broker listens.
#[derive(Debug, Clone)]
pub struct Connection {
    pub hostname: String,
    pub port: i32,
}

/// How to log in to the broker.
#[derive(Debug, Clone)]
pub struct Login {
    pub vhost: String,
    pub channel_max: i32,
    pub frame_max: i32,
    pub heartbeat: i32,
    pub login: String,
    pub password: String,
}

/// The settings of a consumer.
#[derive(Debug, Clone)]
pub struct Config {
    pub connection: Connection,
    pub login: Login,
}

} // verus!
