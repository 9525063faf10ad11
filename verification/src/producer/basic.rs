use vstd::prelude::*;
use crate::cstring::{c_string_arg, nul_free, is_first_nul};
use crate::error::Error;
use vstd::string::StringSliceAdditionalSpecFns;

verus! {

/// What publishing a text message sends: the exchange, routing key and body
/// as C strings, and the mandatory and immediate flags as C booleans.
pub struct BasicPublish {
    pub exchange: Vec<u8>,
    pub routing_key: Vec<u8>,
    pub body: Vec<u8>,
    pub mandatory: i32,
    pub immediate: i32,
}

/// A boolean as C has it.
pub open spec fn c_bool(b: bool) -> i32 {
    if b { 1 } else { 0 }
}

impl BasicPublish {
    /// Prepares a publish; fails where the exchange, else the routing key,
    /// else the body holds a nul byte.
    pub fn new(exchange: &str, routing_key: &str, mandatory: bool, immediate: bool, body: &str)
        -> (r: Result<BasicPublish, Error>)
        ensures
            match r {
                Ok(p) => {
                    &&& nul_free(exchange.spec_bytes())
                    &&& p.exchange@ == exchange.spec_bytes().push(0)
                    &&& nul_free(routing_key.spec_bytes())
                    &&& p.routing_key@ == routing_key.spec_bytes().push(0)
                    &&& nul_free(body.spec_bytes()) && p.body@ == body.spec_bytes().push(0)
                    &&& p.mandatory == c_bool(mandatory) && p.immediate == c_bool(immediate)
                },
                Err(e) => {
                    let bad = if !nul_free(exchange.spec_bytes()) {
                        exchange.spec_bytes()
                    } else if !nul_free(routing_key.spec_bytes()) {
                        routing_key.spec_bytes()
                    } else {
                        body.spec_bytes()
                    };
                    &&& !(nul_free(exchange.spec_bytes()) && nul_free(routing_key.spec_bytes())
                        && nul_free(body.spec_bytes()))
                    &&& e matches Error::Cstring(n) && n.bytes@ == bad
                        && is_first_nul(bad, n.position as int)
                },
            },
    {
        let exchange = c_string_arg(exchange)?;
        let routing_key = c_string_arg(routing_key)?;
        let body = c_string_arg(body)?;
        Ok(BasicPublish {
            exchange,
            routing_key,
            body,
            mandatory: if mandatory { 1 } else { 0 },
            immediate: if immediate { 1 } else { 0 },
        })
    }
}

} // verus!
