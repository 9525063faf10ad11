use vstd::prelude::*;
use crate::amqp::{reply_outcome, reply_result};
use crate::cstring::{c_string_arg, nul_free, is_first_nul};
use crate::error::Error;
use vstd::utf8::encode_utf8;

verus! {

/// The kinds of exchange.
#[derive(Debug, Clone, Copy, PartialEq, Eq, Structural)]
pub enum ExchangeType {
    Fanout,
    Direct,
    Topic,
    Headers,
}

/// The name of an exchange type on the wire, as ASCII bytes.
pub open spec fn exchange_type_name(t: ExchangeType) -> Seq<u8> {
    match t {
        // "fanout"
        ExchangeType::Fanout => seq![102u8, 97, 110, 111, 117, 116],
        // "direct"
        ExchangeType::Direct => seq![100u8, 105, 114, 101, 99, 116],
        // "topic"
        ExchangeType::Topic => seq![116u8, 111, 112, 105, 99],
        // "headers"
        ExchangeType::Headers => seq![104u8, 101, 97, 100, 101, 114, 115],
    }
}

impl ExchangeType {
    /// The name of the exchange type as a nul-terminated C string.
    pub fn to_cstr_bytes(&self) -> (b: Vec<u8>)
        ensures
            b@ == exchange_type_name(*self).push(0),
    {
        let b: Vec<u8> = match self {
            ExchangeType::Fanout => vec![102u8, 97, 110, 111, 117, 116, 0],
            ExchangeType::Direct => vec![100u8, 105, 114, 101, 99, 116, 0],
            ExchangeType::Topic => vec![116u8, 111, 112, 105, 99, 0],
            ExchangeType::Headers => vec![104u8, 101, 97, 100, 101, 114, 115, 0],
        };
        proof {
            assert(b@ =~= exchange_type_name(*self).push(0));
        }
        b
    }
}

/// An exchange, as declared.
#[derive(Debug)]
pub struct Exchange {
    pub name: String,
    pub exchange_type: ExchangeType,
    pub passive: bool,
    pub durable: bool,
    pub auto_delete: bool,
    pub internal: bool,
}

impl Default for Exchange {
    /// The default exchange: the unnamed direct exchange.
    fn default() -> (e: Exchange)
        ensures
            e.name@ == Seq::<char>::empty(),
            e.exchange_type == ExchangeType::Direct,
            !e.passive && !e.durable && !e.auto_delete && !e.internal,
    {
        Exchange {
            name: String::new(),
            exchange_type: ExchangeType::Direct,
            passive: false,
            durable: false,
            auto_delete: false,
            internal: false,
        }
    }
}

/// What declaring an exchange sends: its name as a C string, its type's name
/// as a C string, and its flags.
pub struct ExchangeDeclare {
    pub name: String,
    pub name_c: Vec<u8>,
    pub type_c: Vec<u8>,
    pub exchange_type: ExchangeType,
    pub passive: bool,
    pub durable: bool,
    pub auto_delete: bool,
    pub internal: bool,
}

impl ExchangeDeclare {
    /// Prepares the declaration of an exchange; fails where the name holds a
    /// nul byte.
    pub fn new(
        name: String,
        exchange_type: ExchangeType,
        passive: bool,
        durable: bool,
        auto_delete: bool,
        internal: bool,
    ) -> (r: Result<ExchangeDeclare, Error>)
        ensures
            match r {
                Ok(d) => {
                    &&& nul_free(encode_utf8(name@))
                    &&& d.name == name
                    &&& d.name_c@ == encode_utf8(name@).push(0)
                    &&& d.type_c@ == exchange_type_name(exchange_type).push(0)
                    &&& d.exchange_type == exchange_type
                    &&& d.passive == passive && d.durable == durable
                    &&& d.auto_delete == auto_delete && d.internal == internal
                },
                Err(e) => e matches Error::Cstring(n) && n.bytes@ == encode_utf8(name@)
                    && is_first_nul(encode_utf8(name@), n.position as int),
            },
    {
        let name_c = c_string_arg(name.as_str())?;
        let type_c = exchange_type.to_cstr_bytes();
        Ok(ExchangeDeclare {
            name,
            name_c,
            type_c,
            exchange_type,
            passive,
            durable,
            auto_delete,
            internal,
        })
    }

    /// The exchange that the broker's reply to the declaration gives: the
    /// declared exchange for a normal reply, else the reply error.
    pub fn declared(self, reply_type: u32) -> (r: Result<Exchange, Error>)
        ensures
            match r {
                Ok(e) => {
                    &&& reply_outcome(reply_type) is Ok
                    &&& e.name == self.name
                    &&& e.exchange_type == self.exchange_type
                    &&& e.passive == self.passive && e.durable == self.durable
                    &&& e.auto_delete == self.auto_delete && e.internal == self.internal
                },
                Err(e) => reply_outcome(reply_type) == Err::<(), Error>(e),
            },
    {
        reply_result(reply_type)?;
        Ok(Exchange {
            name: self.name,
            exchange_type: self.exchange_type,
            passive: self.passive,
            durable: self.durable,
            auto_delete: self.auto_delete,
            internal: self.internal,
        })
    }
}

} // verus!
