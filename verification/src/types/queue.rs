use vstd::prelude::*;
use crate::amqp::{reply_outcome, reply_result};
use crate::cstring::{c_string_arg, nul_free, is_first_nul};
use crate::error::Error;
use vstd::string::StringSliceAdditionalSpecFns;

verus! {

/// What declaring a queue sends: its name as a C string, and its flags.
pub struct QueueDeclare {
    pub name_c: Vec<u8>,
    pub passive: bool,
    pub durable: bool,
    pub exclusive: bool,
    pub auto_delete: bool,
}

/// A queue, as declared; the name that the broker gave it stays with the
/// caller.
#[derive(Debug, Clone, Copy, PartialEq, Eq, Structural)]
pub struct Queue {
    pub passive: bool,
    pub durable: bool,
    pub exclusive: bool,
    pub auto_delete: bool,
}

impl QueueDeclare {
    /// Prepares the declaration of a queue; fails where the name holds a nul
    /// byte.
    pub fn new(name: &str, passive: bool, durable: bool, exclusive: bool, auto_delete: bool)
        -> (r: Result<QueueDeclare, Error>)
        ensures
            match r {
                Ok(d) => {
                    &&& nul_free(name.spec_bytes())
                    &&& d.name_c@ == name.spec_bytes().push(0)
                    &&& d.passive == passive && d.durable == durable
                    &&& d.exclusive == exclusive && d.auto_delete == auto_delete
                },
                Err(e) => e matches Error::Cstring(n) && n.bytes@ == name.spec_bytes()
                    && is_first_nul(name.spec_bytes(), n.position as int),
            },
    {
        let name_c = c_string_arg(name)?;
        Ok(QueueDeclare { name_c, passive, durable, exclusive, auto_delete })
    }

    /// The queue that the broker's reply to the declaration gives: the reply
    /// error for an abnormal reply, an error where no queue name came back,
    /// else the declared queue.
    pub fn declared(&self, reply_type: u32, name_is_null: bool) -> (r: Result<Queue, Error>)
        ensures
            match r {
                Ok(q) => {
                    &&& reply_outcome(reply_type) is Ok
                    &&& !name_is_null
                    &&& q == (Queue {
                        passive: self.passive,
                        durable: self.durable,
                        exclusive: self.exclusive,
                        auto_delete: self.auto_delete,
                    })
                },
                Err(e) => e == Error::Reply && (reply_outcome(reply_type) is Err || name_is_null),
            },
    {
        reply_result(reply_type)?;
        if name_is_null {
            return Err(Error::Reply);
        }
        Ok(Queue {
            passive: self.passive,
            durable: self.durable,
            exclusive: self.exclusive,
            auto_delete: self.auto_delete,
        })
    }
}

/// The result of purging a queue: the number of messages purged, or an error
/// where the broker gave no answer.
pub fn purged(message_count: Option<u32>) -> (r: Result<u32, Error>)
    ensures
        match message_count {
            Some(n) => r == Ok::<u32, Error>(n),
            None => r == Err::<u32, Error>(Error::Reply),
        },
{
    match message_count {
        Some(n) => Ok(n),
        None => Err(Error::Reply),
    }
}

} // verus!
