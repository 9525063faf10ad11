use vstd::prelude::*;
use crate::amqp::{status_outcome, status_result};
use crate::cstring::{c_string_arg, nul_free, is_first_nul};
use crate::error::Error;
use vstd::string::StringSliceAdditionalSpecFns;

verus! {

/// The host name to open a connection's socket to, as a C string: an error
/// where no socket could be made, then an error where the name holds a nul
/// byte.
pub fn socket_hostname(socket_is_null: bool, hostname: &str) -> (r: Result<Vec<u8>, Error>)
    ensures
        match r {
            Ok(h) => !socket_is_null && nul_free(hostname.spec_bytes())
                && h@ == hostname.spec_bytes().push(0),
            Err(e) => if socket_is_null {
                e == Error::TCPSocket
            } else {
                e matches Error::Cstring(n) && n.bytes@ == hostname.spec_bytes()
                    && is_first_nul(hostname.spec_bytes(), n.position as int)
            },
        },
{
    if socket_is_null {
        return Err(Error::TCPSocket);
    }
    c_string_arg(hostname)
}

/// The result of opening a connection's socket: the status as an error where
/// it is not `STATUS_OK`, then an error where there is no connection state.
pub fn socket_opened(status: i32, state_is_null: bool) -> (r: Result<(), Error>)
    ensures
        match status_outcome(status) {
            Err(e) => r == Err::<(), Error>(e),
            Ok(_) => r == (if state_is_null { Err(Error::TCPSocket) } else { Ok(()) }),
        },
{
    status_result(status)?;
    if state_is_null {
        Err(Error::TCPSocket)
    } else {
        Ok(())
    }
}

/// What logging in sends: the virtual host, login and password as C strings,
/// and the limits asked for.
pub struct LoginRequest {
    pub vhost: Vec<u8>,
    pub channel_max: i32,
    pub frame_max: i32,
    pub heartbeat: i32,
    pub login: Vec<u8>,
    pub password: Vec<u8>,
}

impl LoginRequest {
    /// Prepares a login; fails where the virtual host, else the login, else
    /// the password holds a nul byte.
    pub fn new(
        vhost: &str,
        channel_max: i32,
        frame_max: i32,
        heartbeat: i32,
        login: &str,
        password: &str,
    ) -> (r: Result<LoginRequest, Error>)
        ensures
            match r {
                Ok(q) => {
                    &&& nul_free(vhost.spec_bytes()) && q.vhost@ == vhost.spec_bytes().push(0)
                    &&& nul_free(login.spec_bytes()) && q.login@ == login.spec_bytes().push(0)
                    &&& nul_free(password.spec_bytes())
                    &&& q.password@ == password.spec_bytes().push(0)
                    &&& q.channel_max == channel_max && q.frame_max == frame_max
                    &&& q.heartbeat == heartbeat
                },
                Err(e) => {
                    let bad = if !nul_free(vhost.spec_bytes()) {
                        vhost.spec_bytes()
                    } else if !nul_free(login.spec_bytes()) {
                        login.spec_bytes()
                    } else {
                        password.spec_bytes()
                    };
                    &&& !(nul_free(vhost.spec_bytes()) && nul_free(login.spec_bytes())
                        && nul_free(password.spec_bytes()))
                    &&& e matches Error::Cstring(n) && n.bytes@ == bad
                        && is_first_nul(bad, n.position as int)
                },
            },
    {
        let vhost = c_string_arg(vhost)?;
        let login = c_string_arg(login)?;
        let password = c_string_arg(password)?;
        Ok(LoginRequest { vhost, channel_max, frame_max, heartbeat, login, password })
    }
}

} // verus!
