use vstd::prelude::*;

verus! {

/// A string handed to the broker held a nul byte, so it cannot be passed on
/// as a C string: `position` is the index of the first nul byte in `bytes`.
#[derive(Debug, Clone, PartialEq, Eq)]
pub struct NulError {
    pub position: usize,
    pub bytes: Vec<u8>,
}

/// The errors of this library.
#[derive(Debug, Clone, PartialEq, Eq)]
pub enum Error {
    Cstring(NulError),
    TCPSocket,
    Status(i32),
    Decode,
    Reply,
    Frame,
}

/// The text that describes an error.
pub open spec fn description_of(e: Error) -> Seq<char> {
    match e {
        Error::Cstring(_) => "nul byte found in data"@,
        Error::Status(_) => "creat TCP socket status"@,
        Error::TCPSocket => "creat TCP socket error"@,
        Error::Reply => "Reply error"@,
        Error::Decode => "Decode error"@,
        Error::Frame => "Frame error"@,
    }
}

impl Error {
    /// The text that describes this error (what the error displays).
    pub fn description(&self) -> (s: &'static str)
        ensures
            s@ == description_of(*self),
    {
        match self {
            Error::Cstring(_) => "nul byte found in data",
            Error::Status(_) => "creat TCP socket status",
            Error::TCPSocket => "creat TCP socket error",
            Error::Reply => "Reply error",
            Error::Decode => "Decode error",
            Error::Frame => "Frame error",
        }
    }
}

impl From<NulError> for Error {
    fn from(error: NulError) -> (e: Error) {
        Error::Cstring(error)
    }
}

impl vstd::std_specs::convert::FromSpecImpl<NulError> for Error {
    open spec fn obeys_from_spec() -> bool {
        true
    }

    open spec fn from_spec(v: NulError) -> Error {
        Error::Cstring(v)
    }
}

} // verus!
