use vstd::prelude::*;

verus! {

/// Status codes of the native engine; zero is success.
pub const STATUS_SUCCESS: u32 = 0;
pub const STATUS_INVALID_ARGUMENT: u32 = 1;
pub const STATUS_OUT_OF_MEMORY: u32 = 2;
pub const STATUS_NO_CONTEXT: u32 = 3;
pub const STATUS_TIMEOUT: u32 = 4;
pub const STATUS_OUT_OF_RESOURCES: u32 = 5;
pub const STATUS_GENERIC_IO: u32 = 6;
pub const STATUS_NOT_SUPPORT: u32 = 7;
pub const STATUS_ALREADY_EXISTS: u32 = 8;
pub const STATUS_NOT_ALIGNED: u32 = 9;
pub const STATUS_FLEXA_TIME_OUT: u32 = 10;
pub const STATUS_FLEXA_HANDSHAKE_FAIL: u32 = 11;

/// A failure reported by the engine, one variant per native status code.
/// Codes the binding does not know map to `Unknown`.
#[derive(Debug, Clone, Copy, PartialEq, Eq, Structural)]
pub enum Error {
    InvalidArgument,
    OutOfMemory,
    NoContext,
    Timeout,
    OutOfResource,
    GenericIO,
    NotSupport,
    AlreadyExists,
    NotAligned,
    FlexaTimeOut,
    FlexaHandshakeFail,
    Unknown,
}

/// The error a (non-success) native status code stands for.
pub open spec fn error_of(code: u32) -> Error {
    if code == STATUS_INVALID_ARGUMENT {
        Error::InvalidArgument
    } else if code == STATUS_OUT_OF_MEMORY {
        Error::OutOfMemory
    } else if code == STATUS_NO_CONTEXT {
        Error::NoContext
    } else if code == STATUS_TIMEOUT {
        Error::Timeout
    } else if code == STATUS_OUT_OF_RESOURCES {
        Error::OutOfResource
    } else if code == STATUS_GENERIC_IO {
        Error::GenericIO
    } else if code == STATUS_NOT_SUPPORT {
        Error::NotSupport
    } else if code == STATUS_ALREADY_EXISTS {
        Error::AlreadyExists
    } else if code == STATUS_NOT_ALIGNED {
        Error::NotAligned
    } else if code == STATUS_FLEXA_TIME_OUT {
        Error::FlexaTimeOut
    } else if code == STATUS_FLEXA_HANDSHAKE_FAIL {
        Error::FlexaHandshakeFail
    } else {
        Error::Unknown
    }
}

/// The outcome a native status code stands for, carrying `t` on success.
pub open spec fn outcome_of<T>(t: T, code: u32) -> Result<T, Error> {
    if code == STATUS_SUCCESS {
        Ok(t)
    } else {
        Err(error_of(code))
    }
}

impl From<u32> for Error {
    fn from(code: u32) -> (r: Error)
        ensures
            r == error_of(code),
    {
        match code {
            STATUS_INVALID_ARGUMENT => Error::InvalidArgument,
            STATUS_OUT_OF_MEMORY => Error::OutOfMemory,
            STATUS_NO_CONTEXT => Error::NoContext,
            STATUS_TIMEOUT => Error::Timeout,
            STATUS_OUT_OF_RESOURCES => Error::OutOfResource,
            STATUS_GENERIC_IO => Error::GenericIO,
            STATUS_NOT_SUPPORT => Error::NotSupport,
            STATUS_ALREADY_EXISTS => Error::AlreadyExists,
            STATUS_NOT_ALIGNED => Error::NotAligned,
            STATUS_FLEXA_HANDSHAKE_FAIL => Error::FlexaHandshakeFail,
            STATUS_FLEXA_TIME_OUT => Error::FlexaTimeOut,
            _ => Error::Unknown,
        }
    }
}

impl vstd::std_specs::convert::FromSpecImpl<u32> for Error {
    open spec fn obeys_from_spec() -> bool {
        true
    }

    open spec fn from_spec(code: u32) -> Error {
        error_of(code)
    }
}

/// Turns a native status code into a `Result`: `Ok(t)` on success, otherwise
/// the error the code stands for.
pub fn wrap_result<T>(t: T, code: u32) -> (r: Result<T, Error>)
    ensures
        r == outcome_of(t, code),
{
    if code == STATUS_SUCCESS {
        Ok(t)
    } else {
        Err(Error::from(code))
    }
}

} // verus!
