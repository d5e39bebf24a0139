//! Errors: a small closed set of kinds, and the errors that the library and the
//! system report, each with its kind.
use crate::platform::{
    EACCES, EADDRNOTAVAIL, EAFNOSUPPORT, EAGAIN, EINVAL, EMFILE, ENFILE, ENOBUFS, ENOMEM,
    EOPNOTSUPP, EPERM, EPROTONOSUPPORT, ESOCKTNOSUPPORT, ETIMEDOUT,
};
use vstd::prelude::*;

verus! {

/// What went wrong, independently of who noticed.
#[derive(Clone, Copy, Debug, PartialEq, Eq, Structural)]
pub enum ErrorKind {
    /// An argument was malformed: an empty address list, an undecodable address.
    InvalidInput,
    /// The socket has no address of the requested kind: unbound or disassociated.
    AddrNotAvailable,
    /// The system ran out of handles, memory or buffers.
    ResourceExhausted,
    /// The caller may not do this.
    PermissionDenied,
    /// The system does not offer this protocol, family or operation.
    Unsupported,
    /// A receive or accept timeout elapsed.
    TimedOut,
    /// Anything else.
    Other,
}

/// An error of a socket operation.
#[derive(Clone, Copy, Debug, PartialEq, Eq, Structural)]
pub enum SockError {
    /// An address list was empty.
    NoAddresses,
    /// An address list was longer than a multi-homing call can take.
    TooManyAddresses,
    /// A socket address buffer was shorter than the structure it has to hold.
    InvalidAddressLength,
    /// A socket address carried a family tag that is neither IPv4 nor IPv6.
    InvalidAddressFamily,
    /// An address list reported by the system held a record of this family.
    UnsupportedFamily(u16),
    /// The system could not list the socket's addresses.
    AddressesUnavailable,
    /// The socket has no address: it is unbound or not connected.
    Unbound,
    /// An option value does not fit the system's `int`.
    OptionOutOfRange,
    /// A system call failed with this error number.
    Os(i32),
}

/// The kind of an error number of the system.
pub open spec fn os_kind(code: i32) -> ErrorKind {
    if code == EAGAIN || code == ETIMEDOUT {
        ErrorKind::TimedOut
    } else if code == EMFILE || code == ENFILE || code == ENOBUFS || code == ENOMEM {
        ErrorKind::ResourceExhausted
    } else if code == EACCES || code == EPERM {
        ErrorKind::PermissionDenied
    } else if code == EPROTONOSUPPORT || code == ESOCKTNOSUPPORT || code == EOPNOTSUPP || code
        == EAFNOSUPPORT {
        ErrorKind::Unsupported
    } else if code == EADDRNOTAVAIL {
        ErrorKind::AddrNotAvailable
    } else if code == EINVAL {
        ErrorKind::InvalidInput
    } else {
        ErrorKind::Other
    }
}

/// The kind of an error.
pub open spec fn error_kind(e: SockError) -> ErrorKind {
    match e {
        SockError::NoAddresses => ErrorKind::InvalidInput,
        SockError::TooManyAddresses => ErrorKind::InvalidInput,
        SockError::InvalidAddressLength => ErrorKind::InvalidInput,
        SockError::InvalidAddressFamily => ErrorKind::InvalidInput,
        SockError::UnsupportedFamily(_) => ErrorKind::Other,
        SockError::AddressesUnavailable => ErrorKind::Other,
        SockError::Unbound => ErrorKind::AddrNotAvailable,
        SockError::OptionOutOfRange => ErrorKind::InvalidInput,
        SockError::Os(code) => os_kind(code),
    }
}

/// The kind of an error number of the system.
pub fn kind_of_os(code: i32) -> (r: ErrorKind)
    ensures
        r == os_kind(code),
{
    if code == EAGAIN || code == ETIMEDOUT {
        ErrorKind::TimedOut
    } else if code == EMFILE || code == ENFILE || code == ENOBUFS || code == ENOMEM {
        ErrorKind::ResourceExhausted
    } else if code == EACCES || code == EPERM {
        ErrorKind::PermissionDenied
    } else if code == EPROTONOSUPPORT || code == ESOCKTNOSUPPORT || code == EOPNOTSUPP || code
        == EAFNOSUPPORT {
        ErrorKind::Unsupported
    } else if code == EADDRNOTAVAIL {
        ErrorKind::AddrNotAvailable
    } else if code == EINVAL {
        ErrorKind::InvalidInput
    } else {
        ErrorKind::Other
    }
}

impl SockError {
    /// The kind of this error.
    pub fn kind(&self) -> (r: ErrorKind)
        ensures
            r == error_kind(*self),
    {
        match self {
            SockError::NoAddresses => ErrorKind::InvalidInput,
            SockError::TooManyAddresses => ErrorKind::InvalidInput,
            SockError::InvalidAddressLength => ErrorKind::InvalidInput,
            SockError::InvalidAddressFamily => ErrorKind::InvalidInput,
            SockError::UnsupportedFamily(_) => ErrorKind::Other,
            SockError::AddressesUnavailable => ErrorKind::Other,
            SockError::Unbound => ErrorKind::AddrNotAvailable,
            SockError::OptionOutOfRange => ErrorKind::InvalidInput,
            SockError::Os(code) => kind_of_os(*code),
        }
    }

    /// The system's error number, for an error that a system call reported.
    pub fn raw_os_error(&self) -> (r: Option<i32>)
        ensures
            r == (match *self {
                SockError::Os(code) => Some(code),
                _ => None,
            }),
    {
        match self {
            SockError::Os(code) => Some(*code),
            _ => None,
        }
    }

    /// A short description of the error.
    pub fn description(&self) -> &'static str {
        match self {
            SockError::NoAddresses => "No addresses given",
            SockError::TooManyAddresses => "Too many addresses given",
            SockError::InvalidAddressLength => "Invalid address length",
            SockError::InvalidAddressFamily => "Invalid socket address",
            SockError::UnsupportedFamily(_) => "Unsupported address family",
            SockError::AddressesUnavailable => "Cannot retrieve addresses",
            SockError::Unbound => "Socket is unbound",
            SockError::OptionOutOfRange => "Option value out of range",
            SockError::Os(_) => "System call failed",
        }
    }
}

} // verus!
