//! SCTP sockets: the verified core of a binding to the kernel's SCTP socket
//! interface.
//!
//! The library marshals portable socket addresses to and from the native
//! binary layout, packs address lists for the multi-homing calls, translates
//! socket options and error numbers, and decides, for each socket primitive,
//! what is handed to the system call and what its outcome means. Issuing the
//! system calls and owning the socket handles is left to the caller.
pub mod addr;
pub mod bytes;
pub mod error;
pub mod opts;
pub mod platform;
pub mod raw;

pub use addr::{Family, SockAddr};
pub use error::{ErrorKind, SockError};
pub use opts::SoDirection;
pub use raw::{BindOp, Shutdown, SocketStyle};
