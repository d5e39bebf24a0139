//! The vocabulary of the host's socket interface: address families, socket
//! kinds, option levels and names, and the error numbers that the library
//! interprets. The values are those of Linux with lksctp; multi-byte fields of
//! the native structures are laid out little-endian, as on the Linux hosts this
//! library targets.
use vstd::prelude::*;

verus! {

/// Address family tag of an IPv4 socket address.
pub const AF_INET: u16 = 2;

/// Address family tag of an IPv6 socket address.
pub const AF_INET6: u16 = 10;

/// Socket kind of a one-to-one (connection-oriented) SCTP socket.
pub const SOCK_STREAM: i32 = 1;

/// Socket kind of a one-to-many (message-oriented) SCTP socket.
pub const SOCK_SEQPACKET: i32 = 5;

/// Protocol number of SCTP.
pub const IPPROTO_SCTP: i32 = 132;

/// Option level of the generic socket options.
pub const SOL_SOCKET: i32 = 1;

/// Option level of the SCTP options.
pub const SOL_SCTP: i32 = 132;

/// Receive buffer size option.
pub const SO_RCVBUF: i32 = 8;

/// Send buffer size option.
pub const SO_SNDBUF: i32 = 7;

/// Receive timeout option.
pub const SO_RCVTIMEO: i32 = 20;

/// Send timeout option.
pub const SO_SNDTIMEO: i32 = 21;

/// SCTP option that turns the Nagle-like bundling delay off.
pub const SCTP_NODELAY: i32 = 3;

/// `sctp_bindx` flag: add the given addresses.
pub const SCTP_BINDX_ADD_ADDR: i32 = 1;

/// `sctp_bindx` flag: remove the given addresses.
pub const SCTP_BINDX_REM_ADDR: i32 = 2;

/// `shutdown` direction: no more receptions.
pub const SHUT_RD: i32 = 0;

/// `shutdown` direction: no more transmissions.
pub const SHUT_WR: i32 = 1;

/// `shutdown` direction: both halves.
pub const SHUT_RDWR: i32 = 2;

/// `listen` backlog that asks for the system's default queue depth.
pub const DEFAULT_BACKLOG: i32 = -1;

/// Size of the native IPv4 socket address structure.
pub const SOCKADDR_IN_LEN: usize = 16;

/// Size of the native IPv6 socket address structure.
pub const SOCKADDR_IN6_LEN: usize = 28;

/// Size of the generic socket address header, the least a decoded buffer holds.
pub const SOCKADDR_LEN: usize = 16;

/// Size of the native storage that fits every socket address.
pub const SOCKADDR_STORAGE_LEN: usize = 128;

/// Size of an `int` option value.
pub const INT_OPT_LEN: usize = 4;

/// Operation not permitted.
pub const EPERM: i32 = 1;

/// Resource temporarily unavailable; what a blocking call reports when its
/// timeout elapses.
pub const EAGAIN: i32 = 11;

/// Out of memory.
pub const ENOMEM: i32 = 12;

/// Permission denied.
pub const EACCES: i32 = 13;

/// Invalid argument.
pub const EINVAL: i32 = 22;

/// Too many open files in the system.
pub const ENFILE: i32 = 23;

/// Too many open files in the process.
pub const EMFILE: i32 = 24;

/// Protocol not supported.
pub const EPROTONOSUPPORT: i32 = 93;

/// Socket type not supported.
pub const ESOCKTNOSUPPORT: i32 = 94;

/// Operation not supported.
pub const EOPNOTSUPP: i32 = 95;

/// Address family not supported.
pub const EAFNOSUPPORT: i32 = 97;

/// Address not available.
pub const EADDRNOTAVAIL: i32 = 99;

/// No buffer space available.
pub const ENOBUFS: i32 = 105;

/// Connection timed out.
pub const ETIMEDOUT: i32 = 110;

/// Operation now in progress: a non-blocking connect continues.
pub const EINPROGRESS: i32 = 115;

} // verus!
