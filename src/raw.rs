//! The socket primitives: for each system call on an SCTP socket, the
//! arguments it is given and the meaning of what it returns.
//!
//! A call fails when it returns -1 (a handle or a length: a negative value),
//! with the error number the system left; that number is passed on as
//! [`SockError::Os`].
use crate::addr::{
    decoding, decoding_list, encode, encode_list, encoding, encoding_list, infer_family,
    inferred_family, Family, SockAddr,
};
use crate::bytes::{be32, le32};
use crate::error::SockError;
use crate::platform::{
    AF_INET, AF_INET6, EINPROGRESS, IPPROTO_SCTP, SCTP_BINDX_ADD_ADDR, SCTP_BINDX_REM_ADDR,
    SHUT_RD, SHUT_RDWR, SHUT_WR, SOCK_SEQPACKET, SOCK_STREAM,
};
use vstd::prelude::*;

verus! {

/// SCTP bind operation
#[derive(Clone, Copy, Debug, PartialEq, Eq, Structural)]
pub enum BindOp {
    /// Add bind addresses
    AddAddr,
    /// Remove bind addresses
    RemAddr,
}

/// The `sctp_bindx` flag of an operation.
pub open spec fn bind_flag(op: BindOp) -> i32 {
    match op {
        BindOp::AddAddr => SCTP_BINDX_ADD_ADDR,
        BindOp::RemAddr => SCTP_BINDX_REM_ADDR,
    }
}

impl BindOp {
    /// The `sctp_bindx` flag of this operation.
    pub fn flag(&self) -> (r: i32)
        ensures
            r == bind_flag(*self),
    {
        match self {
            BindOp::AddAddr => SCTP_BINDX_ADD_ADDR,
            BindOp::RemAddr => SCTP_BINDX_REM_ADDR,
        }
    }
}

/// Which halves of a connection to shut down.
#[derive(Clone, Copy, Debug, PartialEq, Eq, Structural)]
pub enum Shutdown {
    /// No more receptions.
    Read,
    /// No more transmissions.
    Write,
    /// Neither.
    Both,
}

/// The `shutdown` direction of a choice of halves.
pub open spec fn shutdown_how(how: Shutdown) -> i32 {
    match how {
        Shutdown::Read => SHUT_RD,
        Shutdown::Write => SHUT_WR,
        Shutdown::Both => SHUT_RDWR,
    }
}

impl Shutdown {
    /// The `shutdown` direction of this choice.
    pub fn how(&self) -> (r: i32)
        ensures
            r == shutdown_how(*self),
    {
        match self {
            Shutdown::Read => SHUT_RD,
            Shutdown::Write => SHUT_WR,
            Shutdown::Both => SHUT_RDWR,
        }
    }
}

/// The two kinds of SCTP socket.
#[derive(Clone, Copy, Debug, PartialEq, Eq, Structural)]
pub enum SocketStyle {
    /// One socket, one association: behaves like a connected stream.
    OneToOne,
    /// One socket, many associations: each message names its peer.
    OneToMany,
}

/// The arguments of `socket`.
#[derive(Clone, Copy, Debug, PartialEq, Eq, Structural)]
pub struct SocketRequest {
    pub domain: i32,
    pub kind: i32,
    pub protocol: i32,
}

/// The `socket` arguments for an SCTP socket of a family and a style.
pub open spec fn socket_args(family: Family, style: SocketStyle) -> SocketRequest {
    SocketRequest {
        domain: match family {
            Family::V4 => AF_INET as i32,
            Family::V6 => AF_INET6 as i32,
        },
        kind: match style {
            SocketStyle::OneToOne => SOCK_STREAM,
            SocketStyle::OneToMany => SOCK_SEQPACKET,
        },
        protocol: IPPROTO_SCTP,
    }
}

/// The `socket` arguments for an SCTP socket of a family and a style.
pub fn socket_request(family: Family, style: SocketStyle) -> (r: SocketRequest)
    ensures
        r == socket_args(family, style),
{
    let domain: i32 = match family {
        Family::V4 => AF_INET as i32,
        Family::V6 => AF_INET6 as i32,
    };
    let kind: i32 = match style {
        SocketStyle::OneToOne => SOCK_STREAM,
        SocketStyle::OneToMany => SOCK_SEQPACKET,
    };
    SocketRequest { domain, kind, protocol: IPPROTO_SCTP }
}

/// The `socket` arguments for a socket that is to be bound or connected to
/// every address of a non-empty list: an IPv6 socket as soon as one address is
/// IPv6, an IPv4 socket otherwise.
pub fn socket_for(addrs: &[SockAddr], style: SocketStyle) -> (r: Result<SocketRequest, SockError>)
    ensures
        r == (if addrs@.len() == 0 {
            Err::<SocketRequest, SockError>(SockError::NoAddresses)
        } else {
            Ok(socket_args(inferred_family(addrs@), style))
        }),
{
    if addrs.len() == 0 {
        return Err(SockError::NoAddresses);
    }
    Ok(socket_request(infer_family(addrs), style))
}

/// The arguments of `sctp_bindx`: the packed addresses, their number, and the
/// operation's flag.
pub struct BindxRequest {
    pub addrs: Vec<u8>,
    pub count: i32,
    pub flags: i32,
}

/// The `sctp_bindx` arguments that add or remove every address of a non-empty
/// list at once. The addresses are not checked beyond their number: which of
/// them can be bound is for the system to say.
pub fn bindx_request(addrs: &[SockAddr], op: BindOp) -> (r: Result<BindxRequest, SockError>)
    ensures
        (match r {
            Ok(req) => 0 < addrs@.len() <= i32::MAX && req.addrs@ == encoding_list(addrs@)
                && req.count == addrs@.len() && req.flags == bind_flag(op),
            Err(e) => (addrs@.len() == 0 && e == SockError::NoAddresses) || (addrs@.len()
                > i32::MAX && e == SockError::TooManyAddresses),
        }),
{
    match encode_list(addrs) {
        Ok((packed, count)) => Ok(BindxRequest { addrs: packed, count, flags: op.flag() }),
        Err(e) => Err(e),
    }
}

/// What `sctp_sendmsg` is given besides the payload: the destination record
/// (empty for a connected socket), the payload protocol identifier as it is
/// stored for the wire, the stream, the time to live in milliseconds (0: no
/// expiry), and the flags and context, both 0.
pub struct SendRequest {
    pub to: Vec<u8>,
    pub ppid: u32,
    pub stream: u16,
    pub ttl: u64,
    pub flags: u32,
    pub context: u32,
}

/// The value whose bytes in memory are those of `x` in network order.
pub fn to_network_order(x: u32) -> (r: u32)
    ensures
        le32(r) == be32(x),
{
    let r = (x >> 24) | ((x >> 8) & 0xff00) | ((x << 8) & 0xff_0000) | (x << 24);
    assert(((r & 0xff) as u8) == ((x >> 24) as u8) && (((r >> 8) & 0xff) as u8) == (((x >> 16)
        & 0xff) as u8) && (((r >> 16) & 0xff) as u8) == (((x >> 8) & 0xff) as u8) && ((r
        >> 24) as u8) == ((x & 0xff) as u8)) by (bit_vector)
        requires
            r == (x >> 24) | ((x >> 8) & 0xff00) | ((x << 8) & 0xff_0000) | (x << 24),
    ;
    assert(le32(r) =~= be32(x));
    r
}

/// The `sctp_sendmsg` arguments that send one message on `stream`, to `to`
/// when it is given.
pub fn sendmsg_request(to: Option<&SockAddr>, ppid: u32, stream: u16, ttl: u64) -> (r:
    SendRequest)
    ensures
        r.to@ == (match to {
            Some(a) => encoding(*a),
            None => Seq::<u8>::empty(),
        }),
        le32(r.ppid) == be32(ppid),
        r.stream == stream,
        r.ttl == ttl,
        r.flags == 0,
        r.context == 0,
{
    let dest = match to {
        Some(a) => encode(a),
        None => Vec::new(),
    };
    SendRequest {
        to: dest,
        ppid: to_network_order(ppid),
        stream,
        ttl,
        flags: 0,
        context: 0,
    }
}

/// The handle that `socket`, `accept` or `dup` returned, or the error of the
/// call.
pub fn check_socket(ret: i32, errno: i32) -> (r: Result<i32, SockError>)
    ensures
        r == (if ret < 0 {
            Err::<i32, SockError>(SockError::Os(errno))
        } else {
            Ok(ret)
        }),
{
    if ret < 0 {
        Err(SockError::Os(errno))
    } else {
        Ok(ret)
    }
}

/// The outcome of a call that returns 0 or -1: `bind`, `sctp_bindx`, `listen`,
/// `shutdown`, `setsockopt`, `getsockopt`, `sctp_opt_info`.
pub fn check_call(ret: i32, errno: i32) -> (r: Result<(), SockError>)
    ensures
        r == (if ret == -1 {
            Err::<(), SockError>(SockError::Os(errno))
        } else {
            Ok(())
        }),
{
    if ret == -1 {
        Err(SockError::Os(errno))
    } else {
        Ok(())
    }
}

/// The number of bytes that `send` or `recv` moved, or the error of the call.
pub fn check_len(ret: isize, errno: i32) -> (r: Result<usize, SockError>)
    ensures
        r == (if ret < 0 {
            Err::<usize, SockError>(SockError::Os(errno))
        } else {
            Ok(ret as usize)
        }),
{
    if ret < 0 {
        Err(SockError::Os(errno))
    } else {
        Ok(ret as usize)
    }
}

/// The outcome of `connect`. A connect that is still in progress on a
/// non-blocking socket has not failed: the association completes later.
pub fn connect_outcome(ret: i32, errno: i32) -> (r: Result<(), SockError>)
    ensures
        r == (if ret == -1 && errno != EINPROGRESS {
            Err::<(), SockError>(SockError::Os(errno))
        } else {
            Ok(())
        }),
{
    if ret == -1 && errno != EINPROGRESS {
        Err(SockError::Os(errno))
    } else {
        Ok(())
    }
}

/// The association that `sctp_connectx` set up, or the error of the call.
pub fn connectx_outcome(ret: i32, errno: i32, assoc: u32) -> (r: Result<u32, SockError>)
    ensures
        r == (if ret == -1 {
            Err::<u32, SockError>(SockError::Os(errno))
        } else {
            Ok(assoc)
        }),
{
    if ret == -1 {
        Err(SockError::Os(errno))
    } else {
        Ok(assoc)
    }
}

/// The addresses of a socket, from what `sctp_getladdrs` or `sctp_getpaddrs`
/// returned (`ret`, the number of addresses) and the records it listed.
pub fn addrs_outcome(ret: i32, packed: &[u8]) -> (r: Result<Vec<SockAddr>, SockError>)
    ensures
        ret < 0 ==> r == Err::<Vec<SockAddr>, SockError>(SockError::AddressesUnavailable),
        ret == 0 ==> r == Err::<Vec<SockAddr>, SockError>(SockError::Unbound),
        ret > 0 ==> (match r {
            Ok(v) => decoding_list(packed@, ret as nat) == Ok::<Seq<SockAddr>, SockError>(v@),
            Err(e) => decoding_list(packed@, ret as nat) == Err::<Seq<SockAddr>, SockError>(e),
        }),
{
    if ret < 0 {
        return Err(SockError::AddressesUnavailable);
    }
    if ret == 0 {
        return Err(SockError::Unbound);
    }
    crate::addr::decode_list(packed, ret as usize)
}

/// The message that `sctp_recvmsg` received: the number of bytes written to
/// the buffer, the stream it came on, and its sender, read from the address
/// record `from`. A message larger than the buffer arrives cut to the buffer's
/// size; that is no error.
pub fn recvmsg_outcome(ret: isize, errno: i32, stream: u16, from: &[u8]) -> (r: Result<
    (usize, u16, SockAddr),
    SockError,
>)
    ensures
        ret < 0 ==> r == Err::<(usize, u16, SockAddr), SockError>(SockError::Os(errno)),
        ret >= 0 ==> r == (match decoding(from@) {
            Ok(a) => Ok((ret as usize, stream, a)),
            Err(e) => Err(e),
        }),
{
    if ret < 0 {
        return Err(SockError::Os(errno));
    }
    match crate::addr::decode(from) {
        Ok(a) => Ok((ret as usize, stream, a)),
        Err(e) => Err(e),
    }
}

} // verus!
