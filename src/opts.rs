//! Socket options: which option each setting is, at which level, and the value
//! the system reads or writes for it.
use crate::bytes::{le32, le32_at, le64, push_le32, push_le64, read_le32};
use crate::error::SockError;
use crate::platform::{
    INT_OPT_LEN, SCTP_NODELAY, SOL_SCTP, SOL_SOCKET, SO_RCVBUF, SO_RCVTIMEO, SO_SNDBUF,
    SO_SNDTIMEO,
};
use vstd::prelude::*;

verus! {

/// Socket direction
#[derive(Clone, Copy, Debug, PartialEq, Eq, Structural)]
pub enum SoDirection {
    /// RCV direction
    Receive,
    /// SND direction
    Send,
}

/// The buffer size option of a direction.
pub open spec fn buffer_opt_of(dir: SoDirection) -> i32 {
    match dir {
        SoDirection::Receive => SO_RCVBUF,
        SoDirection::Send => SO_SNDBUF,
    }
}

/// The timeout option of a direction.
pub open spec fn timeout_opt_of(dir: SoDirection) -> i32 {
    match dir {
        SoDirection::Receive => SO_RCVTIMEO,
        SoDirection::Send => SO_SNDTIMEO,
    }
}

impl SoDirection {
    /// The option that sizes this direction's buffer.
    pub fn buffer_opt(&self) -> (r: i32)
        ensures
            r == buffer_opt_of(*self),
    {
        match self {
            SoDirection::Receive => SO_RCVBUF,
            SoDirection::Send => SO_SNDBUF,
        }
    }

    /// The option that bounds how long an operation of this direction blocks.
    pub fn timeout_opt(&self) -> (r: i32)
        ensures
            r == timeout_opt_of(*self),
    {
        match self {
            SoDirection::Receive => SO_RCVTIMEO,
            SoDirection::Send => SO_SNDTIMEO,
        }
    }
}

/// A socket option to set: its level, its name, and its value as the system
/// reads it.
pub struct SockOpt {
    pub level: i32,
    pub name: i32,
    pub value: Vec<u8>,
}

/// The bytes of a native `int`.
pub open spec fn int_bytes(v: i32) -> Seq<u8> {
    le32(v as u32)
}

/// The bytes of a native `timeval` of `secs` whole seconds: the seconds and
/// the microseconds, each a 64-bit `long`.
pub open spec fn timeval_bytes(secs: i32) -> Seq<u8> {
    le64(secs as u64) + le64(0)
}

/// The option that turns the SCTP send delay off (`on`) or back on.
pub fn nodelay_option(on: bool) -> (r: SockOpt)
    ensures
        r.level == SOL_SCTP,
        r.name == SCTP_NODELAY,
        r.value@ == int_bytes(if on { 1 } else { 0 }),
{
    let v: i32 = if on { 1 } else { 0 };
    let mut value: Vec<u8> = Vec::new();
    push_le32(&mut value, v as u32);
    assert(value@ =~= int_bytes(v));
    SockOpt { level: SOL_SCTP, name: SCTP_NODELAY, value }
}

/// The option that sets the buffer size of a direction. The system takes the
/// size as an `int`: a larger one is refused.
pub fn buffer_size_option(dir: SoDirection, size: usize) -> (r: Result<SockOpt, SockError>)
    ensures
        (match r {
            Ok(opt) => size <= i32::MAX && opt.level == SOL_SOCKET && opt.name == buffer_opt_of(dir)
                && opt.value@ == int_bytes(size as i32),
            Err(e) => size > i32::MAX && e == SockError::OptionOutOfRange,
        }),
{
    if size > i32::MAX as usize {
        return Err(SockError::OptionOutOfRange);
    }
    let v = size as i32;
    let mut value: Vec<u8> = Vec::new();
    push_le32(&mut value, v as u32);
    assert(value@ =~= int_bytes(v));
    Ok(SockOpt { level: SOL_SOCKET, name: dir.buffer_opt(), value })
}

/// The option that bounds, to `secs` seconds, how long an operation of a
/// direction blocks; a receive timeout also bounds `accept`.
pub fn timeout_option(dir: SoDirection, secs: i32) -> (r: SockOpt)
    ensures
        r.level == SOL_SOCKET,
        r.name == timeout_opt_of(dir),
        r.value@ == timeval_bytes(secs),
{
    let mut value: Vec<u8> = Vec::new();
    push_le64(&mut value, secs as u64);
    push_le64(&mut value, 0);
    assert(value@ =~= timeval_bytes(secs));
    SockOpt { level: SOL_SOCKET, name: dir.timeout_opt(), value }
}

/// Whether the SCTP send delay is off, from the `int` value of its option.
pub fn nodelay_from(value: &[u8]) -> (r: bool)
    requires
        value@.len() == INT_OPT_LEN,
    ensures
        r == (le32_at(value@, 0) == 1),
{
    read_le32(value, 0) == 1
}

/// A buffer size, from the unsigned `int` value of its option.
pub fn buffer_size_from(value: &[u8]) -> (r: usize)
    requires
        value@.len() == INT_OPT_LEN,
    ensures
        r == le32_at(value@, 0),
{
    read_le32(value, 0) as usize
}

} // verus!
