//! Portable socket addresses and their native binary layout.
//!
//! An IPv4 address is laid out as `sockaddr_in` (16 bytes: family, port, the
//! four octets, eight bytes of padding) and an IPv6 address as `sockaddr_in6`
//! (28 bytes: family, port, flow information, the sixteen octets, scope). The
//! family, flow information and scope are in host order, the port and the
//! octets in network order. An address list for the multi-homing calls is the
//! concatenation of the records of its addresses.
use crate::bytes::{
    be16, be16_at, le16, le16_at, le32, le32_at, lemma_be16_round_trip, lemma_le16_round_trip,
    lemma_le32_round_trip, push_be16, push_le16, push_le32, read_be16, read_le16, read_le32,
};
use crate::error::SockError;
use crate::platform::{AF_INET, AF_INET6, SOCKADDR_IN6_LEN, SOCKADDR_IN_LEN, SOCKADDR_LEN};
use vstd::prelude::*;

verus! {

broadcast use vstd::array::group_array_axioms;

/// The IP version of an address, or of the socket that is made for it.
#[derive(Clone, Copy, Debug, PartialEq, Eq, Structural)]
pub enum Family {
    V4,
    V6,
}

/// A portable socket address: an IP address and a port.
#[derive(Clone, Copy, Debug, PartialEq, Eq)]
pub enum SockAddr {
    /// An IPv4 address, its octets in network order.
    V4 { ip: [u8; 4], port: u16 },
    /// An IPv6 address, its octets in network order, with its flow
    /// information and scope.
    V6 { ip: [u8; 16], port: u16, flowinfo: u32, scope_id: u32 },
}

/// The family of an address.
pub open spec fn family_of(a: SockAddr) -> Family {
    match a {
        SockAddr::V4 { .. } => Family::V4,
        SockAddr::V6 { .. } => Family::V6,
    }
}

/// The native tag of a family.
pub open spec fn family_tag(f: Family) -> u16 {
    match f {
        Family::V4 => AF_INET,
        Family::V6 => AF_INET6,
    }
}

/// `n` zero bytes.
pub open spec fn zeros(n: nat) -> Seq<u8> {
    Seq::new(n, |i: int| 0u8)
}

/// The native record of an address.
pub open spec fn encoding(a: SockAddr) -> Seq<u8> {
    match a {
        SockAddr::V4 { ip, port } => le16(AF_INET) + be16(port) + ip@ + zeros(8),
        SockAddr::V6 { ip, port, flowinfo, scope_id } => le16(AF_INET6) + be16(port) + le32(
            flowinfo,
        ) + ip@ + le32(scope_id),
    }
}

/// The size of the native record of a family tag, for the two families known.
pub open spec fn record_size(tag: u16) -> Option<usize> {
    if tag == AF_INET {
        Some(SOCKADDR_IN_LEN)
    } else if tag == AF_INET6 {
        Some(SOCKADDR_IN6_LEN)
    } else {
        None
    }
}

/// The address that a native record holds, when it holds one.
///
/// A record shorter than the generic header, or than the structure of its
/// family, is refused for its length; a record of another family is refused
/// for its family.
#[verifier::opaque]
pub open spec fn decoding(s: Seq<u8>) -> Result<SockAddr, SockError> {
    if s.len() < SOCKADDR_LEN {
        Err(SockError::InvalidAddressLength)
    } else if le16_at(s, 0) == AF_INET {
        Ok(SockAddr::V4 { ip: [s[4], s[5], s[6], s[7]], port: be16_at(s, 2) })
    } else if le16_at(s, 0) == AF_INET6 {
        if s.len() < SOCKADDR_IN6_LEN {
            Err(SockError::InvalidAddressLength)
        } else {
            Ok(
                SockAddr::V6 {
                    ip: [
                        s[8],
                        s[9],
                        s[10],
                        s[11],
                        s[12],
                        s[13],
                        s[14],
                        s[15],
                        s[16],
                        s[17],
                        s[18],
                        s[19],
                        s[20],
                        s[21],
                        s[22],
                        s[23],
                    ],
                    port: be16_at(s, 2),
                    flowinfo: le32_at(s, 4),
                    scope_id: le32_at(s, 24),
                },
            )
        }
    } else {
        Err(SockError::InvalidAddressFamily)
    }
}

/// The concatenated records of a list of addresses.
pub open spec fn encoding_list(l: Seq<SockAddr>) -> Seq<u8>
    decreases l.len(),
{
    if l.len() == 0 {
        Seq::empty()
    } else {
        encoding_list(l.drop_last()) + encoding(l.last())
    }
}

/// The first `n` addresses of a packed list, read record after record; bytes
/// after the last record are not read.
pub open spec fn decoding_list(s: Seq<u8>, n: nat) -> Result<Seq<SockAddr>, SockError>
    decreases n,
{
    if n == 0 {
        Ok(Seq::empty())
    } else if s.len() < 2 {
        Err(SockError::InvalidAddressLength)
    } else {
        match record_size(le16_at(s, 0)) {
            None => Err(SockError::UnsupportedFamily(le16_at(s, 0))),
            Some(size) => if s.len() < size {
                Err(SockError::InvalidAddressLength)
            } else {
                match decoding(s.subrange(0, size as int)) {
                    Err(e) => Err(e),
                    Ok(a) => match decoding_list(s.subrange(size as int, s.len() as int), (n - 1) as nat) {
                        Err(e) => Err(e),
                        Ok(rest) => Ok(seq![a] + rest),
                    },
                }
            },
        }
    }
}

/// The family of a socket that serves every address of a list: IPv6 as soon
/// as one address is IPv6, IPv4 otherwise.
pub open spec fn inferred_family(l: Seq<SockAddr>) -> Family {
    if exists|i: int| 0 <= i < l.len() && family_of(#[trigger] l[i]) == Family::V6 {
        Family::V6
    } else {
        Family::V4
    }
}

impl Family {
    /// The native tag of this family.
    pub fn tag(&self) -> (r: u16)
        ensures
            r == family_tag(*self),
    {
        match self {
            Family::V4 => AF_INET,
            Family::V6 => AF_INET6,
        }
    }
}

impl SockAddr {
    /// The family of this address.
    pub fn family(&self) -> (r: Family)
        ensures
            r == family_of(*self),
    {
        match self {
            SockAddr::V4 { .. } => Family::V4,
            SockAddr::V6 { .. } => Family::V6,
        }
    }

    /// The port of this address.
    pub fn port(&self) -> (r: u16)
        ensures
            r == (match *self {
                SockAddr::V4 { port, .. } => port,
                SockAddr::V6 { port, .. } => port,
            }),
    {
        match self {
            SockAddr::V4 { port, .. } => *port,
            SockAddr::V6 { port, .. } => *port,
        }
    }
}

/// Appends the native record of `a`.
fn push_encoding(v: &mut Vec<u8>, a: &SockAddr)
    ensures
        final(v)@ == old(v)@ + encoding(*a),
{
    match a {
        SockAddr::V4 { ip, port } => {
            push_le16(v, AF_INET);
            push_be16(v, *port);
            let mut i: usize = 0;
            while i < 4
                invariant
                    0 <= i <= 4,
                    v@ == old(v)@ + le16(AF_INET) + be16(*port) + ip@.subrange(0, i as int),
                decreases 4 - i,
            {
                v.push(ip[i]);
                i = i + 1;
                assert(v@ =~= old(v)@ + le16(AF_INET) + be16(*port) + ip@.subrange(0, i as int));
            }
            let mut j: usize = 0;
            while j < 8
                invariant
                    0 <= j <= 8,
                    v@ == old(v)@ + le16(AF_INET) + be16(*port) + ip@ + zeros(j as nat),
                decreases 8 - j,
            {
                v.push(0u8);
                j = j + 1;
                assert(v@ =~= old(v)@ + le16(AF_INET) + be16(*port) + ip@ + zeros(j as nat));
            }
        },
        SockAddr::V6 { ip, port, flowinfo, scope_id } => {
            push_le16(v, AF_INET6);
            push_be16(v, *port);
            push_le32(v, *flowinfo);
            let ghost head = v@;
            let mut i: usize = 0;
            while i < 16
                invariant
                    0 <= i <= 16,
                    head == old(v)@ + le16(AF_INET6) + be16(*port) + le32(*flowinfo),
                    v@ == head + ip@.subrange(0, i as int),
                decreases 16 - i,
            {
                v.push(ip[i]);
                i = i + 1;
                assert(v@ =~= head + ip@.subrange(0, i as int));
            }
            assert(ip@.subrange(0, 16) =~= ip@);
            push_le32(v, *scope_id);
        },
    }
}

/// The native record of an address.
pub fn encode(a: &SockAddr) -> (r: Vec<u8>)
    ensures
        r@ == encoding(*a),
{
    let mut v: Vec<u8> = Vec::new();
    push_encoding(&mut v, a);
    assert(v@ =~= encoding(*a));
    v
}

/// The size of the native record whose family tag opens `header`, for the two
/// families known.
pub fn record_len(header: &[u8]) -> (r: Option<usize>)
    requires
        header@.len() >= 2,
    ensures
        r == record_size(le16_at(header@, 0)),
{
    record_len_at(header, 0)
}

/// The size of the native record whose family tag stands at `s[off..off + 2]`.
fn record_len_at(s: &[u8], off: usize) -> (r: Option<usize>)
    requires
        off + 2 <= s@.len(),
    ensures
        r == record_size(le16_at(s@, off as int)),
{
    let tag = read_le16(s, off);
    if tag == AF_INET {
        Some(SOCKADDR_IN_LEN)
    } else if tag == AF_INET6 {
        Some(SOCKADDR_IN6_LEN)
    } else {
        None
    }
}

/// The address held by the `len` bytes of `s` from `off`.
fn decode_at(s: &[u8], off: usize, len: usize) -> (r: Result<SockAddr, SockError>)
    requires
        off + len <= s@.len(),
    ensures
        r == decoding(s@.subrange(off as int, off + len)),
{
    reveal(decoding);
    let ghost t = s@.subrange(off as int, off + len);
    let total = s.len();
    assert(off + len <= total);
    if len < SOCKADDR_LEN {
        return Err(SockError::InvalidAddressLength);
    }
    let tag = read_le16(s, off);
    assert(tag == le16_at(t, 0));
    let port = read_be16(s, off + 2);
    assert(port == be16_at(t, 2));
    if tag == AF_INET {
        let o = off + 4;
        let ip: [u8; 4] = [s[o], s[o + 1], s[o + 2], s[o + 3]];
        Ok(SockAddr::V4 { ip, port })
    } else if tag == AF_INET6 {
        if len < SOCKADDR_IN6_LEN {
            return Err(SockError::InvalidAddressLength);
        }
        let flowinfo = read_le32(s, off + 4);
        assert(flowinfo == le32_at(t, 4));
        let scope_id = read_le32(s, off + 24);
        assert(scope_id == le32_at(t, 24));
        let o = off + 8;
        let ip: [u8; 16] = [
            s[o],
            s[o + 1],
            s[o + 2],
            s[o + 3],
            s[o + 4],
            s[o + 5],
            s[o + 6],
            s[o + 7],
            s[o + 8],
            s[o + 9],
            s[o + 10],
            s[o + 11],
            s[o + 12],
            s[o + 13],
            s[o + 14],
            s[o + 15],
        ];
        Ok(SockAddr::V6 { ip, port, flowinfo, scope_id })
    } else {
        Err(SockError::InvalidAddressFamily)
    }
}

/// The address that a native record holds.
pub fn decode(buf: &[u8]) -> (r: Result<SockAddr, SockError>)
    ensures
        r == decoding(buf@),
{
    proof {
        assert(buf@.subrange(0, buf@.len() as int) =~= buf@);
    }
    decode_at(buf, 0, buf.len())
}

/// `acc` followed by the addresses of `r`, or the error of `r`.
spec fn prefixed(acc: Seq<SockAddr>, r: Result<Seq<SockAddr>, SockError>) -> Result<
    Seq<SockAddr>,
    SockError,
> {
    match r {
        Ok(rest) => Ok(acc + rest),
        Err(e) => Err(e),
    }
}

/// The first `count` addresses of a packed list, as the system reports the
/// addresses of a socket: each record is read by the size of its family.
pub fn decode_list(buf: &[u8], count: usize) -> (r: Result<Vec<SockAddr>, SockError>)
    ensures
        (match r {
            Ok(v) => decoding_list(buf@, count as nat) == Ok::<Seq<SockAddr>, SockError>(v@),
            Err(e) => decoding_list(buf@, count as nat) == Err::<Seq<SockAddr>, SockError>(e),
        }),
{
    let total = buf.len();
    let mut acc: Vec<SockAddr> = Vec::new();
    let mut off: usize = 0;
    let mut i: usize = 0;
    proof {
        assert(buf@.subrange(0, total as int) =~= buf@);
        match decoding_list(buf@, count as nat) {
            Ok(t) => {
                assert(acc@ + t =~= t);
            },
            Err(_) => {},
        }
    }
    while i < count
        invariant
            total == buf@.len(),
            off <= total,
            i <= count,
            decoding_list(buf@, count as nat) == prefixed(
                acc@,
                decoding_list(buf@.subrange(off as int, total as int), (count - i) as nat),
            ),
        decreases count - i,
    {
        let ghost rest = buf@.subrange(off as int, total as int);
        if total - off < 2 {
            return Err(SockError::InvalidAddressLength);
        }
        let size = match record_len_at(buf, off) {
            None => {
                let tag = read_le16(buf, off);
                assert(le16_at(rest, 0) == tag);
                return Err(SockError::UnsupportedFamily(tag));
            },
            Some(size) => size,
        };
        assert(le16_at(rest, 0) == le16_at(buf@, off as int));
        if total - off < size {
            return Err(SockError::InvalidAddressLength);
        }
        assert(rest.subrange(0, size as int) =~= buf@.subrange(off as int, off + size));
        let a = match decode_at(buf, off, size) {
            Err(e) => {
                return Err(e);
            },
            Ok(a) => a,
        };
        let ghost before = acc@;
        acc.push(a);
        assert(rest.subrange(size as int, rest.len() as int) =~= buf@.subrange(
            off + size,
            total as int,
        ));
        off = off + size;
        i = i + 1;
        let ghost tail = decoding_list(buf@.subrange(off as int, total as int), (count - i) as nat);
        assert(prefixed(before, prefixed(seq![a], tail)) == prefixed(acc@, tail)) by {
            match tail {
                Ok(t) => {
                    assert(before + (seq![a] + t) =~= acc@ + t);
                },
                Err(_) => {},
            }
        }
    }
    assert(acc@ + Seq::<SockAddr>::empty() =~= acc@);
    Ok(acc)
}

/// The family of a socket that serves every address of `addrs`.
pub fn infer_family(addrs: &[SockAddr]) -> (r: Family)
    ensures
        r == inferred_family(addrs@),
{
    let mut family = Family::V4;
    let mut i: usize = 0;
    while i < addrs.len()
        invariant
            i <= addrs@.len(),
            family == Family::V6 <==> exists|j: int|
                0 <= j < i && family_of(#[trigger] addrs@[j]) == Family::V6,
        decreases addrs@.len() - i,
    {
        if addrs[i].family() == Family::V6 {
            family = Family::V6;
        }
        i = i + 1;
    }
    family
}

/// Packs a non-empty list of addresses for a multi-homing call: the
/// concatenated records, and the number of addresses.
pub fn encode_list(addrs: &[SockAddr]) -> (r: Result<(Vec<u8>, i32), SockError>)
    ensures
        (match r {
            Ok((bytes, count)) => 0 < addrs@.len() <= i32::MAX && bytes@ == encoding_list(addrs@)
                && count == addrs@.len(),
            Err(e) => (addrs@.len() == 0 && e == SockError::NoAddresses) || (addrs@.len()
                > i32::MAX && e == SockError::TooManyAddresses),
        }),
{
    let n = addrs.len();
    if n == 0 {
        return Err(SockError::NoAddresses);
    }
    if n > i32::MAX as usize {
        return Err(SockError::TooManyAddresses);
    }
    let mut bytes: Vec<u8> = Vec::new();
    let mut i: usize = 0;
    while i < n
        invariant
            n == addrs@.len(),
            i <= n,
            bytes@ == encoding_list(addrs@.subrange(0, i as int)),
        decreases n - i,
    {
        push_encoding(&mut bytes, &addrs[i]);
        assert(addrs@.subrange(0, i + 1).drop_last() =~= addrs@.subrange(0, i as int));
        i = i + 1;
    }
    assert(addrs@.subrange(0, n as int) =~= addrs@);
    Ok((bytes, n as i32))
}

/// The record of an address opens with its family's tag, and is as long as
/// that family's structure.
proof fn lemma_encoding_shape(a: SockAddr)
    ensures
        encoding(a).len() >= 2,
        le16_at(encoding(a), 0) == family_tag(family_of(a)),
        record_size(family_tag(family_of(a))) == Some(encoding(a).len() as usize),
{
    lemma_le16_round_trip(AF_INET);
    lemma_le16_round_trip(AF_INET6);
    let s = encoding(a);
    match a {
        SockAddr::V4 { .. } => {
            assert(s[0] == le16(AF_INET)[0] && s[1] == le16(AF_INET)[1]);
        },
        SockAddr::V6 { .. } => {
            assert(s[0] == le16(AF_INET6)[0] && s[1] == le16(AF_INET6)[1]);
        },
    }
}

/// Decoding the record of an address gives the address back.
pub proof fn lemma_round_trip(a: SockAddr)
    ensures
        decoding(encoding(a)) == Ok::<SockAddr, SockError>(a),
{
    reveal(decoding);
    lemma_encoding_shape(a);
    let s = encoding(a);
    match a {
        SockAddr::V4 { ip, port } => {
            lemma_be16_round_trip(port);
            assert(be16_at(s, 2) == be16_at(be16(port), 0));
            assert([s[4], s[5], s[6], s[7]] =~= ip);
        },
        SockAddr::V6 { ip, port, flowinfo, scope_id } => {
            lemma_be16_round_trip(port);
            lemma_le32_round_trip(flowinfo);
            lemma_le32_round_trip(scope_id);
            assert(be16_at(s, 2) == be16_at(be16(port), 0));
            assert(le32_at(s, 4) == le32_at(le32(flowinfo), 0));
            assert(le32_at(s, 24) == le32_at(le32(scope_id), 0));
            assert([
                s[8],
                s[9],
                s[10],
                s[11],
                s[12],
                s[13],
                s[14],
                s[15],
                s[16],
                s[17],
                s[18],
                s[19],
                s[20],
                s[21],
                s[22],
                s[23],
            ] =~= ip);
        },
    }
}

/// The packed list opens with the record of its first address.
proof fn lemma_encoding_list_front(l: Seq<SockAddr>)
    requires
        l.len() > 0,
    ensures
        encoding_list(l) == encoding(l[0]) + encoding_list(l.drop_first()),
    decreases l.len(),
{
    if l.len() == 1 {
        assert(l.drop_last() =~= Seq::<SockAddr>::empty());
        assert(l.drop_first() =~= Seq::<SockAddr>::empty());
        assert(encoding_list(l) =~= encoding(l[0]) + encoding_list(l.drop_first()));
    } else {
        lemma_encoding_list_front(l.drop_last());
        assert(l.drop_last().drop_first() =~= l.drop_first().drop_last());
        assert(encoding_list(l) =~= encoding(l[0]) + encoding_list(l.drop_first()));
    }
}

/// Reading a packed list, whatever follows it, gives the list back.
proof fn lemma_list_round_trip_with_tail(l: Seq<SockAddr>, t: Seq<u8>)
    ensures
        decoding_list(encoding_list(l) + t, l.len()) == Ok::<Seq<SockAddr>, SockError>(l),
    decreases l.len(),
{
    if l.len() == 0 {
        assert(l =~= Seq::<SockAddr>::empty());
    } else {
        let e = encoding(l[0]);
        let more = encoding_list(l.drop_first()) + t;
        lemma_encoding_list_front(l);
        lemma_encoding_shape(l[0]);
        lemma_round_trip(l[0]);
        let s = encoding_list(l) + t;
        let size = e.len() as usize;
        assert(s =~= e + more);
        assert(s[0] == e[0] && s[1] == e[1]);
        assert(le16_at(s, 0) == le16_at(e, 0));
        assert(record_size(le16_at(s, 0)) == Some(size));
        assert(s.subrange(0, size as int) =~= e);
        assert(decoding(s.subrange(0, size as int)) == Ok::<SockAddr, SockError>(l[0]));
        assert(s.subrange(size as int, s.len() as int) =~= more);
        lemma_list_round_trip_with_tail(l.drop_first(), t);
        assert(decoding_list(s.subrange(size as int, s.len() as int), (l.len() - 1) as nat)
            == Ok::<Seq<SockAddr>, SockError>(l.drop_first()));
        assert(seq![l[0]] + l.drop_first() =~= l);
    }
}

/// Reading a packed list gives the list back, record after record.
pub proof fn lemma_list_round_trip(l: Seq<SockAddr>)
    ensures
        decoding_list(encoding_list(l), l.len()) == Ok::<Seq<SockAddr>, SockError>(l),
{
    lemma_list_round_trip_with_tail(l, Seq::empty());
    assert(encoding_list(l) + Seq::<u8>::empty() =~= encoding_list(l));
}

/// A list of one address packs into exactly the record of that address.
pub proof fn lemma_single_list(a: SockAddr)
    ensures
        encoding_list(seq![a]) == encoding(a),
{
    assert(seq![a].drop_last() =~= Seq::<SockAddr>::empty());
    assert(encoding_list(Seq::<SockAddr>::empty()) == Seq::<u8>::empty());
    assert(encoding_list(seq![a]) =~= encoding(a));
}

} // verus!
