use sctp::addr::{decode, decode_list, encode, encode_list, infer_family, record_len};
use sctp::{ErrorKind, Family, SockAddr, SockError};

fn v4(ip: [u8; 4], port: u16) -> SockAddr {
    SockAddr::V4 { ip, port }
}

fn v6_loopback(port: u16) -> SockAddr {
    let mut ip = [0u8; 16];
    ip[15] = 1;
    SockAddr::V6 { ip, port, flowinfo: 0, scope_id: 0 }
}

#[test]
fn encode_v4_layout() {
    let bytes = encode(&v4([127, 0, 0, 1], 8080));
    assert_eq!(bytes, vec![2, 0, 0x1f, 0x90, 127, 0, 0, 1, 0, 0, 0, 0, 0, 0, 0, 0]);
}

#[test]
fn encode_v6_layout() {
    let mut ip = [0u8; 16];
    ip[0] = 0xfe;
    ip[1] = 0x80;
    ip[15] = 7;
    let a = SockAddr::V6 { ip, port: 443, flowinfo: 0x0102_0304, scope_id: 5 };
    let bytes = encode(&a);
    let mut expected = vec![10, 0, 1, 187, 4, 3, 2, 1];
    expected.extend_from_slice(&ip);
    expected.extend_from_slice(&[5, 0, 0, 0]);
    assert_eq!(bytes.len(), 28);
    assert_eq!(bytes, expected);
}

#[test]
fn round_trip_v4() {
    let a = v4([192, 168, 1, 2], 3868);
    assert_eq!(decode(&encode(&a)), Ok(a));
}

#[test]
fn round_trip_v6() {
    let mut ip = [0u8; 16];
    for (i, b) in ip.iter_mut().enumerate() {
        *b = (i as u8) * 17;
    }
    let a = SockAddr::V6 { ip, port: 65535, flowinfo: 0xdead_beef, scope_id: 3 };
    assert_eq!(decode(&encode(&a)), Ok(a));
}

#[test]
fn round_trip_every_address_of_uniform_lists() {
    let fours = vec![v4([10, 0, 2, 15], 3868), v4([127, 0, 0, 1], 3868), v4([0, 0, 0, 0], 0)];
    for a in &fours {
        assert_eq!(decode(&encode(a)), Ok(*a));
    }
    let sixes = vec![v6_loopback(1), v6_loopback(2)];
    for a in &sixes {
        assert_eq!(decode(&encode(a)), Ok(*a));
    }
}

#[test]
fn decode_reads_from_larger_storage() {
    let a = v6_loopback(9);
    let mut storage = encode(&a);
    storage.resize(128, 0xaa);
    assert_eq!(decode(&storage), Ok(a));
}

#[test]
fn decode_short_buffer() {
    let r = decode(&[2, 0, 0, 80, 127, 0, 0, 1]);
    assert_eq!(r, Err(SockError::InvalidAddressLength));
    assert_eq!(r.unwrap_err().kind(), ErrorKind::InvalidInput);
    assert_eq!(decode(&[]), Err(SockError::InvalidAddressLength));
}

#[test]
fn decode_v6_shorter_than_its_structure() {
    let bytes = encode(&v6_loopback(80));
    assert_eq!(decode(&bytes[..16]), Err(SockError::InvalidAddressLength));
    assert_eq!(decode(&bytes[..27]), Err(SockError::InvalidAddressLength));
}

#[test]
fn decode_unknown_family() {
    let mut bytes = encode(&v4([1, 2, 3, 4], 5));
    bytes[0] = 1;
    let r = decode(&bytes);
    assert_eq!(r, Err(SockError::InvalidAddressFamily));
    assert_eq!(r.unwrap_err().kind(), ErrorKind::InvalidInput);
}

#[test]
fn encode_list_empty_fails() {
    let r = encode_list(&[]);
    assert_eq!(r, Err(SockError::NoAddresses));
    assert_eq!(r.unwrap_err().kind(), ErrorKind::InvalidInput);
}

#[test]
fn encode_list_single_is_one_record() {
    let a = v4([127, 0, 0, 1], 3868);
    let (bytes, count) = encode_list(&[a]).unwrap();
    assert_eq!(count, 1);
    assert_eq!(bytes, encode(&a));
    let b = v6_loopback(3868);
    let (bytes, count) = encode_list(&[b]).unwrap();
    assert_eq!(count, 1);
    assert_eq!(bytes, encode(&b));
}

#[test]
fn encode_list_concatenates_records() {
    let list = [v4([10, 0, 2, 15], 3868), v6_loopback(3868), v4([127, 0, 0, 1], 3868)];
    let (bytes, count) = encode_list(&list).unwrap();
    assert_eq!(count, 3);
    assert_eq!(bytes.len(), 16 + 28 + 16);
    let mut expected = encode(&list[0]);
    expected.extend(encode(&list[1]));
    expected.extend(encode(&list[2]));
    assert_eq!(bytes, expected);
}

#[test]
fn decode_list_round_trip() {
    let list = vec![v6_loopback(1), v4([10, 0, 2, 15], 2), v6_loopback(3)];
    let (bytes, count) = encode_list(&list).unwrap();
    assert_eq!(decode_list(&bytes, count as usize), Ok(list.clone()));
    assert_eq!(decode_list(&bytes, 2), Ok(list[..2].to_vec()));
    assert_eq!(decode_list(&bytes, 0), Ok(vec![]));
}

#[test]
fn decode_list_unsupported_family() {
    let mut bytes = encode(&v4([127, 0, 0, 1], 1));
    bytes.extend_from_slice(&[1, 0]);
    let r = decode_list(&bytes, 2);
    assert_eq!(r, Err(SockError::UnsupportedFamily(1)));
    assert_eq!(r.unwrap_err().kind(), ErrorKind::Other);
}

#[test]
fn decode_list_truncated() {
    let bytes = encode(&v6_loopback(1));
    assert_eq!(decode_list(&bytes[..20], 1), Err(SockError::InvalidAddressLength));
    assert_eq!(decode_list(&bytes, 2), Err(SockError::InvalidAddressLength));
}

#[test]
fn record_len_by_family() {
    assert_eq!(record_len(&[2, 0]), Some(16));
    assert_eq!(record_len(&[10, 0]), Some(28));
    assert_eq!(record_len(&[1, 0]), None);
}

#[test]
fn infer_family_two_v4() {
    let list = [v4([127, 0, 0, 1], 1), v4([10, 0, 0, 1], 1)];
    assert_eq!(infer_family(&list), Family::V4);
}

#[test]
fn infer_family_v4_then_v6() {
    let list = [v4([127, 0, 0, 1], 1), v6_loopback(1)];
    assert_eq!(infer_family(&list), Family::V6);
}

#[test]
fn infer_family_single_v6() {
    assert_eq!(infer_family(&[v6_loopback(1)]), Family::V6);
}

#[test]
fn infer_family_empty_defaults_to_v4() {
    assert_eq!(infer_family(&[]), Family::V4);
}

#[test]
fn family_and_port_accessors() {
    let a = v4([1, 2, 3, 4], 77);
    assert_eq!(a.family(), Family::V4);
    assert_eq!(a.port(), 77);
    assert_eq!(a.family().tag(), 2);
    assert_eq!(v6_loopback(78).port(), 78);
    assert_eq!(Family::V6.tag(), 10);
}
