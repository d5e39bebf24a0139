use sctp::opts::{
    buffer_size_from, buffer_size_option, nodelay_from, nodelay_option, timeout_option,
};
use sctp::platform::{SCTP_NODELAY, SOL_SCTP, SOL_SOCKET, SO_RCVBUF, SO_SNDBUF};
use sctp::{ErrorKind, SoDirection, SockError};

#[test]
fn direction_options() {
    assert_eq!(SoDirection::Receive.buffer_opt(), SO_RCVBUF);
    assert_eq!(SoDirection::Send.buffer_opt(), SO_SNDBUF);
    assert_eq!(SoDirection::Receive.buffer_opt(), 8);
    assert_eq!(SoDirection::Send.buffer_opt(), 7);
    assert_eq!(SoDirection::Receive.timeout_opt(), 20);
    assert_eq!(SoDirection::Send.timeout_opt(), 21);
}

#[test]
fn nodelay_values() {
    let on = nodelay_option(true);
    assert_eq!(on.level, SOL_SCTP);
    assert_eq!(on.name, SCTP_NODELAY);
    assert_eq!(on.value, vec![1, 0, 0, 0]);
    assert_eq!(nodelay_option(false).value, vec![0, 0, 0, 0]);
}

#[test]
fn nodelay_read_back() {
    assert!(nodelay_from(&[1, 0, 0, 0]));
    assert!(!nodelay_from(&[0, 0, 0, 0]));
    assert!(!nodelay_from(&[2, 0, 0, 0]));
    assert!(!nodelay_from(&[1, 0, 0, 1]));
}

#[test]
fn buffer_size_value() {
    let opt = buffer_size_option(SoDirection::Send, 4096).unwrap();
    assert_eq!(opt.level, SOL_SOCKET);
    assert_eq!(opt.name, SO_SNDBUF);
    assert_eq!(opt.value, vec![0, 0x10, 0, 0]);
    let opt = buffer_size_option(SoDirection::Receive, 0x7fff_ffff).unwrap();
    assert_eq!(opt.name, SO_RCVBUF);
    assert_eq!(opt.value, vec![0xff, 0xff, 0xff, 0x7f]);
}

#[test]
fn buffer_size_too_large() {
    let r = buffer_size_option(SoDirection::Send, 0x8000_0000);
    let e = r.err().unwrap();
    assert_eq!(e, SockError::OptionOutOfRange);
    assert_eq!(e.kind(), ErrorKind::InvalidInput);
}

#[test]
fn buffer_size_read_back() {
    assert_eq!(buffer_size_from(&[0, 0x10, 0, 0]), 4096);
    assert_eq!(buffer_size_from(&[0x00, 0x40, 0x03, 0x00]), 212992);
}

#[test]
fn one_second_receive_timeout() {
    let opt = timeout_option(SoDirection::Receive, 1);
    assert_eq!(opt.level, SOL_SOCKET);
    assert_eq!(opt.name, 20);
    assert_eq!(opt.value, vec![1, 0, 0, 0, 0, 0, 0, 0, 0, 0, 0, 0, 0, 0, 0, 0]);
}

#[test]
fn send_timeout_seconds_layout() {
    let opt = timeout_option(SoDirection::Send, 300);
    assert_eq!(opt.name, 21);
    assert_eq!(opt.value, vec![0x2c, 1, 0, 0, 0, 0, 0, 0, 0, 0, 0, 0, 0, 0, 0, 0]);
    let neg = timeout_option(SoDirection::Send, -1);
    assert_eq!(neg.value[..8], [0xff; 8]);
    assert_eq!(neg.value[8..], [0; 8]);
}
