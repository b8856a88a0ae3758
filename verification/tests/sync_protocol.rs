use kuro::error::KuroError;
use kuro::sync::console::ConsoleSocket;
use kuro::sync::fifo::ExecFifo;
use kuro::sync::pipe::{decode_packet, error_packet, needs_payload, payload_length, ready_packet, SyncResult};

#[test]
fn ready_packet_round_trip() {
    assert_eq!(ready_packet(), vec![1u8]);
    assert_eq!(decode_packet(&ready_packet()), Ok(SyncResult::Ready));
}

#[test]
fn error_packet_layout_and_round_trip() {
    let p = error_packet("boom");
    assert_eq!(p, vec![2, 0, 0, 0, 4, b'b', b'o', b'o', b'm']);
    assert_eq!(decode_packet(&p), Ok(SyncResult::Error("boom".to_string())));
    let msg = "Mount failed for target '/dev': EINVAL ☃";
    assert_eq!(decode_packet(&error_packet(msg)), Ok(SyncResult::Error(msg.to_string())));
    assert_eq!(decode_packet(&error_packet("")), Ok(SyncResult::Error(String::new())));
}

#[test]
fn empty_read_is_eof() {
    assert_eq!(decode_packet(&[]), Ok(SyncResult::Eof));
}

#[test]
fn invalid_status_and_short_payload() {
    assert_eq!(
        decode_packet(&[7]),
        Err(KuroError::SyncPipe("Received invalid status code from sync pipe: 7".to_string()))
    );
    let short = Err(KuroError::SyncPipe(
        "Unexpected EOF while reading error payload from sync pipe".to_string(),
    ));
    assert_eq!(decode_packet(&[2, 0, 0]), short);
    assert_eq!(decode_packet(&[2, 0, 0, 0, 3, b'a']), short);
}

#[test]
fn invalid_utf8_payload_is_replaced() {
    assert_eq!(
        decode_packet(&[2, 0, 0, 0, 2, 0xff, b'a']),
        Ok(SyncResult::Error("\u{fffd}a".to_string()))
    );
}

#[test]
fn payload_framing() {
    assert!(needs_payload(2));
    assert!(!needs_payload(1));
    assert_eq!(payload_length(&[0, 0, 1, 2]), 258);
    assert_eq!(payload_length(&[1, 0, 0, 0]), 1 << 24);
}

#[test]
fn fifo_and_console_paths() {
    assert_eq!(ExecFifo::create_path("/run/kuro/c"), "/run/kuro/c/exec.fifo");
    assert_eq!(ExecFifo::start_byte(), 1);
    assert_eq!(ConsoleSocket::socket_path("/run/kuro/c"), "/run/kuro/c/console.sock");
    assert_eq!(ConsoleSocket::marker_byte(), b'c');
}
