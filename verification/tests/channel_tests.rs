//! Channel behaviour against a real byte link: a pseudo-terminal pair
//! stands in for the serial device, the test driving the master side
//! and the channel the slave side.

use nix::fcntl::{fcntl, FcntlArg, OFlag};
use nix::pty::openpty;
use nix::sys::termios::{cfmakeraw, tcgetattr, tcsetattr, SetArg, SpecialCharacterIndices};
use nix::unistd::{close, read};

use tw_ctrl::channel::{Channel, ErrorKind};
use tw_ctrl::frame::{make_control_frame, make_data_frame, ControlType};
use tw_ctrl::serialport::ErrorKind as SerialErrorKind;
use tw_ctrl::serialport::SerialPort;

/// A pseudo-terminal pair in raw mode: reads on the channel side return
/// within a tenth of a second when nothing arrives.
fn open_test_link() -> (i32, i32) {
    let pty = openpty(None, None).expect("could not open a pty pair");
    let (master, slave) = (pty.master, pty.slave);
    let mut t = tcgetattr(slave).expect("tcgetattr");
    cfmakeraw(&mut t);
    t.control_chars[SpecialCharacterIndices::VMIN as usize] = 0;
    t.control_chars[SpecialCharacterIndices::VTIME as usize] = 1;
    tcsetattr(slave, SetArg::TCSANOW, &t).expect("tcsetattr");
    fcntl(master, FcntlArg::F_SETFL(OFlag::O_NONBLOCK)).expect("fcntl");
    (master, slave)
}

/// Everything the channel has written, read off the master side.
fn drain(master: i32) -> Vec<u8> {
    let mut out = Vec::new();
    let mut buf = [0u8; 256];
    loop {
        match read(master, &mut buf) {
            Ok(0) => break,
            Ok(n) => out.extend_from_slice(&buf[..n]),
            Err(_) => break,
        }
    }
    out
}

// An oversize payload is rejected before any device traffic: on a closed
// port, where any write would surface PortClosed, the ceiling check
// still answers first.
#[test]
fn test_send_oversize_before_any_write() {
    let port = SerialPort::from_fd(-1);
    let chan = Channel::new(port, 3);
    let payload = [0u8; 81];
    let err = chan.send(&payload).unwrap_err();
    assert!(matches!(err.kind(), ErrorKind::Oversize));
}

// The largest allowed payload passes the ceiling check and reaches the
// device; on a bad descriptor that surfaces the wrapped transport error.
#[test]
fn test_send_transport_error_surfaces() {
    let port = SerialPort::from_fd(-1);
    let chan = Channel::new(port, 3);
    let err = chan.send(&[0u8; 80]).unwrap_err();
    assert!(matches!(err.kind(), ErrorKind::SerialPort(SerialErrorKind::Errno(_))));
}

#[test]
fn test_send_closed_port_reports_port_closed() {
    let mut port = SerialPort::from_fd(-1);
    let _ = port.close();
    let chan = Channel::new(port, 3);
    let err = chan.send(&[0x01]).unwrap_err();
    assert!(matches!(err.kind(), ErrorKind::SerialPort(SerialErrorKind::PortClosed)));
}

// A declared length beyond the ceiling is answered with an Oversize
// control frame from the header alone.
#[test]
fn test_recv_oversize_header_answered() {
    let (master, slave) = open_test_link();
    nix::unistd::write(master, &[0x7F, 0x44, 0xFF]).unwrap();
    let chan = Channel::new(SerialPort::from_fd(slave), 1);
    let err = chan.recv().unwrap_err();
    assert!(matches!(err.kind(), ErrorKind::MaxAttempts));
    let replies = drain(master);
    assert_eq!(replies, make_control_frame(ControlType::Oversize));
    let _ = close(master);
    let _ = close(slave);
}

// A corrupted payload under an unmodified stored CRC draws a CRCFail
// control frame, and the channel retries instead of surfacing the
// mismatch from the first attempt.
#[test]
fn test_recv_corrupt_payload_answered_and_retried() {
    let (master, slave) = open_test_link();
    let mut frame = make_data_frame(&[0x01, 0x02, 0x03]);
    frame[3] ^= 0x01;
    nix::unistd::write(master, &frame).unwrap();
    let chan = Channel::new(SerialPort::from_fd(slave), 2);
    let err = chan.recv().unwrap_err();
    assert!(matches!(err.kind(), ErrorKind::MaxAttempts));
    let replies = drain(master);
    assert_eq!(&replies[..7], make_control_frame(ControlType::CRCFail).as_slice());
    let _ = close(master);
    let _ = close(slave);
}

// A frame missing its end sentinel draws an InvalidFrame control frame.
#[test]
fn test_recv_missing_end_sentinel_answered() {
    let (master, slave) = open_test_link();
    let mut frame = make_data_frame(&[0x0A, 0x0B]);
    let last = frame.len() - 1;
    frame[last] = 0x00;
    nix::unistd::write(master, &frame).unwrap();
    let chan = Channel::new(SerialPort::from_fd(slave), 1);
    let err = chan.recv().unwrap_err();
    assert!(matches!(err.kind(), ErrorKind::MaxAttempts));
    let replies = drain(master);
    assert_eq!(replies, make_control_frame(ControlType::InvalidFrame));
    let _ = close(master);
    let _ = close(slave);
}

// A valid frame is acknowledged and its payload handed out; parsing it
// again on a later call yields the same payload.
#[test]
fn test_recv_valid_frame_acknowledged() {
    let (master, slave) = open_test_link();
    let frame = make_data_frame(&[0x01, 0x41, 0x42, 0x43, 0x44]);
    nix::unistd::write(master, &frame).unwrap();
    let chan = Channel::new(SerialPort::from_fd(slave), 3);
    let payload = chan.recv().unwrap();
    assert_eq!(payload, vec![0x01, 0x41, 0x42, 0x43, 0x44]);
    let replies = drain(master);
    assert_eq!(replies, make_control_frame(ControlType::Ack));
    let _ = close(master);
    let _ = close(slave);
}

// Without an acknowledgment the send path exhausts its whole budget and
// reports MaxAttempts, having written the frame once per attempt.
#[test]
fn test_send_no_ack_exhausts_attempts() {
    let (master, slave) = open_test_link();
    nix::unistd::write(master, &[0u8; 7]).unwrap();
    let chan = Channel::new(SerialPort::from_fd(slave), 3);
    let err = chan.send(&[0x01]).unwrap_err();
    assert!(matches!(err.kind(), ErrorKind::MaxAttempts));
    let written = drain(master);
    let frame = make_data_frame(&[0x01]);
    assert_eq!(written.len(), 3 * frame.len());
    for a in 0..3 {
        assert_eq!(&written[a * frame.len()..(a + 1) * frame.len()], frame.as_slice());
    }
    let _ = close(master);
    let _ = close(slave);
}

// An acknowledged send puts exactly the documented wire bytes on the
// link, once.
#[test]
fn test_send_acknowledged_writes_exact_frame() {
    let (master, slave) = open_test_link();
    nix::unistd::write(master, &make_control_frame(ControlType::Ack)).unwrap();
    let chan = Channel::new(SerialPort::from_fd(slave), 3);
    chan.send(&[0x01, 0x41, 0x42, 0x43, 0x44]).unwrap();
    let written = drain(master);
    assert_eq!(
        written,
        vec![0x7F, 0x44, 0x05, 0x01, 0x41, 0x42, 0x43, 0x44, 0x6B, 0x91, 0xFE]
    );
    let _ = close(master);
    let _ = close(slave);
}

// With no heartbeat reply, open issues exactly one heartbeat probe per
// attempt, surfaces NoHeartBeat, and closes the device again.
#[test]
fn test_open_no_heartbeat() {
    let (master, slave) = open_test_link();
    let mut chan = Channel::new(SerialPort::from_fd(slave), 4);
    let err = chan.open().unwrap_err();
    assert!(matches!(err.kind(), ErrorKind::NoHeartBeat));
    let written = drain(master);
    let hb = make_control_frame(ControlType::Heartbeat);
    assert_eq!(written.len(), 4 * 7, "exactly one heartbeat per attempt");
    for a in 0..4 {
        assert_eq!(&written[a * 7..(a + 1) * 7], hb.as_slice());
    }
    let _ = close(master);
}

// A heartbeat reply confirms liveness on the first attempt.
#[test]
fn test_open_heartbeat_confirmed() {
    let (master, slave) = open_test_link();
    nix::unistd::write(master, &make_control_frame(ControlType::Heartbeat)).unwrap();
    let mut chan = Channel::new(SerialPort::from_fd(slave), 3);
    chan.open().expect("open should confirm the heartbeat");
    let written = drain(master);
    assert_eq!(written, make_control_frame(ControlType::Heartbeat));
    let _ = close(master);
    let _ = close(slave);
}

// The standalone liveness probe writes one heartbeat frame and nothing
// else.
#[test]
fn test_send_heartbeat_single_probe() {
    let (master, slave) = open_test_link();
    let chan = Channel::new(SerialPort::from_fd(slave), 5);
    chan.send_heartbeat().unwrap();
    let written = drain(master);
    assert_eq!(written, make_control_frame(ControlType::Heartbeat));
    let _ = close(master);
    let _ = close(slave);
}

#[test]
fn test_serialport_close_twice_reports_closed() {
    let (master, slave) = open_test_link();
    let mut port = SerialPort::from_fd(slave);
    assert!(port.close().is_ok());
    let err = port.close().unwrap_err();
    assert!(matches!(err.kind(), SerialErrorKind::PortClosed));
    let _ = close(master);
}
