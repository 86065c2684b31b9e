use espflash_bridge::address::target_host;
use espflash_bridge::clear::{ClearBuffer, ClearStep};
use espflash_bridge::port::{
    DataBits, DepthAnswer, ErrorKind, FlowControl, Parity, ReadFault, StopBits, TcpSerialPort,
    BAUD,
};
use espflash_bridge::timeout::{SocketOp, Timeout, TimeoutStep, NANOS_PER_SEC};
use std::io;

const ZERO: Timeout = Timeout { secs: 0, nanos: 0 };
const THREE: Timeout = Timeout { secs: 3, nanos: 0 };
const SHORT: Timeout = Timeout { secs: 0, nanos: 1 };

fn port() -> TcpSerialPort<u8> {
    TcpSerialPort::new(7, "10.0.0.2".to_string())
}

fn set_timeout(
    port: &mut TcpSerialPort<u8>,
    timeout: Timeout,
    failing: Option<usize>,
) -> (Vec<SocketOp>, Result<(), serialport::Error>) {
    let mut ops = vec![];
    let mut step = port.set_timeout(timeout);
    loop {
        step = match step {
            TimeoutStep::Socket(setting) => {
                let outcome = if failing == Some(ops.len()) {
                    Err(io::Error::new(io::ErrorKind::InvalidInput, "refused"))
                } else {
                    Ok(())
                };
                ops.push(setting.op);
                port.socket_set(setting, outcome)
            }
            TimeoutStep::Done(outcome) => return (ops, outcome),
        };
    }
}

#[test]
fn a_new_port_has_no_timeout() {
    let port = port();
    assert_eq!((port.stream, port.host.as_str()), (7, "10.0.0.2"));
    assert_eq!(port.timeout(), ZERO);
    assert!(port.timeout().is_zero());
    assert!(Timeout::zero().is_zero());
    assert!(!SHORT.is_zero());
    assert!(!THREE.is_zero());
}

#[test]
fn the_name_of_a_port_selects_its_bridge() {
    let name = port().name().unwrap();
    assert_eq!(name, "bridge://10.0.0.2");
    assert_eq!(target_host(&name), Some("10.0.0.2"));
}

#[test]
fn line_settings_are_fixed() {
    let mut port = port();
    assert!(port.set_baud_rate(921_600).is_ok());
    assert!(port.set_data_bits(DataBits::Five).is_ok());
    assert!(port.set_flow_control(FlowControl::Hardware).is_ok());
    assert!(port.set_parity(Parity::Odd).is_ok());
    assert!(port.set_stop_bits(StopBits::Two).is_ok());
    assert_eq!(BAUD, 115_200);
    assert_eq!(port.baud_rate().unwrap(), 115_200);
    assert_eq!(port.data_bits().unwrap(), DataBits::Eight);
    assert_eq!(port.flow_control().unwrap(), FlowControl::Off);
    assert_eq!(port.parity().unwrap(), Parity::Off);
    assert_eq!(port.stop_bits().unwrap(), StopBits::One);
    assert_eq!(port.bytes_to_write().unwrap(), 0);
}

#[test]
fn control_lines_are_fixed() {
    let mut port = port();
    assert!(port.write_request_to_send(true).is_ok());
    assert!(port.write_data_terminal_ready(false).is_ok());
    assert!(port.set_break().is_ok());
    assert!(port.clear_break().is_ok());
    assert!(port.read_clear_to_send().unwrap());
    assert!(port.read_data_set_ready().unwrap());
    assert!(!port.read_ring_indicator().unwrap());
    assert!(port.read_carrier_detect().unwrap());
    assert_eq!(port.timeout(), ZERO);
}

#[test]
fn a_read_that_times_out_returns_no_bytes() {
    let port = port();
    assert_eq!(port.read(Ok(5)).unwrap(), 5);
    assert_eq!(port.read(Ok(0)).unwrap(), 0);
    for (kind, error) in [
        (ErrorKind::WouldBlock, io::ErrorKind::WouldBlock),
        (ErrorKind::TimedOut, io::ErrorKind::TimedOut),
    ] {
        let fault = ReadFault { kind, error: io::Error::from(error) };
        assert_eq!(port.read(Err(fault)).unwrap(), 0);
    }
}

#[test]
fn any_other_read_error_is_handed_on() {
    let error = io::Error::new(io::ErrorKind::ConnectionReset, "gone");
    let fault = ReadFault { kind: ErrorKind::Other, error };
    let error = port().read(Err(fault)).unwrap_err();
    assert_eq!(error.kind(), io::ErrorKind::ConnectionReset);
    assert_eq!(error.to_string(), "gone");
}

#[test]
fn writes_are_handed_on_as_they_are() {
    let port = port();
    assert_eq!(port.write(Ok(5)).unwrap(), 5);
    assert!(port.flush(Ok(())).is_ok());
    for kind in [io::ErrorKind::WouldBlock, io::ErrorKind::TimedOut, io::ErrorKind::BrokenPipe] {
        assert_eq!(port.write(Err(io::Error::from(kind))).unwrap_err().kind(), kind);
        assert_eq!(port.flush(Err(io::Error::from(kind))).unwrap_err().kind(), kind);
    }
}

#[test]
fn equally_long_timeouts_are_equal() {
    assert_eq!(Timeout::zero(), ZERO);
    assert_ne!(SHORT, ZERO);
    assert_ne!(THREE, Timeout { secs: 2, nanos: NANOS_PER_SEC - 1 });
}

#[test]
fn a_zero_timeout_makes_the_socket_nonblocking() {
    let mut port = port();
    set_timeout(&mut port, THREE, None).1.unwrap();
    let (ops, outcome) = set_timeout(&mut port, ZERO, None);
    assert!(outcome.is_ok());
    assert_eq!(ops, [SocketOp::Nonblocking(true)]);
    assert_eq!(port.timeout(), ZERO);
}

#[test]
fn any_other_timeout_is_a_deadline() {
    for timeout in [THREE, SHORT, Timeout { secs: u64::MAX, nanos: 999_999_999 }] {
        let mut port = port();
        let (ops, outcome) = set_timeout(&mut port, timeout, None);
        assert!(outcome.is_ok());
        assert_eq!(
            ops,
            [
                SocketOp::Nonblocking(false),
                SocketOp::ReadTimeout(timeout),
                SocketOp::WriteTimeout(timeout),
            ]
        );
        assert_eq!(port.timeout(), timeout);
    }
}

#[test]
fn a_timeout_that_fails_is_not_recorded() {
    for failing in 0..3usize {
        let mut port = port();
        set_timeout(&mut port, SHORT, None).1.unwrap();
        let (ops, outcome) = set_timeout(&mut port, THREE, Some(failing));
        let error = outcome.unwrap_err();
        assert_eq!(error.kind(), serialport::ErrorKind::Io(io::ErrorKind::InvalidInput));
        assert_eq!(error.to_string(), "refused");
        assert_eq!(ops.len(), failing + 1);
        assert_eq!(port.timeout(), SHORT);
    }
    let mut port = port();
    set_timeout(&mut port, SHORT, None).1.unwrap();
    assert!(set_timeout(&mut port, ZERO, Some(0)).1.is_err());
    assert_eq!(port.timeout(), SHORT);
}

#[test]
fn a_timeout_is_saved_and_restored_around_another() {
    for failing in [None, Some(0), Some(1), Some(2)] {
        let mut port = port();
        set_timeout(&mut port, THREE, None).1.unwrap();
        let saved = port.timeout();
        assert_eq!(set_timeout(&mut port, SHORT, failing).1.is_err(), failing.is_some());
        let (ops, outcome) = set_timeout(&mut port, saved, None);
        assert!(outcome.is_ok());
        assert_eq!(
            ops,
            [
                SocketOp::Nonblocking(false),
                SocketOp::ReadTimeout(THREE),
                SocketOp::WriteTimeout(THREE),
            ]
        );
        assert_eq!(port.timeout(), THREE);
    }
}

fn answer(status: i32, depth: i32) -> DepthAnswer {
    let os_error = io::Error::new(io::ErrorKind::PermissionDenied, "no depth");
    DepthAnswer { status, depth, os_error }
}

#[test]
fn the_depth_of_the_receive_buffer_is_reported() {
    let port = port();
    assert_eq!(port.bytes_to_read(answer(0, 0)).unwrap(), 0);
    assert_eq!(port.bytes_to_read(answer(0, 12)).unwrap(), 12);
    assert_eq!(port.bytes_to_read(answer(0, i32::MAX)).unwrap(), 2_147_483_647);
    assert_eq!(port.bytes_to_read(answer(0, -1)).unwrap(), u32::MAX);
    assert_eq!(port.bytes_to_read(answer(0, i32::MIN)).unwrap(), 2_147_483_648);
}

#[test]
fn a_depth_that_cannot_be_had_is_an_error() {
    for status in [-1, 1] {
        let error = port().bytes_to_read(answer(status, 12)).unwrap_err();
        assert_eq!(error.kind(), serialport::ErrorKind::Io(io::ErrorKind::PermissionDenied));
        assert_eq!(error.to_string(), "no depth");
    }
}

fn clear(
    buffer: ClearBuffer,
    waiting: Result<u32, serialport::Error>,
    read: io::Result<()>,
) -> (Option<usize>, Result<(), serialport::Error>) {
    let mut dropped = None;
    let mut waiting = Some(waiting);
    let mut read = Some(read);
    let mut step = port().clear(buffer);
    loop {
        step = match step {
            ClearStep::Query(query) => query.answered(waiting.take().unwrap()),
            ClearStep::Discard(discard) => {
                dropped = Some(discard.len);
                discard.discarded(read.take().unwrap())
            }
            ClearStep::Done(outcome) => return (dropped, outcome),
        };
    }
}

#[test]
fn clearing_the_input_drops_what_waits() {
    for buffer in [ClearBuffer::Input, ClearBuffer::All] {
        let (dropped, outcome) = clear(buffer, Ok(12), Ok(()));
        assert_eq!(dropped, Some(12));
        assert!(outcome.is_ok());
        let (dropped, outcome) = clear(buffer, Ok(0), Ok(()));
        assert_eq!(dropped, None);
        assert!(outcome.is_ok());
    }
}

#[test]
fn clearing_the_output_does_nothing() {
    let failed = serialport::Error::new(serialport::ErrorKind::Unknown, "unasked");
    let (dropped, outcome) = clear(ClearBuffer::Output, Err(failed), Ok(()));
    assert_eq!(dropped, None);
    assert!(outcome.is_ok());
}

#[test]
fn clearing_fails_where_the_port_cannot_tell_what_waits() {
    let failed = serialport::Error::new(serialport::ErrorKind::NoDevice, "lost");
    let (dropped, outcome) = clear(ClearBuffer::All, Err(failed), Ok(()));
    assert_eq!(dropped, None);
    let error = outcome.unwrap_err();
    assert_eq!(error.kind(), serialport::ErrorKind::NoDevice);
    assert_eq!(error.to_string(), "lost");
}

#[test]
fn clearing_fails_where_the_bytes_cannot_be_read() {
    let failed = io::Error::new(io::ErrorKind::UnexpectedEof, "closed");
    let (dropped, outcome) = clear(ClearBuffer::Input, Ok(3), Err(failed));
    assert_eq!(dropped, Some(3));
    let error = outcome.unwrap_err();
    assert_eq!(error.kind(), serialport::ErrorKind::Io(io::ErrorKind::UnexpectedEof));
    assert_eq!(error.to_string(), "closed");
}

#[test]
fn a_clone_names_the_same_bridge_and_has_no_timeout() {
    let mut port = port();
    set_timeout(&mut port, THREE, None).1.unwrap();
    let clone = port.try_clone(Ok(8)).unwrap();
    assert_eq!((clone.stream, clone.host.as_str()), (8, "10.0.0.2"));
    assert_eq!(clone.timeout(), ZERO);
    assert_eq!(port.timeout(), THREE);
}

#[test]
fn a_port_without_a_second_handle_is_not_cloned() {
    let failed = io::Error::new(io::ErrorKind::OutOfMemory, "no handle");
    let error = port().try_clone(Err(failed)).unwrap_err();
    assert_eq!(error.kind(), serialport::ErrorKind::Io(io::ErrorKind::OutOfMemory));
    assert_eq!(error.to_string(), "no handle");
}
