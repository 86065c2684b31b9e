use espflash_bridge::connect::{
    active_host, connect, ActiveBridge, ConnectError, ConnectStep, Connection,
    ResetAfterOperation, ResetBeforeOperation,
};
use espflash_bridge::timeout::Timeout;
use std::io;

const BEFORE: [ResetBeforeOperation; 4] = [
    ResetBeforeOperation::DefaultReset,
    ResetBeforeOperation::NoReset,
    ResetBeforeOperation::NoResetNoSync,
    ResetBeforeOperation::UsbReset,
];

const AFTER: [ResetAfterOperation; 4] = [
    ResetAfterOperation::HardReset,
    ResetAfterOperation::NoReset,
    ResetAfterOperation::NoResetNoStub,
    ResetAfterOperation::WatchdogReset,
];

struct World {
    environment: fn(&str) -> Option<&'static str>,
    post: fn() -> Result<(), ureq::Error>,
    socket: fn() -> io::Result<u8>,
}

fn calm() -> World {
    World {
        environment: |_| None,
        post: || Ok(()),
        socket: || Ok(42),
    }
}

fn run(
    world: &World,
    host: &str,
    before: ResetBeforeOperation,
    after: ResetAfterOperation,
    active: &mut ActiveBridge,
) -> (Vec<String>, Result<Connection<u8>, ConnectError>) {
    let mut log = vec![];
    let mut step: ConnectStep<u8> = connect(host, before, after);
    loop {
        step = match step {
            ConnectStep::HttpPort(query) => {
                let setting = (world.environment)(query.post.port.variable);
                query.answered(setting)
            }
            ConnectStep::EnterBootloader(entry) => {
                log.push(format!("post {}", entry.request.url));
                entry.sent((world.post)())
            }
            ConnectStep::FlashPort(query) => {
                let setting = (world.environment)(query.port.variable);
                query.answered(setting)
            }
            ConnectStep::OpenSocket(request) => {
                log.push(format!("open {}:{}", request.target.host, request.port));
                request.opened((world.socket)(), active)
            }
            ConnectStep::Done(outcome) => return (log, outcome),
        };
    }
}

#[test]
fn a_connection_enters_the_bootloader_and_opens_the_socket() {
    for before in BEFORE {
        for after in AFTER {
            let mut active = ActiveBridge { host: None };
            let (log, outcome) = run(&calm(), "10.0.0.2", before, after, &mut active);
            let connection = outcome.unwrap();
            let quiet = before == ResetBeforeOperation::NoResetNoSync;
            if quiet {
                assert_eq!(log, ["open 10.0.0.2:3333"]);
                assert_eq!(connection.before_operation, ResetBeforeOperation::NoResetNoSync);
            } else {
                assert_eq!(
                    log,
                    ["post http://10.0.0.2:80/enter-bootloader", "open 10.0.0.2:3333"]
                );
                assert_eq!(connection.before_operation, ResetBeforeOperation::NoReset);
            }
            assert_eq!(connection.after_operation, after);
            assert_eq!(connection.baud, 115_200);
            assert_eq!(connection.bridge_host.as_deref(), Some("10.0.0.2"));
            assert_eq!(connection.serial.stream, 42);
            assert_eq!(connection.serial.host, "10.0.0.2");
            assert_eq!(connection.serial.timeout, Timeout { secs: 0, nanos: 0 });
            assert_eq!((connection.usb_info.vid, connection.usb_info.pid), (0, 0));
            assert_eq!(connection.usb_info.serial_number, None);
            assert_eq!(connection.usb_info.manufacturer, None);
            assert_eq!(connection.usb_info.product, None);
            assert_eq!(active_host(&active).as_deref(), Some("10.0.0.2"));
        }
    }
}

#[test]
fn a_connection_uses_the_ports_that_are_set() {
    let world = World {
        environment: |variable| match variable {
            "ESPBRIDGE_HTTP_PORT" => Some("8080"),
            "ESPBRIDGE_FLASH_PORT" => Some("4444"),
            _ => None,
        },
        ..calm()
    };
    let mut active = ActiveBridge { host: None };
    let (log, outcome) = run(&world, "h", BEFORE[0], AFTER[0], &mut active);
    assert!(outcome.is_ok());
    assert_eq!(log, ["post http://h:8080/enter-bootloader", "open h:4444"]);
}

#[test]
fn no_socket_is_opened_when_the_bootloader_request_fails() {
    let world = World {
        post: || Err(ureq::Error::StatusCode(503)),
        ..calm()
    };
    let mut active = ActiveBridge { host: Some("old".to_string()) };
    let (log, outcome) = run(&world, "h", BEFORE[1], AFTER[0], &mut active);
    assert_eq!(log, ["post http://h:80/enter-bootloader"]);
    let error = outcome.unwrap_err();
    assert_eq!(error.message(), "failed to put target into bootloader mode via bridge");
    match error {
        ConnectError::EnterBootloader(post) => {
            assert_eq!(post.message(), "POST http://h:80/enter-bootloader failed");
            assert!(matches!(post.cause, ureq::Error::StatusCode(503)));
        }
        ConnectError::OpenSocket(_) => panic!("the request failed, not the socket"),
    }
    assert_eq!(active_host(&active).as_deref(), Some("old"));
}

#[test]
fn a_failing_bootloader_request_does_not_matter_when_none_is_sent() {
    let world = World {
        post: || Err(ureq::Error::StatusCode(503)),
        ..calm()
    };
    let mut active = ActiveBridge { host: None };
    let (log, outcome) =
        run(&world, "h", ResetBeforeOperation::NoResetNoSync, AFTER[0], &mut active);
    assert_eq!(log, ["open h:3333"]);
    assert!(outcome.is_ok());
}

#[test]
fn a_socket_that_does_not_open_fails_the_connection() {
    let world = World {
        socket: || Err(io::Error::from(io::ErrorKind::ConnectionRefused)),
        ..calm()
    };
    let mut active = ActiveBridge { host: Some("old".to_string()) };
    let (_, outcome) = run(&world, "h", BEFORE[0], AFTER[0], &mut active);
    let error = outcome.unwrap_err();
    assert_eq!(error.message(), "failed to connect to bridge flashing socket");
    match error {
        ConnectError::OpenSocket(cause) => {
            assert_eq!(cause.kind(), io::ErrorKind::ConnectionRefused)
        }
        ConnectError::EnterBootloader(_) => panic!("the socket failed, not the request"),
    }
    assert_eq!(active_host(&active).as_deref(), Some("old"));
}

#[test]
fn the_active_bridge_is_the_last_one_connected_to() {
    let refused = World {
        socket: || Err(io::Error::from(io::ErrorKind::ConnectionRefused)),
        ..calm()
    };
    let mut active = ActiveBridge { host: None };
    assert_eq!(active_host(&active), None);
    assert!(run(&refused, "first", BEFORE[0], AFTER[0], &mut active).1.is_err());
    assert_eq!(active_host(&active), None);
    assert!(run(&calm(), "second", BEFORE[0], AFTER[0], &mut active).1.is_ok());
    assert!(run(&calm(), "third", BEFORE[2], AFTER[0], &mut active).1.is_ok());
    assert!(run(&refused, "fourth", BEFORE[0], AFTER[0], &mut active).1.is_err());
    assert_eq!(active_host(&active).as_deref(), Some("third"));
}
