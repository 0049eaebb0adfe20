use serial_link::decoder::{DecoderAction, DecoderEvent, StreamDecoder};
use serial_link::link::{ConnectionAttempt, LinkAction, LinkEvent};
use serial_link::messages::connected_message;
use serial_link::store::SerialConnection;
use serial_link::validator::{ProtocolValidator, ValidatorAction, ValidatorEvent, RETRY_PAUSE_MS};
use std::collections::VecDeque;

/// What one read on a simulated device brings.
#[derive(Clone)]
enum Read {
    Data(&'static [u8]),
    Nothing,
    Fail,
}

/// A simulated device: a script of reads; once the script is through, reads bring
/// nothing. Every read takes a second.
#[derive(Clone)]
struct Device {
    name: String,
    script: VecDeque<Read>,
}

fn device(name: &str, script: &[Read]) -> Device {
    Device { name: name.to_string(), script: script.iter().cloned().collect() }
}

/// A simulated system: the devices that can be opened, by name, and what was done.
struct System {
    listed: Vec<String>,
    devices: Vec<Device>,
    clock_ms: u64,
    log: Vec<String>,
}

fn validate(port: &mut Device, system: &mut System) -> bool {
    let started = system.clock_ms;
    let mut validator = ProtocolValidator::new();
    let mut action = ValidatorAction::Read;
    loop {
        match action {
            ValidatorAction::Accept => return true,
            ValidatorAction::Reject(_) => return false,
            ValidatorAction::Pause => {
                system.clock_ms += RETRY_PAUSE_MS;
                action = ValidatorAction::Read;
            },
            ValidatorAction::Read => {
                system.clock_ms += 1000;
                let event = match port.script.pop_front() {
                    Some(Read::Data(bytes)) => ValidatorEvent::Data(bytes.to_vec()),
                    Some(Read::Nothing) | None => ValidatorEvent::NoData,
                    Some(Read::Fail) => ValidatorEvent::ReadFailed,
                };
                action = validator.step(system.clock_ms - started, event);
            },
        }
    }
}

fn connect(system: &mut System, store: &mut SerialConnection<Device>) -> Result<String, String> {
    let mut attempt = ConnectionAttempt::new();
    let mut action = attempt.action();
    loop {
        let event = match action {
            LinkAction::Enumerate => LinkEvent::PortsListed(system.listed.clone()),
            LinkAction::Open { port_name, baud_rate } => {
                system.log.push(format!("open {} {}", port_name, baud_rate));
                let found = system.devices.iter().find(|d| d.name == port_name).cloned();
                let opened = match store.plan_open(&port_name, baud_rate) {
                    Ok(_) => store.finish_open(found.ok_or("no such device".to_string())),
                    Err(error) => Err(error),
                };
                if opened.is_ok() {
                    LinkEvent::Opened
                } else {
                    LinkEvent::OpenFailed
                }
            },
            LinkAction::Validate => {
                system.log.push("validate".to_string());
                let valid = match store.port_mut() {
                    Ok(port) => validate(port, system),
                    Err(_) => false,
                };
                if valid {
                    LinkEvent::Valid
                } else {
                    LinkEvent::Invalid
                }
            },
            LinkAction::Close => {
                system.log.push("close".to_string());
                store.begin_close().unwrap();
                store.finish_close().unwrap();
                LinkEvent::Closed
            },
            LinkAction::Stream { port_name } => {
                system.log.push(format!("stream {}", port_name));
                return Ok(connected_message(&port_name));
            },
            LinkAction::Fail(error) => return Err(error.message()),
        };
        action = attempt.step(event);
    }
}

#[test]
fn the_second_port_validates_after_the_first_times_out() {
    let mut system = System {
        listed: vec!["COM1".to_string(), "COM2".to_string()],
        devices: vec![device("COM1", &[]), device("COM2", &[Read::Data(b"RPM1: 42\n")])],
        clock_ms: 0,
        log: Vec::new(),
    };
    let mut store = SerialConnection::new();
    assert_eq!(connect(&mut system, &mut store), Ok("Connected successfully to COM2".to_string()));
    assert_eq!(
        system.log,
        vec![
            "open COM1 115200",
            "validate",
            "close",
            "open COM2 115200",
            "validate",
            "stream COM2"
        ]
    );
    assert!(store.is_open());
    assert!(!store.stop_requested());
    assert_eq!(store.port_mut().unwrap().name, "COM2");
}

#[test]
fn a_port_that_is_missing_and_one_that_fails_are_passed_over() {
    let mut system = System {
        listed: vec!["A".to_string(), "B".to_string(), "C".to_string()],
        devices: vec![
            device("B", &[Read::Data(b"RPM"), Read::Fail]),
            device("C", &[Read::Nothing, Read::Data(b"x RPM1:"), Read::Data(b" 7;")]),
        ],
        clock_ms: 0,
        log: Vec::new(),
    };
    let mut store = SerialConnection::new();
    assert_eq!(connect(&mut system, &mut store), Ok("Connected successfully to C".to_string()));
    assert_eq!(
        system.log,
        vec![
            "open A 115200",
            "open B 115200",
            "validate",
            "close",
            "open C 115200",
            "validate",
            "stream C"
        ]
    );
}

#[test]
fn no_port_that_validates_means_failure_with_the_store_closed() {
    let mut system = System {
        listed: vec!["COM1".to_string(), "COM2".to_string()],
        devices: vec![device("COM1", &[Read::Data(b"hello\n")]), device("COM2", &[Read::Fail])],
        clock_ms: 0,
        log: Vec::new(),
    };
    let mut store = SerialConnection::new();
    assert_eq!(
        connect(&mut system, &mut store),
        Err("No valid serial connection found".to_string())
    );
    assert!(!store.is_open());
    assert!(store.stop_requested());
}

#[test]
fn no_listed_port_means_failure() {
    let mut system =
        System { listed: Vec::new(), devices: Vec::new(), clock_ms: 0, log: Vec::new() };
    let mut store = SerialConnection::new();
    assert_eq!(connect(&mut system, &mut store), Err("No ports available".to_string()));
    assert!(system.log.is_empty());
}

#[test]
fn an_attempt_with_a_port_open_already_opens_nothing() {
    let mut system = System {
        listed: vec!["COM1".to_string()],
        devices: vec![device("COM1", &[Read::Data(b"RPM1: 1\n")])],
        clock_ms: 0,
        log: Vec::new(),
    };
    let mut store = SerialConnection::new();
    store.finish_open(Ok(device("held", &[]))).unwrap();
    assert_eq!(
        connect(&mut system, &mut store),
        Err("No valid serial connection found".to_string())
    );
    assert_eq!(store.port_mut().unwrap().name, "held");
}

#[test]
fn a_session_decodes_until_it_is_cancelled() {
    let mut port = device("COM2", &[Read::Data(b"RPM1: 10;RPM2: 20\n"), Read::Data(b"garbage\n")]);
    let mut cancel_after_reads = 3;
    let mut emitted = Vec::new();
    let mut decoder = StreamDecoder::new();
    let mut action = DecoderAction::CheckCancel;
    let mut reads = 0;
    loop {
        let event = match action {
            DecoderAction::CheckCancel => DecoderEvent::Cancel(cancel_after_reads == 0),
            DecoderAction::Read => {
                reads += 1;
                cancel_after_reads -= 1;
                match port.script.pop_front() {
                    Some(Read::Data(bytes)) => DecoderEvent::Data(bytes.to_vec()),
                    Some(Read::Nothing) | None => DecoderEvent::TimedOut,
                    Some(Read::Fail) => DecoderEvent::ReadFailed,
                }
            },
            DecoderAction::Emit(reading) => {
                emitted.push(reading.values);
                DecoderEvent::Delivered
            },
            DecoderAction::Stop(_) => break,
        };
        action = decoder.step(event);
    }
    assert_eq!(emitted, vec![[10, 20]]);
    assert_eq!(reads, 3);
}
