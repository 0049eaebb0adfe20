use serial_link::error::LinkError;
use serial_link::link::{ConnectionAttempt, LinkAction, LinkEvent, BAUD_RATE};

fn ports(names: &[&str]) -> LinkEvent {
    LinkEvent::PortsListed(names.iter().map(|name| name.to_string()).collect())
}

fn open(name: &str) -> LinkAction {
    LinkAction::Open { port_name: name.to_string(), baud_rate: 115200 }
}

fn stream(name: &str) -> LinkAction {
    LinkAction::Stream { port_name: name.to_string() }
}

#[test]
fn an_attempt_begins_with_the_list_of_ports() {
    let attempt = ConnectionAttempt::new();
    assert_eq!(attempt.action(), LinkAction::Enumerate);
    assert_eq!(BAUD_RATE, 115200);
}

#[test]
fn the_second_port_is_taken_when_the_first_does_not_validate() {
    let mut attempt = ConnectionAttempt::new();
    assert_eq!(attempt.step(ports(&["COM1", "COM2"])), open("COM1"));
    assert_eq!(attempt.step(LinkEvent::Opened), LinkAction::Validate);
    assert_eq!(attempt.step(LinkEvent::Invalid), LinkAction::Close);
    assert_eq!(attempt.step(LinkEvent::Closed), open("COM2"));
    assert_eq!(attempt.step(LinkEvent::Opened), LinkAction::Validate);
    assert_eq!(attempt.step(LinkEvent::Valid), stream("COM2"));
    assert_eq!(attempt.action(), stream("COM2"));
}

#[test]
fn the_first_port_is_taken_when_it_validates() {
    let mut attempt = ConnectionAttempt::new();
    assert_eq!(attempt.step(ports(&["COM1", "COM2"])), open("COM1"));
    assert_eq!(attempt.step(LinkEvent::Opened), LinkAction::Validate);
    assert_eq!(attempt.step(LinkEvent::Valid), stream("COM1"));
}

#[test]
fn a_port_that_does_not_open_is_passed_over_without_a_close() {
    let mut attempt = ConnectionAttempt::new();
    assert_eq!(attempt.step(ports(&["COM1", "COM2", "COM3"])), open("COM1"));
    assert_eq!(attempt.step(LinkEvent::OpenFailed), open("COM2"));
    assert_eq!(attempt.step(LinkEvent::OpenFailed), open("COM3"));
    assert_eq!(attempt.step(LinkEvent::Opened), LinkAction::Validate);
    assert_eq!(attempt.step(LinkEvent::Valid), stream("COM3"));
}

#[test]
fn no_ports_means_failure() {
    let mut attempt = ConnectionAttempt::new();
    assert_eq!(attempt.step(ports(&[])), LinkAction::Fail(LinkError::NoPortsAvailable));
    assert_eq!(attempt.action(), LinkAction::Fail(LinkError::NoPortsAvailable));
}

#[test]
fn a_failed_enumeration_means_failure() {
    let mut attempt = ConnectionAttempt::new();
    assert_eq!(
        attempt.step(LinkEvent::EnumerationFailed("permission denied".to_string())),
        LinkAction::Fail(LinkError::EnumerationFailed("permission denied".to_string()))
    );
}

#[test]
fn all_ports_exhausted_means_failure() {
    let mut attempt = ConnectionAttempt::new();
    assert_eq!(attempt.step(ports(&["COM1", "COM2"])), open("COM1"));
    assert_eq!(attempt.step(LinkEvent::OpenFailed), open("COM2"));
    assert_eq!(attempt.step(LinkEvent::Opened), LinkAction::Validate);
    assert_eq!(attempt.step(LinkEvent::Invalid), LinkAction::Close);
    assert_eq!(
        attempt.step(LinkEvent::Closed),
        LinkAction::Fail(LinkError::NoValidConnectionFound)
    );
}

#[test]
fn an_attempt_that_has_ended_stays_as_it_is() {
    let mut attempt = ConnectionAttempt::new();
    attempt.step(ports(&["COM1"]));
    attempt.step(LinkEvent::Opened);
    assert_eq!(attempt.step(LinkEvent::Valid), stream("COM1"));
    assert_eq!(attempt.step(LinkEvent::Invalid), stream("COM1"));
    assert_eq!(attempt.step(LinkEvent::Closed), stream("COM1"));
    assert_eq!(attempt.step(ports(&["COM9"])), stream("COM1"));

    let mut attempt = ConnectionAttempt::new();
    attempt.step(ports(&["COM1"]));
    let failed = LinkAction::Fail(LinkError::NoValidConnectionFound);
    assert_eq!(attempt.step(LinkEvent::OpenFailed), failed);
    assert_eq!(attempt.step(LinkEvent::Opened), failed);
    assert_eq!(attempt.step(LinkEvent::Valid), failed);
}

#[test]
fn an_event_out_of_turn_changes_nothing() {
    let mut attempt = ConnectionAttempt::new();
    assert_eq!(attempt.step(LinkEvent::Opened), LinkAction::Enumerate);
    assert_eq!(attempt.step(LinkEvent::Closed), LinkAction::Enumerate);
    assert_eq!(attempt.step(ports(&["COM1", "COM2"])), open("COM1"));
    assert_eq!(attempt.step(LinkEvent::Valid), open("COM1"));
    assert_eq!(attempt.step(LinkEvent::Closed), open("COM1"));
    assert_eq!(attempt.step(ports(&["COM9"])), open("COM1"));
    assert_eq!(attempt.step(LinkEvent::Opened), LinkAction::Validate);
    assert_eq!(attempt.step(LinkEvent::Opened), LinkAction::Validate);
    assert_eq!(attempt.step(LinkEvent::OpenFailed), LinkAction::Validate);
    assert_eq!(attempt.step(LinkEvent::Invalid), LinkAction::Close);
    assert_eq!(attempt.step(LinkEvent::Valid), LinkAction::Close);
    assert_eq!(attempt.step(LinkEvent::Closed), open("COM2"));
}

#[test]
fn a_failure_can_be_copied() {
    let errors = [
        LinkError::AlreadyOpen,
        LinkError::NotOpen,
        LinkError::OpenFailed("a".to_string()),
        LinkError::WriteFailed("b".to_string()),
        LinkError::EnumerationFailed("c".to_string()),
        LinkError::NoPortsAvailable,
        LinkError::NoValidConnectionFound,
    ];
    for error in errors.iter() {
        assert_eq!(&error.duplicate(), error);
    }
}
