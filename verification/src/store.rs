//! The port handle store: the one slot that owns the open port, and the cancellation
//! flag that tells a running decoder to stop.
//!
//! The store never touches the device. Opening and closing are done in two halves with
//! the caller's work between them: the first half decides whether the operation may go
//! ahead, the second records what came of it.
//!
//! The flag is kept beside the slot, not in it: it stays readable, and set, after the
//! handle has been cleared.

use crate::error::{LinkError, LinkErrorView};
use vstd::prelude::*;

verus! {

/// Timeout of a single read on an open port, in milliseconds.
pub const READ_TIMEOUT_MS: u64 = 5000;

/// How long closing waits, after it has raised the cancellation flag and before it
/// clears the handle, for a running decoder to see the flag; in milliseconds.
pub const CLOSE_GRACE_MS: u64 = 100;

/// Parity checking of a port.
#[derive(Debug, Clone, Copy, PartialEq, Eq)]
pub enum Parity {
    Off,
    Odd,
    Even,
}

/// How a port is to be opened.
#[derive(Debug, PartialEq, Eq)]
pub struct PortSettings {
    pub port_name: String,
    pub baud_rate: u32,
    pub data_bits: u8,
    pub stop_bits: u8,
    pub parity: Parity,
    pub timeout_ms: u64,
}

/// Mathematical value of a [`PortSettings`].
pub struct PortSettingsView {
    pub port_name: Seq<char>,
    pub baud_rate: u32,
    pub data_bits: u8,
    pub stop_bits: u8,
    pub parity: Parity,
    pub timeout_ms: u64,
}

impl View for PortSettings {
    type V = PortSettingsView;

    open spec fn view(&self) -> PortSettingsView {
        PortSettingsView {
            port_name: self.port_name@,
            baud_rate: self.baud_rate,
            data_bits: self.data_bits,
            stop_bits: self.stop_bits,
            parity: self.parity,
            timeout_ms: self.timeout_ms,
        }
    }
}

/// The settings with which every port is opened: eight data bits, one stop bit, no
/// parity, and the bounded read timeout. Only the name and the baud rate vary.
pub open spec fn fixed_framing(port_name: Seq<char>, baud_rate: u32) -> PortSettingsView {
    PortSettingsView {
        port_name,
        baud_rate,
        data_bits: 8,
        stop_bits: 1,
        parity: Parity::Off,
        timeout_ms: READ_TIMEOUT_MS,
    }
}

/// Mathematical value of a [`SerialConnection`].
pub struct ConnectionState<H> {
    /// The handle of the open port; `None` when closed.
    pub port: Option<H>,
    /// The cancellation flag.
    pub stop_flag: bool,
}

/// The state at rest: no port open, the flag down.
pub open spec fn at_rest<H>() -> ConnectionState<H> {
    ConnectionState { port: None, stop_flag: false }
}

/// What the first half of opening answers in `state`: the settings to open the port
/// with, unless a port is open already.
pub open spec fn open_plan<H>(
    state: ConnectionState<H>,
    port_name: Seq<char>,
    baud_rate: u32,
) -> Result<PortSettingsView, LinkErrorView> {
    if state.port is Some {
        Err(LinkErrorView::AlreadyOpen)
    } else {
        Ok(fixed_framing(port_name, baud_rate))
    }
}

/// The state after the second half of opening, given what the attempt on the device
/// brought. Success stores the handle and lowers the flag; failure changes nothing.
pub open spec fn after_open<H>(
    state: ConnectionState<H>,
    attempt: Result<H, Seq<char>>,
) -> ConnectionState<H> {
    match attempt {
        Ok(handle) if state.port is None => ConnectionState {
            port: Some(handle),
            stop_flag: false,
        },
        _ => state,
    }
}

/// What the second half of opening answers.
pub open spec fn open_outcome<H>(
    state: ConnectionState<H>,
    attempt: Result<H, Seq<char>>,
) -> Result<(), LinkErrorView> {
    if state.port is Some {
        Err(LinkErrorView::AlreadyOpen)
    } else {
        match attempt {
            Ok(_) => Ok(()),
            Err(reason) => Err(LinkErrorView::OpenFailed(reason)),
        }
    }
}

/// The state after the first half of closing: with a port open, the flag is raised.
pub open spec fn after_close_begun<H>(state: ConnectionState<H>) -> ConnectionState<H> {
    if state.port is Some {
        ConnectionState { port: state.port, stop_flag: true }
    } else {
        state
    }
}

/// The state after the second half of closing: the handle is cleared, the flag stays.
pub open spec fn after_close_finished<H>(state: ConnectionState<H>) -> ConnectionState<H> {
    ConnectionState { port: None, stop_flag: state.stop_flag }
}

/// What either half of closing answers in `state`.
pub open spec fn close_outcome<H>(state: ConnectionState<H>) -> Result<(), LinkErrorView> {
    if state.port is Some {
        Ok(())
    } else {
        Err(LinkErrorView::NotOpen)
    }
}

/// The result of an exchange with the device as the store reports it: the device's
/// reason for a failure becomes the reason of a failed write.
pub open spec fn write_outcome(result: Result<(), Seq<char>>) -> Result<(), LinkErrorView> {
    match result {
        Ok(()) => Ok(()),
        Err(reason) => Err(LinkErrorView::WriteFailed(reason)),
    }
}

/// Mathematical value of the outcome of an attempt on the device.
pub open spec fn attempt_view<H>(attempt: Result<H, String>) -> Result<H, Seq<char>> {
    match attempt {
        Ok(handle) => Ok(handle),
        Err(reason) => Err(reason@),
    }
}

/// Mathematical value of the outcome of an operation.
pub open spec fn outcome_view(outcome: Result<(), LinkError>) -> Result<(), LinkErrorView> {
    match outcome {
        Ok(()) => Ok(()),
        Err(error) => Err(error@),
    }
}

/// Mathematical value of the answer of the first half of opening.
pub open spec fn plan_view(plan: Result<PortSettings, LinkError>) -> Result<
    PortSettingsView,
    LinkErrorView,
> {
    match plan {
        Ok(settings) => Ok(settings@),
        Err(error) => Err(error@),
    }
}

/// The slot for the one open port, with the cancellation flag.
pub struct SerialConnection<H> {
    port: Option<H>,
    stop_flag: bool,
}

impl<H> View for SerialConnection<H> {
    type V = ConnectionState<H>;

    closed spec fn view(&self) -> ConnectionState<H> {
        ConnectionState { port: self.port, stop_flag: self.stop_flag }
    }
}

impl<H> SerialConnection<H> {
    /// A store at rest.
    pub fn new() -> (store: Self)
        ensures
            store@ == at_rest::<H>(),
    {
        SerialConnection { port: None, stop_flag: false }
    }

    /// Whether a port is open.
    pub fn is_open(&self) -> (open: bool)
        ensures
            open == self@.port is Some,
    {
        self.port.is_some()
    }

    /// Whether the cancellation flag is raised.
    pub fn stop_requested(&self) -> (flag: bool)
        ensures
            flag == self@.stop_flag,
    {
        self.stop_flag
    }

    /// First half of opening: refuses if a port is open already, whatever is asked for,
    /// and otherwise says how the device is to be opened.
    pub fn plan_open(&self, port_name: &str, baud_rate: u32) -> (plan: Result<
        PortSettings,
        LinkError,
    >)
        ensures
            plan_view(plan) == open_plan(self@, port_name@, baud_rate),
    {
        if self.port.is_some() {
            Err(LinkError::AlreadyOpen)
        } else {
            Ok(
                PortSettings {
                    port_name: port_name.to_owned(),
                    baud_rate,
                    data_bits: 8,
                    stop_bits: 1,
                    parity: Parity::Off,
                    timeout_ms: READ_TIMEOUT_MS,
                },
            )
        }
    }

    /// Second half of opening: takes what the attempt on the device brought, the handle
    /// or the device's reason for the failure.
    pub fn finish_open(&mut self, attempt: Result<H, String>) -> (outcome: Result<(), LinkError>)
        ensures
            final(self)@ == after_open(old(self)@, attempt_view(attempt)),
            outcome_view(outcome) == open_outcome(old(self)@, attempt_view(attempt)),
    {
        if self.port.is_some() {
            return Err(LinkError::AlreadyOpen);
        }
        match attempt {
            Ok(handle) => {
                self.port = Some(handle);
                self.stop_flag = false;
                Ok(())
            },
            Err(reason) => Err(LinkError::OpenFailed(reason)),
        }
    }

    /// First half of closing: refuses if no port is open; otherwise raises the
    /// cancellation flag and says how long to wait before the second half.
    pub fn begin_close(&mut self) -> (outcome: Result<u64, LinkError>)
        ensures
            final(self)@ == after_close_begun(old(self)@),
            match outcome {
                Ok(grace_ms) => grace_ms == CLOSE_GRACE_MS && old(self)@.port is Some,
                Err(error) => error@ == LinkErrorView::NotOpen && old(self)@.port is None,
            },
    {
        if self.port.is_none() {
            return Err(LinkError::NotOpen);
        }
        self.stop_flag = true;
        Ok(CLOSE_GRACE_MS)
    }

    /// Second half of closing: clears the handle, which releases the port.
    pub fn finish_close(&mut self) -> (outcome: Result<(), LinkError>)
        ensures
            final(self)@ == after_close_finished(old(self)@),
            outcome_view(outcome) == close_outcome(old(self)@),
    {
        if self.port.is_none() {
            return Err(LinkError::NotOpen);
        }
        self.port = None;
        Ok(())
    }

    /// The open port, for an exchange with the device; refuses if no port is open.
    /// What the caller does to the handle is what becomes of the stored handle.
    pub fn port_mut(&mut self) -> (port: Result<&mut H, LinkError>)
        ensures
            match port {
                Ok(handle) => {
                    &&& old(self)@.port == Some(*handle)
                    &&& final(self)@ == (ConnectionState {
                        port: Some(*final(handle)),
                        stop_flag: old(self)@.stop_flag,
                    })
                },
                Err(error) => {
                    &&& error@ == LinkErrorView::NotOpen
                    &&& old(self)@.port is None
                    &&& final(self)@ == old(self)@
                },
            },
    {
        match &mut self.port {
            Some(handle) => Ok(handle),
            None => Err(LinkError::NotOpen),
        }
    }
}

/// Reports the result of a write: the device's reason for a failure becomes the reason
/// of a failed write.
pub fn report_write(result: Result<(), String>) -> (outcome: Result<(), LinkError>)
    ensures
        outcome_view(outcome) == write_outcome(attempt_view(result)),
{
    match result {
        Ok(()) => Ok(()),
        Err(reason) => Err(LinkError::WriteFailed(reason)),
    }
}

/// Law of the second open. After an open that succeeded, a second open is refused as
/// "already open" in both halves, whatever port and baud rate it names and whatever an
/// attempt on the device would bring; the store stays as the first open left it.
pub proof fn law_second_open_is_refused<H>(
    state: ConnectionState<H>,
    first: Result<H, Seq<char>>,
    port_name: Seq<char>,
    baud_rate: u32,
    second: Result<H, Seq<char>>,
)
    requires
        open_outcome(state, first) is Ok,
    ensures
        ({
            let opened = after_open(state, first);
            &&& open_plan(opened, port_name, baud_rate) == Err::<PortSettingsView, LinkErrorView>(
                LinkErrorView::AlreadyOpen,
            )
            &&& open_outcome(opened, second) == Err::<(), LinkErrorView>(LinkErrorView::AlreadyOpen)
            &&& after_open(opened, second) == opened
        }),
{
}

/// Law of the idle close. With no port open, closing is refused as "not open" and
/// leaves the store, the cancellation flag included, as it was.
pub proof fn law_close_without_port_is_refused<H>(state: ConnectionState<H>)
    requires
        state.port is None,
    ensures
        close_outcome(state) == Err::<(), LinkErrorView>(LinkErrorView::NotOpen),
        after_close_begun(state) == state,
        after_close_finished(state) == state,
{
}

/// Law of the open after a close. Once a close has gone through, the store is free
/// again: an open of any port is planned, and if the device yields a handle the open
/// succeeds, stores that handle and lowers the cancellation flag that the close had
/// left raised.
pub proof fn law_open_after_close_succeeds<H>(
    state: ConnectionState<H>,
    port_name: Seq<char>,
    baud_rate: u32,
    handle: H,
)
    requires
        close_outcome(state) is Ok,
    ensures
        ({
            let closed = after_close_finished(after_close_begun(state));
            let attempt = Ok::<H, Seq<char>>(handle);
            &&& closed.port is None
            &&& closed.stop_flag
            &&& open_plan(closed, port_name, baud_rate) == Ok::<PortSettingsView, LinkErrorView>(
                fixed_framing(port_name, baud_rate),
            )
            &&& open_outcome(closed, attempt) == Ok::<(), LinkErrorView>(())
            &&& after_open(closed, attempt) == (ConnectionState {
                port: Some(handle),
                stop_flag: false,
            })
        }),
{
}

/// Law of the second close. After a close, whether it went through or was refused, a
/// further close is refused as "not open" and changes nothing.
pub proof fn law_second_close_is_refused<H>(state: ConnectionState<H>)
    ensures
        ({
            let closed = after_close_finished(after_close_begun(state));
            &&& close_outcome(closed) == Err::<(), LinkErrorView>(LinkErrorView::NotOpen)
            &&& after_close_begun(closed) == closed
            &&& after_close_finished(closed) == closed
        }),
{
}

/// Law of the failed open. An open that the device refuses stores nothing and leaves
/// the cancellation flag as it was.
pub proof fn law_failed_open_stores_nothing<H>(state: ConnectionState<H>, reason: Seq<char>)
    ensures
        after_open(state, Err::<H, Seq<char>>(reason)) == state,
        state.port is None ==> open_outcome(state, Err::<H, Seq<char>>(reason)) == Err::<
            (),
            LinkErrorView,
        >(LinkErrorView::OpenFailed(reason)),
{
}

} // verus!
