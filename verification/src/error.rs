//! The failures that the operations of the link report.

use vstd::prelude::*;
use vstd::string::StringExecFns;

verus! {

/// A failure of an operation of the link.
#[derive(Debug, PartialEq, Eq)]
pub enum LinkError {
    /// A port is open already; a second one cannot be opened beside it.
    AlreadyOpen,
    /// No port is open.
    NotOpen,
    /// The device could not be opened; the text is the device's reason.
    OpenFailed(String),
    /// The device did not take the bytes; the text is the device's reason.
    WriteFailed(String),
    /// The system could not list its ports; the text is the system's reason.
    EnumerationFailed(String),
    /// The system lists no port.
    NoPortsAvailable,
    /// None of the listed ports could be opened and validated.
    NoValidConnectionFound,
}

/// Mathematical value of a [`LinkError`].
pub enum LinkErrorView {
    AlreadyOpen,
    NotOpen,
    OpenFailed(Seq<char>),
    WriteFailed(Seq<char>),
    EnumerationFailed(Seq<char>),
    NoPortsAvailable,
    NoValidConnectionFound,
}

impl View for LinkError {
    type V = LinkErrorView;

    open spec fn view(&self) -> LinkErrorView {
        match self {
            LinkError::AlreadyOpen => LinkErrorView::AlreadyOpen,
            LinkError::NotOpen => LinkErrorView::NotOpen,
            LinkError::OpenFailed(reason) => LinkErrorView::OpenFailed(reason@),
            LinkError::WriteFailed(reason) => LinkErrorView::WriteFailed(reason@),
            LinkError::EnumerationFailed(reason) => LinkErrorView::EnumerationFailed(reason@),
            LinkError::NoPortsAvailable => LinkErrorView::NoPortsAvailable,
            LinkError::NoValidConnectionFound => LinkErrorView::NoValidConnectionFound,
        }
    }
}

/// The text that tells a user of `error`.
pub open spec fn error_text(error: LinkErrorView) -> Seq<char> {
    match error {
        LinkErrorView::AlreadyOpen => "A serial connection is already open"@,
        LinkErrorView::NotOpen => "Serial port not open"@,
        LinkErrorView::OpenFailed(reason) => "Failed to connect: "@ + reason,
        LinkErrorView::WriteFailed(reason) => "Failed to write: "@ + reason,
        LinkErrorView::EnumerationFailed(reason) => "Failed to list ports: "@ + reason,
        LinkErrorView::NoPortsAvailable => "No ports available"@,
        LinkErrorView::NoValidConnectionFound => "No valid serial connection found"@,
    }
}

impl LinkError {
    /// A copy of this failure.
    pub fn duplicate(&self) -> (copy: Self)
        ensures
            copy@ == self@,
    {
        match self {
            LinkError::AlreadyOpen => LinkError::AlreadyOpen,
            LinkError::NotOpen => LinkError::NotOpen,
            LinkError::OpenFailed(reason) => LinkError::OpenFailed(reason.clone()),
            LinkError::WriteFailed(reason) => LinkError::WriteFailed(reason.clone()),
            LinkError::EnumerationFailed(reason) => LinkError::EnumerationFailed(reason.clone()),
            LinkError::NoPortsAvailable => LinkError::NoPortsAvailable,
            LinkError::NoValidConnectionFound => LinkError::NoValidConnectionFound,
        }
    }

    /// The text that tells a user of this failure.
    pub fn message(&self) -> (text: String)
        ensures
            text@ == error_text(self@),
    {
        match self {
            LinkError::AlreadyOpen => String::from_str("A serial connection is already open"),
            LinkError::NotOpen => String::from_str("Serial port not open"),
            LinkError::OpenFailed(reason) => String::from_str("Failed to connect: ").concat(
                reason.as_str(),
            ),
            LinkError::WriteFailed(reason) => String::from_str("Failed to write: ").concat(
                reason.as_str(),
            ),
            LinkError::EnumerationFailed(reason) => String::from_str(
                "Failed to list ports: ",
            ).concat(reason.as_str()),
            LinkError::NoPortsAvailable => String::from_str("No ports available"),
            LinkError::NoValidConnectionFound => String::from_str(
                "No valid serial connection found",
            ),
        }
    }
}

} // verus!
