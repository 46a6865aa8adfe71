//! Failures of the enumeration: which system call a failure belongs to, the
//! line that reports it, and the errors that end the enumeration.

use crate::util::{decimal, push_decimal};
use vstd::prelude::*;

verus! {

/// A question to the system whose failure carries an error code.
#[derive(Clone, Copy, Debug, PartialEq, Eq, Structural)]
pub enum Query {
    /// Open the set of the HID interfaces that are present.
    DeviceSet,
    /// The interface record at an index of the set.
    Interface,
    /// The size that the detail of an interface needs.
    DetailSize,
    /// The detail of an interface, into a buffer of that size.
    Detail,
    /// The name of the physical device object of a device node.
    PdoName,
    /// The identifiers of an open device.
    Attributes,
    /// The manufacturer string of an open device.
    Manufacturer,
    /// The product string of an open device.
    Product,
    /// The serial number string of an open device.
    SerialNumber,
}

impl Query {
    /// The name of the system call under which a failure of the question
    /// is reported. The name of a physical device object is asked for in
    /// the course of the enumeration of the interfaces, and its failure is
    /// reported under that call.
    pub open spec fn api_name(self) -> Seq<char> {
        match self {
            Query::DeviceSet => "SetupDiGetClassDevsW"@,
            Query::Interface => "SetupDiEnumDeviceInterfaces"@,
            Query::DetailSize => "SetupDiGetDeviceInterfaceDetailW"@,
            Query::Detail => "SetupDiGetDeviceInterfaceDetailW"@,
            Query::PdoName => "SetupDiEnumDeviceInterfaces"@,
            Query::Attributes => "HidD_GetAttributes"@,
            Query::Manufacturer => "HidD_GetManufacturerString"@,
            Query::Product => "HidD_GetProductString"@,
            Query::SerialNumber => "HidD_GetSerialNumberString"@,
        }
    }

    /// Whether the enumeration ends when the question fails. The others
    /// ask for a property that a device may lack: their failure is
    /// reported and the property is absent.
    pub open spec fn is_fatal(self) -> bool {
        self == Query::DeviceSet || self == Query::Interface || self == Query::Detail || self
            == Query::Attributes
    }

    /// The name of the system call under which a failure of the question
    /// is reported.
    pub fn name(self) -> (name: &'static str)
        ensures
            name@ == self.api_name(),
    {
        match self {
            Query::DeviceSet => "SetupDiGetClassDevsW",
            Query::Interface => "SetupDiEnumDeviceInterfaces",
            Query::DetailSize => "SetupDiGetDeviceInterfaceDetailW",
            Query::Detail => "SetupDiGetDeviceInterfaceDetailW",
            Query::PdoName => "SetupDiEnumDeviceInterfaces",
            Query::Attributes => "HidD_GetAttributes",
            Query::Manufacturer => "HidD_GetManufacturerString",
            Query::Product => "HidD_GetProductString",
            Query::SerialNumber => "HidD_GetSerialNumberString",
        }
    }

    /// Whether the enumeration ends when the question fails.
    pub fn fatal(self) -> (fatal: bool)
        ensures
            fatal == self.is_fatal(),
    {
        match self {
            Query::DeviceSet | Query::Interface | Query::Detail | Query::Attributes => true,
            _ => false,
        }
    }
}

/// The line that reports the failure of a system call: the call, the
/// system's text for the error code, and the code.
pub open spec fn failure_text(query: Query, message: Seq<char>, error_code: u32) -> Seq<char> {
    "error calling "@ + query.api_name() + ": "@ + message + " ("@ + decimal(error_code as nat)
        + ")"@
}

/// Writes the line that reports the failure of a system call.
pub fn describe_failure(query: Query, message: &str, error_code: u32) -> (text: String)
    ensures
        text@ == failure_text(query, message@, error_code),
{
    let mut text = String::from_str("error calling ");
    text.append(query.name());
    text.append(": ");
    text.append(message);
    text.append(" (");
    push_decimal(&mut text, error_code);
    text.append(")");
    text
}

/// The failure of a question to the system, before its text is known.
#[derive(Clone, Copy, Debug, PartialEq, Eq, Structural)]
pub struct Failure {
    /// The question that failed.
    pub query: Query,
    /// The error code that the system gave.
    pub error_code: u32,
}

/// What the reply to a question comes to.
#[derive(Debug)]
pub enum Outcome<T> {
    /// The question is settled, with this result.
    Settled(T),
    /// The question failed, and the failure is to be reported: the
    /// system's text for its error code is needed next.
    Failed(Failure),
}

/// An outcome that holds an optional text, the text as a sequence of
/// characters.
pub open spec fn text_outcome_view(outcome: Outcome<Option<String>>) -> Outcome<Option<Seq<char>>> {
    match outcome {
        Outcome::Settled(Some(text)) => Outcome::Settled(Some(text@)),
        Outcome::Settled(None) => Outcome::Settled(None),
        Outcome::Failed(failure) => Outcome::Failed(failure),
    }
}

/// A text or an error, both by their views.
pub open spec fn text_result_view(result: Result<String, HidError>) -> Result<
    Seq<char>,
    HidErrorView,
> {
    match result {
        Ok(text) => Ok(text@),
        Err(error) => Err(error@),
    }
}

/// The line that reports that the text of an error code could not be had.
pub open spec fn format_failure_text(error_code: u32, new_error_code: u32) -> Seq<char> {
    "error calling FormatMessageW for "@ + decimal(error_code as nat) + ": "@ + decimal(
        new_error_code as nat,
    )
}

/// The line that reports that a device could not be opened.
pub open spec fn open_failure_text(path: Seq<char>) -> Seq<char> {
    "unable to open device "@ + path
}

/// Why an enumeration ended before its devices were exhausted.
#[derive(Debug)]
pub enum HidError {
    /// A system call failed that the enumeration cannot go on without.
    Api { query: Query, error_code: u32, message: String },
    /// The system had no text for `error_code`, and gave `new_error_code`
    /// for that.
    FormatMessage { error_code: u32, new_error_code: u32 },
    /// The size asked for a detail buffer is below that of its fixed part.
    RequiredSizeTooSmall,
    /// The size asked for a detail buffer is beyond what can be allocated.
    Layout,
    /// The device at `path` could not be opened.
    Open { path: String },
    /// A reply was handed in that does not answer the pending request.
    UnexpectedReply,
}

/// What a `HidError` holds, its texts as sequences of characters.
pub enum HidErrorView {
    Api { query: Query, error_code: u32, message: Seq<char> },
    FormatMessage { error_code: u32, new_error_code: u32 },
    RequiredSizeTooSmall,
    Layout,
    Open { path: Seq<char> },
    UnexpectedReply,
}

impl HidErrorView {
    /// The message of the error.
    pub open spec fn text(self) -> Seq<char> {
        match self {
            HidErrorView::Api { query, error_code, message } => failure_text(
                query,
                message,
                error_code,
            ),
            HidErrorView::FormatMessage { error_code, new_error_code } => format_failure_text(
                error_code,
                new_error_code,
            ),
            HidErrorView::RequiredSizeTooSmall => "required_size is smaller than struct fixed size"@,
            HidErrorView::Layout => "layout error"@,
            HidErrorView::Open { path } => open_failure_text(path),
            HidErrorView::UnexpectedReply => "reply does not answer the pending request"@,
        }
    }
}

impl View for HidError {
    type V = HidErrorView;

    open spec fn view(&self) -> HidErrorView {
        match self {
            HidError::Api { query, error_code, message } => HidErrorView::Api {
                query: *query,
                error_code: *error_code,
                message: message@,
            },
            HidError::FormatMessage { error_code, new_error_code } => HidErrorView::FormatMessage {
                error_code: *error_code,
                new_error_code: *new_error_code,
            },
            HidError::RequiredSizeTooSmall => HidErrorView::RequiredSizeTooSmall,
            HidError::Layout => HidErrorView::Layout,
            HidError::Open { path } => HidErrorView::Open { path: path@ },
            HidError::UnexpectedReply => HidErrorView::UnexpectedReply,
        }
    }
}

impl HidError {
    /// The message of the error.
    pub fn message(&self) -> (text: String)
        ensures
            text@ == self@.text(),
    {
        match self {
            HidError::Api { query, error_code, message } => describe_failure(
                *query,
                message.as_str(),
                *error_code,
            ),
            HidError::FormatMessage { error_code, new_error_code } => {
                let mut text = String::from_str("error calling FormatMessageW for ");
                push_decimal(&mut text, *error_code);
                text.append(": ");
                push_decimal(&mut text, *new_error_code);
                text
            },
            HidError::RequiredSizeTooSmall => String::from_str(
                "required_size is smaller than struct fixed size",
            ),
            HidError::Layout => String::from_str("layout error"),
            HidError::Open { path } => {
                let mut text = String::from_str("unable to open device ");
                text.append(path.as_str());
                text
            },
            HidError::UnexpectedReply => String::from_str(
                "reply does not answer the pending request",
            ),
        }
    }
}

} // verus!
