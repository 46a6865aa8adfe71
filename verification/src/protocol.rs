//! The exchange between the enumeration and its caller: the requests that
//! the caller performs as system calls, and the replies that it hands
//! back.

use crate::error::{HidError, HidErrorView};
use crate::{text_view, HidDevice, HidDeviceView};
use crate::hidsdi::Attributes;
use crate::setupapi::device_interface_detail_buffer::{
    DetailBufferView,
    DeviceInterfaceDetailBuffer,
};
use vstd::prelude::*;

verus! {

/// The access with which a device is opened: none. Its identifiers and
/// strings can be asked for without the right to read or write its data.
pub const NO_ACCESS: u32 = 0;

/// A system call that the enumeration asks its caller to perform.
#[derive(Debug)]
pub enum Request {
    /// Open the set of the HID interfaces that are present.
    OpenDeviceSet,
    /// Fetch the interface record at `index` of the set.
    EnumInterface { index: u32 },
    /// Ask for the detail of the record with no buffer, to learn the size
    /// that it needs.
    ProbeDetailSize,
    /// Ask for the detail of the record into `buffer`, and for the
    /// identifier of its device node.
    FetchDetail { buffer: DeviceInterfaceDetailBuffer },
    /// Ask for the name of the physical device object of the device node
    /// `dev_inst`, into a buffer of `buffer_len` wide characters.
    FetchPdoName { dev_inst: u32, buffer_len: usize },
    /// Open the device at `path`, with the access `access_mode`.
    Open { path: String, access_mode: u32 },
    /// Ask the open device for its identifiers.
    GetAttributes,
    /// Ask the open device for its manufacturer string, into a buffer of
    /// `buffer_len` wide characters.
    GetManufacturer { buffer_len: usize },
    /// Ask the open device for its product string.
    GetProduct { buffer_len: usize },
    /// Ask the open device for its serial number string.
    GetSerialNumber { buffer_len: usize },
    /// Ask the system for its text for `error_code`.
    FormatMessage { error_code: u32 },
}

/// What a request holds.
pub enum RequestView {
    OpenDeviceSet,
    EnumInterface { index: u32 },
    ProbeDetailSize,
    FetchDetail { buffer: DetailBufferView },
    FetchPdoName { dev_inst: u32, buffer_len: usize },
    Open { path: Seq<char>, access_mode: u32 },
    GetAttributes,
    GetManufacturer { buffer_len: usize },
    GetProduct { buffer_len: usize },
    GetSerialNumber { buffer_len: usize },
    FormatMessage { error_code: u32 },
}

impl View for Request {
    type V = RequestView;

    open spec fn view(&self) -> RequestView {
        match self {
            Request::OpenDeviceSet => RequestView::OpenDeviceSet,
            Request::EnumInterface { index } => RequestView::EnumInterface { index: *index },
            Request::ProbeDetailSize => RequestView::ProbeDetailSize,
            Request::FetchDetail { buffer } => RequestView::FetchDetail { buffer: buffer@ },
            Request::FetchPdoName { dev_inst, buffer_len } => RequestView::FetchPdoName {
                dev_inst: *dev_inst,
                buffer_len: *buffer_len,
            },
            Request::Open { path, access_mode } => RequestView::Open {
                path: path@,
                access_mode: *access_mode,
            },
            Request::GetAttributes => RequestView::GetAttributes,
            Request::GetManufacturer { buffer_len } => RequestView::GetManufacturer {
                buffer_len: *buffer_len,
            },
            Request::GetProduct { buffer_len } => RequestView::GetProduct {
                buffer_len: *buffer_len,
            },
            Request::GetSerialNumber { buffer_len } => RequestView::GetSerialNumber {
                buffer_len: *buffer_len,
            },
            Request::FormatMessage { error_code } => RequestView::FormatMessage {
                error_code: *error_code,
            },
        }
    }
}

/// What the caller hands to the enumeration: the result of the system call
/// that was asked for. A call that failed is answered with the error code
/// that the system gave for it.
#[derive(Debug)]
pub enum Reply {
    /// Nothing was asked for: the caller wants the next device.
    Ready,
    /// The set was opened, or not.
    DeviceSet(Result<(), u32>),
    /// An interface record was written, or not.
    Interface(Result<(), u32>),
    /// The size probe returned, and wrote `required_size`.
    DetailSize { status: Result<(), u32>, required_size: u32 },
    /// The detail query returned: it wrote the identifier of the device
    /// node, or failed. `buffer` is the buffer that it was given.
    Detail { dev_inst: Result<u32, u32>, buffer: DeviceInterfaceDetailBuffer },
    /// The buffer with the name of the physical device object.
    PdoName(Result<Vec<u16>, u32>),
    /// Whether the device could be opened.
    Opened(bool),
    /// The identifiers of the device.
    Attributes(Result<Attributes, u32>),
    /// The buffer with the string that was asked for.
    Text(Result<Vec<u16>, u32>),
    /// The buffer with the text for an error code, or the code of the
    /// failure to write one.
    Message(Result<Vec<u16>, u32>),
}

/// What the enumeration tells its caller to do next.
#[derive(Debug)]
pub enum Action {
    /// Perform the system call and hand its reply to `next`.
    Perform(Request),
    /// The next device of the enumeration.
    Yield(HidDevice),
    /// The enumeration has no more devices.
    Finished,
    /// The enumeration ended with an error.
    Fatal(HidError),
}

/// What an action holds.
pub enum ActionView {
    Perform(RequestView),
    Yield(HidDeviceView),
    Finished,
    Fatal(HidErrorView),
}

impl View for Action {
    type V = ActionView;

    open spec fn view(&self) -> ActionView {
        match self {
            Action::Perform(request) => ActionView::Perform(request@),
            Action::Yield(device) => ActionView::Yield(device@),
            Action::Finished => ActionView::Finished,
            Action::Fatal(error) => ActionView::Fatal(error@),
        }
    }
}

/// One step of the enumeration: a line for the diagnostic log, where a
/// failure is reported that does not end the enumeration, and what to do
/// next.
#[derive(Debug)]
pub struct Step {
    pub log: Option<String>,
    pub action: Action,
}

/// What a step holds.
pub struct StepView {
    pub log: Option<Seq<char>>,
    pub action: ActionView,
}

impl View for Step {
    type V = StepView;

    open spec fn view(&self) -> StepView {
        StepView { log: text_view(self.log), action: self.action@ }
    }
}

} // verus!
