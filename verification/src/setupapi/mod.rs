//! The enumeration driver: what the replies of the device-information set
//! mean, from the opening of the set to the name of a device's physical
//! device object.

pub mod device_interface_detail_buffer;

use crate::error::{text_outcome_view, Failure, Outcome, Query};
use crate::util::{string_from_utf16_ptr, wide_text};
use device_interface_detail_buffer::{DetailBufferView, DeviceInterfaceDetailBuffer};
use vstd::prelude::*;

verus! {

/// The error code with which the set says that it has no interface at an
/// index: the end of the enumeration.
pub const ERROR_NO_MORE_ITEMS: u32 = 259;

/// The error code with which the size probe names the size of the buffer
/// that it lacks.
pub const ERROR_INSUFFICIENT_BUFFER: u32 = 122;

/// The length in wide characters of the buffer that the query for the name
/// of a physical device object is given.
pub const PDO_NAME_BUFFER_LEN: usize = 1024;

/// What the reply to the opening of the device-information set comes to.
pub open spec fn device_set_outcome(reply: Result<(), u32>) -> Outcome<()> {
    match reply {
        Ok(()) => Outcome::Settled(()),
        Err(error_code) => Outcome::Failed(Failure { query: Query::DeviceSet, error_code }),
    }
}

/// What the reply to the request for an interface record comes to:
/// whether the set has an interface at the index, or a failure to report.
/// That the set has no more items is no failure.
pub open spec fn interface_outcome(reply: Result<(), u32>) -> Outcome<bool> {
    match reply {
        Ok(()) => Outcome::Settled(true),
        Err(error_code) => if error_code == ERROR_NO_MORE_ITEMS {
            Outcome::Settled(false)
        } else {
            Outcome::Failed(Failure { query: Query::Interface, error_code })
        },
    }
}

/// The line that reports a size probe that succeeded, though it hands
/// over no buffer.
pub open spec fn probe_success_text() -> Seq<char> {
    "something went wrong, this should fail due to not providing buffer"@
}

/// What the reply to the size probe comes to. The probe hands over no
/// buffer and is expected to fail for want of one: then nothing is to be
/// reported. Any other reply is reported, and the size that came with it
/// is tried all the same: a probe that succeeded by a line of its own, a
/// failure with another code as the failure that it is.
pub open spec fn size_outcome(status: Result<(), u32>) -> Outcome<Option<Seq<char>>> {
    match status {
        Ok(()) => Outcome::Settled(Some(probe_success_text())),
        Err(error_code) => if error_code == ERROR_INSUFFICIENT_BUFFER {
            Outcome::Settled(None)
        } else {
            Outcome::Failed(Failure { query: Query::DetailSize, error_code })
        },
    }
}

/// What the detail of a device interface holds.
pub struct DeviceInterfaceDetailView {
    pub path: Seq<char>,
    pub dev_inst: u32,
}

/// What the reply to the detail query comes to: the path that the buffer
/// holds with the identifier of the device node, or a failure to report.
pub open spec fn detail_outcome(dev_inst: Result<u32, u32>, buffer: DetailBufferView) -> Outcome<
    DeviceInterfaceDetailView,
> {
    match dev_inst {
        Ok(dev_inst) => Outcome::Settled(
            DeviceInterfaceDetailView { path: buffer.path(), dev_inst },
        ),
        Err(error_code) => Outcome::Failed(Failure { query: Query::Detail, error_code }),
    }
}

/// What the reply to the query for the name of a physical device object
/// comes to: the name, decoded up to its terminator, or a failure to
/// report.
pub open spec fn pdo_name_outcome(reply: Result<Vec<u16>, u32>) -> Outcome<Option<Seq<char>>> {
    match reply {
        Ok(buffer) => Outcome::Settled(Some(wide_text(buffer@))),
        Err(error_code) => Outcome::Failed(Failure { query: Query::PdoName, error_code }),
    }
}

/// The opening of the device-information set, from its reply: the set is
/// open, or the code of the failure.
pub fn get_device_info_set(reply: Result<(), u32>) -> (outcome: Outcome<()>)
    ensures
        outcome == device_set_outcome(reply),
{
    match reply {
        Ok(()) => Outcome::Settled(()),
        Err(error_code) => Outcome::Failed(Failure { query: Query::DeviceSet, error_code }),
    }
}

/// Whether the set has an interface at the index asked for, from the
/// reply: a record was written, or the code of the failure.
pub fn get_device_interface(reply: Result<(), u32>) -> (outcome: Outcome<bool>)
    ensures
        outcome == interface_outcome(reply),
{
    match reply {
        Ok(()) => Outcome::Settled(true),
        Err(error_code) => {
            if error_code == ERROR_NO_MORE_ITEMS {
                Outcome::Settled(false)
            } else {
                Outcome::Failed(Failure { query: Query::Interface, error_code })
            }
        },
    }
}

/// What is to be reported of the size probe, from its reply: whether the
/// call succeeded, or the code of its failure. The outcome holds the line
/// for the log, where one is due at once.
pub fn get_device_interface_detail_size(status: Result<(), u32>) -> (outcome: Outcome<
    Option<String>,
>)
    ensures
        text_outcome_view(outcome) == size_outcome(status),
{
    match status {
        Ok(()) => Outcome::Settled(
            Some(
                String::from_str(
                    "something went wrong, this should fail due to not providing buffer",
                ),
            ),
        ),
        Err(error_code) => {
            if error_code != ERROR_INSUFFICIENT_BUFFER {
                Outcome::Failed(Failure { query: Query::DetailSize, error_code })
            } else {
                Outcome::Settled(None)
            }
        },
    }
}

/// The path of a device interface and the identifier of its device node.
#[derive(Debug)]
pub struct DeviceInterfaceDetail {
    pub path: String,
    pub dev_inst: u32,
}

impl View for DeviceInterfaceDetail {
    type V = DeviceInterfaceDetailView;

    open spec fn view(&self) -> DeviceInterfaceDetailView {
        DeviceInterfaceDetailView { path: self.path@, dev_inst: self.dev_inst }
    }
}

/// An outcome that holds a detail, the detail by its view.
pub open spec fn detail_outcome_view(outcome: Outcome<DeviceInterfaceDetail>) -> Outcome<
    DeviceInterfaceDetailView,
> {
    match outcome {
        Outcome::Settled(detail) => Outcome::Settled(detail@),
        Outcome::Failed(failure) => Outcome::Failed(failure),
    }
}

/// The detail of a device interface, from the reply to the query that was
/// given `buffer`: the identifier of the device node that the system
/// wrote, or the code of the failure. The path is read from the buffer.
pub fn get_device_interface_detail(
    dev_inst: Result<u32, u32>,
    buffer: &DeviceInterfaceDetailBuffer,
) -> (outcome: Outcome<DeviceInterfaceDetail>)
    ensures
        detail_outcome_view(outcome) == detail_outcome(dev_inst, buffer@),
{
    match dev_inst {
        Ok(dev_inst) => Outcome::Settled(DeviceInterfaceDetail { path: buffer.path(), dev_inst }),
        Err(error_code) => Outcome::Failed(Failure { query: Query::Detail, error_code }),
    }
}

/// The name of the physical device object of a device node, from the reply
/// to the query for it: the buffer that the system wrote, or the code of
/// the failure.
pub fn get_pdo_name(reply: &Result<Vec<u16>, u32>) -> (outcome: Outcome<Option<String>>)
    ensures
        text_outcome_view(outcome) == pdo_name_outcome(*reply),
{
    match reply {
        Ok(buffer) => Outcome::Settled(Some(string_from_utf16_ptr(buffer.as_slice()))),
        Err(error_code) => Outcome::Failed(Failure { query: Query::PdoName, error_code: *error_code }),
    }
}

} // verus!
