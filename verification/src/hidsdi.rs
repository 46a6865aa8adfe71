//! The queries on an open device: its identifiers and its strings.

use crate::error::{text_outcome_view, Failure, Outcome, Query};
use crate::util::{string_from_utf16_ptr, wide_text};
use vstd::prelude::*;

verus! {

/// The length in wide characters of the buffer that a string query is
/// given: the 126 characters that such a string has at most, and the
/// terminator.
pub const STRING_BUFFER_LEN: usize = 127;

/// The error code with which a device says that it has no serial number.
pub const ERROR_INVALID_PARAMETER: u32 = 87;

/// The identifiers of a device.
#[derive(Clone, Copy, Debug, PartialEq, Eq, Structural)]
pub struct Attributes {
    pub product_id: u16,
    pub vendor_id: u16,
    pub version_number: u16,
}

/// What the reply to the attribute query comes to: the attributes, or a
/// failure to report.
pub open spec fn attributes_outcome(reply: Result<Attributes, u32>) -> Outcome<Attributes> {
    match reply {
        Ok(attributes) => Outcome::Settled(attributes),
        Err(error_code) => Outcome::Failed(Failure { query: Query::Attributes, error_code }),
    }
}

/// What the reply to a string query comes to. A buffer is decoded up to
/// its terminator. A failure leaves the string absent and is to be
/// reported, but for the serial number that a device does not have: that
/// is no failure.
pub open spec fn string_outcome(query: Query, reply: Result<Vec<u16>, u32>) -> Outcome<
    Option<Seq<char>>,
> {
    match reply {
        Ok(buffer) => Outcome::Settled(Some(wide_text(buffer@))),
        Err(error_code) => if query == Query::SerialNumber && error_code
            == ERROR_INVALID_PARAMETER {
            Outcome::Settled(None)
        } else {
            Outcome::Failed(Failure { query, error_code })
        },
    }
}

/// The attributes of a device, from the reply to the query for them: the
/// attributes that the system wrote, or the code of its failure.
pub fn get_attributes(reply: Result<Attributes, u32>) -> (outcome: Outcome<Attributes>)
    ensures
        outcome == attributes_outcome(reply),
{
    match reply {
        Ok(attributes) => Outcome::Settled(attributes),
        Err(error_code) => Outcome::Failed(Failure { query: Query::Attributes, error_code }),
    }
}

/// The string of a device that `query` asks for, from the reply: the
/// buffer that the system wrote, or the code of its failure.
fn get_string(query: Query, reply: &Result<Vec<u16>, u32>) -> (outcome: Outcome<Option<String>>)
    requires
        query != Query::SerialNumber,
    ensures
        text_outcome_view(outcome) == string_outcome(query, *reply),
{
    match reply {
        Ok(buffer) => Outcome::Settled(Some(string_from_utf16_ptr(buffer.as_slice()))),
        Err(error_code) => Outcome::Failed(Failure { query, error_code: *error_code }),
    }
}

/// The manufacturer of a device, from the reply to the query for it.
pub fn get_manufacturer(reply: &Result<Vec<u16>, u32>) -> (outcome: Outcome<Option<String>>)
    ensures
        text_outcome_view(outcome) == string_outcome(Query::Manufacturer, *reply),
{
    get_string(Query::Manufacturer, reply)
}

/// The product name of a device, from the reply to the query for it.
pub fn get_product(reply: &Result<Vec<u16>, u32>) -> (outcome: Outcome<Option<String>>)
    ensures
        text_outcome_view(outcome) == string_outcome(Query::Product, *reply),
{
    get_string(Query::Product, reply)
}

/// The serial number of a device, from the reply to the query for it. The
/// code `ERROR_INVALID_PARAMETER` says that the device has none, and is
/// not reported.
pub fn get_serial_number(reply: &Result<Vec<u16>, u32>) -> (outcome: Outcome<Option<String>>)
    ensures
        text_outcome_view(outcome) == string_outcome(Query::SerialNumber, *reply),
{
    match reply {
        Ok(buffer) => Outcome::Settled(Some(string_from_utf16_ptr(buffer.as_slice()))),
        Err(error_code) => {
            if *error_code != ERROR_INVALID_PARAMETER {
                Outcome::Failed(Failure { query: Query::SerialNumber, error_code: *error_code })
            } else {
                Outcome::Settled(None)
            }
        },
    }
}

} // verus!
