//! The buffer that receives the detail of a device interface: a size tag
//! and, behind it, room for a device path whose length the system names.

use crate::error::{HidError, HidErrorView};
use crate::util::{lemma_zeroed_buffer_is_empty_text, string_from_utf16_ptr, wide_text};
use vstd::prelude::*;

verus! {

/// The size in bytes of the fixed part of the detail structure, which the
/// size tag must hold whatever the size of the whole buffer (the value of
/// 64-bit Windows).
pub const HEADER_SIZE: usize = 8;

/// The offset in bytes of the device path: it begins behind the size tag.
pub const PATH_OFFSET: usize = 4;

/// What a detail buffer holds.
pub struct DetailBufferView {
    /// The size in bytes of the whole buffer.
    pub required_size: nat,
    /// The size tag at the head of the buffer.
    pub size_tag: nat,
    /// The wide characters behind the size tag.
    pub device_path: Seq<u16>,
}

impl DetailBufferView {
    /// The size tag names the fixed part, which the buffer has room for.
    pub open spec fn well_formed(self) -> bool {
        &&& self.size_tag == HEADER_SIZE
        &&& self.required_size >= HEADER_SIZE
    }

    /// The device path that the buffer holds: what stands before the first
    /// terminator, decoded from UTF-16.
    pub open spec fn path(self) -> Seq<char> {
        wide_text(self.device_path)
    }

    /// The buffer of `required_size` bytes as it is allocated: the size tag
    /// set, every wide character behind it zero.
    pub open spec fn allocated(required_size: nat) -> DetailBufferView {
        DetailBufferView {
            required_size,
            size_tag: HEADER_SIZE as nat,
            device_path: Seq::new(((required_size - PATH_OFFSET) / 2) as nat, |i: int| 0u16),
        }
    }
}

/// A buffer as it is allocated is well formed, and its size tag is the
/// size of the fixed part whatever its own size: it names the size of the
/// buffer only where the two are the same.
pub proof fn lemma_allocated_is_tagged(required_size: nat)
    requires
        required_size >= HEADER_SIZE,
    ensures
        DetailBufferView::allocated(required_size).well_formed(),
        DetailBufferView::allocated(required_size).size_tag == HEADER_SIZE,
        required_size != HEADER_SIZE ==> DetailBufferView::allocated(required_size).size_tag
            != required_size,
        DetailBufferView::allocated(required_size).path() == Seq::<char>::empty(),
{
    lemma_zeroed_buffer_is_empty_text(DetailBufferView::allocated(required_size).device_path);
}

/// The largest size that a buffer can be allocated with: the size, rounded
/// up to the alignment of the size tag, must not exceed `isize::MAX`.
pub open spec fn max_required_size() -> int {
    isize::MAX - 3
}

/// The fixed part at the head of a detail buffer. Its size tag is set
/// when it is made and cannot be written afterwards.
#[derive(Debug)]
pub struct DetailHeader {
    cb_size: u32,
}

impl DetailHeader {
    #[verifier::type_invariant]
    spec fn tag_names_fixed_part(self) -> bool {
        self.cb_size == HEADER_SIZE
    }

    /// The size tag.
    pub closed spec fn size_tag(self) -> nat {
        self.cb_size as nat
    }

    fn new() -> (header: Self)
        ensures
            header.size_tag() == HEADER_SIZE,
    {
        DetailHeader { cb_size: HEADER_SIZE as u32 }
    }

    /// The size tag: the size of the fixed part, in every header.
    pub fn cb_size(&self) -> (tag: u32)
        ensures
            tag == self.size_tag(),
            tag == HEADER_SIZE,
    {
        proof {
            use_type_invariant(self);
        }
        self.cb_size
    }
}

/// What the allocation of a buffer of `required_size` bytes comes to: the
/// buffer, or the error that it is too small for the fixed part or too
/// large to allocate.
pub open spec fn allocation(required_size: usize) -> Result<DetailBufferView, HidErrorView> {
    if required_size < HEADER_SIZE {
        Err(HidErrorView::RequiredSizeTooSmall)
    } else if required_size > max_required_size() {
        Err(HidErrorView::Layout)
    } else {
        Ok(DetailBufferView::allocated(required_size as nat))
    }
}

/// A buffer or an error, both by their views.
pub open spec fn buffer_result_view(result: Result<DeviceInterfaceDetailBuffer, HidError>) -> Result<
    DetailBufferView,
    HidErrorView,
> {
    match result {
        Ok(buffer) => Ok(buffer@),
        Err(error) => Err(error@),
    }
}

/// A buffer for the detail of one device interface. It has one owner, and
/// its size tag is written once, when it is allocated.
#[derive(Debug)]
pub struct DeviceInterfaceDetailBuffer {
    required_size: usize,
    header: DetailHeader,
    device_path: Vec<u16>,
}

impl View for DeviceInterfaceDetailBuffer {
    type V = DetailBufferView;

    closed spec fn view(&self) -> DetailBufferView {
        DetailBufferView {
            required_size: self.required_size as nat,
            size_tag: self.header.size_tag(),
            device_path: self.device_path@,
        }
    }
}

impl DeviceInterfaceDetailBuffer {
    /// Allocates a zeroed buffer of `required_size` bytes and sets its size
    /// tag to the size of the fixed part, not to `required_size`.
    pub fn new(required_size: usize) -> (buffer: Result<Self, HidError>)
        ensures
            buffer_result_view(buffer) == allocation(required_size),
    {
        if required_size < HEADER_SIZE {
            return Err(HidError::RequiredSizeTooSmall);
        }
        if required_size > isize::MAX as usize - 3 {
            return Err(HidError::Layout);
        }
        let units: usize = (required_size - PATH_OFFSET) / 2;
        let device_path: Vec<u16> = vec![0u16; units];
        assert(device_path@ =~= DetailBufferView::allocated(required_size as nat).device_path);
        Ok(DeviceInterfaceDetailBuffer { required_size, header: DetailHeader::new(), device_path })
    }

    /// The size in bytes of the whole buffer.
    pub fn required_size(&self) -> (size: usize)
        ensures
            size == self@.required_size,
    {
        self.required_size
    }

    /// The fixed part of the buffer, to read.
    pub fn as_ref(&self) -> (header: &DetailHeader)
        ensures
            header.size_tag() == self@.size_tag,
    {
        &self.header
    }

    /// The size tag: the size of the fixed part, in every buffer.
    pub fn size_tag(&self) -> (tag: u32)
        ensures
            tag == self@.size_tag,
            tag == HEADER_SIZE,
    {
        self.header.cb_size()
    }

    /// The wide characters behind the size tag, for the system to write
    /// the device path to. The size tag is out of reach.
    pub fn as_mut_ptr(&mut self) -> (units: &mut [u16])
        ensures
            units@ == old(self)@.device_path,
            final(self)@ == (DetailBufferView { device_path: final(units)@, ..old(self)@ }),
            old(self)@.well_formed() ==> final(self)@.well_formed(),
    {
        self.device_path.as_mut_slice()
    }

    /// The device path that the buffer holds.
    pub fn path(&self) -> (path: String)
        ensures
            path@ == self@.path(),
    {
        string_from_utf16_ptr(self.device_path.as_slice())
    }
}

} // verus!
