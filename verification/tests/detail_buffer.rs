use hid_enumerate::error::HidError;
use hid_enumerate::setupapi::device_interface_detail_buffer::{
    DeviceInterfaceDetailBuffer, HEADER_SIZE, PATH_OFFSET,
};

fn buffer(required_size: usize) -> DeviceInterfaceDetailBuffer {
    match DeviceInterfaceDetailBuffer::new(required_size) {
        Ok(buffer) => buffer,
        Err(error) => panic!("{:?}", error),
    }
}

#[test]
fn layout_constants() {
    assert_eq!(HEADER_SIZE, 8);
    assert_eq!(PATH_OFFSET, 4);
}

#[test]
fn size_below_fixed_part_is_refused() {
    for required_size in 0..HEADER_SIZE {
        assert!(matches!(
            DeviceInterfaceDetailBuffer::new(required_size),
            Err(HidError::RequiredSizeTooSmall)
        ));
    }
}

#[test]
fn size_of_fixed_part_is_accepted() {
    let buffer = buffer(HEADER_SIZE);
    assert_eq!(buffer.required_size(), 8);
    assert_eq!(buffer.size_tag(), 8);
}

#[test]
fn header_is_read_through_the_buffer() {
    let buffer = buffer(166);
    assert_eq!(buffer.as_ref().cb_size(), 8);
    assert_eq!(buffer.as_ref().cb_size(), buffer.size_tag());
}

#[test]
fn size_beyond_allocation_is_refused() {
    assert!(matches!(DeviceInterfaceDetailBuffer::new(usize::MAX), Err(HidError::Layout)));
    assert!(matches!(
        DeviceInterfaceDetailBuffer::new(isize::MAX as usize - 2),
        Err(HidError::Layout)
    ));
}

#[test]
fn size_tag_is_header_size_not_required_size() {
    for required_size in [8usize, 9, 10, 64, 166, 1000] {
        let mut buffer = buffer(required_size);
        assert_eq!(buffer.size_tag(), 8);
        assert_eq!(buffer.required_size(), required_size);
        for unit in buffer.as_mut_ptr().iter_mut() {
            *unit = 0xFFFF;
        }
        assert_eq!(buffer.size_tag(), 8);
        assert_eq!(buffer.required_size(), required_size);
    }
}

#[test]
fn buffer_is_zeroed_and_holds_what_follows_the_size_tag() {
    let mut fresh = buffer(8);
    assert_eq!(fresh.as_mut_ptr().to_vec(), vec![0u16, 0]);
    let mut odd = buffer(11);
    assert_eq!(odd.as_mut_ptr().to_vec(), vec![0u16, 0, 0]);
    let mut large = buffer(166);
    assert_eq!(large.as_mut_ptr().len(), 81);
    assert!(large.as_mut_ptr().iter().all(|unit| *unit == 0));
}

#[test]
fn fresh_buffer_has_empty_path() {
    assert_eq!(buffer(64).path(), "");
}

#[test]
fn path_is_what_the_system_wrote_up_to_the_terminator() {
    let path = "\\\\?\\hid#vid_046d&pid_c52b#7&1&0000#{4d1e55b2-f16f-11cf-88cb-001111000030}";
    let units: Vec<u16> = path.encode_utf16().collect();
    let mut buffer = buffer(PATH_OFFSET + 2 * (units.len() + 1));
    let room = buffer.as_mut_ptr();
    assert_eq!(room.len(), units.len() + 1);
    room[..units.len()].copy_from_slice(&units);
    assert_eq!(buffer.path(), path);
    buffer.as_mut_ptr()[4] = 0;
    assert_eq!(buffer.path(), "\\\\?\\");
}

#[test]
fn path_with_unpaired_surrogate_is_decoded() {
    let mut buffer = buffer(12);
    buffer.as_mut_ptr().copy_from_slice(&[0x61, 0xD800, 0x62, 0]);
    assert_eq!(buffer.path(), "a\u{FFFD}b");
}
