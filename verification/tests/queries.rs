use hid_enumerate::error::{Failure, Outcome, Query};
use hid_enumerate::hidsdi::{
    get_attributes, get_manufacturer, get_product, get_serial_number, Attributes,
    ERROR_INVALID_PARAMETER, STRING_BUFFER_LEN,
};
use hid_enumerate::setupapi::device_interface_detail_buffer::DeviceInterfaceDetailBuffer;
use hid_enumerate::setupapi::{
    get_device_info_set, get_device_interface, get_device_interface_detail,
    get_device_interface_detail_size, get_pdo_name, ERROR_INSUFFICIENT_BUFFER,
    ERROR_NO_MORE_ITEMS, PDO_NAME_BUFFER_LEN,
};

fn string_buffer(text: &str) -> Vec<u16> {
    let mut buffer = vec![0xCCCCu16; STRING_BUFFER_LEN];
    let units: Vec<u16> = text.encode_utf16().collect();
    buffer[..units.len()].copy_from_slice(&units);
    buffer[units.len()] = 0;
    buffer
}

fn settled_text(outcome: Outcome<Option<String>>) -> Option<String> {
    match outcome {
        Outcome::Settled(text) => text,
        Outcome::Failed(failure) => panic!("{:?}", failure),
    }
}

fn failed<T: std::fmt::Debug>(outcome: Outcome<T>) -> Failure {
    match outcome {
        Outcome::Failed(failure) => failure,
        Outcome::Settled(value) => panic!("{:?}", value),
    }
}

#[test]
fn sentinel_codes_and_buffer_lengths() {
    assert_eq!(ERROR_INVALID_PARAMETER, 87);
    assert_eq!(ERROR_INSUFFICIENT_BUFFER, 122);
    assert_eq!(ERROR_NO_MORE_ITEMS, 259);
    assert_eq!(STRING_BUFFER_LEN, 127);
    assert_eq!(PDO_NAME_BUFFER_LEN, 1024);
}

#[test]
fn attributes_are_handed_on() {
    let attributes = Attributes { product_id: 0xC52B, vendor_id: 0x046D, version_number: 0x1201 };
    match get_attributes(Ok(attributes)) {
        Outcome::Settled(settled) => assert_eq!(settled, attributes),
        Outcome::Failed(failure) => panic!("{:?}", failure),
    }
}

#[test]
fn attributes_failure_is_to_be_reported() {
    assert_eq!(
        failed(get_attributes(Err(6))),
        Failure { query: Query::Attributes, error_code: 6 }
    );
}

#[test]
fn manufacturer_is_decoded_from_its_buffer() {
    assert_eq!(
        settled_text(get_manufacturer(&Ok(string_buffer("Logitech")))),
        Some(String::from("Logitech"))
    );
    assert_eq!(settled_text(get_manufacturer(&Ok(string_buffer("")))), Some(String::new()));
}

#[test]
fn manufacturer_of_full_length_is_decoded() {
    let text = "M".repeat(126);
    assert_eq!(settled_text(get_manufacturer(&Ok(string_buffer(&text)))), Some(text));
}

#[test]
fn manufacturer_failure_is_to_be_reported() {
    assert_eq!(
        failed(get_manufacturer(&Err(31))),
        Failure { query: Query::Manufacturer, error_code: 31 }
    );
    assert_eq!(
        failed(get_manufacturer(&Err(87))),
        Failure { query: Query::Manufacturer, error_code: 87 }
    );
}

#[test]
fn product_is_decoded_from_its_buffer() {
    assert_eq!(
        settled_text(get_product(&Ok(string_buffer("USB Receiver")))),
        Some(String::from("USB Receiver"))
    );
}

#[test]
fn product_failure_is_to_be_reported() {
    assert_eq!(
        failed(get_product(&Err(87))),
        Failure { query: Query::Product, error_code: 87 }
    );
}

#[test]
fn serial_number_is_decoded_from_its_buffer() {
    assert_eq!(
        settled_text(get_serial_number(&Ok(string_buffer("0123-ABCD")))),
        Some(String::from("0123-ABCD"))
    );
}

#[test]
fn serial_number_absent_with_invalid_parameter_is_settled() {
    assert_eq!(settled_text(get_serial_number(&Err(87))), None);
}

#[test]
fn serial_number_failure_with_other_code_is_to_be_reported() {
    for error_code in [0u32, 1, 31, 86, 88, 122, 259, u32::MAX] {
        assert_eq!(
            failed(get_serial_number(&Err(error_code))),
            Failure { query: Query::SerialNumber, error_code }
        );
    }
}

#[test]
fn device_set_opens_or_fails() {
    assert!(matches!(get_device_info_set(Ok(())), Outcome::Settled(())));
    assert_eq!(
        failed(get_device_info_set(Err(13))),
        Failure { query: Query::DeviceSet, error_code: 13 }
    );
    assert_eq!(
        failed(get_device_info_set(Err(259))),
        Failure { query: Query::DeviceSet, error_code: 259 }
    );
}

#[test]
fn interface_is_present_or_the_set_is_exhausted() {
    assert!(matches!(get_device_interface(Ok(())), Outcome::Settled(true)));
    assert!(matches!(get_device_interface(Err(259)), Outcome::Settled(false)));
}

#[test]
fn interface_failure_with_other_code_is_to_be_reported() {
    for error_code in [0u32, 6, 87, 122, 258, 260] {
        assert_eq!(
            failed(get_device_interface(Err(error_code))),
            Failure { query: Query::Interface, error_code }
        );
    }
}

#[test]
fn size_probe_is_expected_to_lack_a_buffer() {
    assert_eq!(settled_text(get_device_interface_detail_size(Err(122))), None);
}

#[test]
fn size_probe_that_succeeds_is_reported() {
    assert_eq!(
        settled_text(get_device_interface_detail_size(Ok(()))),
        Some(String::from("something went wrong, this should fail due to not providing buffer"))
    );
}

#[test]
fn size_probe_failure_with_other_code_is_to_be_reported() {
    for error_code in [0u32, 87, 121, 123, 259] {
        assert_eq!(
            failed(get_device_interface_detail_size(Err(error_code))),
            Failure { query: Query::DetailSize, error_code }
        );
    }
}

#[test]
fn detail_holds_path_of_buffer_and_device_node() {
    let path = "\\\\?\\hid#vid_1234";
    let units: Vec<u16> = path.encode_utf16().collect();
    let mut buffer = match DeviceInterfaceDetailBuffer::new(4 + 2 * (units.len() + 1)) {
        Ok(buffer) => buffer,
        Err(error) => panic!("{:?}", error),
    };
    buffer.as_mut_ptr()[..units.len()].copy_from_slice(&units);
    match get_device_interface_detail(Ok(77), &buffer) {
        Outcome::Settled(detail) => {
            assert_eq!(detail.path, path);
            assert_eq!(detail.dev_inst, 77);
        }
        Outcome::Failed(failure) => panic!("{:?}", failure),
    }
}

#[test]
fn detail_failure_is_to_be_reported() {
    let buffer = match DeviceInterfaceDetailBuffer::new(16) {
        Ok(buffer) => buffer,
        Err(error) => panic!("{:?}", error),
    };
    assert_eq!(
        failed(get_device_interface_detail(Err(122), &buffer)),
        Failure { query: Query::Detail, error_code: 122 }
    );
}

#[test]
fn pdo_name_is_decoded_from_its_buffer() {
    let mut buffer = vec![0x2020u16; PDO_NAME_BUFFER_LEN];
    let units: Vec<u16> = "\\Device\\0000007a".encode_utf16().collect();
    buffer[..units.len()].copy_from_slice(&units);
    buffer[units.len()] = 0;
    assert_eq!(settled_text(get_pdo_name(&Ok(buffer))), Some(String::from("\\Device\\0000007a")));
}

#[test]
fn pdo_name_failure_is_to_be_reported() {
    assert_eq!(
        failed(get_pdo_name(&Err(13))),
        Failure { query: Query::PdoName, error_code: 13 }
    );
}
