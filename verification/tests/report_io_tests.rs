use hidapi::device::{kIOHIDReportType, HidDevice, HidTransport};
use hidapi::enumerate::DeviceProperties;
use hidapi::HidError;

/// A transport that records every transfer, for spying on what the handle
/// hands to the native layer.
struct SpyTransport {
    set_calls: usize,
    get_calls: usize,
    last_kind: Option<kIOHIDReportType>,
    last_report_id: Option<u8>,
    last_payload: Vec<u8>,
    set_status: i32,
    get_status: i32,
    get_fill: Vec<u8>,
    get_len: usize,
}

impl SpyTransport {
    fn new() -> Self {
        SpyTransport {
            set_calls: 0,
            get_calls: 0,
            last_kind: None,
            last_report_id: None,
            last_payload: Vec::new(),
            set_status: 0,
            get_status: 0,
            get_fill: Vec::new(),
            get_len: 0,
        }
    }
}

impl HidTransport for SpyTransport {
    fn set_report(&mut self, kind: kIOHIDReportType, report_id: u8, data: &[u8]) -> i32 {
        self.set_calls += 1;
        self.last_kind = Some(kind);
        self.last_report_id = Some(report_id);
        self.last_payload = data.to_vec();
        self.set_status
    }

    fn get_report(
        &mut self,
        kind: kIOHIDReportType,
        report_id: u8,
        buf: &mut Vec<u8>,
        offset: usize,
    ) -> (usize, i32) {
        self.get_calls += 1;
        self.last_kind = Some(kind);
        self.last_report_id = Some(report_id);
        for (i, b) in self.get_fill.iter().enumerate() {
            if offset + i < buf.len() {
                buf[offset + i] = *b;
            }
        }
        (self.get_len, self.get_status)
    }
}

fn props() -> DeviceProperties {
    DeviceProperties {
        vendor_id: Some(0x1234),
        product_id: Some(0x5678),
        registry_entry_id: Some(42),
        serial_number: Some(String::from("SER-1")),
        manufacturer: Some(String::from("ACME")),
        product: Some(String::from("Widget")),
        version_number: Some(0x0100),
        transport: Some(String::from("USB")),
        primary_usage_page: Some(1),
        primary_usage: Some(6),
        usage_pairs: Vec::new(),
        usb_interface_number: Some(3),
        max_input_report_len: Some(64),
        report_descriptor: Some(vec![0x05, 0x01, 0x09, 0x06]),
    }
}

fn device() -> HidDevice<SpyTransport> {
    HidDevice::open_with(SpyTransport::new(), props(), 0)
}

#[test]
fn empty_set_report_is_rejected_without_native_call() {
    let mut dev = device();
    assert_eq!(dev.set_report(kIOHIDReportType::Output, &[]), Err(HidError::InvalidInput));
    assert_eq!(dev.write(&[]), Err(HidError::InvalidInput));
    assert_eq!(dev.send_feature_report(&[]), Err(HidError::InvalidInput));
    assert_eq!(dev.transport.set_calls, 0);
}

#[test]
fn empty_get_report_is_rejected_without_native_call() {
    let mut dev = device();
    let mut buf: Vec<u8> = Vec::new();
    assert_eq!(dev.get_report(kIOHIDReportType::Feature, &mut buf), Err(HidError::InvalidInput));
    assert_eq!(dev.get_feature_report(&mut buf), Err(HidError::InvalidInput));
    assert_eq!(dev.transport.get_calls, 0);
}

#[test]
fn zero_report_id_is_stripped_before_sending() {
    let mut dev = device();
    assert_eq!(dev.set_report(kIOHIDReportType::Output, &[0, 9, 8]), Ok(2));
    assert_eq!(dev.transport.set_calls, 1);
    assert_eq!(dev.transport.last_report_id, Some(0));
    assert_eq!(dev.transport.last_payload, vec![9, 8]);
}

#[test]
fn nonzero_report_id_sends_the_whole_buffer() {
    let mut dev = device();
    assert_eq!(dev.set_report(kIOHIDReportType::Output, &[7, 1, 2]), Ok(3));
    assert_eq!(dev.transport.last_report_id, Some(7));
    assert_eq!(dev.transport.last_payload, vec![7, 1, 2]);
}

#[test]
fn write_uses_the_output_kind() {
    let mut dev = device();
    assert_eq!(dev.write(&[5, 1]), Ok(2));
    assert!(matches!(dev.transport.last_kind, Some(kIOHIDReportType::Output)));
}

#[test]
fn feature_helpers_use_the_feature_kind() {
    let mut dev = device();
    assert_eq!(dev.send_feature_report(&[2, 3]), Ok(()));
    assert!(matches!(dev.transport.last_kind, Some(kIOHIDReportType::Feature)));
    let mut buf = vec![1u8, 0, 0];
    dev.transport.get_len = 2;
    assert_eq!(dev.get_feature_report(&mut buf), Ok(2));
    assert!(matches!(dev.transport.last_kind, Some(kIOHIDReportType::Feature)));
}

#[test]
fn native_failure_surfaces_the_raw_code() {
    let mut dev = device();
    dev.transport.set_status = 7;
    assert_eq!(
        dev.set_report(kIOHIDReportType::Output, &[1, 2]),
        Err(HidError::NativeApiError { code: 7 })
    );
    let mut buf = vec![1u8, 0];
    dev.transport.get_status = -536870206;
    assert_eq!(
        dev.get_report(kIOHIDReportType::Feature, &mut buf),
        Err(HidError::NativeApiError { code: -536870206 })
    );
}

#[test]
fn disconnected_device_refuses_io_without_native_call() {
    let mut dev = device();
    dev.removal_callback();
    assert_eq!(dev.set_report(kIOHIDReportType::Output, &[1]), Err(HidError::DeviceDisconnected));
    let mut buf = vec![1u8, 0];
    assert_eq!(
        dev.get_report(kIOHIDReportType::Feature, &mut buf),
        Err(HidError::DeviceDisconnected)
    );
    assert_eq!(dev.transport.set_calls, 0);
    assert_eq!(dev.transport.get_calls, 0);
}

#[test]
fn zero_report_id_get_accounts_for_the_reserved_byte() {
    let mut dev = device();
    dev.transport.get_len = 2;
    dev.transport.get_fill = vec![0xAA, 0xBB];
    let mut buf = vec![0u8, 0, 0, 0];
    // Report id 0: the native layer fills past the reserved leading byte
    // and the returned length is one more than the native count.
    assert_eq!(dev.get_report(kIOHIDReportType::Input, &mut buf), Ok(3));
    assert_eq!(buf, vec![0, 0xAA, 0xBB, 0]);
}

#[test]
fn nonzero_report_id_get_returns_the_native_count() {
    let mut dev = device();
    dev.transport.get_len = 2;
    dev.transport.get_fill = vec![0xAA, 0xBB];
    let mut buf = vec![5u8, 0, 0];
    assert_eq!(dev.get_report(kIOHIDReportType::Input, &mut buf), Ok(2));
    assert_eq!(buf, vec![0xAA, 0xBB, 0]);
}

#[test]
fn get_report_descriptor_copies_what_fits() {
    let dev = device();
    let mut buf = [0u8; 2];
    assert_eq!(dev.get_report_descriptor(&mut buf), Ok(2));
    assert_eq!(buf, [0x05, 0x01]);
    let mut big = [0u8; 16];
    assert_eq!(dev.get_report_descriptor(&mut big), Ok(4));
    assert_eq!(&big[..4], &[0x05, 0x01, 0x09, 0x06]);
}

#[test]
fn missing_report_descriptor_is_an_error() {
    let mut p = props();
    p.report_descriptor = None;
    let dev = HidDevice::open_with(SpyTransport::new(), p, 0);
    let mut buf = [0u8; 4];
    assert_eq!(dev.get_report_descriptor(&mut buf), Err(HidError::NativeApiError { code: -1 }));
}

#[test]
fn device_info_and_strings_come_from_the_captured_properties() {
    let dev = device();
    let info = dev.get_device_info().unwrap();
    assert_eq!(info.vendor_id, 0x1234);
    assert_eq!(info.product_id, 0x5678);
    assert_eq!(info.path, String::from("DevSrvsID:42"));
    assert_eq!(info.usage_page, 1);
    assert_eq!(info.usage, 6);
    assert_eq!(info.interface_number, 3);
    assert_eq!(dev.get_manufacturer_string(), Ok(Some(String::from("ACME"))));
    assert_eq!(dev.get_product_string(), Ok(Some(String::from("Widget"))));
    assert_eq!(dev.get_serial_number_string(), Ok(Some(String::from("SER-1"))));
}

#[test]
fn error_messages_name_each_kind() {
    assert!(HidError::InvalidInput.message().contains("size"));
    assert!(HidError::DeviceDisconnected.message().contains("disconnected"));
    assert!(HidError::ThreadShutdown.message().contains("shut"));
    assert!(HidError::DeviceNotFound.message().contains("not found"));
    assert!(HidError::NativeApiError { code: 3 }.message().contains("native"));
}
