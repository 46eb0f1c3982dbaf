use hidapi::backend::{ApiDevice, ApiDeviceInfo};
use hidapi::enumerator::DeviceInfo;
use hidapi::hidraw::{hidraw_devinfo, hidraw_report_descriptor, HidrawInfo};
use hidapi::HidResult;

fn sample_info() -> HidrawInfo {
    let mut desc = hidraw_report_descriptor { size: 3, value: [0u8; 4096] };
    desc.value[0] = 0x05;
    desc.value[1] = 0x01;
    desc.value[2] = 0x09;
    desc.value[3] = 0x99;
    let devinfo = hidraw_devinfo { bustype: 0x03, vendor: -20276, product: 0x5678 };
    HidrawInfo::from_raw(&desc, &devinfo, b"hid-name\0garbage", b"usb-0000:00\0")
}

#[test]
fn from_raw_truncates_the_descriptor_to_its_size() {
    let info = sample_info();
    assert_eq!(info.raw_descriptor, vec![0x05, 0x01, 0x09]);
}

#[test]
fn from_raw_reinterprets_the_ids_as_unsigned() {
    let info = sample_info();
    assert_eq!(info.vendor_id, 0xB0CC);
    assert_eq!(info.product_id, 0x5678);
    assert_eq!(info.bus_type, 0x03);
}

#[test]
fn from_raw_cuts_strings_at_the_first_nul() {
    let info = sample_info();
    assert_eq!(info.raw_name, b"hid-name".to_vec());
    assert_eq!(info.raw_phys, b"usb-0000:00".to_vec());
}

#[test]
fn from_raw_keeps_an_unterminated_string_whole() {
    let desc = hidraw_report_descriptor { size: 0, value: [0u8; 4096] };
    let devinfo = hidraw_devinfo { bustype: 0x05, vendor: 1, product: 2 };
    let info = HidrawInfo::from_raw(&desc, &devinfo, b"abc", b"");
    assert_eq!(info.raw_descriptor, Vec::<u8>::new());
    assert_eq!(info.raw_name, b"abc".to_vec());
    assert_eq!(info.raw_phys, Vec::<u8>::new());
}

#[test]
fn oversized_descriptor_sizes_are_clamped() {
    let desc = hidraw_report_descriptor { size: 100000, value: [7u8; 4096] };
    let devinfo = hidraw_devinfo { bustype: 0x03, vendor: 0, product: 0 };
    let info = HidrawInfo::from_raw(&desc, &devinfo, b"\0", b"\0");
    assert_eq!(info.raw_descriptor.len(), 4096);
}

#[test]
fn enumerator_record_exposes_the_hidraw_fields() {
    let d = DeviceInfo::new(Some(String::from("/dev/hidraw1")), sample_info());
    assert_eq!(d.path(), Some(String::from("/dev/hidraw1")));
    assert_eq!(d.vendor_id(), 0xB0CC);
    assert_eq!(d.product_id(), 0x5678);
    assert_eq!(d.serial_number(), None);
    assert_eq!(d.release_number(), 0);
    assert_eq!(d.manufacturer_string(), None);
    assert_eq!(d.product_string(), None);
    assert_eq!(d.usage_page(), None);
    assert_eq!(d.usage(), 0);
    assert_eq!(d.interface_number(), -1);
}

/// A device that records what reaches its write.
struct RecordingDevice {
    written: Vec<u8>,
}

impl ApiDevice for RecordingDevice {
    fn write(&mut self, data: &[u8]) -> HidResult<usize> {
        self.written = data.to_vec();
        Ok(data.len())
    }
}

#[test]
fn write_report_id_prefixes_the_id_byte() {
    let mut dev = RecordingDevice { written: Vec::new() };
    assert_eq!(dev.write_report_id(0x42, &[1, 2, 3]), Ok(4));
    assert_eq!(dev.written, vec![0x42, 1, 2, 3]);
}
