//! The record that hidraw enumeration yields per device node, and its view
//! through the backend's metadata interface.

use crate::backend::ApiDeviceInfo;
use crate::hidraw::HidrawInfo;
use vstd::prelude::*;

verus! {

/// One enumerated hidraw device: its device-node path (when it has a
/// UTF-8 one) and what the hidraw ioctls reported about it.
#[derive(Debug)]
pub struct DeviceInfo {
    pub path: Option<String>,
    pub hidraw_info: HidrawInfo,
}

impl DeviceInfo {
    /// Pair a device-node path with its interpreted hidraw info.
    pub fn new(path: Option<String>, hidraw_info: HidrawInfo) -> (r: Self)
        ensures
            r.path == path,
            r.hidraw_info == hidraw_info,
    {
        DeviceInfo { path, hidraw_info }
    }
}

impl ApiDeviceInfo for DeviceInfo {
    /// The device-node path, when it is valid UTF-8.
    fn path(&self) -> Option<String> {
        match &self.path {
            Some(p) => Some(p.clone()),
            None => None,
        }
    }

    fn vendor_id(&self) -> u16 {
        self.hidraw_info.vendor_id
    }

    fn product_id(&self) -> u16 {
        self.hidraw_info.product_id
    }

    /// The hidraw layer does not report a serial number.
    fn serial_number(&self) -> Option<String> {
        None
    }

    /// The hidraw layer does not report a release number.
    fn release_number(&self) -> u16 {
        0
    }

    /// The hidraw layer does not report a manufacturer string.
    fn manufacturer_string(&self) -> Option<String> {
        None
    }

    /// The hidraw layer does not report a product string.
    fn product_string(&self) -> Option<String> {
        None
    }

    /// The hidraw layer does not report a usage page.
    fn usage_page(&self) -> Option<u16> {
        None
    }

    /// The hidraw layer does not report a usage.
    fn usage(&self) -> u16 {
        0
    }

    /// Not applicable for a hidraw node.
    fn interface_number(&self) -> i32 {
        -1
    }
}

} // verus!
