//! The per-device metadata record that enumeration yields, and the bus-type
//! and path-token conventions that go with it.

use crate::digits::{push_decimal, spec_decimal};
use vstd::prelude::*;

verus! {

/// The transport a HID device is attached over, mapped from the native
/// transport string.
#[derive(Debug, Clone, Copy, PartialEq, Eq, Structural)]
pub enum BusType {
    Unknown,
    Usb,
    Bluetooth,
    I2c,
    Spi,
}

/// One enumerated usage of a HID device. A device exposing several
/// usage-page/usage pairs yields one record per pair, duplicating the
/// identity fields and varying `usage_page`/`usage`.
#[derive(Debug)]
pub struct DeviceInfo {
    pub vendor_id: u16,
    pub product_id: u16,
    pub bus_type: BusType,
    /// A stable path token of the form `DevSrvsID:<integer-id>`, or empty
    /// when the device exposes no registry identity.
    pub path: String,
    pub serial_number: Option<String>,
    pub release_number: u16,
    pub manufacturer_string: Option<String>,
    pub product_string: Option<String>,
    pub usage_page: u16,
    pub usage: u16,
    /// The USB interface number, or -1 meaning "not applicable".
    pub interface_number: i32,
}

/// Spec-level equality of two optional strings, by contents.
pub open spec fn opt_str_eq(a: Option<String>, b: Option<String>) -> bool {
    match (a, b) {
        (Some(x), Some(y)) => x@ == y@,
        (None, None) => true,
        _ => false,
    }
}

/// Spec-level field-by-field sameness of two records (strings by contents).
pub open spec fn same_device_info(a: DeviceInfo, b: DeviceInfo) -> bool {
    &&& a.vendor_id == b.vendor_id
    &&& a.product_id == b.product_id
    &&& a.bus_type == b.bus_type
    &&& a.path@ == b.path@
    &&& opt_str_eq(a.serial_number, b.serial_number)
    &&& a.release_number == b.release_number
    &&& opt_str_eq(a.manufacturer_string, b.manufacturer_string)
    &&& opt_str_eq(a.product_string, b.product_string)
    &&& a.usage_page == b.usage_page
    &&& a.usage == b.usage
    &&& a.interface_number == b.interface_number
}

fn clone_opt_string(s: &Option<String>) -> (r: Option<String>)
    ensures
        opt_str_eq(r, *s),
{
    match s {
        Some(x) => Some(x.clone()),
        None => None,
    }
}

impl Clone for DeviceInfo {
    /// A copy that agrees with the original field by field.
    fn clone(&self) -> (r: Self)
        ensures
            same_device_info(r, *self),
    {
        DeviceInfo {
            vendor_id: self.vendor_id,
            product_id: self.product_id,
            bus_type: self.bus_type,
            path: self.path.clone(),
            serial_number: clone_opt_string(&self.serial_number),
            release_number: self.release_number,
            manufacturer_string: clone_opt_string(&self.manufacturer_string),
            product_string: clone_opt_string(&self.product_string),
            usage_page: self.usage_page,
            usage: self.usage,
            interface_number: self.interface_number,
        }
    }
}

/// The characters of the path token for a registry entry id.
pub open spec fn spec_path_token(entry_id: nat) -> Seq<char> {
    "DevSrvsID:"@ + spec_decimal(entry_id)
}

/// Build the stable path token `DevSrvsID:<integer-id>` for a device's
/// registry entry id.
pub fn make_path_token(entry_id: u64) -> (s: String)
    ensures
        s@ == spec_path_token(entry_id as nat),
{
    let mut s = String::from_str("DevSrvsID:");
    push_decimal(entry_id, &mut s);
    s
}

} // verus!
