//! The interfaces every backend offers: report writing on an open device,
//! and the metadata an enumerated device reports.

use crate::error::HidResult;
use vstd::prelude::*;

verus! {

/// An open device a backend can write reports to.
pub trait ApiDevice {
    /// Send the bytes of one report; returns how many were taken.
    fn write(&mut self, data: &[u8]) -> HidResult<usize>;

    /// Prefix `data` with the report id and send it as one report.
    fn write_report_id(&mut self, report_id: u8, data: &[u8]) -> HidResult<usize> {
        let mut buf: Vec<u8> = Vec::new();
        buf.push(report_id);
        let mut i: usize = 0;
        while i < data.len()
            invariant
                buf@.len() == 1 + i,
            decreases data@.len() - i,
        {
            buf.push(data[i]);
            i = i + 1;
        }
        self.write(buf.as_slice())
    }
}

/// The metadata an enumerated device reports. A backend that cannot learn
/// a field reports its absence (`None`, zero, or -1 for the interface
/// number).
pub trait ApiDeviceInfo {
    fn path(&self) -> Option<String>;

    fn vendor_id(&self) -> u16;

    fn product_id(&self) -> u16;

    fn serial_number(&self) -> Option<String>;

    fn release_number(&self) -> u16;

    fn manufacturer_string(&self) -> Option<String>;

    fn product_string(&self) -> Option<String>;

    fn usage_page(&self) -> Option<u16>;

    fn usage(&self) -> u16;

    fn interface_number(&self) -> i32;
}

} // verus!
