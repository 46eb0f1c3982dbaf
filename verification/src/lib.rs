//! Cross-platform HID access library: device enumeration with typed property
//! lookup, synchronous report I/O with the numbered-report convention, and an
//! asynchronous input-report pump that buffers reports in a bounded queue and
//! serves timeout-capable reads.

pub mod backend;
pub mod device;
pub mod device_info;
pub mod digits;
pub mod enumerate;
pub mod enumerator;
pub mod error;
pub mod hidraw;
pub mod kbug;
pub mod pump;
pub mod queue;
pub mod sync;

pub use device::{HidApiBackend, HidDevice, HidTransport};
pub use device_info::{BusType, DeviceInfo};
pub use error::{HidError, HidResult};
