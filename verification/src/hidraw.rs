//! The hidraw ioctl interface's data shapes, and the interpretation of what
//! the ioctls report.
//!
//! The structures mirror the kernel's (include/uapi/linux/hidraw.h): a
//! report descriptor is returned as a size and a fixed 4096-byte buffer,
//! and the device info as a bus type and the two ids. The strings come back
//! as NUL-terminated bytes in a caller-supplied buffer.

use vstd::prelude::*;
use vstd::slice::{slice_subrange, slice_to_vec};

verus! {

/// The kernel's HID_MAX_DESCRIPTOR_SIZE.
pub const HID_MAX_DESCRIPTOR_SIZE: usize = 4096;

/// The kernel's hidraw report-descriptor record: `size` says how much of
/// `value` the descriptor fills.
#[allow(non_camel_case_types)]
pub struct hidraw_report_descriptor {
    pub size: u32,
    pub value: [u8; 4096],
}

/// The kernel's hidraw device-info record.
#[allow(non_camel_case_types)]
#[derive(Debug, Clone, Copy, PartialEq, Eq, Structural)]
pub struct hidraw_devinfo {
    pub bustype: u32,
    pub vendor: i16,
    pub product: i16,
}

/// The bytes of `s` before its first NUL (all of them when it has none).
pub open spec fn spec_up_to_nul(s: Seq<u8>) -> Seq<u8> {
    s.take(find_nul(s))
}

/// The index of the first NUL of `s`, or its length when it has none.
pub open spec fn find_nul(s: Seq<u8>) -> int
    decreases s.len(),
{
    if s.len() == 0 {
        0
    } else if s[0] == 0 {
        0
    } else {
        1 + find_nul(s.drop_first())
    }
}

proof fn lemma_find_nul_exact(s: Seq<u8>, k: int)
    requires
        0 <= k <= s.len(),
        forall|j: int| 0 <= j < k ==> s[j] != 0,
        k == s.len() || s[k] == 0,
    ensures
        find_nul(s) == k,
    decreases k,
{
    if k > 0 {
        lemma_find_nul_exact(s.drop_first(), k - 1);
    }
}

/// Copy the bytes of `s` before its first NUL.
pub fn bytes_up_to_nul(s: &[u8]) -> (r: Vec<u8>)
    ensures
        r@ == spec_up_to_nul(s@),
{
    let mut i: usize = 0;
    while i < s.len() && s[i] != 0
        invariant
            0 <= i <= s@.len(),
            forall|j: int| 0 <= j < i ==> s@[j] != 0,
        decreases s@.len() - i,
    {
        i = i + 1;
    }
    proof {
        lemma_find_nul_exact(s@, i as int);
    }
    slice_to_vec(slice_subrange(s, 0, i))
}

/// Everything the hidraw ioctls report about one device, interpreted into
/// owned values.
#[derive(Debug)]
pub struct HidrawInfo {
    pub raw_descriptor: Vec<u8>,
    pub vendor_id: u16,
    pub product_id: u16,
    pub bus_type: u32,
    pub raw_name: Vec<u8>,
    pub raw_phys: Vec<u8>,
}

impl HidrawInfo {
    /// Interpret the raw ioctl results: the descriptor truncated to its
    /// reported size, the ids reinterpreted as unsigned, and the name and
    /// phys strings cut at their first NUL.
    pub fn from_raw(
        desc: &hidraw_report_descriptor,
        devinfo: &hidraw_devinfo,
        name_buf: &[u8],
        phys_buf: &[u8],
    ) -> (r: HidrawInfo)
        ensures
            r.raw_descriptor@ == desc.value@.take(
                if desc.size <= 4096 {
                    desc.size as int
                } else {
                    4096
                },
            ),
            r.vendor_id == devinfo.vendor as u16,
            r.product_id == devinfo.product as u16,
            r.bus_type == devinfo.bustype,
            r.raw_name@ == spec_up_to_nul(name_buf@),
            r.raw_phys@ == spec_up_to_nul(phys_buf@),
    {
        let used: usize = if desc.size <= 4096 {
            desc.size as usize
        } else {
            4096
        };
        let mut raw_descriptor: Vec<u8> = Vec::new();
        let mut i: usize = 0;
        while i < used
            invariant
                0 <= i <= used <= 4096,
                desc.value@.len() == 4096,
                raw_descriptor@ == desc.value@.take(i as int),
            decreases used - i,
        {
            raw_descriptor.push(desc.value[i]);
            proof {
                assert(raw_descriptor@ =~= desc.value@.take(i + 1));
            }
            i = i + 1;
        }
        HidrawInfo {
            raw_descriptor,
            vendor_id: #[verifier::truncate] (devinfo.vendor as u16),
            product_id: #[verifier::truncate] (devinfo.product as u16),
            bus_type: devinfo.bustype,
            raw_name: bytes_up_to_nul(name_buf),
            raw_phys: bytes_up_to_nul(phys_buf),
        }
    }
}

} // verus!
