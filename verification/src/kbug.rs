//! Kernel-version detection, to work around kernel bugs (detect whether a
//! bug is present on the running kernel).

use crate::digits::{is_ascii_digit, spec_digits_val, take_digits_spec, parse_u64_digits};
use crate::error::{HidError, HidResult};
use vstd::prelude::*;
use vstd::slice::slice_subrange;
use vstd::string::StringSliceAdditionalSpecFns;

verus! {

/// A Linux kernel version, as parsed from the release string.
#[derive(Debug, Clone, Copy, PartialEq, Eq, Structural)]
pub struct KernelVersion {
    pub major: u8,
    pub minor: u8,
    pub release: u8,
}

/// A version packed into one word, for ordering.
pub open spec fn spec_pack_version(v: KernelVersion) -> u32 {
    ((v.major as u32) << 16 | (v.minor as u32) << 8 | (v.release as u32)) as u32
}

/// The index of the first dot of `s`, or its length when it has none.
pub open spec fn find_dot(s: Seq<u8>) -> int
    decreases s.len(),
{
    if s.len() == 0 {
        0
    } else if s[0] == 46 {
        0
    } else {
        1 + find_dot(s.drop_first())
    }
}

proof fn lemma_find_dot_bounds(s: Seq<u8>)
    ensures
        0 <= find_dot(s) <= s.len(),
    decreases s.len(),
{
    if s.len() > 0 && s[0] != 46 {
        lemma_find_dot_bounds(s.drop_first());
    }
}

proof fn lemma_find_dot_exact(s: Seq<u8>, k: int)
    requires
        0 <= k <= s.len(),
        forall|j: int| 0 <= j < k ==> s[j] != 46,
        k == s.len() || s[k] == 46,
    ensures
        find_dot(s) == k,
    decreases k,
{
    if k > 0 {
        lemma_find_dot_exact(s.drop_first(), k - 1);
    }
}

/// One version component, read from the head of `s`: the value of its
/// leading digits, or nothing when there are none or they exceed a byte.
pub open spec fn spec_comp_val(s: Seq<u8>) -> Option<u8> {
    let d = take_digits_spec(s);
    if d.len() == 0 || spec_digits_val(d) > 255 {
        None
    } else {
        Some(spec_digits_val(d) as u8)
    }
}

/// What a release string like `5.5.3-arch1-1` parses to: up to three
/// dot-separated components, each read as the decimal value of its leading
/// digits (nothing after the third component matters); components the
/// string does not have are zero, but a present component without leading
/// digits, or exceeding a byte, fails the parse.
pub open spec fn spec_parse_version(s: Seq<u8>) -> Option<KernelVersion> {
    match spec_comp_val(s) {
        None => None,
        Some(major) => {
            if find_dot(s) == s.len() {
                Some(KernelVersion { major, minor: 0, release: 0 })
            } else {
                let s1 = s.skip(find_dot(s) + 1);
                match spec_comp_val(s1) {
                    None => None,
                    Some(minor) => {
                        if find_dot(s1) == s1.len() {
                            Some(KernelVersion { major, minor, release: 0 })
                        } else {
                            let s2 = s1.skip(find_dot(s1) + 1);
                            match spec_comp_val(s2) {
                                None => None,
                                Some(release) => Some(KernelVersion { major, minor, release }),
                            }
                        }
                    },
                }
            }
        },
    }
}

/// Read one component at `start`: its value, and where the next component
/// begins (`None` when no dot follows).
fn scan_component(b: &[u8], start: usize) -> (r: Option<(u8, Option<usize>)>)
    requires
        start <= b@.len(),
    ensures
        0 <= find_dot(b@.skip(start as int)) <= b@.len() - start,
        r is Some <==> spec_comp_val(b@.skip(start as int)) is Some,
        r matches Some((v, next)) ==> {
            &&& Some(v) == spec_comp_val(b@.skip(start as int))
            &&& (next is Some <==> find_dot(b@.skip(start as int)) < b@.len() - start)
            &&& (next matches Some(nx) ==> nx == start + find_dot(b@.skip(start as int)) + 1)
        },
{
    let ghost suffix = b@.skip(start as int);
    proof {
        lemma_find_dot_bounds(suffix);
    }
    let mut digit_end: usize = start;
    while digit_end < b.len() && b[digit_end] >= 48 && b[digit_end] <= 57
        invariant
            start <= digit_end <= b@.len(),
            suffix == b@.skip(start as int),
            forall|j: int| start <= j < digit_end ==> is_ascii_digit(#[trigger] b@[j]),
        decreases b@.len() - digit_end,
    {
        digit_end = digit_end + 1;
    }
    proof {
        assert forall|j: int| 0 <= j < digit_end - start implies is_ascii_digit(
            #[trigger] suffix[j],
        ) by {
            assert(suffix[j] == b@[start + j]);
        }
        if digit_end < b@.len() {
            assert(suffix[digit_end - start] == b@[digit_end as int]);
        }
        crate::digits::lemma_take_digits_exact(suffix, digit_end - start);
    }
    let digits = slice_subrange(b, start, digit_end);
    proof {
        assert(digits@ =~= suffix.take(digit_end - start));
    }
    let value: u64 = match parse_u64_digits(digits) {
        Some(v) => v,
        None => {
            return None;
        },
    };
    if value > 255 {
        return None;
    }
    let mut dot: usize = digit_end;
    while dot < b.len() && b[dot] != 46
        invariant
            digit_end <= dot <= b@.len(),
            suffix == b@.skip(start as int),
            start <= digit_end,
            forall|j: int| digit_end <= j < dot ==> b@[j] != 46,
            forall|j: int| start <= j < digit_end ==> is_ascii_digit(#[trigger] b@[j]),
        decreases b@.len() - dot,
    {
        dot = dot + 1;
    }
    proof {
        assert forall|j: int| 0 <= j < dot - start implies suffix[j] != 46 by {
            assert(suffix[j] == b@[start + j]);
            if j < digit_end - start {
                assert(is_ascii_digit(b@[start + j]));
            }
        }
        if dot < b@.len() {
            assert(suffix[dot - start] == b@[dot as int]);
        }
        lemma_find_dot_exact(suffix, dot - start);
    }
    let next: Option<usize> = if dot == b.len() {
        None
    } else {
        Some(dot + 1)
    };
    Some((value as u8, next))
}

impl KernelVersion {
    /// A version from its three components.
    pub fn new(major: u8, minor: u8, release: u8) -> (r: Self)
        ensures
            r == (KernelVersion { major, minor, release }),
    {
        Self { major, minor, release }
    }

    /// Parse a release string (see [`spec_parse_version`]); a string that
    /// does not carry a version fails with `InvalidInput`.
    pub fn parse(s: &str) -> (r: HidResult<KernelVersion>)
        ensures
            r matches Ok(v) ==> spec_parse_version(s.spec_bytes()) == Some(v),
            r is Err <==> spec_parse_version(s.spec_bytes()) is None,
            r matches Err(e) ==> e == HidError::InvalidInput,
    {
        let b = s.as_bytes();
        let ghost whole = b@;
        proof {
            assert(whole.skip(0) =~= whole);
        }
        let (major, n1) = match scan_component(b, 0) {
            Some(c) => c,
            None => {
                return Err(HidError::InvalidInput);
            },
        };
        let s1 = match n1 {
            None => {
                return Ok(KernelVersion { major, minor: 0, release: 0 });
            },
            Some(i) => i,
        };
        proof {
            assert(whole.skip(s1 as int) =~= whole.skip(0).skip(find_dot(whole.skip(0)) + 1));
        }
        let (minor, n2) = match scan_component(b, s1) {
            Some(c) => c,
            None => {
                return Err(HidError::InvalidInput);
            },
        };
        let s2 = match n2 {
            None => {
                return Ok(KernelVersion { major, minor, release: 0 });
            },
            Some(i) => i,
        };
        proof {
            assert(whole.skip(s2 as int) =~= whole.skip(s1 as int).skip(
                find_dot(whole.skip(s1 as int)) + 1,
            ));
        }
        let (release, _n3) = match scan_component(b, s2) {
            Some(c) => c,
            None => {
                return Err(HidError::InvalidInput);
            },
        };
        Ok(KernelVersion { major, minor, release })
    }

    /// Ask the running kernel for its version: read the release string with
    /// uname(2) and parse it. What comes back depends on the machine; any
    /// `Ok` is the parse (see [`spec_parse_version`]) of some release
    /// string.
    pub fn detect() -> (r: HidResult<KernelVersion>)
        ensures
            r matches Ok(v) ==> exists|rel: Seq<u8>| spec_parse_version(rel) == Some(v),
    {
        let info = match uname_info() {
            Ok(u) => u,
            Err(code) => {
                return Err(HidError::NativeApiError { code });
            },
        };
        let release = match release_string(&info) {
            Some(s) => s,
            None => {
                return Err(HidError::InvalidInput);
            },
        };
        let release_str = release.as_str();
        match Self::parse(release_str) {
            Ok(v) => {
                proof {
                    assert(spec_parse_version(release_str.spec_bytes()) == Some(v));
                }
                Ok(v)
            },
            Err(e) => Err(e),
        }
    }
}

impl core::str::FromStr for KernelVersion {
    type Err = HidError;

    fn from_str(s: &str) -> Result<Self, HidError> {
        Self::parse(s)
    }
}

impl PartialOrd for KernelVersion {
    /// Versions order by their packed word: major, then minor, then
    /// release.
    fn partial_cmp(&self, other: &KernelVersion) -> (r: Option<core::cmp::Ordering>) {
        let a = (self.major as u32) << 16u32 | (self.minor as u32) << 8u32 | (self.release as u32);
        let b = (other.major as u32) << 16u32 | (other.minor as u32) << 8u32 | (other.release
            as u32);
        if a < b {
            Some(core::cmp::Ordering::Less)
        } else if a == b {
            Some(core::cmp::Ordering::Equal)
        } else {
            Some(core::cmp::Ordering::Greater)
        }
    }
}

impl vstd::std_specs::cmp::PartialOrdSpecImpl for KernelVersion {
    open spec fn obeys_partial_cmp_spec() -> bool {
        true
    }

    open spec fn partial_cmp_spec(&self, other: &KernelVersion) -> Option<core::cmp::Ordering> {
        if spec_pack_version(*self) < spec_pack_version(*other) {
            Some(core::cmp::Ordering::Less)
        } else if spec_pack_version(*self) == spec_pack_version(*other) {
            Some(core::cmp::Ordering::Equal)
        } else {
            Some(core::cmp::Ordering::Greater)
        }
    }
}

/// The kernel bugs this library knows how to work around.
#[derive(Debug, Clone, Copy, PartialEq, Eq, Structural)]
pub enum KernelBug {
    /// Kernels before 2.6.34 return one extra byte at the front of the
    /// read buffer when the device uses numbered reports; it must be
    /// removed on such kernels.
    NumberedReportExtrabyte,
}

impl KernelBug {
    /// Whether the bug is present on the given kernel version.
    pub fn check(self, version: &KernelVersion) -> (r: bool)
        ensures
            r == (spec_pack_version(*version) < spec_pack_version(
                KernelVersion { major: 2, minor: 6, release: 34 },
            )),
    {
        match self {
            KernelBug::NumberedReportExtrabyte => *version < KernelVersion::new(2, 6, 34),
        }
    }
}

#[verifier::external_type_specification]
#[verifier::external_body]
pub struct ExUtsName(nix::sys::utsname::UtsName);

/// Relies on nix::sys::utsname::uname, a direct uname(2) wrapper: the
/// running system's identification, or the errno the call failed with.
#[verifier::external_body]
fn uname_info() -> Result<nix::sys::utsname::UtsName, i32> {
    match nix::sys::utsname::uname() {
        Ok(u) => Ok(u),
        Err(e) => Err(e as i32),
    }
}

/// Relies on nix::sys::utsname::UtsName::release: the kernel's release
/// string, converted to UTF-8 (`None` when it is not valid UTF-8). The
/// value depends on the machine, so nothing more is promised of it.
#[verifier::external_body]
fn release_string(info: &nix::sys::utsname::UtsName) -> Option<String> {
    info.release().to_str().map(|s| s.to_string())
}

} // verus!
