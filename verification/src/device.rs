//! The open-device handle: synchronous report I/O with the numbered-report
//! convention, the read façade over the pump's queue, device selection and
//! path-token resolution, and the teardown protocol.

use crate::device_info::{spec_path_token, DeviceInfo};
use crate::digits::{
    all_digits, chars_as_bytes, lemma_decimal_chars, lemma_decimal_value, parse_u64_digits,
    spec_decimal, spec_digits_val,
};
use crate::enumerate::{
    get_device_infos, get_hid_device_info_vector, is_info_for, opt_view, spec_opt_i32_or_zero,
    DeviceProperties,
};
use crate::error::{HidError, HidResult};
use crate::pump::{PumpShared, RunLoopOutcome};
use vstd::prelude::*;
use vstd::slice::{slice_subrange, slice_to_vec};
use vstd::string::StringSliceAdditionalSpecFns;
use vstd::utf8::{encode_utf8, is_ascii_chars, is_ascii_chars_encode_utf8};

verus! {

/// The native report kinds a synchronous transfer can name.
#[derive(Debug, Clone, Copy, PartialEq, Eq, Structural)]
#[allow(non_camel_case_types)]
pub enum kIOHIDReportType {
    Input,
    Output,
    Feature,
}

/// The synchronous transfer operations of a native device handle. The
/// library checks, frames and interprets; an implementation only moves the
/// bytes. Nothing is assumed of an implementation: every caller here states
/// what holds whatever an implementation returns.
pub trait HidTransport {
    /// Send `data` as a report of the given kind and id; returns the native
    /// status code, 0 meaning success.
    fn set_report(&mut self, kind: kIOHIDReportType, report_id: u8, data: &[u8]) -> i32;

    /// Receive a report of the given kind and id into `buf[offset..]`;
    /// returns the length the native layer reports and its status code, 0
    /// meaning success.
    fn get_report(
        &mut self,
        kind: kIOHIDReportType,
        report_id: u8,
        buf: &mut Vec<u8>,
        offset: usize,
    ) -> (usize, i32);
}

/// The number of bytes a successful receive reports to the caller: the
/// native length plus one when the device is not using numbered reports
/// (the caller's buffer reserves that leading byte), clamped to the
/// buffer's length to bound what an ill-behaved native layer could claim.
pub open spec fn spec_report_total(report_id: u8, native_len: nat, buf_len: nat) -> nat {
    let total = native_len + (if report_id == 0 {
        1nat
    } else {
        0nat
    });
    if total > buf_len {
        buf_len
    } else {
        total
    }
}

/// Turn the native layer's reported length into the caller-visible count,
/// per the numbered-report convention (see [`spec_report_total`]).
pub fn finish_get_report(report_id: u8, native_len: usize, buf_len: usize) -> (n: usize)
    ensures
        n == spec_report_total(report_id, native_len as nat, buf_len as nat),
{
    let extra: usize = if report_id == 0 {
        1
    } else {
        0
    };
    if native_len > buf_len || extra > buf_len - native_len {
        buf_len
    } else {
        native_len + extra
    }
}

/// Whether one enumerated record is the device an open call asks for.
pub open spec fn spec_device_matches(
    d: DeviceInfo,
    vid: u16,
    pid: u16,
    serial: Option<Seq<char>>,
) -> bool {
    &&& d.vendor_id == vid
    &&& d.product_id == pid
    &&& match serial {
        Some(s) => opt_view(d.serial_number) == Some(s),
        None => true,
    }
}

/// Find the first enumerated device with the given vendor and product id
/// (and serial number, when one is asked for).
pub fn select_device(
    devices: &Vec<DeviceInfo>,
    vid: u16,
    pid: u16,
    serial: Option<&str>,
) -> (r: Option<usize>)
    ensures
        r matches Some(i) ==> {
            &&& 0 <= i < devices@.len()
            &&& spec_device_matches(devices@[i as int], vid, pid, spec_serial_arg(serial))
            &&& forall|j: int|
                0 <= j < i ==> !spec_device_matches(
                    #[trigger] devices@[j],
                    vid,
                    pid,
                    spec_serial_arg(serial),
                )
        },
        r is None ==> forall|j: int|
            0 <= j < devices@.len() ==> !spec_device_matches(
                #[trigger] devices@[j],
                vid,
                pid,
                spec_serial_arg(serial),
            ),
{
    let target: Option<String> = match serial {
        Some(s) => Some(String::from_str(s)),
        None => None,
    };
    let mut i: usize = 0;
    while i < devices.len()
        invariant
            0 <= i <= devices@.len(),
            opt_view(target) == spec_serial_arg(serial),
            forall|j: int|
                0 <= j < i ==> !spec_device_matches(
                    #[trigger] devices@[j],
                    vid,
                    pid,
                    spec_serial_arg(serial),
                ),
        decreases devices@.len() - i,
    {
        let d = &devices[i];
        if d.vendor_id == vid && d.product_id == pid {
            let serial_ok = match (&target, &d.serial_number) {
                (Some(want), Some(have)) => have.eq(want),
                (Some(_), None) => false,
                (None, _) => true,
            };
            if serial_ok {
                return Some(i);
            }
        }
        i = i + 1;
    }
    None
}

/// The view of an optional serial-number argument.
pub open spec fn spec_serial_arg(serial: Option<&str>) -> Option<Seq<char>> {
    match serial {
        Some(s) => Some(s@),
        None => None,
    }
}

/// What a path token parses to: the service's registry entry id, exactly
/// when the token is `DevSrvsID:` followed by the decimal id. Any other
/// token (a legacy registry path, for instance) parses to `None` and is
/// left to the native registry lookup.
pub open spec fn spec_parse_service_path(b: Seq<u8>) -> Option<u64> {
    if b.len() > 10 && b.take(10) == spec_service_path_prefix() && all_digits(b.skip(10))
        && spec_digits_val(b.skip(10)) <= u64::MAX {
        Some(spec_digits_val(b.skip(10)) as u64)
    } else {
        None
    }
}

/// The ten bytes of the path-token prefix `DevSrvsID:`.
pub open spec fn spec_service_path_prefix() -> Seq<u8> {
    seq![68u8, 101u8, 118u8, 83u8, 114u8, 118u8, 115u8, 73u8, 68u8, 58u8]
}

/// Resolve a path token to the registry entry id it names, if it is of the
/// `DevSrvsID:<integer-id>` form.
pub fn parse_service_path(path: &str) -> (r: Option<u64>)
    ensures
        r == spec_parse_service_path(path.spec_bytes()),
{
    let b = path.as_bytes();
    if b.len() <= 10 {
        return None;
    }
    if b[0] != 68 || b[1] != 101 || b[2] != 118 || b[3] != 83 || b[4] != 114 || b[5] != 118
        || b[6] != 115 || b[7] != 73 || b[8] != 68 || b[9] != 58 {
        proof {
            assert(b@.take(10) != spec_service_path_prefix());
        }
        return None;
    }
    proof {
        assert(b@.take(10) =~= spec_service_path_prefix());
    }
    let digits = slice_subrange(b, 10, b.len());
    parse_u64_digits(digits)
}

/// Round trip: the stable path token built for a registry entry id (see
/// [`crate::device_info::make_path_token`]) parses back to exactly that id.
pub proof fn lemma_path_token_round_trip(entry_id: u64)
    ensures
        spec_parse_service_path(encode_utf8(spec_path_token(entry_id as nat))) == Some(entry_id),
{
    reveal_strlit("DevSrvsID:");
    let chars = spec_path_token(entry_id as nat);
    let digits = spec_decimal(entry_id as nat);
    lemma_decimal_chars(entry_id as nat);
    lemma_decimal_value(entry_id as nat);
    assert(chars.len() == 10 + digits.len());
    assert(is_ascii_chars(chars)) by {
        assert forall|i: int| 0 <= i < chars.len() implies '\0' <= #[trigger] chars[i]
            <= '\u{7f}' by {
            if i >= 10 {
                assert(chars[i] == digits[i - 10]);
                assert('0' <= digits[i - 10] <= '9');
            }
        }
    }
    is_ascii_chars_encode_utf8(chars);
    let bytes = encode_utf8(chars);
    assert(bytes.take(10) =~= spec_service_path_prefix()) by {
        assert forall|i: int| 0 <= i < 10 implies bytes.take(10)[i]
            == spec_service_path_prefix()[i] by {
            assert(bytes[i] == chars[i] as u8);
        }
    }
    assert(bytes.skip(10) =~= chars_as_bytes(digits)) by {
        assert forall|i: int| 0 <= i < digits.len() implies bytes.skip(10)[i] == chars_as_bytes(
            digits,
        )[i] by {
            assert(bytes[10 + i] == chars[10 + i] as u8);
            assert(chars[10 + i] == digits[i]);
        }
    }
}

/// The record of what teardown still owes the native layer once the shared
/// state has been settled: both steps are owed exactly when the disconnect
/// callback had not fired at the corresponding check.
#[derive(Debug, Clone, Copy, PartialEq, Eq, Structural)]
pub struct TeardownPlan {
    /// Move the device's run-loop scheduling back to the main loop under
    /// the default mode before closing it (skipped after a disconnect: the
    /// device object may no longer accept scheduling calls).
    pub reschedule_to_main: bool,
    /// Close the native device with the original open options once the
    /// reader thread has been joined (errors there are ignored).
    pub close_native: bool,
}

/// An open HID device: the owned transport, the properties captured at
/// open time, the blocking-mode flag, and the pump state shared with the
/// device's reader thread.
pub struct HidDevice<T> {
    /// If set, reads block until data is available.
    pub blocking: bool,
    /// Options used to open the device, reused at close time.
    pub open_options: u32,
    /// The native handle's synchronous transfer operations.
    pub transport: T,
    /// The device's properties, captured at open time.
    pub props: DeviceProperties,
    /// The state shared with the device's reader thread.
    pub pump: PumpShared,
}

impl<T: HidTransport> HidDevice<T> {
    /// Construct the handle for a device that the native layer has just
    /// opened: blocking mode off, an empty queue, no flag set, the pump in
    /// its starting state. The caller then starts the reader thread and
    /// blocks until [`HidDevice::pump_startup`] has run: by the time an
    /// open returns, the pump is ready to receive and queue reports.
    pub fn open_with(transport: T, props: DeviceProperties, open_options: u32) -> (d: HidDevice<
        T,
    >)
        ensures
            !d.blocking,
            d.open_options == open_options,
            d.props == props,
    {
        HidDevice {
            blocking: false,
            open_options,
            transport,
            props,
            pump: PumpShared::new(),
        }
    }

    /// Send an output report; per the numbered-report convention the first
    /// byte is the report id, and a zero id (device not using numbered
    /// reports) is stripped before the native call. Returns the number of
    /// bytes handed to the native layer. An empty buffer is rejected before
    /// anything else happens; a device already seen disconnected is not
    /// written to.
    pub fn set_report(&mut self, kind: kIOHIDReportType, data: &[u8]) -> (r: HidResult<usize>)
        ensures
            data@.len() == 0 <==> (r matches Err(HidError::InvalidInput)),
            r matches Ok(n) ==> n == (if data@[0] == 0 {
                data@.len() - 1
            } else {
                data@.len() as int
            }),
            r matches Err(e) ==> (e == HidError::InvalidInput || e == HidError::DeviceDisconnected
                || (e matches HidError::NativeApiError { code } && code != 0)),
            final(self).blocking == old(self).blocking,
            final(self).open_options == old(self).open_options,
            final(self).props == old(self).props,
    {
        if data.len() == 0 {
            return Err(HidError::InvalidInput);
        }
        let report_id = data[0];
        let payload: &[u8] = if report_id == 0 {
            slice_subrange(data, 1, data.len())
        } else {
            data
        };
        if self.pump.is_disconnected() {
            return Err(HidError::DeviceDisconnected);
        }
        let status = self.transport.set_report(kind, report_id, payload);
        if status != 0 {
            return Err(HidError::NativeApiError { code: status });
        }
        Ok(payload.len())
    }

    /// Receive a report; per the numbered-report convention the first byte
    /// of the buffer names the report id, and a zero id makes the native
    /// layer fill the buffer past that reserved leading byte, which the
    /// returned length then accounts for (see [`finish_get_report`]). An
    /// empty buffer is rejected before anything else happens; a device
    /// already seen disconnected is not read from.
    pub fn get_report(&mut self, kind: kIOHIDReportType, buf: &mut Vec<u8>) -> (r: HidResult<
        usize,
    >)
        ensures
            old(buf)@.len() == 0 <==> (r matches Err(HidError::InvalidInput)),
            r matches Err(e) ==> (e == HidError::InvalidInput || e == HidError::DeviceDisconnected
                || (e matches HidError::NativeApiError { code } && code != 0)),
            r matches Ok(n) ==> n <= final(buf)@.len(),
            final(self).blocking == old(self).blocking,
            final(self).open_options == old(self).open_options,
            final(self).props == old(self).props,
    {
        if buf.len() == 0 {
            return Err(HidError::InvalidInput);
        }
        let report_id = buf[0];
        let offset: usize = if report_id == 0 {
            1
        } else {
            0
        };
        if self.pump.is_disconnected() {
            return Err(HidError::DeviceDisconnected);
        }
        let (native_len, status) = self.transport.get_report(kind, report_id, buf, offset);
        if status != 0 {
            return Err(HidError::NativeApiError { code: status });
        }
        Ok(finish_get_report(report_id, native_len, buf.len()))
    }

    /// Send `data` as an output report (see [`HidDevice::set_report`]).
    pub fn write(&mut self, data: &[u8]) -> (r: HidResult<usize>)
        ensures
            data@.len() == 0 <==> (r matches Err(HidError::InvalidInput)),
            r matches Ok(n) ==> n == (if data@[0] == 0 {
                data@.len() - 1
            } else {
                data@.len() as int
            }),
            r matches Err(e) ==> (e == HidError::InvalidInput || e == HidError::DeviceDisconnected
                || (e matches HidError::NativeApiError { code } && code != 0)),
            final(self).blocking == old(self).blocking,
    {
        self.set_report(kIOHIDReportType::Output, data)
    }

    /// Send `data` as a feature report (see [`HidDevice::set_report`]).
    pub fn send_feature_report(&mut self, data: &[u8]) -> (r: HidResult<()>)
        ensures
            data@.len() == 0 <==> (r matches Err(HidError::InvalidInput)),
            r matches Err(e) ==> (e == HidError::InvalidInput || e == HidError::DeviceDisconnected
                || (e matches HidError::NativeApiError { code } && code != 0)),
            final(self).blocking == old(self).blocking,
    {
        match self.set_report(kIOHIDReportType::Feature, data) {
            Ok(_) => Ok(()),
            Err(e) => Err(e),
        }
    }

    /// Receive a feature report (see [`HidDevice::get_report`]).
    pub fn get_feature_report(&mut self, buf: &mut Vec<u8>) -> (r: HidResult<usize>)
        ensures
            old(buf)@.len() == 0 <==> (r matches Err(HidError::InvalidInput)),
            r matches Err(e) ==> (e == HidError::InvalidInput || e == HidError::DeviceDisconnected
                || (e matches HidError::NativeApiError { code } && code != 0)),
            r matches Ok(n) ==> n <= final(buf)@.len(),
            final(self).blocking == old(self).blocking,
    {
        self.get_report(kIOHIDReportType::Feature, buf)
    }

    /// Read one queued input report into `buf`, waiting as the timeout
    /// asks: `-1` blocks until something arrives, `0` polls, a positive
    /// value waits out at most that many milliseconds (returning `Ok(0)` on
    /// expiry). A queued report is always delivered, even after a
    /// disconnect; only with an empty queue do the terminal flags turn into
    /// errors (see [`crate::pump::PumpCore::read_step`]).
    pub fn read_timeout(&self, buf: &mut [u8], timeout: i32) -> (r: HidResult<usize>)
        ensures
            r matches Ok(n) ==> n <= old(buf)@.len() && final(buf)@.len() == old(buf)@.len(),
            r matches Err(e) ==> {
                &&& (e == HidError::DeviceDisconnected || e == HidError::ThreadShutdown)
                &&& final(buf)@ == old(buf)@
            },
    {
        self.pump.read_timeout(buf, timeout)
    }

    /// Read one queued input report, blocking when the handle's blocking
    /// mode is set and polling otherwise (see [`HidDevice::read_timeout`]).
    pub fn read(&self, buf: &mut [u8]) -> (r: HidResult<usize>)
        ensures
            r matches Ok(n) ==> n <= old(buf)@.len() && final(buf)@.len() == old(buf)@.len(),
            r matches Err(e) ==> {
                &&& (e == HidError::DeviceDisconnected || e == HidError::ThreadShutdown)
                &&& final(buf)@ == old(buf)@
            },
    {
        let timeout: i32 = if self.blocking {
            -1
        } else {
            0
        };
        self.pump.read_timeout(buf, timeout)
    }

    /// Set whether reads block until data is available.
    pub fn set_blocking_mode(&mut self, blocking: bool) -> (r: HidResult<()>)
        ensures
            r is Ok,
            final(self).blocking == blocking,
            final(self).open_options == old(self).open_options,
            final(self).props == old(self).props,
    {
        self.blocking = blocking;
        Ok(())
    }

    /// Device information for the primary usage page, from the properties
    /// captured at open time.
    pub fn get_device_info(&self) -> (r: HidResult<DeviceInfo>)
        ensures
            r matches Ok(info) && is_info_for(
                info,
                self.props,
                spec_opt_i32_or_zero(self.props.primary_usage_page) as u16,
                spec_opt_i32_or_zero(self.props.primary_usage) as u16,
            ),
    {
        let mut infos = get_device_infos(&self.props);
        Ok(infos.remove(0))
    }

    /// The manufacturer string, when the device reports one.
    pub fn get_manufacturer_string(&self) -> (r: HidResult<Option<String>>)
        ensures
            r matches Ok(s) && opt_view(s) == opt_view(self.props.manufacturer),
    {
        match self.get_device_info() {
            Ok(info) => Ok(info.manufacturer_string),
            Err(e) => Err(e),
        }
    }

    /// The product string, when the device reports one.
    pub fn get_product_string(&self) -> (r: HidResult<Option<String>>)
        ensures
            r matches Ok(s) && opt_view(s) == opt_view(self.props.product),
    {
        match self.get_device_info() {
            Ok(info) => Ok(info.product_string),
            Err(e) => Err(e),
        }
    }

    /// The serial-number string, when the device reports one.
    pub fn get_serial_number_string(&self) -> (r: HidResult<Option<String>>)
        ensures
            r matches Ok(s) && opt_view(s) == opt_view(self.props.serial_number),
    {
        match self.get_device_info() {
            Ok(info) => Ok(info.serial_number),
            Err(e) => Err(e),
        }
    }

    /// Copy the device's report descriptor into `buf`; returns how many
    /// bytes were copied. Fails when the device exposes no descriptor.
    pub fn get_report_descriptor(&self, buf: &mut [u8]) -> (r: HidResult<usize>)
        ensures
            self.props.report_descriptor is None <==> (r matches Err(HidError::NativeApiError {
                code: -1,
            })),
            r matches Ok(n) ==> {
                &&& self.props.report_descriptor matches Some(d)
                &&& n == if d@.len() <= old(buf)@.len() {
                    d@.len() as int
                } else {
                    old(buf)@.len() as int
                }
                &&& final(buf)@.len() == old(buf)@.len()
                &&& forall|i: int| 0 <= i < n ==> final(buf)@[i] == d@[i]
            },
    {
        match &self.props.report_descriptor {
            Some(d) => Ok(crate::pump::return_data(d.as_slice(), buf)),
            None => Err(HidError::NativeApiError { code: -1 }),
        }
    }

    /// The pump thread's input-report callback: copy the native layer's
    /// transient buffer (it is reused as soon as the callback returns),
    /// buffer the copy — evicting the oldest report when 30 are already
    /// queued — and wake one waiting reader.
    pub fn input_report_callback(&self, report: &[u8]) {
        let owned = slice_to_vec(report);
        self.pump.deliver_input_report(owned);
    }

    /// The pump thread's removal callback: mark the device disconnected
    /// (the flag is never cleared). The native run loop's own wake-up
    /// happens outside, on the native handle.
    pub fn removal_callback(&self) {
        self.pump.signal_disconnect();
    }

    /// The reader thread's startup step: publish its run-loop and
    /// wake-source handles and let the startup handshake complete.
    pub fn pump_startup(&self, run_loop: u64, wake_source: u64) {
        self.pump.complete_startup(run_loop, wake_source);
    }

    /// The pump loop's guard condition.
    pub fn pump_should_continue(&self) -> bool {
        self.pump.should_continue()
    }

    /// Apply one run-loop slice's outcome (see
    /// [`crate::pump::PumpCore::loop_step`]); returns whether the loop
    /// should keep running.
    pub fn pump_loop_step(&self, outcome: RunLoopOutcome) -> bool {
        self.pump.run_loop_step(outcome)
    }

    /// The pump loop has exited: release every blocked reader with a final
    /// broadcast. Queued reports stay deliverable.
    pub fn pump_drain(&self) {
        self.pump.begin_drain();
    }

    /// The reader thread is about to exit.
    pub fn pump_finish(&self) {
        self.pump.finish();
    }

    /// How many input reports are currently queued.
    pub fn queued_reports(&self) -> usize {
        self.pump.queued_reports()
    }

    /// Tear the handle down: ask the pump to stop and wake every blocked
    /// reader (no read stays blocked past this call), discard whatever is
    /// still queued, and tell the caller what it still owes the native
    /// layer — rescheduling and closing are owed exactly when the
    /// disconnect callback had not fired at the corresponding check. The
    /// caller joins the reader thread before the native close.
    pub fn close(&self) -> (plan: TeardownPlan)
    {
        let reschedule_to_main = !self.pump.is_disconnected();
        self.pump.request_shutdown();
        let close_native = !self.pump.is_disconnected();
        self.pump.clear_queue();
        TeardownPlan { reschedule_to_main, close_native }
    }
}

/// The native backend's enumeration and open entry points.
pub struct HidApiBackend;

impl HidApiBackend {
    /// Enumerate every record of every device the native manager reports
    /// (see [`get_hid_device_info_vector`]).
    pub fn get_hid_device_info_vector(records: &Vec<DeviceProperties>) -> (r: HidResult<
        Vec<DeviceInfo>,
    >)
        ensures
            r matches Ok(v) && crate::enumerate::all_infos_match(records@, v@),
    {
        get_hid_device_info_vector(records)
    }

    /// Which enumerated device an open call names: the first record with
    /// the given vendor and product id (and serial number, when one is
    /// asked for). Fails with `DeviceNotFound` exactly when no record
    /// matches.
    pub fn open_target(
        devices: &Vec<DeviceInfo>,
        vid: u16,
        pid: u16,
        serial: Option<&str>,
    ) -> (r: HidResult<usize>)
        ensures
            r matches Ok(i) ==> {
                &&& 0 <= i < devices@.len()
                &&& spec_device_matches(devices@[i as int], vid, pid, spec_serial_arg(serial))
                &&& forall|j: int|
                    0 <= j < i ==> !spec_device_matches(
                        #[trigger] devices@[j],
                        vid,
                        pid,
                        spec_serial_arg(serial),
                    )
            },
            r is Err <==> (forall|j: int|
                0 <= j < devices@.len() ==> !spec_device_matches(
                    #[trigger] devices@[j],
                    vid,
                    pid,
                    spec_serial_arg(serial),
                )),
            r matches Err(e) ==> e == HidError::DeviceNotFound,
    {
        match select_device(devices, vid, pid, serial) {
            Some(i) => Ok(i),
            None => Err(HidError::DeviceNotFound),
        }
    }
}

} // verus!
