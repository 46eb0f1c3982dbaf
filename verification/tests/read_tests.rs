use hidapi::device::{kIOHIDReportType, HidDevice, HidTransport};
use hidapi::enumerate::DeviceProperties;
use hidapi::pump::RunLoopOutcome;
use hidapi::HidError;
use std::time::{Duration, Instant};

/// Busy-wait for about `ms` milliseconds (tests cannot sleep).
fn pause(ms: u64) {
    let start = Instant::now();
    while start.elapsed() < Duration::from_millis(ms) {
        std::hint::spin_loop();
    }
}

/// A transport that accepts everything; reads here exercise the pump, not
/// the synchronous transfers.
struct NullTransport;

impl HidTransport for NullTransport {
    fn set_report(&mut self, _kind: kIOHIDReportType, _report_id: u8, _data: &[u8]) -> i32 {
        0
    }

    fn get_report(
        &mut self,
        _kind: kIOHIDReportType,
        _report_id: u8,
        _buf: &mut Vec<u8>,
        _offset: usize,
    ) -> (usize, i32) {
        (0, 0)
    }
}

fn props() -> DeviceProperties {
    DeviceProperties {
        vendor_id: Some(1),
        product_id: Some(2),
        registry_entry_id: None,
        serial_number: None,
        manufacturer: None,
        product: None,
        version_number: None,
        transport: None,
        primary_usage_page: None,
        primary_usage: None,
        usage_pairs: Vec::new(),
        usb_interface_number: None,
        max_input_report_len: Some(64),
        report_descriptor: None,
    }
}

fn device() -> HidDevice<NullTransport> {
    let dev = HidDevice::open_with(NullTransport, props(), 0);
    dev.pump_startup(1, 1);
    dev
}

#[test]
fn poll_on_empty_queue_returns_zero_immediately() {
    let dev = device();
    let mut buf = [0u8; 8];
    let start = Instant::now();
    assert_eq!(dev.read_timeout(&mut buf, 0), Ok(0));
    assert!(start.elapsed() < Duration::from_millis(100));
}

#[test]
fn nonblocking_read_polls() {
    let mut dev = device();
    dev.set_blocking_mode(false).unwrap();
    let mut buf = [0u8; 8];
    let start = Instant::now();
    assert_eq!(dev.read(&mut buf), Ok(0));
    assert!(start.elapsed() < Duration::from_millis(100));
}

#[test]
fn timed_read_waits_out_its_deadline() {
    let dev = device();
    let mut buf = [0u8; 8];
    let start = Instant::now();
    assert_eq!(dev.read_timeout(&mut buf, 100), Ok(0));
    let elapsed = start.elapsed();
    assert!(elapsed >= Duration::from_millis(80), "returned after {:?}", elapsed);
    assert!(elapsed < Duration::from_millis(2000), "returned after {:?}", elapsed);
}

#[test]
fn run_loop_mode_names_are_per_device() {
    assert_eq!(hidapi::pump::make_run_loop_mode(42), String::from("HIDAPI_42"));
    assert_ne!(
        hidapi::pump::make_run_loop_mode(1),
        hidapi::pump::make_run_loop_mode(2)
    );
}

#[test]
fn wait_budget_polls_waits_and_expires() {
    assert_eq!(hidapi::pump::wait_budget(0, 0), None);
    assert_eq!(hidapi::pump::wait_budget(0, 999), None);
    assert_eq!(hidapi::pump::wait_budget(-1, 12345), Some(hidapi::pump::LONG_WAIT_MS));
    assert_eq!(hidapi::pump::wait_budget(100, 40), Some(60));
    assert_eq!(hidapi::pump::wait_budget(100, 100), None);
    assert_eq!(hidapi::pump::wait_budget(100, 250), None);
}

#[test]
fn queued_report_is_returned_and_truncated_to_the_buffer() {
    let dev = device();
    dev.input_report_callback(&[1, 2, 3, 4]);
    let mut buf = [0u8; 2];
    assert_eq!(dev.read_timeout(&mut buf, 0), Ok(2));
    assert_eq!(buf, [1, 2]);
}

#[test]
fn blocking_read_returns_a_concurrent_enqueue() {
    // A read with timeout -1 blocks until an enqueue from another thread
    // arrives, then returns the enqueued bytes.
    let dev = device();
    let start = Instant::now();
    let mut buf = [0u8; 8];
    let mut r = Ok(0);
    let mut elapsed = Duration::from_millis(0);
    crossbeam_utils::thread::scope(|s| {
        s.spawn(|_| {
            pause(50);
            dev.input_report_callback(&[9, 9, 9]);
        });
        r = dev.read_timeout(&mut buf, -1);
        elapsed = start.elapsed();
    })
    .unwrap();
    assert_eq!(r, Ok(3));
    assert_eq!(&buf[..3], &[9, 9, 9]);
    assert!(elapsed >= Duration::from_millis(45), "returned after {:?}", elapsed);
    assert!(elapsed < Duration::from_millis(1000), "returned after {:?}", elapsed);
}

#[test]
fn disconnect_with_empty_queue_fails_reads() {
    let dev = device();
    dev.removal_callback();
    let mut buf = [0u8; 8];
    assert_eq!(dev.read_timeout(&mut buf, 0), Err(HidError::DeviceDisconnected));
    assert_eq!(dev.read_timeout(&mut buf, -1), Err(HidError::DeviceDisconnected));
    assert_eq!(dev.read_timeout(&mut buf, 50), Err(HidError::DeviceDisconnected));
}

#[test]
fn queued_reports_survive_a_disconnect() {
    // A queued report is delivered even after the disconnect fired; only
    // the read after the queue drains sees the error.
    let dev = device();
    dev.input_report_callback(&[7, 7]);
    dev.removal_callback();
    let mut buf = [0u8; 8];
    assert_eq!(dev.read_timeout(&mut buf, 0), Ok(2));
    assert_eq!(dev.read_timeout(&mut buf, 0), Err(HidError::DeviceDisconnected));
}

#[test]
fn roundtrip_delivers_every_report_in_order() {
    // Writing N <= 30 reports through the pump's callback and reading N
    // times yields the original buffers in order; one more non-blocking
    // read returns Ok(0).
    let dev = device();
    for n in 0u8..30 {
        dev.input_report_callback(&[n, n ^ 0x5A]);
    }
    let mut buf = [0u8; 8];
    for n in 0u8..30 {
        assert_eq!(dev.read_timeout(&mut buf, 0), Ok(2));
        assert_eq!(&buf[..2], &[n, n ^ 0x5A]);
    }
    assert_eq!(dev.read_timeout(&mut buf, 0), Ok(0));
}

#[test]
fn pump_overflow_evicts_the_oldest_report() {
    let dev = device();
    for n in 1u8..=31 {
        dev.input_report_callback(&[n]);
    }
    assert_eq!(dev.queued_reports(), 30);
    let mut buf = [0u8; 8];
    assert_eq!(dev.read_timeout(&mut buf, 0), Ok(1));
    assert_eq!(buf[0], 2);
}

#[test]
fn closing_wakes_a_blocked_reader() {
    // Closing the handle while a read with timeout -1 is blocked on
    // another thread releases that read within a bounded time.
    let dev = device();
    crossbeam_utils::thread::scope(|s| {
        let handle = s.spawn(|_| {
            let mut buf = [0u8; 8];
            let r = dev.read_timeout(&mut buf, -1);
            (r, Instant::now())
        });
        pause(50);
        let closed_at = Instant::now();
        let plan = dev.close();
        assert!(plan.reschedule_to_main);
        assert!(plan.close_native);
        let (r, returned_at) = handle.join().unwrap();
        assert_eq!(r, Err(HidError::ThreadShutdown));
        assert!(returned_at.duration_since(closed_at) < Duration::from_millis(200));
    })
    .unwrap();
}

#[test]
fn close_discards_queued_reports() {
    let dev = device();
    dev.input_report_callback(&[1]);
    dev.input_report_callback(&[2]);
    dev.close();
    assert_eq!(dev.queued_reports(), 0);
    let mut buf = [0u8; 8];
    assert_eq!(dev.read_timeout(&mut buf, 0), Err(HidError::ThreadShutdown));
}

#[test]
fn close_after_disconnect_owes_no_native_steps() {
    let dev = device();
    dev.removal_callback();
    let plan = dev.close();
    assert!(!plan.reschedule_to_main);
    assert!(!plan.close_native);
}

#[test]
fn ordinary_loop_slices_keep_the_pump_running() {
    let dev = device();
    assert!(dev.pump_should_continue());
    assert!(dev.pump_loop_step(RunLoopOutcome::TimedOut));
    assert!(dev.pump_loop_step(RunLoopOutcome::HandledSource));
    assert!(dev.pump_should_continue());
}

#[test]
fn finished_loop_means_disconnect() {
    let dev = device();
    assert!(!dev.pump_loop_step(RunLoopOutcome::Finished));
    assert!(!dev.pump_should_continue());
    let mut buf = [0u8; 8];
    assert_eq!(dev.read_timeout(&mut buf, 0), Err(HidError::DeviceDisconnected));
}

#[test]
fn stopped_loop_is_a_fault_not_a_disconnect() {
    let dev = device();
    assert!(!dev.pump_loop_step(RunLoopOutcome::Stopped));
    assert!(!dev.pump_should_continue());
    let mut buf = [0u8; 8];
    // The fault requests shutdown but deliberately leaves the
    // disconnected flag alone.
    assert_eq!(dev.read_timeout(&mut buf, 0), Err(HidError::ThreadShutdown));
}

#[test]
fn draining_releases_blocked_readers() {
    let dev = device();
    crossbeam_utils::thread::scope(|s| {
        let handle = s.spawn(|_| {
            let mut buf = [0u8; 8];
            dev.read_timeout(&mut buf, -1)
        });
        pause(50);
        dev.removal_callback();
        assert!(!dev.pump_loop_step(RunLoopOutcome::TimedOut));
        dev.pump_drain();
        dev.pump_finish();
        assert_eq!(handle.join().unwrap(), Err(HidError::DeviceDisconnected));
    })
    .unwrap();
}
