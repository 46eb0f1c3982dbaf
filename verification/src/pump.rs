//! The asynchronous report pump and its synchronous read façade.
//!
//! Per open device one dedicated thread owns a native run loop, receives
//! input-report callbacks and funnels them into the bounded [`ReportQueue`];
//! foreground readers drain the queue with three timeout modes. The two
//! sides meet in [`PumpShared`]: the queue and the control flags live under
//! one lock, and a condition variable wakes blocked readers.
//!
//! The native loop itself is outside work: the thread that runs it calls
//! [`PumpShared::run_loop_step`] with each slice's outcome, and the exact
//! effect of every event is specified on [`PumpCore`].

use crate::digits::spec_decimal;
use crate::error::{HidError, HidResult};
use crate::queue::{spec_enqueue, spec_pop, ReportQueue};
use crate::sync::{wake_cond_wait, wake_mutex_lock};
use vstd::prelude::*;
use vstd::rwlock::RwLock;

verus! {

/// The states of the pump's lifecycle: `Starting` until the reader thread
/// has installed its callbacks and published its run-loop handle, `Running`
/// while the loop turns, `Draining` once the loop has exited and waiters are
/// released, `Stopped` when the thread is about to exit.
#[derive(Debug, Clone, Copy, PartialEq, Eq, Structural)]
pub enum PumpState {
    Starting,
    Running,
    Draining,
    Stopped,
}

/// What one bounded slice of the native event loop reported.
#[derive(Debug, Clone, Copy, PartialEq, Eq, Structural)]
pub enum RunLoopOutcome {
    /// The slice's time passed without activity.
    TimedOut,
    /// The loop dispatched a source (an input report or a wake signal).
    HandledSource,
    /// The loop has no live sources left: the device vanished.
    Finished,
    /// The loop was stopped outright (or anything else unexpected).
    Stopped,
}

/// What a single locked inspection of the shared state tells a reader.
#[derive(Debug)]
pub enum ReadStep {
    /// The oldest queued report; it is always delivered, even after a
    /// disconnect or shutdown.
    Report(Vec<u8>),
    /// Queue empty and the disconnect callback has fired.
    Disconnected,
    /// Queue empty and the pump has been told to stop.
    Shutdown,
    /// Queue empty and the pump is still live: the caller may wait.
    Empty,
}

/// The state shared by the foreground device handle and its reader thread,
/// as one plain value: the report queue, the two terminal flags, the pump's
/// lifecycle state, and the published run-loop and wake-source handles
/// (plain tokens standing for the native references).
///
/// Every method is total and states its exact effect; the flags are
/// monotone: once `disconnected` or `shutdown` is set, no method clears it.
pub struct PumpCore {
    /// Received input reports, oldest first.
    pub queue: ReportQueue,
    /// Set by the disconnect callback (and by a finished run loop); never
    /// cleared.
    pub disconnected: bool,
    /// Set when the handle begins teardown or the loop faults; never
    /// cleared.
    pub shutdown: bool,
    /// Where the pump stands in its lifecycle.
    pub state: PumpState,
    /// The reader thread's run-loop handle, published exactly once before
    /// the startup handshake completes.
    pub run_loop: Option<u64>,
    /// The wake source added to that run loop, published at the same time.
    pub wake_source: Option<u64>,
}

impl PumpCore {
    /// Well-formedness: the queue respects its capacity, and the run-loop
    /// and wake-source handles are absent exactly while the pump is still
    /// starting — they are published before the handshake completes and
    /// never change afterwards.
    pub open spec fn wf(&self) -> bool {
        &&& self.queue.wf()
        &&& (self.state is Starting ==> self.run_loop is None && self.wake_source is None)
        &&& (!(self.state is Starting) ==> self.run_loop is Some && self.wake_source is Some)
    }

    /// The state a freshly opened device starts in: empty queue, no flag
    /// set, handles not yet published.
    pub fn new() -> (r: Self)
        ensures
            r.wf(),
            r.queue@ == Seq::<Seq<u8>>::empty(),
            !r.disconnected,
            !r.shutdown,
            r.state is Starting,
            r.run_loop is None,
            r.wake_source is None,
    {
        PumpCore {
            queue: ReportQueue::new(),
            disconnected: false,
            shutdown: false,
            state: PumpState::Starting,
            run_loop: None,
            wake_source: None,
        }
    }

    /// Publish the reader thread's run-loop and wake-source handles and move
    /// to `Running`. Acts only in `Starting`; the handles are therefore set
    /// exactly once.
    pub fn complete_startup(&mut self, run_loop: u64, wake_source: u64)
        requires
            old(self).wf(),
        ensures
            final(self).wf(),
            final(self).queue@ == old(self).queue@,
            final(self).disconnected == old(self).disconnected,
            final(self).shutdown == old(self).shutdown,
            old(self).state is Starting ==> {
                &&& final(self).state is Running
                &&& final(self).run_loop == Some(run_loop)
                &&& final(self).wake_source == Some(wake_source)
            },
            !(old(self).state is Starting) ==> *final(self) == *old(self),
    {
        if let PumpState::Starting = self.state {
            self.run_loop = Some(run_loop);
            self.wake_source = Some(wake_source);
            self.state = PumpState::Running;
        }
    }

    /// The input-report callback's effect: buffer the report (evicting the
    /// oldest when full). Nothing else changes.
    pub fn note_input_report(&mut self, report: Vec<u8>)
        requires
            old(self).wf(),
        ensures
            final(self).wf(),
            final(self).queue@ == spec_enqueue(old(self).queue@, report@),
            final(self).disconnected == old(self).disconnected,
            final(self).shutdown == old(self).shutdown,
            final(self).state == old(self).state,
            final(self).run_loop == old(self).run_loop,
            final(self).wake_source == old(self).wake_source,
    {
        self.queue.push(report);
    }

    /// The disconnect callback's effect: set `disconnected`, which is never
    /// cleared. Nothing else changes.
    pub fn note_removal(&mut self)
        requires
            old(self).wf(),
        ensures
            final(self).wf(),
            final(self).disconnected,
            final(self).queue@ == old(self).queue@,
            final(self).shutdown == old(self).shutdown,
            final(self).state == old(self).state,
            final(self).run_loop == old(self).run_loop,
            final(self).wake_source == old(self).wake_source,
    {
        self.disconnected = true;
    }

    /// Teardown's first shared-state effect: set `shutdown`, which is never
    /// cleared. Nothing else changes.
    pub fn request_shutdown(&mut self)
        requires
            old(self).wf(),
        ensures
            final(self).wf(),
            final(self).shutdown,
            final(self).queue@ == old(self).queue@,
            final(self).disconnected == old(self).disconnected,
            final(self).state == old(self).state,
            final(self).run_loop == old(self).run_loop,
            final(self).wake_source == old(self).wake_source,
    {
        self.shutdown = true;
    }

    /// The pump loop's guard condition: keep running the native loop only
    /// while the pump is `Running` and neither flag is set.
    pub fn should_continue(&self) -> (cont: bool)
        ensures
            cont == (self.state is Running && !self.disconnected && !self.shutdown),
    {
        match self.state {
            PumpState::Running => !self.disconnected && !self.shutdown,
            _ => false,
        }
    }

    /// Apply one run-loop slice's outcome, exactly as the pump loop reacts:
    /// a `Finished` loop means the device vanished, so set `disconnected`;
    /// anything other than `HandledSource` or `TimedOut` is a fatal pump
    /// fault, so request shutdown (deliberately leaving `disconnected`
    /// alone, so callers can still tell an unplug from a fault); otherwise
    /// keep looping unless a flag was set concurrently.
    pub fn loop_step(&mut self, outcome: RunLoopOutcome) -> (cont: bool)
        requires
            old(self).wf(),
        ensures
            final(self).wf(),
            final(self).queue@ == old(self).queue@,
            final(self).state == old(self).state,
            final(self).run_loop == old(self).run_loop,
            final(self).wake_source == old(self).wake_source,
            old(self).disconnected ==> final(self).disconnected,
            old(self).shutdown ==> final(self).shutdown,
            !(old(self).state is Running) ==> *final(self) == *old(self) && !cont,
            old(self).state is Running && outcome is Finished ==> {
                &&& final(self).disconnected
                &&& final(self).shutdown == old(self).shutdown
                &&& !cont
            },
            old(self).state is Running && outcome is Stopped ==> {
                &&& final(self).shutdown
                &&& final(self).disconnected == old(self).disconnected
                &&& !cont
            },
            old(self).state is Running && (outcome is TimedOut || outcome is HandledSource) ==> {
                &&& *final(self) == *old(self)
                &&& cont == (!old(self).disconnected && !old(self).shutdown)
            },
    {
        match self.state {
            PumpState::Running => match outcome {
                RunLoopOutcome::Finished => {
                    self.disconnected = true;
                    false
                },
                RunLoopOutcome::Stopped => {
                    self.shutdown = true;
                    false
                },
                RunLoopOutcome::TimedOut | RunLoopOutcome::HandledSource => {
                    !self.disconnected && !self.shutdown
                },
            },
            _ => false,
        }
    }

    /// Leave the running loop for `Draining` (no effect in any other
    /// state). The queue and flags are untouched: queued reports stay
    /// deliverable.
    pub fn begin_drain(&mut self)
        requires
            old(self).wf(),
        ensures
            final(self).wf(),
            final(self).queue@ == old(self).queue@,
            final(self).disconnected == old(self).disconnected,
            final(self).shutdown == old(self).shutdown,
            final(self).run_loop == old(self).run_loop,
            final(self).wake_source == old(self).wake_source,
            old(self).state is Running ==> final(self).state is Draining,
            !(old(self).state is Running) ==> final(self).state == old(self).state,
    {
        if let PumpState::Running = self.state {
            self.state = PumpState::Draining;
        }
    }

    /// Leave `Draining` for `Stopped` (no effect in any other state): the
    /// reader thread is about to exit.
    pub fn finish(&mut self)
        requires
            old(self).wf(),
        ensures
            final(self).wf(),
            final(self).queue@ == old(self).queue@,
            final(self).disconnected == old(self).disconnected,
            final(self).shutdown == old(self).shutdown,
            final(self).run_loop == old(self).run_loop,
            final(self).wake_source == old(self).wake_source,
            old(self).state is Draining ==> final(self).state is Stopped,
            !(old(self).state is Draining) ==> final(self).state == old(self).state,
    {
        if let PumpState::Draining = self.state {
            self.state = PumpState::Stopped;
        }
    }

    /// One locked inspection on behalf of a reader: a queued report is
    /// always delivered first, even if the device has since disconnected;
    /// only with an empty queue do the flags decide, `disconnected` before
    /// `shutdown`; with neither set the queue is simply empty.
    pub fn read_step(&mut self) -> (step: ReadStep)
        requires
            old(self).wf(),
        ensures
            final(self).wf(),
            final(self).disconnected == old(self).disconnected,
            final(self).shutdown == old(self).shutdown,
            final(self).state == old(self).state,
            final(self).run_loop == old(self).run_loop,
            final(self).wake_source == old(self).wake_source,
            old(self).queue@.len() > 0 ==> {
                &&& step matches ReadStep::Report(v) && v@ == spec_pop(old(self).queue@).0
                &&& final(self).queue@ == spec_pop(old(self).queue@).1
            },
            old(self).queue@.len() == 0 ==> final(self).queue@ == old(self).queue@,
            old(self).queue@.len() == 0 && old(self).disconnected ==> step is Disconnected,
            old(self).queue@.len() == 0 && !old(self).disconnected && old(self).shutdown
                ==> step is Shutdown,
            old(self).queue@.len() == 0 && !old(self).disconnected && !old(self).shutdown
                ==> step is Empty,
    {
        if let Some(report) = self.queue.pop() {
            ReadStep::Report(report)
        } else if self.disconnected {
            ReadStep::Disconnected
        } else if self.shutdown {
            ReadStep::Shutdown
        } else {
            ReadStep::Empty
        }
    }

    /// Teardown's last step: discard whatever is still queued.
    pub fn clear_queue(&mut self)
        requires
            old(self).wf(),
        ensures
            final(self).wf(),
            final(self).queue@ == Seq::<Seq<u8>>::empty(),
            final(self).disconnected == old(self).disconnected,
            final(self).shutdown == old(self).shutdown,
            final(self).state == old(self).state,
            final(self).run_loop == old(self).run_loop,
            final(self).wake_source == old(self).wake_source,
    {
        self.queue.clear();
    }
}

/// The invariant every value stored in the shared lock satisfies.
pub open spec fn pump_core_inv() -> spec_fn(PumpCore) -> bool {
    |c: PumpCore| c.wf()
}

/// The characters of a device's private run-loop mode name.
pub open spec fn spec_run_loop_mode(addr: nat) -> Seq<char> {
    "HIDAPI_"@ + spec_decimal(addr)
}

/// The private run-loop mode name under which one device is scheduled on
/// its reader thread's loop, built from a token for the device's native
/// address.
pub fn make_run_loop_mode(addr: u64) -> (s: String)
    ensures
        s@ == spec_run_loop_mode(addr as nat),
{
    let mut s = String::from_str("HIDAPI_");
    crate::digits::push_decimal(addr, &mut s);
    s
}

/// Distinct devices get distinct mode names: scheduling two open devices
/// never collides on a shared mode.
pub proof fn lemma_run_loop_mode_unique(a: nat, b: nat)
    requires
        a != b,
    ensures
        spec_run_loop_mode(a) != spec_run_loop_mode(b),
{
    reveal_strlit("HIDAPI_");
    if spec_run_loop_mode(a) == spec_run_loop_mode(b) {
        assert(spec_run_loop_mode(a).skip(7) =~= spec_decimal(a));
        assert(spec_run_loop_mode(b).skip(7) =~= spec_decimal(b));
        crate::digits::lemma_decimal_injective(a, b);
    }
}

/// How long one slice of an indefinite blocking wait lasts before the
/// reader re-checks the shared state.
pub const LONG_WAIT_MS: u64 = 3_600_000;

/// What the read façade does once a locked inspection has found an empty,
/// live queue: a zero timeout polls, so it returns 0 at once and never
/// waits; a negative timeout waits (in bounded slices, woken early by any
/// delivery or shutdown); a positive timeout waits out whatever remains of
/// its deadline and returns 0 once `elapsed_ms` has reached it.
pub fn wait_budget(timeout: i32, elapsed_ms: u64) -> (r: Option<u64>)
    ensures
        timeout == 0 ==> r is None,
        timeout < 0 ==> r == Some(LONG_WAIT_MS),
        timeout > 0 && elapsed_ms >= timeout ==> r is None,
        timeout > 0 && elapsed_ms < timeout ==> r == Some((timeout - elapsed_ms) as u64),
{
    if timeout == 0 {
        None
    } else if timeout < 0 {
        Some(LONG_WAIT_MS)
    } else if elapsed_ms >= timeout as u64 {
        None
    } else {
        Some(timeout as u64 - elapsed_ms)
    }
}

/// Copy as much of `report` as fits into `buf`; returns the number of bytes
/// copied. The rest of `buf` is left as it was.
pub fn return_data(report: &[u8], buf: &mut [u8]) -> (n: usize)
    ensures
        n == if report@.len() <= old(buf)@.len() {
            report@.len()
        } else {
            old(buf)@.len()
        },
        final(buf)@.len() == old(buf)@.len(),
        forall|i: int| 0 <= i < n ==> final(buf)@[i] == report@[i],
        forall|i: int| n <= i < old(buf)@.len() ==> final(buf)@[i] == old(buf)@[i],
{
    let ghost buf0 = buf@;
    let copy_len = if buf.len() < report.len() {
        buf.len()
    } else {
        report.len()
    };
    let mut i: usize = 0;
    while i < copy_len
        invariant
            i <= copy_len,
            copy_len <= report@.len(),
            copy_len <= buf@.len(),
            buf@.len() == buf0.len(),
            forall|j: int| 0 <= j < i ==> buf@[j] == report@[j],
            forall|j: int| i <= j < buf0.len() ==> buf@[j] == buf0[j],
        decreases copy_len - i,
    {
        buf[i] = report[i];
        i = i + 1;
    }
    copy_len
}

/// The shared meeting point of the two threads: the [`PumpCore`] under a
/// lock, and a condition variable (with its own small mutex) that wakes
/// blocked readers. All methods take `&self`; the handle and the reader
/// thread each keep a reference.
pub struct PumpShared {
    core: RwLock<PumpCore, spec_fn(PumpCore) -> bool>,
    wake_lock: std::sync::Mutex<u8>,
    wake_cond: std::sync::Condvar,
}

impl PumpShared {
    #[verifier::type_invariant]
    spec fn lock_inv(&self) -> bool {
        self.core.pred() == pump_core_inv()
    }

    /// Fresh shared state for a device being opened: a new [`PumpCore`] in
    /// its `Starting` state.
    pub fn new() -> Self {
        PumpShared {
            core: RwLock::new(PumpCore::new(), Ghost(pump_core_inv())),
            wake_lock: std::sync::Mutex::new(0u8),
            wake_cond: std::sync::Condvar::new(),
        }
    }

    /// Pump-side entry, the input-report callback: buffer the report
    /// (evicting the oldest when full, per [`PumpCore::note_input_report`])
    /// and wake one waiting reader.
    pub fn deliver_input_report(&self, report: Vec<u8>) {
        proof {
            use_type_invariant(self);
        }
        let (mut core, handle) = self.core.acquire_write();
        core.note_input_report(report);
        handle.release_write(core);
        // The wake lock is held across the notify: a reader that found the
        // queue empty either has not taken this lock yet (and will see the
        // report), or is already inside the wait (and receives the notify).
        let _wake_guard = wake_mutex_lock(&self.wake_lock);
        self.wake_cond.notify_one();
    }

    /// Pump-side entry, the removal callback: set the `disconnected` flag
    /// (never cleared, per [`PumpCore::note_removal`]). The run loop's own
    /// wake-up happens outside, on the native handle.
    pub fn signal_disconnect(&self) {
        proof {
            use_type_invariant(self);
        }
        let (mut core, handle) = self.core.acquire_write();
        core.note_removal();
        handle.release_write(core);
    }

    /// Teardown entry: set the `shutdown` flag (never cleared, per
    /// [`PumpCore::request_shutdown`]) and wake every blocked reader, so no
    /// read stays blocked past this point.
    pub fn request_shutdown(&self) {
        proof {
            use_type_invariant(self);
        }
        let (mut core, handle) = self.core.acquire_write();
        core.request_shutdown();
        handle.release_write(core);
        let _wake_guard = wake_mutex_lock(&self.wake_lock);
        self.wake_cond.notify_all();
    }

    /// Reader-thread entry: publish the run-loop and wake-source handles and
    /// move the pump to `Running` (per [`PumpCore::complete_startup`]). The
    /// startup handshake may complete once this returns: the pump is then
    /// ready to receive and queue reports.
    pub fn complete_startup(&self, run_loop: u64, wake_source: u64) {
        proof {
            use_type_invariant(self);
        }
        let (mut core, handle) = self.core.acquire_write();
        core.complete_startup(run_loop, wake_source);
        handle.release_write(core);
    }

    /// The pump loop's guard condition, read under the lock.
    pub fn should_continue(&self) -> bool {
        proof {
            use_type_invariant(self);
        }
        let read_handle = self.core.acquire_read();
        let cont = read_handle.borrow().should_continue();
        read_handle.release_read();
        cont
    }

    /// Apply one run-loop slice's outcome (per [`PumpCore::loop_step`]);
    /// returns whether the loop should keep running.
    pub fn run_loop_step(&self, outcome: RunLoopOutcome) -> bool {
        proof {
            use_type_invariant(self);
        }
        let (mut core, handle) = self.core.acquire_write();
        let cont = core.loop_step(outcome);
        handle.release_write(core);
        cont
    }

    /// Enter `Draining` (per [`PumpCore::begin_drain`]) and wake every
    /// queue waiter with a final broadcast, so no reader blocks forever
    /// once the loop has exited.
    pub fn begin_drain(&self) {
        proof {
            use_type_invariant(self);
        }
        let (mut core, handle) = self.core.acquire_write();
        core.begin_drain();
        handle.release_write(core);
        let _wake_guard = wake_mutex_lock(&self.wake_lock);
        self.wake_cond.notify_all();
    }

    /// Enter `Stopped` (per [`PumpCore::finish`]): the reader thread is
    /// about to exit and will touch the shared state no further.
    pub fn finish(&self) {
        proof {
            use_type_invariant(self);
        }
        let (mut core, handle) = self.core.acquire_write();
        core.finish();
        handle.release_write(core);
    }

    /// Whether the disconnect callback has fired, read under the lock.
    pub fn is_disconnected(&self) -> bool {
        proof {
            use_type_invariant(self);
        }
        let read_handle = self.core.acquire_read();
        let disconnected = read_handle.borrow().disconnected;
        read_handle.release_read();
        disconnected
    }

    /// Teardown's last step: discard whatever is still queued.
    pub fn clear_queue(&self) {
        proof {
            use_type_invariant(self);
        }
        let (mut core, handle) = self.core.acquire_write();
        core.clear_queue();
        handle.release_write(core);
    }

    /// How many reports are currently buffered, read under the lock.
    pub fn queued_reports(&self) -> usize {
        proof {
            use_type_invariant(self);
        }
        let read_handle = self.core.acquire_read();
        let n = read_handle.borrow().queue.len();
        read_handle.release_read();
        n
    }

    /// The synchronous read façade. Each pass inspects the shared state
    /// under the lock (per [`PumpCore::read_step`], so a queued report wins
    /// over a disconnect, and `disconnected` wins over `shutdown`); on an
    /// empty, live queue the timeout decides: `0` returns `Ok(0)` at once
    /// without waiting, a positive value waits out at most that many
    /// milliseconds before returning `Ok(0)`, and `-1` waits until a
    /// delivery, a disconnect or a shutdown wakes the reader.
    pub fn read_timeout(&self, buf: &mut [u8], timeout: i32) -> (r: HidResult<usize>)
        ensures
            r matches Ok(n) ==> n <= old(buf)@.len() && final(buf)@.len() == old(buf)@.len(),
            r matches Err(e) ==> {
                &&& (e == HidError::DeviceDisconnected || e == HidError::ThreadShutdown)
                &&& final(buf)@ == old(buf)@
            },
    {
        proof {
            use_type_invariant(self);
        }
        let start = std::time::Instant::now();
        let ghost buf0 = buf@;
        // Every pass either returns or blocks on the condition variable
        // until the next wakeup; the counter only gives the re-check loop a
        // formal bound.
        let mut fuel: u64 = u64::MAX;
        while fuel > 0
            invariant
                self.lock_inv(),
                buf@ == buf0,
                buf0 == old(buf)@,
            decreases fuel,
        {
            fuel = fuel - 1;
            let guard = wake_mutex_lock(&self.wake_lock);
            let (mut core, handle) = self.core.acquire_write();
            let step = core.read_step();
            handle.release_write(core);
            match step {
                ReadStep::Report(report) => {
                    return Ok(return_data(report.as_slice(), buf));
                },
                ReadStep::Disconnected => {
                    return Err(HidError::DeviceDisconnected);
                },
                ReadStep::Shutdown => {
                    return Err(HidError::ThreadShutdown);
                },
                ReadStep::Empty => {
                    let elapsed_wide = start.elapsed().as_millis();
                    let elapsed: u64 = if elapsed_wide > u64::MAX as u128 {
                        u64::MAX
                    } else {
                        elapsed_wide as u64
                    };
                    let wait_ms: u64 = match wait_budget(timeout, elapsed) {
                        None => {
                            return Ok(0);
                        },
                        Some(ms) => ms,
                    };
                    let _released = wake_cond_wait(
                        &self.wake_cond,
                        guard,
                        core::time::Duration::from_millis(wait_ms),
                    );
                },
            }
        }
        Ok(0)
    }
}

} // verus!
