//! The driver: one simulation run's configuration, watchdog, optional
//! capture control and memory, behind the per-cycle operations.
use vstd::prelude::*;
use crate::memory::{word_at, words_of, zero_filled, builtin_program, Memory, MEMORY_WORDS};
use crate::watchdog::{
    core_verdict, timed_out, trace_init_step, trace_step, TraceAction, TraceControl, TraceState,
    TraceWindow, Verdict, Watchdog,
};

verus! {

/// The settings of one run, fixed when the driver is built.
pub struct Config {
    /// Bit width of the design's data path.
    pub data_width: u64,
    /// Cycles allowed between two inputs before the run counts as stalled.
    pub timeout: u64,
    /// Number of test iterations the run must complete.
    pub test_size: u64,
    /// Raw simulation-time units per clock cycle.
    pub clock_flip_time: u64,
    /// The capture window, when waveform capture is wanted.
    pub trace: Option<TraceWindow>,
}

/// A configuration that no run can use.
#[derive(Clone, Copy, Debug, PartialEq, Eq, Structural)]
pub enum ConfigError {
    /// `clock_flip_time` is zero: the cycle count would divide by zero.
    ZeroClockFlipTime,
}

/// What one watchdog poll reports: the verdict, whether the caller must
/// begin the waveform capture now, and the clock cycle it judged.
#[derive(Clone, Copy, Debug, PartialEq, Eq, Structural)]
pub struct Poll {
    pub verdict: Verdict,
    pub begin_capture: bool,
    pub tick: u64,
}

/// What a driver holds besides its memory.
#[derive(Clone, Copy, Debug, PartialEq, Eq, Structural)]
pub struct DriverState {
    pub data_width: u64,
    pub clock_flip_time: u64,
    pub watchdog: Watchdog,
    /// `None` when the run captures no waveform.
    pub trace: Option<TraceState>,
}

/// The clock cycle at raw simulation time `time`.
pub open spec fn tick_of(time: u64, clock_flip_time: u64) -> u64 {
    (time / clock_flip_time) as u64
}

/// The state after one poll at raw time `time`, and what that poll reports.
/// Completion and stalling come first; the capture window decides the rest.
pub open spec fn poll_step(s: DriverState, time: u64) -> (DriverState, Poll) {
    let tick = tick_of(time, s.clock_flip_time);
    match core_verdict(s.watchdog, tick) {
        Some(v) => (s, Poll { verdict: v, begin_capture: false, tick }),
        None => match s.trace {
            None => (s, Poll { verdict: Verdict::Continue, begin_capture: false, tick }),
            Some(t) => {
                let (t2, a) = trace_step(t, tick);
                let s2 = DriverState { trace: Some(t2), ..s };
                match a {
                    TraceAction::Finish => (s2, Poll { verdict: Verdict::Finish, begin_capture: false, tick }),
                    TraceAction::BeginCapture => (s2, Poll { verdict: Verdict::Continue, begin_capture: true, tick }),
                    TraceAction::Idle => (s2, Poll { verdict: Verdict::Continue, begin_capture: false, tick }),
                }
            },
        },
    }
}

/// The state after the check made at cycle zero, and whether it begins the
/// capture.
pub open spec fn init_step(s: DriverState) -> (DriverState, bool) {
    match s.trace {
        None => (s, false),
        Some(t) => {
            let (t2, b) = trace_init_step(t);
            (DriverState { trace: Some(t2), ..s }, b)
        },
    }
}

/// The state right after construction from `c`.
pub open spec fn initial_state(c: Config) -> DriverState {
    DriverState {
        data_width: c.data_width,
        clock_flip_time: c.clock_flip_time,
        watchdog: Watchdog { test_size: c.test_size, timeout: c.timeout, test_num: 0, last_input_cycle: 0 },
        trace: match c.trace {
            Some(w) => Some(TraceState { window: w, started: false }),
            None => None,
        },
    }
}

/// The memory that a run starts with: the image's words when one is given,
/// else the built-in program, zero-filled to the standard capacity.
pub open spec fn initial_memory(image: Option<Seq<u8>>) -> Seq<u32> {
    match image {
        Some(b) => zero_filled(words_of(b), MEMORY_WORDS as nat),
        None => zero_filled(builtin_program(), MEMORY_WORDS as nat),
    }
}

/// The state after input arrives at raw time `time`: it becomes the
/// reference point of the stall check, which never moves backwards.
pub open spec fn input_step(s: DriverState, time: u64) -> DriverState {
    let tick = tick_of(time, s.clock_flip_time);
    let last = s.watchdog.last_input_cycle;
    DriverState {
        watchdog: Watchdog { last_input_cycle: if tick > last { tick } else { last }, ..s.watchdog },
        ..s
    }
}

/// The capture state that an optional control holds.
pub open spec fn trace_view(t: Option<TraceControl>) -> Option<TraceState> {
    match t {
        Some(c) => Some(c@),
        None => None,
    }
}

fn init_trace(trace: &mut Option<TraceControl>) -> (begin: bool)
    ensures
        match trace_view(*old(trace)) {
            None => trace_view(*final(trace)) == None::<TraceState> && !begin,
            Some(t) => trace_view(*final(trace)) == Some(trace_init_step(t).0) && begin == trace_init_step(t).1,
        },
    no_unwind
{
    match trace {
        Some(t) => t.init(),
        None => false,
    }
}

fn poll_trace(trace: &mut Option<TraceControl>, tick: u64) -> (r: Poll)
    ensures
        match trace_view(*old(trace)) {
            None => trace_view(*final(trace)) == None::<TraceState>
                && r == (Poll { verdict: Verdict::Continue, begin_capture: false, tick }),
            Some(t) => trace_view(*final(trace)) == Some(trace_step(t, tick).0) && r == match trace_step(t, tick).1 {
                TraceAction::Finish => Poll { verdict: Verdict::Finish, begin_capture: false, tick },
                TraceAction::BeginCapture => Poll { verdict: Verdict::Continue, begin_capture: true, tick },
                TraceAction::Idle => Poll { verdict: Verdict::Continue, begin_capture: false, tick },
            },
        },
    no_unwind
{
    match trace {
        None => Poll { verdict: Verdict::Continue, begin_capture: false, tick },
        Some(t) => match t.poll(tick) {
            TraceAction::Finish => Poll { verdict: Verdict::Finish, begin_capture: false, tick },
            TraceAction::BeginCapture => Poll { verdict: Verdict::Continue, begin_capture: true, tick },
            TraceAction::Idle => Poll { verdict: Verdict::Continue, begin_capture: false, tick },
        },
    }
}

/// The cycle count never goes back as raw time advances.
pub proof fn lemma_tick_monotonic(t1: u64, t2: u64, clock_flip_time: u64)
    requires
        clock_flip_time > 0,
        t1 <= t2,
    ensures
        tick_of(t1, clock_flip_time) <= tick_of(t2, clock_flip_time),
        tick_of(t1, clock_flip_time) == t1 / clock_flip_time,
{
    vstd::arithmetic::div_mod::lemma_div_is_ordered(t1 as int, t2 as int, clock_flip_time as int);
}

/// A run that has completed its tests is finished, whether or not it has
/// also stalled.
pub proof fn lemma_completion_outranks_timeout(s: DriverState, time: u64)
    requires
        s.watchdog.test_num >= s.watchdog.test_size,
    ensures
        poll_step(s, time).1.verdict == Verdict::Finish,
        poll_step(s, time).0 == s,
{
}

/// A run with tests left that has seen no input for more than `timeout`
/// cycles has timed out.
pub proof fn lemma_timeout_fires(s: DriverState, time: u64)
    requires
        s.watchdog.test_num < s.watchdog.test_size,
        timed_out(s.watchdog, tick_of(time, s.clock_flip_time)),
    ensures
        poll_step(s, time).1.verdict == Verdict::Timeout,
{
}

/// A second poll at one raw time reports the verdict of the first: a poll
/// alters only the capture latch.
pub proof fn lemma_poll_repeatable(s: DriverState, time: u64)
    ensures
        poll_step(poll_step(s, time).0, time).1.verdict == poll_step(s, time).1.verdict,
        poll_step(s, time).0.watchdog == s.watchdog,
{
}

/// The progress of a run never goes back: polls keep it, and input only
/// moves the stall reference forwards.
pub proof fn lemma_progress_monotonic(s: DriverState, time: u64)
    ensures
        input_step(s, time).watchdog.test_num == s.watchdog.test_num,
        input_step(s, time).watchdog.last_input_cycle >= s.watchdog.last_input_cycle,
        poll_step(s, time).0.watchdog.test_num == s.watchdog.test_num,
        poll_step(s, time).0.watchdog.last_input_cycle == s.watchdog.last_input_cycle,
{
}

/// Whether the capture can no longer be requested: it already was, or the
/// run captures nothing.
pub open spec fn capture_done(s: DriverState) -> bool {
    match s.trace {
        Some(t) => t.started,
        None => true,
    }
}

/// How many of the polls at the raw times `times`, made in order from state
/// `s`, ask to begin the capture.
pub open spec fn capture_requests(s: DriverState, times: Seq<u64>) -> nat
    decreases times.len(),
{
    if times.len() == 0 {
        0
    } else {
        let (s2, p) = poll_step(s, times[0]);
        (if p.begin_capture { 1nat } else { 0nat }) + capture_requests(s2, times.drop_first())
    }
}

/// Any sequence of polls asks to begin the capture at most once, and not at
/// all once it has been asked.
pub proof fn lemma_capture_requested_at_most_once(s: DriverState, times: Seq<u64>)
    ensures
        capture_requests(s, times) <= (if capture_done(s) { 0nat } else { 1nat }),
    decreases times.len(),
{
    if times.len() > 0 {
        let (s2, p) = poll_step(s, times[0]);
        lemma_capture_requested_at_most_once(s2, times.drop_first());
        assert(capture_done(s) ==> capture_done(s2));
        assert(p.begin_capture ==> !capture_done(s) && capture_done(s2));
    }
}

/// Over a whole run, the cycle-zero check and every poll after it together
/// ask to begin the capture at most once.
pub proof fn lemma_capture_requested_once_per_run(c: Config, times: Seq<u64>)
    ensures
        (if init_step(initial_state(c)).1 { 1nat } else { 0nat })
            + capture_requests(init_step(initial_state(c)).0, times) <= 1,
{
    let s = init_step(initial_state(c));
    lemma_capture_requested_at_most_once(s.0, times);
    assert(s.1 ==> capture_done(s.0));
}

/// The driver of one simulation run.
pub struct Driver {
    data_width: u64,
    clock_flip_time: u64,
    watchdog: Watchdog,
    trace: Option<TraceControl>,
    memory: Memory,
}

impl View for Driver {
    type V = DriverState;

    closed spec fn view(&self) -> DriverState {
        DriverState {
            data_width: self.data_width,
            clock_flip_time: self.clock_flip_time,
            watchdog: self.watchdog,
            trace: trace_view(self.trace),
        }
    }
}

impl Driver {
    #[verifier::type_invariant]
    spec fn clock_is_positive(&self) -> bool {
        self.clock_flip_time > 0
    }

    /// The words of the simulated memory.
    pub closed spec fn memory(&self) -> Seq<u32> {
        self.memory@
    }

    /// Builds the driver of a run from its configuration and, when one is
    /// given, the raw bytes of its memory image.
    pub fn new(config: Config, image: Option<Vec<u8>>) -> (r: Result<Driver, ConfigError>)
        ensures
            r is Err <==> config.clock_flip_time == 0,
            r is Err ==> r == Err::<Driver, ConfigError>(ConfigError::ZeroClockFlipTime),
            r matches Ok(d) ==> d@ == initial_state(config) && d.memory() == initial_memory(
                match image {
                    Some(b) => Some(b@),
                    None => None,
                },
            ),
    {
        if config.clock_flip_time == 0 {
            return Err(ConfigError::ZeroClockFlipTime);
        }
        let memory = match image {
            Some(bytes) => Memory::from_image(&bytes),
            None => Memory::builtin(),
        };
        let trace = match config.trace {
            Some(w) => Some(TraceControl::new(w)),
            None => None,
        };
        Ok(Driver {
            data_width: config.data_width,
            clock_flip_time: config.clock_flip_time,
            watchdog: Watchdog::new(config.test_size, config.timeout),
            trace,
            memory,
        })
    }

    /// The configuration and progress of the run.
    pub fn state(&self) -> (r: DriverState)
        ensures
            r == self@,
            r.clock_flip_time > 0,
    {
        proof { use_type_invariant(self); }
        DriverState {
            data_width: self.data_width,
            clock_flip_time: self.clock_flip_time,
            watchdog: self.watchdog,
            trace: match &self.trace {
                Some(t) => Some(TraceState { window: t.window(), started: t.is_started() }),
                None => None,
            },
        }
    }

    /// The clock cycle at raw simulation time `time`.
    pub fn tick_at(&self, time: u64) -> (r: u64)
        ensures
            r == tick_of(time, self@.clock_flip_time),
            r == time / self@.clock_flip_time,
    {
        proof { use_type_invariant(self); }
        time / self.clock_flip_time
    }

    /// The check made once at cycle zero; returns whether it begins the
    /// capture.
    pub fn init(&mut self) -> (begin: bool)
        ensures
            (final(self)@, begin) == init_step(old(self)@),
            final(self).memory() == old(self).memory(),
    {
        proof { use_type_invariant(&*self); }
        init_trace(&mut self.trace)
    }

    /// One watchdog poll at raw simulation time `time`.
    pub fn watchdog_at(&mut self, time: u64) -> (r: Poll)
        ensures
            (final(self)@, r) == poll_step(old(self)@, time),
            final(self).memory() == old(self).memory(),
    {
        proof { use_type_invariant(&*self); }
        let tick = self.tick_at(time);
        match self.watchdog.check(tick) {
            Some(v) => Poll { verdict: v, begin_capture: false, tick },
            None => poll_trace(&mut self.trace, tick),
        }
    }

    /// Records that input arrived at raw simulation time `time`.
    pub fn submit_input_at(&mut self, time: u64)
        ensures
            final(self)@ == input_step(old(self)@, time),
            final(self).memory() == old(self).memory(),
    {
        proof { use_type_invariant(&*self); }
        let tick = self.tick_at(time);
        if tick > self.watchdog.last_input_cycle {
            self.watchdog.last_input_cycle = tick;
        }
    }

    /// The word at index `addr / 4` of the memory, or zero beyond its end.
    pub fn read_memory(&self, addr: u32) -> (r: u32)
        ensures
            r == word_at(self.memory(), addr),
    {
        self.memory.read(addr)
    }

    /// Number of words the memory holds.
    pub fn memory_capacity(&self) -> (r: usize)
        ensures
            r == self.memory().len(),
    {
        self.memory.capacity()
    }
}

} // verus!
