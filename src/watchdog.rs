//! The watchdog decision: whether a run goes on, has stalled, or is done,
//! and the optional waveform-capture window that may end it early.
use vstd::prelude::*;

verus! {

/// The verdict of one watchdog poll.
#[derive(Clone, Copy, Debug, PartialEq, Eq, Structural)]
pub enum Verdict {
    Continue,
    Timeout,
    Finish,
}

/// The one-byte status code of a verdict.
pub open spec fn verdict_code(v: Verdict) -> u8 {
    match v {
        Verdict::Continue => 0,
        Verdict::Timeout => 1,
        Verdict::Finish => 2,
    }
}

impl Verdict {
    /// The status code reported to the simulator: 0, 1 or 2.
    pub fn code(&self) -> (r: u8)
        ensures
            r == verdict_code(*self),
    {
        match self {
            Verdict::Continue => 0,
            Verdict::Timeout => 1,
            Verdict::Finish => 2,
        }
    }
}

/// Progress of a run as the watchdog sees it.
#[derive(Clone, Copy, Debug, PartialEq, Eq, Structural)]
pub struct Watchdog {
    /// Number of test iterations the run must complete.
    pub test_size: u64,
    /// Cycles allowed between two inputs before the run counts as stalled.
    pub timeout: u64,
    /// Test iterations completed so far.
    pub test_num: u64,
    /// Cycle at which input was last supplied.
    pub last_input_cycle: u64,
}

/// More than `timeout` cycles have passed since the last input.
pub open spec fn timed_out(w: Watchdog, tick: u64) -> bool {
    tick - w.last_input_cycle > w.timeout
}

/// The verdict that completion and stalling decide alone, in that order of
/// precedence; `None` when neither holds.
pub open spec fn core_verdict(w: Watchdog, tick: u64) -> Option<Verdict> {
    if w.test_num >= w.test_size {
        Some(Verdict::Finish)
    } else if timed_out(w, tick) {
        Some(Verdict::Timeout)
    } else {
        None
    }
}

impl Watchdog {
    /// A run that has completed nothing and has seen no input yet.
    pub fn new(test_size: u64, timeout: u64) -> (r: Watchdog)
        ensures
            r == (Watchdog { test_size, timeout, test_num: 0, last_input_cycle: 0 }),
    {
        Watchdog { test_size, timeout, test_num: 0, last_input_cycle: 0 }
    }

    /// Completion first, then stalling, at cycle `tick`.
    pub fn check(&self, tick: u64) -> (r: Option<Verdict>)
        ensures
            r == core_verdict(*self, tick),
    {
        if self.test_num >= self.test_size {
            Some(Verdict::Finish)
        } else if tick > self.last_input_cycle && tick - self.last_input_cycle > self.timeout {
            Some(Verdict::Timeout)
        } else {
            None
        }
    }
}

/// Cycle bounds of the waveform capture.
#[derive(Clone, Copy, Debug, PartialEq, Eq, Structural)]
pub struct TraceWindow {
    /// First cycle to capture.
    pub dump_start: u64,
    /// Cycle after which the run ends; zero for no end.
    pub dump_end: u64,
}

/// What the capture control holds: its window and whether capture has been
/// requested.
#[derive(Clone, Copy, Debug, PartialEq, Eq, Structural)]
pub struct TraceState {
    pub window: TraceWindow,
    pub started: bool,
}

/// What one poll asks of the capture side.
#[derive(Clone, Copy, Debug, PartialEq, Eq, Structural)]
pub enum TraceAction {
    /// The capture window is over: the run ends.
    Finish,
    /// Begin the capture now.
    BeginCapture,
    /// Nothing to do.
    Idle,
}

/// The capture window has a nonzero end and `tick` is past it.
pub open spec fn window_over(t: TraceState, tick: u64) -> bool {
    t.window.dump_end != 0 && tick > t.window.dump_end
}

/// The state after one poll at `tick`, and what that poll asks.
pub open spec fn trace_step(t: TraceState, tick: u64) -> (TraceState, TraceAction) {
    if window_over(t, tick) {
        (t, TraceAction::Finish)
    } else if !t.started && tick >= t.window.dump_start {
        (TraceState { started: true, ..t }, TraceAction::BeginCapture)
    } else {
        (t, TraceAction::Idle)
    }
}

/// The state after the check made at cycle zero, and whether it begins the
/// capture.
pub open spec fn trace_init_step(t: TraceState) -> (TraceState, bool) {
    if !t.started && t.window.dump_start == 0 {
        (TraceState { started: true, ..t }, true)
    } else {
        (t, false)
    }
}

/// Waveform capture control: a window and a one-shot latch that is set the
/// first time the capture is requested and never cleared.
pub struct TraceControl {
    state: TraceState,
}

impl View for TraceControl {
    type V = TraceState;

    closed spec fn view(&self) -> TraceState {
        self.state
    }
}

impl TraceControl {
    /// Control for `window`, with no capture requested yet.
    pub fn new(window: TraceWindow) -> (r: TraceControl)
        ensures
            r@ == (TraceState { window, started: false }),
    {
        TraceControl { state: TraceState { window, started: false } }
    }

    /// Whether the capture has been requested.
    pub fn is_started(&self) -> (r: bool)
        ensures
            r == self@.started,
    {
        self.state.started
    }

    /// The capture window.
    pub fn window(&self) -> (r: TraceWindow)
        ensures
            r == self@.window,
    {
        self.state.window
    }

    /// The check made at cycle zero: begins the capture when the window
    /// starts there.
    pub fn init(&mut self) -> (begin: bool)
        ensures
            (final(self)@, begin) == trace_init_step(old(self)@),
        no_unwind
    {
        if !self.state.started && self.state.window.dump_start == 0 {
            self.state.started = true;
            true
        } else {
            false
        }
    }

    /// One poll at cycle `tick`: ends the run past the window's end, else
    /// begins the capture once the window has started.
    pub fn poll(&mut self, tick: u64) -> (r: TraceAction)
        ensures
            (final(self)@, r) == trace_step(old(self)@, tick),
        no_unwind
    {
        if self.state.window.dump_end != 0 && tick > self.state.window.dump_end {
            TraceAction::Finish
        } else if !self.state.started && tick >= self.state.window.dump_start {
            self.state.started = true;
            TraceAction::BeginCapture
        } else {
            TraceAction::Idle
        }
    }
}

} // verus!
