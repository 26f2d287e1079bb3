//! The single slot that holds the one driver of a run, behind the operations
//! that the simulator calls.
use vstd::prelude::*;
use crate::driver::{init_step, poll_step, input_step, Driver, DriverState, Poll};
use crate::memory::word_at;

verus! {

/// Why a driver could not be installed.
#[derive(Clone, Copy, Debug, PartialEq, Eq, Structural)]
pub enum InitError {
    /// The slot already holds the driver of this run.
    AlreadyInitialized,
}

/// The slot after an install of a driver in state `d`, and the outcome: the
/// install runs the cycle-zero check and reports whether it begins the
/// capture; a slot that is taken refuses it and stays as it was.
pub open spec fn install_step(slot: Option<DriverState>, d: DriverState) -> (
    Option<DriverState>,
    Result<bool, InitError>,
) {
    match slot {
        Some(s) => (Some(s), Err(InitError::AlreadyInitialized)),
        None => (Some(init_step(d).0), Ok(init_step(d).1)),
    }
}

/// Once a driver is installed, every further install is refused and leaves
/// the installed driver in place.
pub proof fn lemma_second_install_refused(slot: Option<DriverState>, first: DriverState, second: DriverState)
    ensures
        install_step(install_step(slot, first).0, second) == (
            install_step(slot, first).0,
            Err::<bool, InitError>(InitError::AlreadyInitialized),
        ),
{
}

/// A slot for at most one driver, filled once.
pub struct Registry {
    slot: Option<Driver>,
}

impl View for Registry {
    type V = Option<DriverState>;

    closed spec fn view(&self) -> Option<DriverState> {
        match self.slot {
            Some(d) => Some(d@),
            None => None,
        }
    }
}

impl Registry {
    /// The memory of the installed driver.
    pub closed spec fn memory(&self) -> Seq<u32> {
        self.slot->0.memory()
    }

    /// An empty slot.
    pub fn new() -> (r: Registry)
        ensures
            r@ == None::<DriverState>,
    {
        Registry { slot: None }
    }

    /// Whether a driver has been installed.
    pub fn is_initialized(&self) -> (r: bool)
        ensures
            r == self@ is Some,
    {
        self.slot.is_some()
    }

    /// Installs `driver` and runs its cycle-zero check; returns whether that
    /// check begins the capture. A second install is refused and leaves the
    /// slot as it was.
    pub fn install(&mut self, driver: Driver) -> (r: Result<bool, InitError>)
        ensures
            (final(self)@, r) == install_step(old(self)@, driver@),
            old(self)@ is Some ==> final(self).memory() == old(self).memory(),
            old(self)@ is None ==> final(self).memory() == driver.memory(),
    {
        if self.slot.is_some() {
            return Err(InitError::AlreadyInitialized);
        }
        let mut d = driver;
        let begin = d.init();
        self.slot = Some(d);
        Ok(begin)
    }

    /// One watchdog poll at raw simulation time `time`; `None` while no
    /// driver is installed.
    pub fn poll_watchdog_at(&mut self, time: u64) -> (r: Option<Poll>)
        ensures
            match old(self)@ {
                None => r is None && final(self)@ is None,
                Some(s) => r == Some(poll_step(s, time).1) && final(self)@ == Some(poll_step(s, time).0)
                    && final(self).memory() == old(self).memory(),
            },
    {
        match &mut self.slot {
            Some(d) => Some(d.watchdog_at(time)),
            None => None,
        }
    }

    /// Records that input arrived at raw simulation time `time`; nothing
    /// while no driver is installed.
    pub fn submit_input_at(&mut self, time: u64)
        ensures
            match old(self)@ {
                None => final(self)@ is None,
                Some(s) => final(self)@ == Some(input_step(s, time))
                    && final(self).memory() == old(self).memory(),
            },
    {
        match &mut self.slot {
            Some(d) => d.submit_input_at(time),
            None => {},
        }
    }

    /// A memory read request: answered only when a driver is installed,
    /// `valid` is set and `addr` is nonzero, since address zero means that
    /// no access is requested.
    pub fn mem_read(&self, addr: u32, valid: bool) -> (r: Option<u32>)
        ensures
            r == (if self@ is Some && valid && addr != 0 {
                Some(word_at(self.memory(), addr))
            } else {
                None
            }),
    {
        match &self.slot {
            Some(d) => if valid && addr != 0 {
                Some(d.read_memory(addr))
            } else {
                None
            },
            None => None,
        }
    }
}

} // verus!
