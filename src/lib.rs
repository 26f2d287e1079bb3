//! Host-side driver for a cycle-accurate co-simulation of a small CPU core.
//!
//! The library holds the logic that the simulator reaches once per cycle: the
//! word-addressed memory that backs the simulated address space, the watchdog
//! that judges whether a run goes on, has stalled or is done, the one-shot
//! waveform capture control, and the single-slot registry that keeps exactly
//! one driver per run.
pub mod memory;
pub mod watchdog;
pub mod driver;
pub mod registry;
