//! Engines that keep the display in memory, and the cadence at which a
//! machine is meant to be driven.

use vstd::prelude::*;

pub mod cli;
pub mod minifb;

pub use cli::CliEngine;
pub use minifb::MinifbEngine;

verus! {

/// Instruction cycles in a second.
pub const CPU_HZ: u32 = 600;

/// Timer ticks in a second.
pub const TIMER_HZ: u32 = 60;

/// Nanoseconds in a second.
pub const NANOS_PER_SECOND: u64 = 1_000_000_000;

/// The whole nanoseconds between two events that happen `hz` times a second.
pub open spec fn period_nanos(hz: u32) -> int {
    NANOS_PER_SECOND as int / hz as int
}

/// The whole nanoseconds between two events that happen `hz` times a second.
pub fn period(hz: u32) -> (nanos: u64)
    requires
        hz > 0,
    ensures
        nanos == period_nanos(hz),
{
    NANOS_PER_SECOND / hz as u64
}

/// The number of instruction cycles to run between two timer ticks: how
/// many whole cycle periods fit into one timer period.
pub fn cycles_per_tick(cpu_hz: u32, timer_hz: u32) -> (cycles: u64)
    requires
        0 < cpu_hz <= NANOS_PER_SECOND,
        0 < timer_hz,
    ensures
        cycles == period_nanos(timer_hz) / period_nanos(cpu_hz),
{
    let cpu_sleep = period(cpu_hz);
    let timers_sleep = period(timer_hz);
    assert(cpu_sleep >= 1) by (nonlinear_arith)
        requires
            cpu_sleep == 1_000_000_000int / cpu_hz as int,
            0 < cpu_hz <= 1_000_000_000,
    ;
    timers_sleep / cpu_sleep
}

/// At 600 cycles and 60 ticks a second, ten cycles run between two ticks.
pub proof fn lemma_default_cadence()
    ensures
        period_nanos(CPU_HZ) == 1_666_666,
        period_nanos(TIMER_HZ) == 16_666_666,
        period_nanos(TIMER_HZ) / period_nanos(CPU_HZ) == 10,
{
}

} // verus!
