//! Fixed-interval tick scheduling, decoupled from wall-clock jitter.

use vstd::prelude::*;
use crate::units::{SCALE, FREQ_LIMIT};
use crate::config::SimulationConfig;

verus! {

/// One tick: a request that the integrator advance the world by the
/// nominal step `dt` (raw time units).  `forced` marks an operator
/// single-step, which bypasses the activation gate.
#[derive(Clone, Copy, Debug, PartialEq, Eq, Structural)]
pub struct TickEvent {
    pub dt: u64,
    pub forced: bool,
}

/// Accumulates elapsed wall-clock time against the fixed tick interval.
///
/// When the accumulated time reaches the interval the scheduler emits one
/// tick and resets the accumulator to zero (not to the remainder): extra
/// elapsed time beyond the interval is discarded, a fixed-step reset
/// policy.  The emitted step size is always the configured nominal step,
/// never the measured delta.
#[derive(Clone, Copy, Debug, PartialEq, Eq, Structural)]
pub struct TickScheduler {
    /// Tick interval in milliseconds.
    pub update_frequency_ms: u64,
    /// Wall-clock time accumulated since the last tick, in raw units
    /// (microseconds).
    pub accumulated: u64,
}

/// The tick interval in raw time units (microseconds).
pub open spec fn interval_micros(update_frequency_ms: u64) -> int {
    update_frequency_ms * 1000
}

/// The nominal step carried by every tick: `1 / update_frequency_ms`
/// seconds in fixed point.
pub open spec fn nominal_dt_of(update_frequency_ms: u64) -> int {
    SCALE as int / update_frequency_ms as int
}

impl TickScheduler {
    /// Positive bounded interval; accumulator strictly below it.
    pub open spec fn wf(&self) -> bool {
        &&& 0 < self.update_frequency_ms <= FREQ_LIMIT as int
        &&& self.accumulated < interval_micros(self.update_frequency_ms)
    }

    /// A scheduler for the configured interval, starting empty.
    pub fn new(config: &SimulationConfig) -> (r: TickScheduler)
        requires
            config.wf(),
        ensures
            r.update_frequency_ms == config.update_frequency_ms,
            r.accumulated == 0,
            r.wf(),
    {
        TickScheduler { update_frequency_ms: config.update_frequency_ms, accumulated: 0 }
    }

    /// Account for elapsed wall-clock time; emit one scheduled tick if
    /// the interval has been crossed, resetting the accumulator to zero.
    pub fn advance(&mut self, elapsed_micros: u64) -> (e: Option<TickEvent>)
        requires
            old(self).wf(),
        ensures
            final(self).wf(),
            final(self).update_frequency_ms == old(self).update_frequency_ms,
            old(self).accumulated + elapsed_micros >= interval_micros(
                old(self).update_frequency_ms,
            ) ==> {
                &&& e == Some(
                    TickEvent {
                        dt: nominal_dt_of(old(self).update_frequency_ms) as u64,
                        forced: false,
                    },
                )
                &&& final(self).accumulated == 0
            },
            old(self).accumulated + elapsed_micros < interval_micros(
                old(self).update_frequency_ms,
            ) ==> {
                &&& e is None
                &&& final(self).accumulated == old(self).accumulated + elapsed_micros
            },
    {
        let interval: u64 = self.update_frequency_ms * 1000;
        let sum: u128 = (self.accumulated as u128) + (elapsed_micros as u128);
        if sum >= interval as u128 {
            self.accumulated = 0;
            let dt = nominal_dt_exec(self.update_frequency_ms);
            Some(TickEvent { dt, forced: false })
        } else {
            self.accumulated = sum as u64;
            None
        }
    }

    /// Synchronously emit one forced tick with the nominal step,
    /// independent of the accumulator and of the activation flag.
    pub fn force_tick(&self) -> (e: TickEvent)
        requires
            self.wf(),
        ensures
            e.dt == nominal_dt_of(self.update_frequency_ms),
            e.forced,
    {
        let dt = nominal_dt_exec(self.update_frequency_ms);
        TickEvent { dt, forced: true }
    }
}

/// `SCALE / frequency`, with its range facts.
fn nominal_dt_exec(update_frequency_ms: u64) -> (dt: u64)
    requires
        0 < update_frequency_ms <= FREQ_LIMIT as int,
    ensures
        dt as int == nominal_dt_of(update_frequency_ms),
        1 <= dt <= SCALE,
{
    proof {
        vstd::arithmetic::div_mod::lemma_div_non_zero(
            SCALE as int,
            update_frequency_ms as int,
        );
        vstd::arithmetic::div_mod::lemma_div_nonincreasing(
            SCALE as int,
            update_frequency_ms as int,
        );
    }
    SCALE / update_frequency_ms
}

} // verus!
