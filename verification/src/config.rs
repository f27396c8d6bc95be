//! Simulation configuration and the activation flag.

use vstd::prelude::*;
use vstd::arithmetic::div_mod::{lemma_div_non_zero, lemma_div_nonincreasing};
use crate::units::{SCALE, GRAV_LIMIT, FREQ_LIMIT};

verus! {

/// Why a configuration was rejected at the boundary.
#[derive(Clone, Copy, Debug, PartialEq, Eq, Structural)]
pub enum ConfigError {
    /// The gravitational constant was zero.
    NonPositiveGravity,
    /// The gravitational constant exceeded `GRAV_LIMIT`.
    GravityOutOfRange,
    /// The update frequency was zero, so the tick interval would not be
    /// positive.
    NonPositiveFrequency,
    /// The update frequency exceeded `FREQ_LIMIT`.
    FrequencyOutOfRange,
}

/// The immutable-per-tick configuration, plus the running flag.
///
/// One number, `update_frequency_ms`, drives the timing: the scheduler
/// waits `update_frequency_ms` milliseconds between ticks, while each
/// emitted tick carries the nominal step `1 / update_frequency_ms`
/// seconds, independent of measured wall-clock jitter.
#[derive(Clone, Copy, Debug, PartialEq, Eq, Structural)]
pub struct SimulationConfig {
    /// Gravitational constant, raw units (`SCALE` per unit).
    pub gravitational_constant: u64,
    /// Tick interval in milliseconds; also the divisor of the nominal step.
    pub update_frequency_ms: u64,
    /// How many steps a forecast simulates forward.
    pub forecast_steps: u32,
    /// Whether scheduled ticks reach the integrator.
    pub active: bool,
}

impl SimulationConfig {
    /// Validated configuration: positive bounded gravity and frequency.
    pub open spec fn wf(&self) -> bool {
        &&& 0 < self.gravitational_constant <= GRAV_LIMIT as int
        &&& 0 < self.update_frequency_ms <= FREQ_LIMIT as int
    }

    /// The nominal step size in raw time units: `SCALE / frequency`,
    /// i.e. `1 / update_frequency_ms` seconds in fixed point.
    pub open spec fn nominal_dt_spec(&self) -> int {
        SCALE as int / self.update_frequency_ms as int
    }

    /// Reject invalid values at the boundary; the kernel assumes
    /// validated inputs.
    pub fn new(
        gravitational_constant: u64,
        update_frequency_ms: u64,
        forecast_steps: u32,
        active: bool,
    ) -> (r: Result<SimulationConfig, ConfigError>)
        ensures
            match r {
                Ok(c) => {
                    &&& c == (SimulationConfig {
                        gravitational_constant,
                        update_frequency_ms,
                        forecast_steps,
                        active,
                    })
                    &&& c.wf()
                },
                Err(e) => match e {
                    ConfigError::NonPositiveGravity => gravitational_constant == 0,
                    ConfigError::GravityOutOfRange => gravitational_constant > GRAV_LIMIT as int,
                    ConfigError::NonPositiveFrequency => 0 < gravitational_constant <= GRAV_LIMIT
                        as int && update_frequency_ms == 0,
                    ConfigError::FrequencyOutOfRange => 0 < gravitational_constant <= GRAV_LIMIT
                        as int && update_frequency_ms > FREQ_LIMIT as int,
                },
            },
    {
        if gravitational_constant == 0 {
            return Err(ConfigError::NonPositiveGravity);
        }
        if gravitational_constant > GRAV_LIMIT {
            return Err(ConfigError::GravityOutOfRange);
        }
        if update_frequency_ms == 0 {
            return Err(ConfigError::NonPositiveFrequency);
        }
        if update_frequency_ms > FREQ_LIMIT {
            return Err(ConfigError::FrequencyOutOfRange);
        }
        Ok(SimulationConfig { gravitational_constant, update_frequency_ms, forecast_steps, active })
    }

    /// The nominal step size, executable form.
    pub fn nominal_dt(&self) -> (dt: u64)
        requires
            self.wf(),
        ensures
            dt as int == self.nominal_dt_spec(),
            1 <= dt <= SCALE,
    {
        proof {
            lemma_div_non_zero(SCALE as int, self.update_frequency_ms as int);
            lemma_div_nonincreasing(SCALE as int, self.update_frequency_ms as int);
        }
        SCALE / self.update_frequency_ms
    }

    /// Flip the running flag; nothing else changes.
    pub fn toggle(&mut self)
        ensures
            final(self).active == !old(self).active,
            final(self).gravitational_constant == old(self).gravitational_constant,
            final(self).update_frequency_ms == old(self).update_frequency_ms,
            final(self).forecast_steps == old(self).forecast_steps,
    {
        self.active = !self.active;
    }
}

impl Default for SimulationConfig {
    /// The startup configuration: `G = 0.05`, a 34 ms tick, thousand-step
    /// forecasts, paused.
    fn default() -> (c: SimulationConfig)
        ensures
            c == (SimulationConfig {
                gravitational_constant: 50_000u64,
                update_frequency_ms: 34u64,
                forecast_steps: 1000u32,
                active: false,
            }),
            c.wf(),
    {
        SimulationConfig {
            gravitational_constant: 50_000,
            update_frequency_ms: 34,
            forecast_steps: 1000,
            active: false,
        }
    }
}

} // verus!
