//! The simulation context: single owner of the body store, wired to the
//! scheduler, the activation gate and the forecaster.
//!
//! Control flow per update cycle: the scheduler accumulates elapsed time
//! and emits at most one scheduled tick; the activation gate passes it to
//! the integrator only while the simulation is running; a forced tick
//! always passes.  A forecast request reads the store and provably leaves
//! the whole context unchanged.

use vstd::prelude::*;
use crate::units::{SCALE, GRAV_LIMIT};
use crate::body::{Body, BodyStore, startup_bodies};
use crate::config::SimulationConfig;
use crate::scheduler::{TickScheduler, TickEvent, interval_micros, nominal_dt_of};
use crate::forecast::{ForecastResult, forecast, iterate_steps};
use crate::integrator::{step_bodies, integrate_step};

verus! {

/// The explicit context every core operation works on.
#[derive(Clone, Debug, PartialEq)]
pub struct Simulation {
    pub config: SimulationConfig,
    pub scheduler: TickScheduler,
    pub store: BodyStore,
}

impl Simulation {
    /// All parts well formed, scheduler driven by the configured interval.
    pub open spec fn wf(&self) -> bool {
        &&& self.config.wf()
        &&& self.scheduler.wf()
        &&& self.scheduler.update_frequency_ms == self.config.update_frequency_ms
        &&& self.store.wf()
    }

    /// A fresh context over the startup body set.
    pub fn new(config: SimulationConfig) -> (s: Simulation)
        requires
            config.wf(),
        ensures
            s.wf(),
            s.config == config,
            s.scheduler.accumulated == 0,
            s.store.bodies@ == startup_bodies(),
    {
        let scheduler = TickScheduler::new(&config);
        let store = BodyStore::startup();
        Simulation { config, scheduler, store }
    }

    /// Read access for the presentation layer: every live body's state.
    pub fn bodies(&self) -> (r: &Vec<Body>)
        ensures
            r@ == self.store.bodies@,
    {
        &self.store.bodies
    }

    /// Flip the running flag; bodies and scheduler are untouched.
    pub fn toggle_active(&mut self)
        requires
            old(self).wf(),
        ensures
            final(self).wf(),
            final(self).config.active == !old(self).config.active,
            final(self).config.gravitational_constant == old(
                self,
            ).config.gravitational_constant,
            final(self).config.update_frequency_ms == old(self).config.update_frequency_ms,
            final(self).config.forecast_steps == old(self).config.forecast_steps,
            final(self).scheduler == old(self).scheduler,
            final(self).store.bodies@ == old(self).store.bodies@,
    {
        self.config.toggle();
    }

    /// Clear the store and recreate the startup set.  The post-state does
    /// not depend on the pre-state's bodies, so resetting twice yields the
    /// same store as resetting once; the running flag is not altered.
    pub fn reset(&mut self)
        requires
            old(self).wf(),
        ensures
            final(self).wf(),
            final(self).store.bodies@ == startup_bodies(),
            final(self).config == old(self).config,
            final(self).scheduler == old(self).scheduler,
    {
        self.store.reset();
    }

    /// Reset idempotence: the bodies after a reset never depend on the
    /// state before it, so two consecutive resets leave the store
    /// identical both times — same identifiers, masses, positions and
    /// velocities, namely the startup set.
    pub proof fn lemma_reset_idempotent(first: Seq<Body>, second: Seq<Body>)
        requires
            first == startup_bodies(),
            second == startup_bodies(),
        ensures
            first == second,
    {
    }

    /// Apply the activation gate to one tick event: a forced tick always
    /// reaches the integrator, a scheduled tick only while running; a
    /// gated-out tick changes no body at all.
    pub fn handle_tick(&mut self, event: TickEvent)
        requires
            old(self).wf(),
            event.dt <= SCALE,
        ensures
            final(self).wf(),
            final(self).config == old(self).config,
            final(self).scheduler == old(self).scheduler,
            (event.forced || old(self).config.active) ==> final(self).store.bodies@
                == step_bodies(
                old(self).store.bodies@,
                old(self).config.gravitational_constant,
                event.dt,
            ),
            !(event.forced || old(self).config.active) ==> final(self).store.bodies@ == old(
                self,
            ).store.bodies@,
    {
        if event.forced || self.config.active {
            let g = self.config.gravitational_constant;
            integrate_step(&mut self.store, g, event.dt);
        }
    }

    /// One operator single-step: integrate exactly once with the nominal
    /// step, whether or not the simulation is running.
    pub fn force_tick(&mut self)
        requires
            old(self).wf(),
        ensures
            final(self).wf(),
            final(self).config == old(self).config,
            final(self).scheduler == old(self).scheduler,
            final(self).store.bodies@ == step_bodies(
                old(self).store.bodies@,
                old(self).config.gravitational_constant,
                nominal_dt_of(old(self).config.update_frequency_ms) as u64,
            ),
    {
        let event = self.scheduler.force_tick();
        self.handle_tick(event);
    }

    /// One update cycle: account for elapsed wall-clock time and, if the
    /// interval was crossed while running, integrate one nominal step.
    /// Returns whether a scheduled tick fired (before gating).
    pub fn advance_time(&mut self, elapsed_micros: u64) -> (fired: bool)
        requires
            old(self).wf(),
        ensures
            final(self).wf(),
            final(self).config == old(self).config,
            fired == (old(self).scheduler.accumulated + elapsed_micros >= interval_micros(
                old(self).scheduler.update_frequency_ms,
            )),
            fired ==> final(self).scheduler.accumulated == 0,
            !fired ==> final(self).scheduler.accumulated == old(self).scheduler.accumulated
                + elapsed_micros,
            final(self).scheduler.update_frequency_ms == old(self).scheduler.update_frequency_ms,
            (fired && old(self).config.active) ==> final(self).store.bodies@ == step_bodies(
                old(self).store.bodies@,
                old(self).config.gravitational_constant,
                nominal_dt_of(old(self).config.update_frequency_ms) as u64,
            ),
            !(fired && old(self).config.active) ==> final(self).store.bodies@ == old(
                self,
            ).store.bodies@,
    {
        let e = self.scheduler.advance(elapsed_micros);
        match e {
            Some(event) => {
                self.handle_tick(event);
                true
            },
            None => false,
        }
    }

    /// Produce a forecast from the current store, provably leaving the
    /// whole context unchanged: the forecaster works on a private copy.
    pub fn request_forecast(&mut self) -> (r: ForecastResult)
        requires
            old(self).wf(),
        ensures
            *final(self) == *old(self),
            r.trajectories@.len() == old(self).store.bodies@.len(),
            forall|i: int|
                0 <= i < old(self).store.bodies@.len() ==> (#[trigger] r.trajectories@[i]).id
                    == old(self).store.bodies@[i].id,
            forall|i: int|
                0 <= i < old(self).store.bodies@.len()
                    ==> (#[trigger] r.trajectories@[i]).positions@.len() == old(
                    self,
                ).config.forecast_steps as int,
            forall|i: int, k: int|
                0 <= i < old(self).store.bodies@.len() && 0 <= k < old(
                    self,
                ).config.forecast_steps as int ==> (#[trigger] r.trajectories@[i].positions@[k])
                    == iterate_steps(
                    old(self).store.bodies@,
                    old(self).config.gravitational_constant,
                    nominal_dt_of(old(self).config.update_frequency_ms) as u64,
                    (k + 1) as nat,
                )[i].pos,
    {
        let dt = self.config.nominal_dt();
        forecast(&self.store, self.config.gravitational_constant, dt, self.config.forecast_steps)
    }
}

} // verus!
