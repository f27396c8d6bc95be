//! Speculative forward simulation: forecast future trajectories from a
//! read-only snapshot, never touching the live store.

use vstd::prelude::*;
use crate::units::{SCALE, GRAV_LIMIT};
use crate::vec3::Vec3;
use crate::body::{Body, BodyStore, store_wf};
use crate::integrator::{step_bodies, integrate_step};

verus! {

/// The snapshot after `n` integration steps.
pub open spec fn iterate_steps(s: Seq<Body>, g: u64, dt: u64, n: nat) -> Seq<Body>
    decreases n,
{
    if n == 0 {
        s
    } else {
        step_bodies(iterate_steps(s, g, dt, (n - 1) as nat), g, dt)
    }
}

/// The predicted future positions of one body.
#[derive(Clone, Debug, PartialEq)]
pub struct Trajectory {
    /// The body this trajectory belongs to.
    pub id: u64,
    /// Predicted positions, one per forecast step, in time order.
    pub positions: Vec<Vec3>,
}

/// One forecast: a trajectory per live body, produced on request and
/// discarded by the caller after use.
#[derive(Clone, Debug, PartialEq)]
pub struct ForecastResult {
    pub trajectories: Vec<Trajectory>,
}

/// Run the integrator `steps` times over a private copy of the snapshot
/// and record every intermediate position.  The store is only read.
pub fn forecast(store: &BodyStore, g: u64, dt: u64, steps: u32) -> (r: ForecastResult)
    requires
        store.wf(),
        g <= GRAV_LIMIT,
        dt <= SCALE,
    ensures
        r.trajectories@.len() == store.bodies@.len(),
        forall|i: int|
            0 <= i < store.bodies@.len() ==> (#[trigger] r.trajectories@[i]).id
                == store.bodies@[i].id,
        forall|i: int|
            0 <= i < store.bodies@.len() ==> (#[trigger] r.trajectories@[i]).positions@.len()
                == steps as int,
        forall|i: int, k: int|
            0 <= i < store.bodies@.len() && 0 <= k < steps as int
                ==> (#[trigger] r.trajectories@[i].positions@[k]) == iterate_steps(
                store.bodies@,
                g,
                dt,
                (k + 1) as nat,
            )[i].pos,
{
    let ghost seed = store.bodies@;
    let n: usize = store.bodies.len();

    let mut work_vec: Vec<Body> = Vec::new();
    let mut c: usize = 0;
    while c < n
        invariant
            n == store.bodies@.len(),
            c <= n,
            work_vec@.len() == c as int,
            forall|k: int| 0 <= k < c as int ==> work_vec@[k] == store.bodies@[k],
        decreases n - c,
    {
        work_vec.push(store.bodies[c]);
        c = c + 1;
    }
    proof {
        assert(work_vec@ =~= seed);
    }
    let mut work = BodyStore { bodies: work_vec };

    let mut frames: Vec<Vec<Vec3>> = Vec::new();
    let mut t: u32 = 0;
    while t < steps
        invariant
            store.wf(),
            g <= GRAV_LIMIT,
            dt <= SCALE,
            seed == store.bodies@,
            n == seed.len(),
            t <= steps,
            work.wf(),
            work.bodies@ == iterate_steps(seed, g, dt, t as nat),
            work.bodies@.len() == n as int,
            frames@.len() == t as int,
            forall|s: int| 0 <= s < t as int ==> (#[trigger] frames@[s])@.len() == n as int,
            forall|s: int, i: int|
                0 <= s < t as int && 0 <= i < n as int ==> (#[trigger] frames@[s]@[i])
                    == iterate_steps(seed, g, dt, (s + 1) as nat)[i].pos,
        decreases steps - t,
    {
        integrate_step(&mut work, g, dt);
        proof {
            assert(work.bodies@ == iterate_steps(seed, g, dt, (t + 1) as nat));
        }
        let mut row: Vec<Vec3> = Vec::new();
        let mut i: usize = 0;
        while i < n
            invariant
                i <= n,
                work.bodies@.len() == n as int,
                row@.len() == i as int,
                forall|k: int| 0 <= k < i as int ==> row@[k] == work.bodies@[k].pos,
            decreases n - i,
        {
            row.push(work.bodies[i].pos);
            i = i + 1;
        }
        frames.push(row);
        t = t + 1;
    }

    let mut trajectories: Vec<Trajectory> = Vec::new();
    let mut i: usize = 0;
    while i < n
        invariant
            n == store.bodies@.len(),
            seed == store.bodies@,
            i <= n,
            frames@.len() == steps as int,
            forall|s: int| 0 <= s < steps as int ==> (#[trigger] frames@[s])@.len() == n as int,
            forall|s: int, ii: int|
                0 <= s < steps as int && 0 <= ii < n as int ==> (#[trigger] frames@[s]@[ii])
                    == iterate_steps(seed, g, dt, (s + 1) as nat)[ii].pos,
            trajectories@.len() == i as int,
            forall|ii: int|
                0 <= ii < i as int ==> (#[trigger] trajectories@[ii]).id == seed[ii].id,
            forall|ii: int|
                0 <= ii < i as int ==> (#[trigger] trajectories@[ii]).positions@.len()
                    == steps as int,
            forall|ii: int, k: int|
                0 <= ii < i as int && 0 <= k < steps as int
                    ==> (#[trigger] trajectories@[ii].positions@[k]) == iterate_steps(
                    seed,
                    g,
                    dt,
                    (k + 1) as nat,
                )[ii].pos,
        decreases n - i,
    {
        let mut ps: Vec<Vec3> = Vec::new();
        let mut k: usize = 0;
        let steps_us: usize = steps as usize;
        while k < steps_us
            invariant
                steps_us == steps as int,
                n == seed.len(),
                i < n,
                k <= steps_us,
                frames@.len() == steps as int,
                forall|s: int| 0 <= s < steps as int ==> (#[trigger] frames@[s])@.len()
                    == n as int,
                forall|s: int, ii: int|
                    0 <= s < steps as int && 0 <= ii < n as int ==> (#[trigger] frames@[s]@[ii])
                        == iterate_steps(seed, g, dt, (s + 1) as nat)[ii].pos,
                ps@.len() == k as int,
                forall|kk: int|
                    0 <= kk < k as int ==> (#[trigger] ps@[kk]) == iterate_steps(
                        seed,
                        g,
                        dt,
                        (kk + 1) as nat,
                    )[i as int].pos,
            decreases steps_us - k,
        {
            let row_ref = &frames[k];
            ps.push(row_ref[i]);
            k = k + 1;
        }
        trajectories.push(Trajectory { id: store.bodies[i].id, positions: ps });
        i = i + 1;
    }
    ForecastResult { trajectories }
}

} // verus!
