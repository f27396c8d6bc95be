//! The pure numeric kernel: one fixed-size integration step over a
//! snapshot of bodies.
//!
//! For each body `i` the kernel accumulates, over every other body `j`,
//! the velocity contribution
//!
//! ```text
//! delta_v = normalize(pos_j - pos_i) * G * mass_j / squared_distance * dt
//! ```
//!
//! evaluated exactly in fixed point: with `d2` the squared raw distance
//! and `dist` its floor square root, the contribution along each axis is
//! `(pos_j - pos_i) * min(G * mass_j * dt / d2, PAIR_ACCEL_LIMIT) / dist`,
//! truncating toward zero.  All velocities are computed from the pre-tick
//! snapshot (a simultaneous update); then every position advances by the
//! body's *new* velocity times `dt` (semi-implicit Euler).  Coincident
//! bodies (`d2 == 0`) exert no force on each other: the degenerate
//! direction is guarded by skipping the pair.  Components are clamped
//! into the coordinate range, the fixed-point counterpart of a float
//! saturating at infinity.

use vstd::prelude::*;
use vstd::arithmetic::div_mod::{lemma_div_is_ordered, lemma_div_pos_is_pos};
use vstd::arithmetic::mul::{lemma_mul_inequality, lemma_mul_nonnegative};
use crate::units::{
    SCALE, COORD_LIMIT, MASS_LIMIT, GRAV_LIMIT, PAIR_ACCEL_LIMIT, clamp_coord, clamp_coord_exec,
    sqrt_floor, lemma_sqrt_floor_props, isqrt, scaled_quotient, scaled_quotient_exec,
    lemma_scaled_quotient_bound,
};
use crate::vec3::{Vec3, vec3_wf};
use crate::body::{Body, BodyStore, body_wf, store_wf};

verus! {

/// Velocity gained by a body at `pi` from a body of mass `mj` at `pj`
/// over one step of size `dt`, componentwise.
pub open spec fn pair_delta_vel(g: u64, dt: u64, pi: Vec3, pj: Vec3, mj: u64) -> (int, int, int) {
    let dx = pj.x - pi.x;
    let dy = pj.y - pi.y;
    let dz = pj.z - pi.z;
    let d2 = dx * dx + dy * dy + dz * dz;
    if d2 == 0 {
        (0, 0, 0)
    } else {
        let dist = sqrt_floor(d2 as nat) as int;
        let q = (g * mj * dt) / d2;
        let qc = if q > PAIR_ACCEL_LIMIT as int {
            PAIR_ACCEL_LIMIT as int
        } else {
            q
        };
        (
            scaled_quotient(dx, qc, dist),
            scaled_quotient(dy, qc, dist),
            scaled_quotient(dz, qc, dist),
        )
    }
}

/// No single pairwise contribution exceeds `PAIR_ACCEL_LIMIT` per axis.
pub proof fn lemma_pair_delta_vel_bound(g: u64, dt: u64, pi: Vec3, pj: Vec3, mj: u64)
    ensures
        -(PAIR_ACCEL_LIMIT as int) <= pair_delta_vel(g, dt, pi, pj, mj).0
            <= PAIR_ACCEL_LIMIT as int,
        -(PAIR_ACCEL_LIMIT as int) <= pair_delta_vel(g, dt, pi, pj, mj).1
            <= PAIR_ACCEL_LIMIT as int,
        -(PAIR_ACCEL_LIMIT as int) <= pair_delta_vel(g, dt, pi, pj, mj).2
            <= PAIR_ACCEL_LIMIT as int,
{
    let dx = pj.x - pi.x;
    let dy = pj.y - pi.y;
    let dz = pj.z - pi.z;
    let d2 = dx * dx + dy * dy + dz * dz;
    if d2 == 0 {
    } else {
        assert(dx * dx >= 0 && dy * dy >= 0 && dz * dz >= 0) by (nonlinear_arith);
        let dist = sqrt_floor(d2 as nat) as int;
        lemma_sqrt_floor_props(d2 as nat);
        assert(dist * dist <= d2 < (dist + 1) * (dist + 1));
        assert(dist >= 1) by (nonlinear_arith)
            requires
                d2 >= 1,
                d2 < (dist + 1) * (dist + 1),
                dist >= 0,
        ;
        let q = (g * mj * dt) / d2;
        lemma_mul_nonnegative(g as int, mj as int);
        lemma_mul_nonnegative(g as int * mj as int, dt as int);
        lemma_div_pos_is_pos(g * mj * dt, d2);
        let qc = if q > PAIR_ACCEL_LIMIT as int {
            PAIR_ACCEL_LIMIT as int
        } else {
            q
        };
        assert(-dist <= dx <= dist && -dist <= dy <= dist && -dist <= dz <= dist)
            by (nonlinear_arith)
            requires
                dx * dx <= d2,
                dy * dy <= d2,
                dz * dz <= d2,
                d2 < (dist + 1) * (dist + 1),
                dist >= 0,
        ;
        lemma_scaled_quotient_bound(dx, qc, dist);
        lemma_scaled_quotient_bound(dy, qc, dist);
        lemma_scaled_quotient_bound(dz, qc, dist);
    }
}

/// `|a| * |a|` as an unsigned wide square.
fn square_u128(a: i64) -> (s: u128)
    requires
        -4_000_000_000_000 <= a <= 4_000_000_000_000,
    ensures
        s as int == (a as int) * (a as int),
        s <= 16_000_000_000_000_000_000_000_000u128,
{
    let m: u64 = if a >= 0 {
        a as u64
    } else {
        (-a) as u64
    };
    proof {
        assert((m as int) * (m as int) == (a as int) * (a as int) && (m as int) * (m as int)
            <= 16_000_000_000_000_000_000_000_000) by (nonlinear_arith)
            requires
                m as int == (if a >= 0 {
                    a as int
                } else {
                    -(a as int)
                }),
                -4_000_000_000_000 <= a as int <= 4_000_000_000_000,
        ;
    }
    (m as u128) * (m as u128)
}

/// Exact executable form of `pair_delta_vel`.
fn pair_delta_vel_exec(g: u64, dt: u64, pi: Vec3, pj: Vec3, mj: u64) -> (r: Vec3)
    requires
        g <= GRAV_LIMIT,
        dt <= SCALE,
        mj <= MASS_LIMIT,
        vec3_wf(pi),
        vec3_wf(pj),
    ensures
        (r.x as int, r.y as int, r.z as int) == pair_delta_vel(g, dt, pi, pj, mj),
{
    let dx: i64 = pj.x - pi.x;
    let dy: i64 = pj.y - pi.y;
    let dz: i64 = pj.z - pi.z;
    let sx: u128 = square_u128(dx);
    let sy: u128 = square_u128(dy);
    let sz: u128 = square_u128(dz);
    let d2: u128 = sx + sy + sz;
    if d2 == 0 {
        Vec3 { x: 0, y: 0, z: 0 }
    } else {
        let dist: u128 = isqrt(d2);
        proof {
            lemma_sqrt_floor_props(d2 as nat);
            assert(dist >= 1) by (nonlinear_arith)
                requires
                    d2 >= 1,
                    (d2 as nat) < (dist as nat + 1) * (dist as nat + 1),
            ;
            assert(dist <= 7_000_000_000_000) by (nonlinear_arith)
                requires
                    dist * dist <= d2,
                    d2 <= 48_000_000_000_000_000_000_000_000u128,
            ;
        }
        let dist64: u64 = dist as u64;
        proof {
            assert((g as int) * (mj as int) <= 1_000_000_000_000_000_000_000_000)
                by (nonlinear_arith)
                requires
                    g <= 1_000_000_000_000u64,
                    mj <= 1_000_000_000_000u64,
            ;
        }
        let gm: u128 = (g as u128) * (mj as u128);
        proof {
            assert((gm as int) * (dt as int) <= 1_000_000_000_000_000_000_000_000_000_000)
                by (nonlinear_arith)
                requires
                    gm <= 1_000_000_000_000_000_000_000_000u128,
                    dt <= 1_000_000u64,
            ;
        }
        let num: u128 = gm * (dt as u128);
        let q: u128 = num / d2;
        let qc: u64 = if q > (PAIR_ACCEL_LIMIT as u128) {
            PAIR_ACCEL_LIMIT
        } else {
            q as u64
        };
        proof {
            let dxi = dx as int;
            let dyi = dy as int;
            let dzi = dz as int;
            let d2i = d2 as int;
            let disti = dist as int;
            assert(-disti <= dxi <= disti && -disti <= dyi <= disti && -disti <= dzi <= disti)
                by (nonlinear_arith)
                requires
                    dxi * dxi <= d2i,
                    dyi * dyi <= d2i,
                    dzi * dzi <= d2i,
                    d2i < (disti + 1) * (disti + 1),
                    disti >= 0,
            ;
            lemma_scaled_quotient_bound(dxi, qc as int, disti);
            lemma_scaled_quotient_bound(dyi, qc as int, disti);
            lemma_scaled_quotient_bound(dzi, qc as int, disti);
        }
        let rx: i64 = scaled_quotient_exec(dx, qc, dist64);
        let ry: i64 = scaled_quotient_exec(dy, qc, dist64);
        let rz: i64 = scaled_quotient_exec(dz, qc, dist64);
        Vec3 { x: rx, y: ry, z: rz }
    }
}

/// Sum of the pairwise contributions to body `i` from bodies `0..k`,
/// skipping `i` itself.
pub open spec fn delta_sum(s: Seq<Body>, i: int, g: u64, dt: u64, k: int) -> (int, int, int)
    decreases k,
{
    if k <= 0 {
        (0, 0, 0)
    } else {
        let prev = delta_sum(s, i, g, dt, k - 1);
        if k - 1 == i {
            prev
        } else {
            let d = pair_delta_vel(g, dt, s[i].pos, s[k - 1].pos, s[k - 1].mass);
            (prev.0 + d.0, prev.1 + d.1, prev.2 + d.2)
        }
    }
}

/// The partial sums grow by at most `PAIR_ACCEL_LIMIT` per body.
pub proof fn lemma_delta_sum_bound(s: Seq<Body>, i: int, g: u64, dt: u64, k: int)
    requires
        0 <= k,
    ensures
        -(k * PAIR_ACCEL_LIMIT as int) <= delta_sum(s, i, g, dt, k).0 <= k * PAIR_ACCEL_LIMIT
            as int,
        -(k * PAIR_ACCEL_LIMIT as int) <= delta_sum(s, i, g, dt, k).1 <= k * PAIR_ACCEL_LIMIT
            as int,
        -(k * PAIR_ACCEL_LIMIT as int) <= delta_sum(s, i, g, dt, k).2 <= k * PAIR_ACCEL_LIMIT
            as int,
    decreases k,
{
    if k == 0 {
    } else {
        lemma_delta_sum_bound(s, i, g, dt, k - 1);
        if k - 1 != i {
            lemma_pair_delta_vel_bound(g, dt, s[i].pos, s[k - 1].pos, s[k - 1].mass);
        }
    }
}

/// The new velocity of body `i`: its old velocity plus every pairwise
/// contribution, clamped into the coordinate range.
pub open spec fn new_velocity(s: Seq<Body>, i: int, g: u64, dt: u64) -> Vec3 {
    let d = delta_sum(s, i, g, dt, s.len() as int);
    Vec3 {
        x: clamp_coord(s[i].vel.x + d.0) as i64,
        y: clamp_coord(s[i].vel.y + d.1) as i64,
        z: clamp_coord(s[i].vel.z + d.2) as i64,
    }
}

/// A position advanced by one step of the (new) velocity: the raw
/// displacement is `v * dt / SCALE` per axis, truncating toward zero.
pub open spec fn advance_position(p: Vec3, v: Vec3, dt: u64) -> Vec3 {
    Vec3 {
        x: clamp_coord(p.x + scaled_quotient(v.x as int, dt as int, SCALE as int)) as i64,
        y: clamp_coord(p.y + scaled_quotient(v.y as int, dt as int, SCALE as int)) as i64,
        z: clamp_coord(p.z + scaled_quotient(v.z as int, dt as int, SCALE as int)) as i64,
    }
}

/// Body `i` after one step: same identity and mass, velocity updated from
/// the pre-step snapshot, position advanced by the new velocity.
pub open spec fn step_body(s: Seq<Body>, i: int, g: u64, dt: u64) -> Body {
    let v = new_velocity(s, i, g, dt);
    Body { id: s[i].id, mass: s[i].mass, pos: advance_position(s[i].pos, v, dt), vel: v }
}

/// One full integration step over a snapshot.
pub open spec fn step_bodies(s: Seq<Body>, g: u64, dt: u64) -> Seq<Body> {
    Seq::new(s.len(), |i: int| step_body(s, i, g, dt))
}

/// Determinism: the step is a function of the snapshot and the step size
/// alone, so two results computed from the same inputs are identical.
pub proof fn lemma_integrator_deterministic(
    s: Seq<Body>,
    g: u64,
    dt: u64,
    r1: Seq<Body>,
    r2: Seq<Body>,
)
    requires
        r1 == step_bodies(s, g, dt),
        r2 == step_bodies(s, g, dt),
    ensures
        r1 == r2,
{
}

/// Executable new-velocity computation for body `i`.
fn new_velocity_exec(bodies: &Vec<Body>, i: usize, g: u64, dt: u64) -> (v: Vec3)
    requires
        i < bodies@.len(),
        g <= GRAV_LIMIT,
        dt <= SCALE,
        forall|k: int| 0 <= k < bodies@.len() ==> body_wf(#[trigger] bodies@[k]),
    ensures
        v == new_velocity(bodies@, i as int, g, dt),
        vec3_wf(v),
{
    let n: usize = bodies.len();
    let mut ax: i128 = 0;
    let mut ay: i128 = 0;
    let mut az: i128 = 0;
    let mut j: usize = 0;
    while j < n
        invariant
            n == bodies@.len(),
            i < n,
            j <= n,
            g <= GRAV_LIMIT,
            dt <= SCALE,
            forall|k: int| 0 <= k < bodies@.len() ==> body_wf(#[trigger] bodies@[k]),
            (ax as int, ay as int, az as int) == delta_sum(bodies@, i as int, g, dt, j as int),
        decreases n - j,
    {
        proof {
            lemma_delta_sum_bound(bodies@, i as int, g, dt, j as int);
            assert(j * PAIR_ACCEL_LIMIT as int <= 0xFFFF_FFFF_FFFF_FFFF
                * PAIR_ACCEL_LIMIT as int);
        }
        if j != i {
            let d = pair_delta_vel_exec(g, dt, bodies[i].pos, bodies[j].pos, bodies[j].mass);
            proof {
                lemma_pair_delta_vel_bound(g, dt, bodies@[i as int].pos, bodies@[j as int].pos,
                    bodies@[j as int].mass);
            }
            ax = ax + d.x as i128;
            ay = ay + d.y as i128;
            az = az + d.z as i128;
        }
        j = j + 1;
    }
    proof {
        lemma_delta_sum_bound(bodies@, i as int, g, dt, n as int);
        assert(n * PAIR_ACCEL_LIMIT as int <= 0xFFFF_FFFF_FFFF_FFFF * PAIR_ACCEL_LIMIT as int);
    }
    let b = bodies[i];
    let vx: i64 = clamp_coord_exec((b.vel.x as i128) + ax);
    let vy: i64 = clamp_coord_exec((b.vel.y as i128) + ay);
    let vz: i64 = clamp_coord_exec((b.vel.z as i128) + az);
    Vec3 { x: vx, y: vy, z: vz }
}

/// Executable position advance.
fn advance_position_exec(p: Vec3, v: Vec3, dt: u64) -> (r: Vec3)
    requires
        vec3_wf(p),
        vec3_wf(v),
        dt <= SCALE,
    ensures
        r == advance_position(p, v, dt),
        vec3_wf(r),
{
    proof {
        lemma_displacement_bound(v.x, dt);
        lemma_displacement_bound(v.y, dt);
        lemma_displacement_bound(v.z, dt);
    }
    let mx: i64 = scaled_quotient_exec(v.x, dt, SCALE);
    let my: i64 = scaled_quotient_exec(v.y, dt, SCALE);
    let mz: i64 = scaled_quotient_exec(v.z, dt, SCALE);
    let rx: i64 = clamp_coord_exec((p.x as i128) + (mx as i128));
    let ry: i64 = clamp_coord_exec((p.y as i128) + (my as i128));
    let rz: i64 = clamp_coord_exec((p.z as i128) + (mz as i128));
    Vec3 { x: rx, y: ry, z: rz }
}

/// One step's displacement along an axis stays within the coordinate range.
proof fn lemma_displacement_bound(vx: i64, dt: u64)
    requires
        -(COORD_LIMIT as int) <= vx <= COORD_LIMIT as int,
        dt <= SCALE,
    ensures
        -(COORD_LIMIT as int) <= scaled_quotient(vx as int, dt as int, SCALE as int)
            <= COORD_LIMIT as int,
{
    let a = if vx >= 0 {
        vx as int
    } else {
        -(vx as int)
    };
    lemma_mul_inequality(a, COORD_LIMIT as int, dt as int);
    vstd::arithmetic::mul::lemma_mul_left_inequality(COORD_LIMIT as int, dt as int, SCALE as int);
    lemma_div_is_ordered(a * dt, COORD_LIMIT as int * SCALE as int, SCALE as int);
    assert((COORD_LIMIT as int * SCALE as int) / (SCALE as int) == COORD_LIMIT as int)
        by (nonlinear_arith);
    lemma_mul_nonnegative(a, dt as int);
    lemma_div_pos_is_pos(a * dt, SCALE as int);
}

/// Apply one integration step to the live store.
pub fn integrate_step(store: &mut BodyStore, g: u64, dt: u64)
    requires
        old(store).wf(),
        g <= GRAV_LIMIT,
        dt <= SCALE,
    ensures
        final(store).bodies@ == step_bodies(old(store).bodies@, g, dt),
        final(store).wf(),
{
    let n: usize = store.bodies.len();
    let mut out: Vec<Body> = Vec::new();
    let mut i: usize = 0;
    while i < n
        invariant
            n == store.bodies@.len(),
            store == old(store),
            old(store).wf(),
            g <= GRAV_LIMIT,
            dt <= SCALE,
            i <= n,
            out@.len() == i as int,
            forall|k: int| 0 <= k < i as int ==> out@[k] == step_body(
                old(store).bodies@,
                k,
                g,
                dt,
            ),
        decreases n - i,
    {
        let v = new_velocity_exec(&store.bodies, i, g, dt);
        let b = store.bodies[i];
        let p = advance_position_exec(b.pos, v, dt);
        out.push(Body { id: b.id, mass: b.mass, pos: p, vel: v });
        i = i + 1;
    }
    proof {
        assert(out@ =~= step_bodies(old(store).bodies@, g, dt));
        lemma_step_preserves_wf(old(store).bodies@, g, dt);
    }
    store.bodies = out;
}

/// A step keeps the store invariant: identities and masses are untouched
/// and every updated component is clamped into range.
pub proof fn lemma_step_preserves_wf(s: Seq<Body>, g: u64, dt: u64)
    requires
        store_wf(s),
    ensures
        store_wf(step_bodies(s, g, dt)),
        step_bodies(s, g, dt).len() == s.len(),
        forall|i: int| 0 <= i < s.len() ==> (#[trigger] step_bodies(s, g, dt)[i]).id == s[i].id
            && step_bodies(s, g, dt)[i].mass == s[i].mass,
{
    let t = step_bodies(s, g, dt);
    assert forall|i: int| 0 <= i < t.len() implies body_wf(#[trigger] t[i]) by {
        assert(body_wf(s[i]));
    }
    assert forall|i: int, j: int| 0 <= i < j < t.len() implies t[i].id != t[j].id by {
        assert(t[i].id == s[i].id && t[j].id == s[j].id);
    }
}

/// A single body feels no force: its velocity is unchanged by a step, and
/// if it is at rest the whole store is unchanged.
pub proof fn lemma_single_body_stable(s: Seq<Body>, g: u64, dt: u64)
    requires
        s.len() == 1,
        store_wf(s),
    ensures
        step_bodies(s, g, dt)[0].vel == s[0].vel,
        step_bodies(s, g, dt)[0].id == s[0].id,
        step_bodies(s, g, dt)[0].mass == s[0].mass,
        s[0].vel == (Vec3 { x: 0i64, y: 0i64, z: 0i64 }) ==> step_bodies(s, g, dt) == s,
{
    assert(delta_sum(s, 0, g, dt, 1) == delta_sum(s, 0, g, dt, 0));
    assert(body_wf(s[0]));
    let v = new_velocity(s, 0, g, dt);
    assert(v == s[0].vel);
    if s[0].vel == (Vec3 { x: 0i64, y: 0i64, z: 0i64 }) {
        assert(scaled_quotient(0int, dt as int, SCALE as int) == 0) by {
            vstd::arithmetic::mul::lemma_mul_by_zero_is_zero(dt as int);
            vstd::arithmetic::div_mod::lemma_div_of0(SCALE as int);
        }
        assert(step_bodies(s, g, dt)[0] == s[0]);
        assert(step_bodies(s, g, dt) =~= s);
    }
}

} // verus!
