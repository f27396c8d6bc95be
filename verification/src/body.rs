//! The authoritative body store: the set of massive point bodies the
//! integrator advances.

use vstd::prelude::*;
use crate::units::MASS_LIMIT;
use crate::vec3::{Vec3, vec3_wf};

verus! {

/// One massive point body.
#[derive(Clone, Copy, Debug, PartialEq, Eq, Structural)]
pub struct Body {
    /// Identifier, unique within a store.
    pub id: u64,
    /// Strictly positive mass, in raw units.
    pub mass: u64,
    /// Position, in raw units.
    pub pos: Vec3,
    /// Velocity, in raw units per second.
    pub vel: Vec3,
}

/// A single body's invariant: positive bounded mass, bounded coordinates.
pub open spec fn body_wf(b: Body) -> bool {
    &&& 0 < b.mass <= MASS_LIMIT as int
    &&& vec3_wf(b.pos)
    &&& vec3_wf(b.vel)
}

/// No two bodies share an identifier.
pub open spec fn ids_unique(s: Seq<Body>) -> bool {
    forall|i: int, j: int| 0 <= i < j < s.len() ==> s[i].id != s[j].id
}

/// Some body in `s` carries identifier `id`.
pub open spec fn has_id(s: Seq<Body>, id: u64) -> bool {
    exists|i: int| 0 <= i < s.len() && s[i].id == id
}

/// The store invariant: every body well formed, all identifiers distinct.
pub open spec fn store_wf(s: Seq<Body>) -> bool {
    &&& forall|i: int| 0 <= i < s.len() ==> body_wf(s[i])
    &&& ids_unique(s)
}

/// Why a body was rejected at the store boundary.
#[derive(Clone, Copy, Debug, PartialEq, Eq, Structural)]
pub enum BodyError {
    /// The mass was zero; the kernel divides by nothing, but a massless
    /// attractor is outside the model.
    NonPositiveMass,
    /// The mass exceeded `MASS_LIMIT`.
    MassOutOfRange,
    /// A position component exceeded `COORD_LIMIT` in magnitude.
    PositionOutOfRange,
    /// A velocity component exceeded `COORD_LIMIT` in magnitude.
    VelocityOutOfRange,
    /// Another body already carries this identifier.
    DuplicateId,
}

/// The startup configuration: three bodies, a heavy central one and two
/// light satellites, each one world unit being `SCALE` raw units.
pub open spec fn startup_bodies() -> Seq<Body> {
    seq![
        Body {
            id: 0u64,
            mass: 100_000_000u64,
            pos: Vec3 { x: 0i64, y: 0i64, z: 0i64 },
            vel: Vec3 { x: 0i64, y: 0i64, z: 0i64 },
        },
        Body {
            id: 1u64,
            mass: 1_000_000u64,
            pos: Vec3 { x: 10_000_000i64, y: 100_000i64, z: 0i64 },
            vel: Vec3 { x: 0i64, y: 0i64, z: 100_000_000i64 },
        },
        Body {
            id: 2u64,
            mass: 1_000_000u64,
            pos: Vec3 { x: 0i64, y: 300_000i64, z: -10_000_000i64 },
            vel: Vec3 { x: 100_000_000i64, y: 0i64, z: 0i64 },
        },
    ]
}

/// The startup set satisfies the store invariant.
pub proof fn lemma_startup_wf()
    ensures
        store_wf(startup_bodies()),
{
    let s = startup_bodies();
    assert forall|i: int| 0 <= i < s.len() implies body_wf(s[i]) by {
        if i == 0 {
            assert(body_wf(s[0]));
        } else if i == 1 {
            assert(body_wf(s[1]));
        } else {
            assert(body_wf(s[2]));
        }
    }
    assert forall|i: int, j: int| 0 <= i < j < s.len() implies s[i].id != s[j].id by {
        assert(s[0].id == 0 && s[1].id == 1 && s[2].id == 2);
    }
}

/// Owns the authoritative set of bodies.
#[derive(Clone, Debug, PartialEq)]
pub struct BodyStore {
    pub bodies: Vec<Body>,
}

impl BodyStore {
    /// The store invariant, lifted to the container.
    pub open spec fn wf(&self) -> bool {
        store_wf(self.bodies@)
    }

    /// An empty store.
    pub fn empty() -> (r: BodyStore)
        ensures
            r.bodies@ == Seq::<Body>::empty(),
            r.wf(),
    {
        let r = BodyStore { bodies: Vec::new() };
        proof {
            assert(r.bodies@ =~= Seq::<Body>::empty());
        }
        r
    }

    /// A store holding the startup configuration.
    pub fn startup() -> (r: BodyStore)
        ensures
            r.bodies@ == startup_bodies(),
            r.wf(),
    {
        let mut bodies: Vec<Body> = Vec::new();
        bodies.push(Body {
            id: 0,
            mass: 100_000_000,
            pos: Vec3 { x: 0, y: 0, z: 0 },
            vel: Vec3 { x: 0, y: 0, z: 0 },
        });
        bodies.push(Body {
            id: 1,
            mass: 1_000_000,
            pos: Vec3 { x: 10_000_000, y: 100_000, z: 0 },
            vel: Vec3 { x: 0, y: 0, z: 100_000_000 },
        });
        bodies.push(Body {
            id: 2,
            mass: 1_000_000,
            pos: Vec3 { x: 0, y: 300_000, z: -10_000_000 },
            vel: Vec3 { x: 100_000_000, y: 0, z: 0 },
        });
        proof {
            assert(bodies@ =~= startup_bodies());
            lemma_startup_wf();
        }
        BodyStore { bodies }
    }

    /// Number of live bodies.
    pub fn len(&self) -> (n: usize)
        ensures
            n == self.bodies@.len(),
    {
        self.bodies.len()
    }

    /// Read one body.
    pub fn get(&self, i: usize) -> (b: Body)
        requires
            i < self.bodies@.len(),
        ensures
            b == self.bodies@[i as int],
    {
        self.bodies[i]
    }

    /// Whether some body carries `id`.
    pub fn contains_id(&self, id: u64) -> (r: bool)
        ensures
            r == has_id(self.bodies@, id),
    {
        let mut i: usize = 0;
        while i < self.bodies.len()
            invariant
                i <= self.bodies@.len(),
                forall|k: int| 0 <= k < i ==> self.bodies@[k].id != id,
            decreases self.bodies@.len() - i,
        {
            if self.bodies[i].id == id {
                return true;
            }
            i = i + 1;
        }
        false
    }

    /// Remove every body (the "despawn all" removal command).
    pub fn clear(&mut self)
        ensures
            final(self).bodies@ == Seq::<Body>::empty(),
            final(self).wf(),
    {
        self.bodies = Vec::new();
        proof {
            assert(self.bodies@ =~= Seq::<Body>::empty());
        }
    }

    /// Validate a body at the boundary and append it.  The kernel itself
    /// assumes validated inputs, so every rejection happens here.
    pub fn add_body(&mut self, id: u64, mass: u64, pos: Vec3, vel: Vec3) -> (r: Result<
        (),
        BodyError,
    >)
        ensures
            match r {
                Ok(()) => {
                    &&& 0 < mass <= MASS_LIMIT as int
                    &&& vec3_wf(pos)
                    &&& vec3_wf(vel)
                    &&& !has_id(old(self).bodies@, id)
                    &&& final(self).bodies@ == old(self).bodies@.push(
                        Body { id, mass, pos, vel },
                    )
                },
                Err(e) => {
                    &&& final(self).bodies@ == old(self).bodies@
                    &&& match e {
                        BodyError::NonPositiveMass => mass == 0,
                        BodyError::MassOutOfRange => mass > MASS_LIMIT as int,
                        BodyError::PositionOutOfRange => 0 < mass <= MASS_LIMIT as int
                            && !vec3_wf(pos),
                        BodyError::VelocityOutOfRange => 0 < mass <= MASS_LIMIT as int
                            && vec3_wf(pos) && !vec3_wf(vel),
                        BodyError::DuplicateId => 0 < mass <= MASS_LIMIT as int && vec3_wf(pos)
                            && vec3_wf(vel) && has_id(old(self).bodies@, id),
                    }
                },
            },
            old(self).wf() && r is Ok ==> final(self).wf(),
    {
        if mass == 0 {
            return Err(BodyError::NonPositiveMass);
        }
        if mass > MASS_LIMIT {
            return Err(BodyError::MassOutOfRange);
        }
        if !coords_in_range(pos) {
            return Err(BodyError::PositionOutOfRange);
        }
        if !coords_in_range(vel) {
            return Err(BodyError::VelocityOutOfRange);
        }
        if self.contains_id(id) {
            return Err(BodyError::DuplicateId);
        }
        let b = Body { id, mass, pos, vel };
        self.bodies.push(b);
        proof {
            if old(self).wf() {
                let s = old(self).bodies@;
                let t = self.bodies@;
                assert forall|i: int, j: int| 0 <= i < j < t.len() implies t[i].id != t[j].id by {
                    if j < s.len() {
                    } else {
                        assert(t[j].id == id);
                        assert(!has_id(s, id));
                        assert(t[i] == s[i]);
                    }
                }
            }
        }
        Ok(())
    }

    /// Restore the startup configuration, discarding whatever is live.
    pub fn reset(&mut self)
        ensures
            final(self).bodies@ == startup_bodies(),
            final(self).wf(),
    {
        let fresh = BodyStore::startup();
        self.bodies = fresh.bodies;
    }
}

/// Range check for one vector, mirroring `vec3_wf`.
pub fn coords_in_range(v: Vec3) -> (r: bool)
    ensures
        r == vec3_wf(v),
{
    -crate::units::COORD_LIMIT <= v.x && v.x <= crate::units::COORD_LIMIT
        && -crate::units::COORD_LIMIT <= v.y && v.y <= crate::units::COORD_LIMIT
        && -crate::units::COORD_LIMIT <= v.z && v.z <= crate::units::COORD_LIMIT
}

} // verus!
