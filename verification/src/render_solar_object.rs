//! Per-frame placement of the celestial bodies.
//!
//! Every frame, the world transform of each body is recomputed from scratch
//! out of the elapsed time and the static tree: no per-frame state
//! accumulates, so the result is a pure function of `(elapsed, tree)` and is
//! immune to frame jitter. A transform is kept symbolic — a chain of
//! primitive rotations, offsets and scales — and the renderer evaluates
//! the chain into matrices. Children inherit their parent's orbital frame
//! (orbit rotation and offset), not its spin, tilt or scale.

use vstd::prelude::*;

verus! {

/// Elapsed simulation time in milliseconds stays below this bound so that
/// angle computations fit in 64 bits.
pub const ELAPSED_LIMIT_MS: u64 = 1_000_000_000_000;

/// A full rotation in the fixed-point angle measure of the hierarchy.
pub const TURN_MICROTURNS: u64 = 1_000_000;

/// The scaled radii that separate an orbiting body from its parent: the
/// parent's and the body's own.
#[derive(Debug, Clone, Copy, PartialEq, Eq, Structural)]
pub struct RadiusPair {
    pub parent: u64,
    pub own: u64,
}

/// One primitive factor of a body's world transform, in application order
/// from the right: a parent chain is extended on the left.
#[derive(Debug, Clone, Copy, PartialEq, Eq, Structural)]
pub enum Transform {
    /// No effect: stands where a body has no orbit.
    Identity,
    /// Rotation of the orbital position around world up, in microturns.
    OrbitRotation { microturns: u64 },
    /// Offset along the local X axis: the scaled distance from the
    /// parent, plus, away from the root, the scaled radii of the parent and
    /// of the body itself.
    OrbitOffset { distance: u64, radii: Option<RadiusPair> },
    /// Rotation around the reference axis by the axial tilt, in
    /// micro-radians.
    AxialTilt { tilt: i64 },
    /// The body's own rotation around its axis, in microturns.
    Spin { microturns: u64 },
    /// Uniform scale by the radius curve of the given radius.
    SurfaceScale { radius: u64 },
}

/// A transform that provably does nothing: a whole number of turns, a zero
/// tilt, or an offset of zero length.
pub open spec fn is_identity(t: Transform) -> bool {
    match t {
        Transform::Identity => true,
        Transform::OrbitRotation { microturns } => microturns % TURN_MICROTURNS == 0,
        Transform::OrbitOffset { distance, radii } => distance == 0 && radii is None,
        Transform::AxialTilt { tilt } => tilt == 0,
        Transform::Spin { microturns } => microturns % TURN_MICROTURNS == 0,
        Transform::SurfaceScale { radius } => false,
    }
}

/// A transform chain with the identity factors dropped.
pub open spec fn reduced(ts: Seq<Transform>) -> Seq<Transform>
    decreases ts.len(),
{
    if ts.len() == 0 {
        Seq::empty()
    } else if is_identity(ts[0]) {
        reduced(ts.drop_first())
    } else {
        seq![ts[0]] + reduced(ts.drop_first())
    }
}

/// One celestial body of the arena: static data plus the index of its
/// parent, which always precedes it.
#[derive(Debug, Clone)]
pub struct OrbitalBody {
    pub name: String,
    pub radius: u64,
    pub distance_from_parent: u64,
    pub orbital_period_ms: Option<u64>,
    pub rotation_period_ms: u64,
    pub tilt: i64,
    pub inverse_normals: bool,
    pub parent: Option<usize>,
}

/// The angle a period of `period` milliseconds has swept after `elapsed`
/// milliseconds, in microturns: ten turns per period, the presentation time
/// dilation that makes orbits visibly animated.
pub open spec fn swept_microturns(elapsed: u64, period: u64) -> int {
    (10_000_000 * (elapsed as int)) / (period as int)
}

impl OrbitalBody {
    /// The rotation of the body's orbital position at `elapsed`: identity
    /// where the body does not orbit.
    pub open spec fn orbit_rotation(self, elapsed: u64) -> Transform {
        match self.orbital_period_ms {
            None => Transform::Identity,
            Some(p) => Transform::OrbitRotation {
                microturns: swept_microturns(elapsed, p) as u64,
            },
        }
    }

    /// The offset from the parent's centre to the body's orbital
    /// position: the radii terms are absent at the root.
    pub open spec fn orbit_offset(self, parent_radius: Option<u64>) -> Transform {
        Transform::OrbitOffset {
            distance: self.distance_from_parent,
            radii: match parent_radius {
                None => None,
                Some(pr) => Some(RadiusPair { parent: pr, own: self.radius }),
            },
        }
    }

    /// The five local factors of the body's world transform at `elapsed`,
    /// outermost first: orbit rotation, orbit offset, axial tilt, spin,
    /// surface scale.
    pub open spec fn local_transforms(self, elapsed: u64, parent_radius: Option<u64>)
        -> Seq<Transform> {
        seq![
            self.orbit_rotation(elapsed),
            self.orbit_offset(parent_radius),
            Transform::AxialTilt { tilt: self.tilt },
            Transform::Spin {
                microturns: swept_microturns(elapsed, self.rotation_period_ms) as u64,
            },
            Transform::SurfaceScale { radius: self.radius },
        ]
    }
}

/// The world transform of one body, as the chain of primitive factors, and
/// whether its mesh needs the inverted-normal fix.
#[derive(Debug, Clone)]
pub struct BodyPlacement {
    pub transforms: Vec<Transform>,
    pub inverse_normals: bool,
}

/// The arena of celestial bodies, root first, every parent before its
/// children.
#[derive(Debug, Clone)]
pub struct SolarSystem {
    pub bodies: Vec<OrbitalBody>,
}

impl SolarSystem {
    /// The arena encodes a tree: one root at index zero, every other body
    /// with a parent of smaller index, and all periods positive.
    pub open spec fn wf(self) -> bool {
        &&& self.bodies.len() > 0
        &&& self.bodies[0].parent is None
        &&& forall|i: int| 1 <= i < self.bodies.len()
            ==> ((#[trigger] self.bodies[i].parent) matches Some(j) && j < i)
        &&& forall|i: int| 0 <= i < self.bodies.len()
            ==> (#[trigger] self.bodies[i].rotation_period_ms) > 0
        &&& forall|i: int| 0 <= i < self.bodies.len()
            ==> ((#[trigger] self.bodies[i].orbital_period_ms) matches Some(p) ==> p > 0)
    }

    /// The scaled radius of the parent of body `i`, absent at the root.
    pub open spec fn parent_radius(self, i: int) -> Option<u64> {
        match self.bodies[i].parent {
            None => None,
            Some(j) => Some(self.bodies[j as int].radius),
        }
    }

    /// The orbital frame a body passes to its children: the parent's own
    /// frame extended by the body's orbit rotation and offset — spin, tilt
    /// and scale are not inherited.
    pub open spec fn child_frame(self, elapsed: u64, i: int) -> Seq<Transform>
        decreases i when self.wf() && 0 <= i < self.bodies.len()
    {
        let own = seq![
            self.bodies[i].orbit_rotation(elapsed),
            self.bodies[i].orbit_offset(self.parent_radius(i)),
        ];
        match self.bodies[i].parent {
            None => own,
            Some(j) => self.child_frame(elapsed, j as int) + own,
        }
    }

    /// The full world transform chain of body `i` at `elapsed`: the parent's
    /// orbital frame followed by the body's five local factors.
    pub open spec fn world_chain(self, elapsed: u64, i: int) -> Seq<Transform> {
        let frame = match self.bodies[i].parent {
            None => Seq::<Transform>::empty(),
            Some(j) => self.child_frame(elapsed, j as int),
        };
        frame + self.bodies[i].local_transforms(elapsed, self.parent_radius(i))
    }

    /// Computes the placement of every body at `elapsed` milliseconds of
    /// simulation time: the world transform chain and the normal-fix flag,
    /// in arena order.
    pub fn update_transforms(&self, elapsed: u64) -> (r: Vec<BodyPlacement>)
        requires
            self.wf(),
            elapsed <= ELAPSED_LIMIT_MS,
        ensures
            r.len() == self.bodies.len(),
            forall|i: int| 0 <= i < r.len()
                ==> (#[trigger] r[i].transforms)@ == self.world_chain(elapsed, i),
            forall|i: int| 0 <= i < r.len()
                ==> (#[trigger] r[i].inverse_normals) == self.bodies[i].inverse_normals,
    {
        let n = self.bodies.len();
        let mut frames: Vec<Vec<Transform>> = Vec::new();
        let mut out: Vec<BodyPlacement> = Vec::new();
        let mut i: usize = 0;
        while i < n
            invariant
                self.wf(),
                elapsed <= ELAPSED_LIMIT_MS,
                n == self.bodies.len(),
                i <= n,
                frames.len() == i,
                out.len() == i,
                forall|j: int| 0 <= j < i
                    ==> (#[trigger] frames[j])@ == self.child_frame(elapsed, j),
                forall|j: int| 0 <= j < i
                    ==> (#[trigger] out[j].transforms)@ == self.world_chain(elapsed, j),
                forall|j: int| 0 <= j < i
                    ==> (#[trigger] out[j].inverse_normals) == self.bodies[j].inverse_normals,
            decreases n - i,
        {
            let body = &self.bodies[i];
            let mut chain: Vec<Transform> = Vec::new();
            let parent_radius: Option<u64> = match body.parent {
                None => None,
                Some(j) => {
                    let base = &frames[j];
                    let mut k: usize = 0;
                    while k < base.len()
                        invariant
                            k <= base.len(),
                            chain@ == base@.take(k as int),
                        decreases base.len() - k,
                    {
                        chain.push(base[k]);
                        k += 1;
                    }
                    proof {
                        assert(chain@ =~= base@);
                    }
                    Some(self.bodies[j].radius)
                }
            };
            let orbit: Transform = match body.orbital_period_ms {
                None => Transform::Identity,
                Some(p) => Transform::OrbitRotation { microturns: 10_000_000 * elapsed / p },
            };
            let offset: Transform = Transform::OrbitOffset {
                distance: body.distance_from_parent,
                radii: match parent_radius {
                    None => None,
                    Some(pr) => Some(RadiusPair { parent: pr, own: body.radius }),
                },
            };
            chain.push(orbit);
            chain.push(offset);
            let mut frame: Vec<Transform> = Vec::new();
            let mut k: usize = 0;
            while k < chain.len()
                invariant
                    k <= chain.len(),
                    frame@ == chain@.take(k as int),
                decreases chain.len() - k,
            {
                frame.push(chain[k]);
                k += 1;
            }
            proof {
                assert(frame@ =~= chain@);
            }
            chain.push(Transform::AxialTilt { tilt: body.tilt });
            chain.push(Transform::Spin {
                microturns: 10_000_000 * elapsed / body.rotation_period_ms,
            });
            chain.push(Transform::SurfaceScale { radius: body.radius });
            proof {
                assert(frame@ =~= self.child_frame(elapsed, i as int));
                assert(chain@ =~= self.world_chain(elapsed, i as int));
            }
            frames.push(frame);
            out.push(BodyPlacement { transforms: chain, inverse_normals: body.inverse_normals });
            i += 1;
        }
        out
    }
}

/// The root's world transform has no parent frame: it is exactly its five
/// local factors, and only the orbit rotation and the spin depend on the
/// elapsed time — offset, tilt and scale are the same at every instant. Where
/// the root has no orbital period, its orbit factor is the identity.
pub proof fn lemma_root_transform(sys: SolarSystem, elapsed: u64)
    requires
        sys.wf(),
    ensures
        sys.world_chain(elapsed, 0).len() == 5,
        sys.world_chain(elapsed, 0)[1] == sys.bodies[0].orbit_offset(None),
        sys.world_chain(elapsed, 0)[2] == (Transform::AxialTilt { tilt: sys.bodies[0].tilt }),
        sys.world_chain(elapsed, 0)[4]
            == (Transform::SurfaceScale { radius: sys.bodies[0].radius }),
        sys.bodies[0].orbital_period_ms is None
            ==> sys.world_chain(elapsed, 0)[0] == Transform::Identity,
{
    assert(sys.world_chain(elapsed, 0)
        =~= sys.bodies[0].local_transforms(elapsed, None));
}

/// At the origin of time a root without an orbit, tilt or offset reduces to
/// its surface scale alone: every other factor of its world transform is the
/// identity.
pub proof fn lemma_root_at_time_zero(sys: SolarSystem)
    requires
        sys.wf(),
        sys.bodies[0].orbital_period_ms is None,
        sys.bodies[0].tilt == 0,
        sys.bodies[0].distance_from_parent == 0,
    ensures
        reduced(sys.world_chain(0, 0))
            =~= seq![Transform::SurfaceScale { radius: sys.bodies[0].radius }],
{
    let c = sys.world_chain(0, 0);
    assert(c =~= sys.bodies[0].local_transforms(0, None));
    assert(swept_microturns(0, sys.bodies[0].rotation_period_ms) == 0);
    let c1 = c.drop_first();
    let c2 = c1.drop_first();
    let c3 = c2.drop_first();
    let c4 = c3.drop_first();
    assert(is_identity(c[0]));
    assert(is_identity(c1[0]));
    assert(is_identity(c2[0]));
    assert(is_identity(c3[0]));
    assert(reduced(c) == reduced(c1));
    assert(reduced(c1) == reduced(c2));
    assert(reduced(c2) == reduced(c3));
    assert(reduced(c3) == reduced(c4));
    assert(c4.len() == 1 && !is_identity(c4[0]));
    assert(reduced(c4.drop_first()) =~= Seq::<Transform>::empty());
    assert(reduced(c4) =~= seq![c4[0]]);
}

} // verus!
