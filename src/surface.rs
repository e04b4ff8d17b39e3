use vstd::prelude::*;

verus! {

/// Which side of a surface a ray meets: the side the outward normal points to, or the inside.
#[derive(Clone, Copy, Debug, PartialEq, Eq, Structural)]
pub enum FaceKind {
    Front,
    Back,
}

/// The face met by a ray whose direction does, or does not, oppose the outward normal.
pub open spec fn face_for(opposes_outward_normal: bool) -> FaceKind {
    if opposes_outward_normal {
        FaceKind::Front
    } else {
        FaceKind::Back
    }
}

/// A point or direction with exact integer coordinates, the model in which the
/// orientation law below is stated.
pub type Exact3 = (int, int, int);

pub open spec fn dot(a: Exact3, b: Exact3) -> int {
    a.0 * b.0 + a.1 * b.1 + a.2 * b.2
}

pub open spec fn scale(k: int, a: Exact3) -> Exact3 {
    (k * a.0, k * a.1, k * a.2)
}

impl FaceKind {
    /// The face met by a ray, given whether the ray's direction opposes the outward normal
    /// (their dot product is negative).
    pub fn facing(opposes_outward_normal: bool) -> (r: FaceKind)
        ensures
            r == face_for(opposes_outward_normal),
    {
        if opposes_outward_normal {
            FaceKind::Front
        } else {
            FaceKind::Back
        }
    }
}

/// The normal reported for a hit: the outward normal where the ray opposes it, else the
/// inward one.
pub open spec fn oriented_normal<V>(opposes_outward_normal: bool, outward: V, inward: V) -> V {
    if opposes_outward_normal {
        outward
    } else {
        inward
    }
}

/// Where a ray meets a primitive: its distance `t` along the ray, the point, the normal
/// oriented against the ray, the face met and the primitive's material.
#[derive(Clone, Copy, Debug)]
pub struct HitRecord<V, S, M> {
    pub t: S,
    pub hit_point: V,
    pub normal: V,
    pub face: FaceKind,
    pub material: M,
}

impl<V, S, M> HitRecord<V, S, M> {
    /// The record of a hit at distance `t` and point `hit_point`, where the surface's
    /// outward normal is `outward_normal` and its negation `inward_normal`: a ray whose
    /// direction opposes the outward normal meets the front face and is reported the
    /// outward normal, any other meets the back face and is reported the inward one.
    pub fn new(
        t: S,
        hit_point: V,
        outward_normal: V,
        inward_normal: V,
        opposes_outward_normal: bool,
        material: M,
    ) -> (r: HitRecord<V, S, M>)
        ensures
            r.t == t,
            r.hit_point == hit_point,
            r.face == face_for(opposes_outward_normal),
            r.normal == oriented_normal(opposes_outward_normal, outward_normal, inward_normal),
            r.material == material,
    {
        let face = FaceKind::facing(opposes_outward_normal);
        let normal = if opposes_outward_normal {
            outward_normal
        } else {
            inward_normal
        };
        HitRecord { t, hit_point, normal, face, material }
    }
}

/// A hit record's normal points against the incident ray: built with the face chosen by
/// the sign of `direction · outward` and the inward normal the outward one negated, the
/// reported normal's dot product with the ray direction is never positive.
pub proof fn lemma_hit_record_normal_opposes_ray(direction: Exact3, outward: Exact3)
    ensures
        dot(oriented_normal(dot(direction, outward) < 0, outward, scale(-1, outward)), direction)
            <= 0,
{
    let k: int = if dot(direction, outward) < 0 {
        1
    } else {
        -1
    };
    lemma_scaled_product(k, outward.0, direction.0);
    lemma_scaled_product(k, outward.1, direction.1);
    lemma_scaled_product(k, outward.2, direction.2);
    if k == 1 {
        assert(scale(1, outward) == outward);
    }
}

proof fn lemma_scaled_product(k: int, x: int, y: int)
    requires
        k == 1 || k == -1,
    ensures
        k == 1 ==> (k * x) * y == y * x,
        k == -1 ==> (k * x) * y == -(y * x),
{
    if k == 1 {
        assert((k * x) * y == y * x) by (nonlinear_arith)
            requires
                k == 1,
        ;
    } else {
        assert((k * x) * y == -(y * x)) by (nonlinear_arith)
            requires
                k == -1,
        ;
    }
}

} // verus!
