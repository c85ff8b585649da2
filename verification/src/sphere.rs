//! A sphere of the population and the order in which spheres are kept.

use crate::vector3float::Vector3Float;
use std::cmp::Ordering;
use vstd::prelude::*;

verus! {

/// A sphere in the unit cube. Its radius is the bit pattern of a
/// single-precision number, and the order of the patterns is the order of the
/// radii.
#[derive(Clone, Copy, Debug)]
pub struct Sphere {
    id: i32,
    radius: u32,
    origin: Vector3Float,
    density: u32,
}

impl Sphere {
    /// The id of the sphere.
    pub closed spec fn spec_id(&self) -> i32 {
        self.id
    }

    /// The radius of the sphere, as a bit pattern.
    pub closed spec fn spec_radius(&self) -> u32 {
        self.radius
    }

    /// The centre of the sphere.
    pub closed spec fn spec_origin(&self) -> Vector3Float {
        self.origin
    }

    /// The density of the sphere before noise.
    pub closed spec fn spec_density(&self) -> u32 {
        self.density
    }

    /// Two spheres with the same four parts are the same sphere.
    pub proof fn lemma_parts_determine_sphere(self, other: Sphere)
        requires
            self.spec_id() == other.spec_id(),
            self.spec_radius() == other.spec_radius(),
            self.spec_origin() == other.spec_origin(),
            self.spec_density() == other.spec_density(),
        ensures
            self == other,
    {
    }

    /// The order of the population: by radius, and among equal radii by id.
    pub open spec fn precedes(self, other: Sphere) -> bool {
        self.spec_radius() < other.spec_radius() || (self.spec_radius() == other.spec_radius()
            && self.spec_id() <= other.spec_id())
    }

    /// `precedes` without equality of both radius and id.
    pub open spec fn strictly_precedes(self, other: Sphere) -> bool {
        self.spec_radius() < other.spec_radius() || (self.spec_radius() == other.spec_radius()
            && self.spec_id() < other.spec_id())
    }

    /// The radius of the sphere, as a bit pattern.
    #[verifier::when_used_as_spec(spec_radius)]
    pub fn radius(&self) -> (r: u32)
        ensures
            r == self.spec_radius(),
    {
        self.radius
    }

    /// The id of the sphere.
    #[verifier::when_used_as_spec(spec_id)]
    pub fn id(&self) -> (i: i32)
        ensures
            i == self.spec_id(),
    {
        self.id
    }

    /// The density of the sphere before noise.
    #[verifier::when_used_as_spec(spec_density)]
    pub fn density(&self) -> (d: u32)
        ensures
            d == self.spec_density(),
    {
        self.density
    }

    /// The centre of the sphere.
    pub fn origin(&self) -> (o: &Vector3Float)
        ensures
            *o == self.spec_origin(),
    {
        &self.origin
    }

    /// Makes the sphere with the given parts.
    pub fn generate_sphere(origin: Vector3Float, radius: u32, density: u32, id: i32) -> (s: Self)
        ensures
            s.spec_id() == id,
            s.spec_radius() == radius,
            s.spec_origin() == origin,
            s.spec_density() == density,
    {
        Self { id, radius, origin, density }
    }

    /// Whether this sphere strictly precedes the other.
    pub fn is_before(&self, other: &Sphere) -> (before: bool)
        ensures
            before == self.strictly_precedes(*other),
    {
        self.radius < other.radius || (self.radius == other.radius && self.id < other.id)
    }
}

/// Spheres are equal where id and radius are equal.
impl PartialEq for Sphere {
    fn eq(&self, other: &Self) -> (equal: bool) {
        self.id == other.id && self.radius == other.radius
    }
}

impl vstd::std_specs::cmp::PartialEqSpecImpl for Sphere {
    open spec fn obeys_eq_spec() -> bool {
        true
    }

    open spec fn eq_spec(&self, other: &Self) -> bool {
        self.spec_id() == other.spec_id() && self.spec_radius() == other.spec_radius()
    }
}

impl Eq for Sphere {

}

/// Spheres are ordered by radius, and among equal radii by id.
impl PartialOrd for Sphere {
    fn partial_cmp(&self, other: &Self) -> (order: Option<Ordering>) {
        if self.radius == other.radius {
            if self.id < other.id {
                Some(Ordering::Less)
            } else if self.id == other.id {
                Some(Ordering::Equal)
            } else {
                Some(Ordering::Greater)
            }
        } else if self.radius < other.radius {
            Some(Ordering::Less)
        } else {
            Some(Ordering::Greater)
        }
    }
}

impl vstd::std_specs::cmp::PartialOrdSpecImpl for Sphere {
    open spec fn obeys_partial_cmp_spec() -> bool {
        true
    }

    open spec fn partial_cmp_spec(&self, other: &Self) -> Option<Ordering> {
        if self.strictly_precedes(*other) {
            Some(Ordering::Less)
        } else if self.spec_radius() == other.spec_radius() && self.spec_id() == other.spec_id() {
            Some(Ordering::Equal)
        } else {
            Some(Ordering::Greater)
        }
    }
}

} // verus!
