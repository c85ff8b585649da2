//! Which sphere owns a point, and what density the point is given.
//!
//! A point is known to the classifier by the spheres that contain it: one flag
//! for each sphere of the population, in the order of the population. A sphere
//! without a flag does not contain the point.

use crate::config::{GeneratorData, Settings, MAX_DENSITY};
use crate::single::{is_magnitude, lemma_order_of_patterns, scaled_value};
use crate::sphere::Sphere;
use vstd::prelude::*;

verus! {

/// The material of a point that no sphere contains.
pub const EMPTY_SPACE: i32 = -1;

/// The Gaussian from which the density of a voxel is drawn. Both numbers count
/// halves, so that half a threshold is exact: the mean is `twice_mean / 2` and
/// the variance is `twice_spread / 2`.
#[derive(Clone, Copy, Debug, PartialEq, Eq, Structural)]
pub struct Noise {
    pub twice_mean: u64,
    pub twice_spread: u64,
}

/// What the classifier says of a point: the id of the sphere that owns it, or
/// `EMPTY_SPACE`; the density of that sphere, or half the empty-space
/// threshold, rounded down; and the noise that goes on top.
#[derive(Clone, Copy, Debug, PartialEq, Eq, Structural)]
pub struct Classification {
    pub material: i32,
    pub base_density: u32,
    pub noise: Noise,
}

/// Whether the sphere at place `j` contains the point.
pub open spec fn contains_point(inside: Seq<bool>, j: int) -> bool {
    0 <= j < inside.len() && inside[j]
}

/// Whether the sphere at place `w` is the owner among the first `n` spheres: it
/// contains the point, no sphere among them that contains the point has a
/// smaller radius, or the same radius and a smaller id, and it is the first
/// such sphere.
pub open spec fn is_owner_among(spheres: Seq<Sphere>, inside: Seq<bool>, n: int, w: int) -> bool {
    &&& 0 <= w < n <= spheres.len()
    &&& contains_point(inside, w)
    &&& forall|j: int|
        0 <= j < n && contains_point(inside, j) ==> spheres[w].precedes(#[trigger] spheres[j])
    &&& forall|j: int|
        0 <= j < w && contains_point(inside, j) ==> spheres[w].strictly_precedes(
            #[trigger] spheres[j],
        )
}

/// Whether the sphere at place `w` owns the point.
pub open spec fn is_owner(spheres: Seq<Sphere>, inside: Seq<bool>, w: int) -> bool {
    is_owner_among(spheres, inside, spheres.len() as int, w)
}

/// The place of the sphere that owns the point, if a sphere contains it.
pub open spec fn owner(spheres: Seq<Sphere>, inside: Seq<bool>) -> Option<int> {
    if exists|w: int| is_owner(spheres, inside, w) {
        Some(choose|w: int| is_owner(spheres, inside, w))
    } else {
        None
    }
}

/// The noise of a voxel that a sphere of the given density owns.
pub open spec fn sphere_noise(density: u32, noise_span: u32) -> Noise {
    Noise { twice_mean: (2 * density) as u64, twice_spread: (2 * noise_span) as u64 }
}

/// The noise of a voxel of empty space: mean and variance are both half the
/// threshold.
pub open spec fn empty_noise(empty_space: u32) -> Noise {
    Noise { twice_mean: empty_space as u64, twice_spread: empty_space as u64 }
}

/// What the classifier says of the point.
pub open spec fn classification(
    spheres: Seq<Sphere>,
    inside: Seq<bool>,
    settings: Settings,
) -> Classification {
    match owner(spheres, inside) {
        Some(w) => Classification {
            material: spheres[w].id(),
            base_density: spheres[w].density(),
            noise: sphere_noise(spheres[w].density(), settings.noise_span),
        },
        None => Classification {
            material: EMPTY_SPACE,
            base_density: settings.empty_space / 2,
            noise: empty_noise(settings.empty_space),
        },
    }
}

/// A point has at most one owner.
pub proof fn lemma_owner_is_unique(spheres: Seq<Sphere>, inside: Seq<bool>, v: int, w: int)
    requires
        is_owner(spheres, inside, v),
        is_owner(spheres, inside, w),
    ensures
        v == w,
{
    if v < w {
        assert(spheres[w].strictly_precedes(spheres[v]));
    } else if w < v {
        assert(spheres[v].strictly_precedes(spheres[w]));
    }
}

/// The owner is the sphere that `is_owner` holds of.
pub proof fn lemma_owner_found(spheres: Seq<Sphere>, inside: Seq<bool>, w: int)
    requires
        is_owner(spheres, inside, w),
    ensures
        owner(spheres, inside) == Some(w),
{
    let chosen = choose|v: int| is_owner(spheres, inside, v);
    lemma_owner_is_unique(spheres, inside, chosen, w);
}

/// A point outside every sphere is empty space, with half the empty-space
/// threshold as its density.
pub proof fn lemma_outside_every_sphere(
    spheres: Seq<Sphere>,
    inside: Seq<bool>,
    settings: Settings,
)
    requires
        forall|j: int| 0 <= j < spheres.len() ==> !contains_point(inside, j),
    ensures
        classification(spheres, inside, settings).material == EMPTY_SPACE,
        classification(spheres, inside, settings).base_density == settings.empty_space / 2,
        classification(spheres, inside, settings).noise == empty_noise(settings.empty_space),
{
}

/// A point inside exactly one sphere has that sphere's id and density.
pub proof fn lemma_inside_one_sphere(
    spheres: Seq<Sphere>,
    inside: Seq<bool>,
    settings: Settings,
    s: int,
)
    requires
        0 <= s < spheres.len(),
        contains_point(inside, s),
        forall|j: int| 0 <= j < spheres.len() && j != s ==> !contains_point(inside, j),
    ensures
        classification(spheres, inside, settings).material == spheres[s].id(),
        classification(spheres, inside, settings).base_density == spheres[s].density(),
        classification(spheres, inside, settings).noise == sphere_noise(
            spheres[s].density(),
            settings.noise_span,
        ),
{
    lemma_owner_found(spheres, inside, s);
}

/// Where spheres overlap, the point goes to the smallest of those that contain
/// it, and among equal radii to the smallest id: the owner's radius is at most
/// that of every sphere `s` that contains the point, and where the two radii
/// are equal its id is at most that of `s`.
pub proof fn lemma_smallest_sphere_owns(
    spheres: Seq<Sphere>,
    inside: Seq<bool>,
    settings: Settings,
    s: int,
)
    requires
        0 <= s < spheres.len(),
        contains_point(inside, s),
    ensures
        owner(spheres, inside) is Some,
        ({
            let w = owner(spheres, inside).unwrap();
            &&& 0 <= w < spheres.len()
            &&& contains_point(inside, w)
            &&& classification(spheres, inside, settings).material == spheres[w].id()
            &&& classification(spheres, inside, settings).base_density == spheres[w].density()
            &&& spheres[w].radius() <= spheres[s].radius()
            &&& spheres[w].radius() == spheres[s].radius() ==> spheres[w].id() <= spheres[s].id()
        }),
{
    lemma_owner_exists(spheres, inside, spheres.len() as int, s);
    let v = choose|v: int| is_owner_among(spheres, inside, spheres.len() as int, v);
    assert(is_owner(spheres, inside, v));
}

/// The owner is the smallest also by the numbers that the radii stand for:
/// no sphere that contains the point has a radius below the owner's.
pub proof fn lemma_owner_has_smallest_radius(spheres: Seq<Sphere>, inside: Seq<bool>, s: int)
    requires
        0 <= s < spheres.len(),
        contains_point(inside, s),
        forall|j: int| 0 <= j < spheres.len() ==> is_magnitude(#[trigger] spheres[j].radius()),
    ensures
        owner(spheres, inside) is Some,
        scaled_value(spheres[owner(spheres, inside).unwrap()].radius()) <= scaled_value(
            spheres[s].radius(),
        ),
{
    let settings = arbitrary::<Settings>();
    lemma_smallest_sphere_owns(spheres, inside, settings, s);
    let w = owner(spheres, inside).unwrap();
    lemma_order_of_patterns(spheres[w].radius(), spheres[s].radius());
}

/// The order in which the spheres stand does not matter to the classifier:
/// where no two spheres agree in both radius and id, a set and its flags,
/// both rearranged in the same way, give the same classification. Here
/// `to[i]` is the new place of the sphere at place `i`, and `from[j]` the old
/// place of the sphere at place `j`.
pub proof fn lemma_classification_ignores_order(
    spheres: Seq<Sphere>,
    inside: Seq<bool>,
    moved_spheres: Seq<Sphere>,
    moved_inside: Seq<bool>,
    to: Seq<int>,
    from: Seq<int>,
    settings: Settings,
)
    requires
        inside.len() == spheres.len(),
        moved_spheres.len() == spheres.len(),
        moved_inside.len() == spheres.len(),
        to.len() == spheres.len(),
        from.len() == spheres.len(),
        forall|i: int|
            0 <= i < spheres.len() ==> 0 <= #[trigger] to[i] < spheres.len() && from[to[i]] == i,
        forall|j: int|
            0 <= j < spheres.len() ==> 0 <= #[trigger] from[j] < spheres.len() && to[from[j]] == j
                && moved_spheres[j] == spheres[from[j]] && moved_inside[j] == inside[from[j]],
        forall|i: int, j: int|
            0 <= i < j < spheres.len() ==> (#[trigger] spheres[i]).radius() != (
            #[trigger] spheres[j]).radius() || spheres[i].id() != spheres[j].id(),
    ensures
        classification(moved_spheres, moved_inside, settings) == classification(
            spheres,
            inside,
            settings,
        ),
{
    if exists|w: int| is_owner(spheres, inside, w) {
        let w = choose|w: int| is_owner(spheres, inside, w);
        let v = to[w];
        assert forall|j: int|
            0 <= j < moved_spheres.len() && contains_point(moved_inside, j) implies moved_spheres[v].precedes(
            #[trigger] moved_spheres[j],
        ) by {
            assert(contains_point(inside, from[j]));
        }
        assert forall|j: int|
            0 <= j < v && contains_point(moved_inside, j) implies moved_spheres[v].strictly_precedes(
            #[trigger] moved_spheres[j],
        ) by {
            assert(from[j] != w);
        }
        lemma_owner_found(moved_spheres, moved_inside, v);
    } else {
        if exists|v: int| is_owner(moved_spheres, moved_inside, v) {
            let v = choose|v: int| is_owner(moved_spheres, moved_inside, v);
            lemma_owner_exists(spheres, inside, spheres.len() as int, from[v]);
            let w = choose|w: int| is_owner_among(spheres, inside, spheres.len() as int, w);
            assert(is_owner(spheres, inside, w));
        }
    }
}

/// Among the first `n` spheres there is an owner as soon as one of them
/// contains the point.
proof fn lemma_owner_exists(spheres: Seq<Sphere>, inside: Seq<bool>, n: int, s: int)
    requires
        0 <= s < n <= spheres.len(),
        contains_point(inside, s),
    ensures
        exists|w: int| is_owner_among(spheres, inside, n, w),
    decreases n,
{
    let last = n - 1;
    if exists|t: int| 0 <= t < last && contains_point(inside, t) {
        let t = choose|t: int| 0 <= t < last && contains_point(inside, t);
        lemma_owner_exists(spheres, inside, last, t);
        let v = choose|v: int| is_owner_among(spheres, inside, last, v);
        if contains_point(inside, last) && spheres[last].strictly_precedes(spheres[v]) {
            assert(is_owner_among(spheres, inside, n, last));
        } else {
            assert(is_owner_among(spheres, inside, n, v));
        }
    } else {
        assert(is_owner_among(spheres, inside, n, last));
    }
}

/// Classifies a point: finds the sphere that owns it among those that contain
/// it, and says which density and which noise the point is given.
pub fn get_density_and_material(
    inside: &Vec<bool>,
    spheres: &Vec<Sphere>,
    gen_data: &GeneratorData,
) -> (c: Classification)
    ensures
        c == classification(spheres@, inside@, gen_data@),
{
    let mut best: Option<usize> = None;
    let mut j: usize = 0;
    while j < spheres.len()
        invariant
            j <= spheres.len(),
            match best {
                Some(w) => is_owner_among(spheres@, inside@, j as int, w as int),
                None => forall|k: int| 0 <= k < j ==> !contains_point(inside@, k),
            },
        decreases spheres.len() - j,
    {
        if j < inside.len() && inside[j] {
            match best {
                Some(w) => {
                    if spheres[j].is_before(&spheres[w]) {
                        best = Some(j);
                    }
                },
                None => {
                    best = Some(j);
                },
            }
        }
        j += 1;
    }
    match best {
        Some(w) => {
            proof {
                lemma_owner_found(spheres@, inside@, w as int);
            }
            let density = spheres[w].density();
            Classification {
                material: spheres[w].id(),
                base_density: density,
                noise: Noise {
                    twice_mean: 2 * (density as u64),
                    twice_spread: 2 * (gen_data.noise_span as u64),
                },
            }
        },
        None => {
            Classification {
                material: EMPTY_SPACE,
                base_density: gen_data.empty_space / 2,
                noise: Noise {
                    twice_mean: gen_data.empty_space as u64,
                    twice_spread: gen_data.empty_space as u64,
                },
            }
        },
    }
}

/// The density that a drawn sample becomes: the sample, held to the range from
/// zero to the largest density.
pub open spec fn saturated(sample: i64) -> u32 {
    if sample < 0 {
        0
    } else if sample > MAX_DENSITY {
        MAX_DENSITY
    } else {
        sample as u32
    }
}

/// Holds a drawn sample to the range of densities.
pub fn saturate_density(sample: i64) -> (density: u32)
    ensures
        density == saturated(sample),
        density <= MAX_DENSITY,
{
    if sample < 0 {
        0
    } else if sample > MAX_DENSITY as i64 {
        MAX_DENSITY
    } else {
        sample as u32
    }
}

} // verus!
