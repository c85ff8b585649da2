//! The population of spheres: its densities, its ids and its order.
//!
//! The places and sizes of the spheres are drawn outside and handed in. The
//! generator holds them against the settings, gives every sphere its id and a
//! density from a shuffled pool, and puts the spheres in order.

use crate::config::{GeneratorData, Settings, MAX_DENSITY};
use crate::sphere::Sphere;
use crate::single::{is_magnitude, lemma_order_of_patterns, scaled_value, INFINITY_BITS};
use crate::vector3float::Vector3Float;
use rand::seq::SliceRandom;
use vstd::prelude::*;
use vstd::seq_lib::{to_multiset_contains, to_multiset_len};

verus! {

/// What is drawn for one sphere: its origin, and its radius as the bit pattern
/// of a single-precision number.
#[derive(Clone, Copy, Debug)]
pub struct Draw {
    pub origin: Vector3Float,
    pub radius: u32,
}

/// Why no population was made.
#[derive(Clone, Copy, Debug, PartialEq, Eq, Structural)]
pub enum GenerationError {
    /// The number of spheres is negative or is not the number of draws.
    DrawCount,
    /// A radius of the settings is negative, infinite or no number, or the
    /// smallest radius is larger than the largest.
    RadiusInterval,
    /// Spheres are asked for, but there is no density from the sum of threshold
    /// and noise spread up to the largest density.
    NoDensities,
    /// The draw at this place has its origin outside the unit cube or its
    /// radius outside the interval of the settings.
    Draw(usize),
}

/// The densities from `lowest` up to the largest, in rising order.
pub open spec fn rising_densities(lowest: int) -> Seq<u32> {
    Seq::new(
        (if lowest <= MAX_DENSITY {
            MAX_DENSITY + 1 - lowest
        } else {
            0
        }) as nat,
        |i: int| (lowest + i) as u32,
    )
}

/// Whether `pool` holds every density from `lowest` up to the largest exactly
/// once, in whatever order.
pub open spec fn is_density_pool(pool: Seq<u32>, lowest: int) -> bool {
    pool.to_multiset() == rising_densities(lowest).to_multiset()
}

/// Whether the draw suits the settings: the origin in the unit cube, the
/// radius from the smallest to the largest of the settings.
pub open spec fn draw_fits(draw: Draw, settings: Settings) -> bool {
    draw.origin.in_unit_cube() && settings.min_sphere_radius <= draw.radius
        <= settings.max_sphere_radius
}

/// Whether `sphere` is the sphere with the given id: the place and size of
/// the draw with that number, and the density at that place of the pool, the
/// pool taken round and round.
pub open spec fn is_sphere_of(sphere: Sphere, draws: Seq<Draw>, pool: Seq<u32>, id: int) -> bool {
    &&& sphere.id() == id
    &&& sphere.radius() == draws[id].radius
    &&& sphere.spec_origin() == draws[id].origin
    &&& sphere.density() == pool[id % (pool.len() as int)]
}

/// Whether the spheres stand in order: radii never fall, and among equal
/// radii ids never fall.
pub open spec fn in_order(set: Seq<Sphere>) -> bool {
    forall|p: int, q: int| 0 <= p < q < set.len() ==> (#[trigger] set[p]).precedes(#[trigger] set[q])
}

/// Whether a sphere of the set has the given id.
pub open spec fn has_id(set: Seq<Sphere>, id: int) -> bool {
    exists|p: int| 0 <= p < set.len() && #[trigger] set[p].id() == id
}

/// Whether `set` is the population made of the draws and the pool: one sphere
/// for each draw, the ids exactly the numbers of the draws, each once, and
/// the spheres in order.
pub open spec fn is_population(set: Seq<Sphere>, draws: Seq<Draw>, pool: Seq<u32>) -> bool {
    &&& set.len() == draws.len()
    &&& forall|p: int|
        0 <= p < set.len() ==> 0 <= (#[trigger] set[p]).id() < draws.len() && is_sphere_of(
            set[p],
            draws,
            pool,
            set[p].id() as int,
        )
    &&& forall|id: int| 0 <= id < draws.len() ==> #[trigger] has_id(set, id)
    &&& forall|p: int, q: int|
        0 <= p < q < set.len() ==> (#[trigger] set[p]).id() != (#[trigger] set[q]).id()
    &&& in_order(set)
}

/// What a density pool holds: as many densities as there are from `lowest` to
/// the largest, none of them twice, all of them in that range, and each
/// density of that range.
pub proof fn lemma_density_pool(pool: Seq<u32>, lowest: int)
    requires
        0 <= lowest,
        is_density_pool(pool, lowest),
    ensures
        pool.len() == rising_densities(lowest).len(),
        pool.no_duplicates(),
        forall|i: int| 0 <= i < pool.len() ==> lowest <= #[trigger] pool[i] <= MAX_DENSITY,
        forall|d: u32| lowest <= d <= MAX_DENSITY ==> pool.contains(d),
{
    let rising = rising_densities(lowest);
    to_multiset_len(pool);
    to_multiset_len(rising);
    rising.lemma_multiset_has_no_duplicates();
    pool.lemma_multiset_has_no_duplicates_conv();
    assert forall|i: int| 0 <= i < pool.len() implies lowest <= #[trigger] pool[i]
        <= MAX_DENSITY by {
        to_multiset_contains(pool, pool[i]);
        to_multiset_contains(rising, pool[i]);
    }
    assert forall|d: u32| lowest <= d <= MAX_DENSITY implies pool.contains(d) by {
        assert(rising[d - lowest] == d);
        to_multiset_contains(pool, d);
        to_multiset_contains(rising, d);
    }
}

/// In a set that stands in order the radii never fall, taken as the numbers
/// they stand for.
pub proof fn lemma_radii_never_fall(set: Seq<Sphere>, p: int, q: int)
    requires
        in_order(set),
        0 <= p <= q < set.len(),
        is_magnitude(set[p].radius()),
        is_magnitude(set[q].radius()),
    ensures
        scaled_value(set[p].radius()) <= scaled_value(set[q].radius()),
{
    lemma_order_of_patterns(set[p].radius(), set[q].radius());
}

/// What the refusals leave: in a population made of draws that suit the
/// settings and of a density pool for them, every sphere lies with its origin
/// in the unit cube, has a radius within the interval of the settings, which
/// is finite and not negative, and a density from the sum of threshold and
/// noise spread up to the largest.
pub proof fn lemma_population_suits_settings(
    set: Seq<Sphere>,
    draws: Seq<Draw>,
    pool: Seq<u32>,
    settings: Settings,
)
    requires
        generation_fault(settings, draws) is None,
        is_density_pool(pool, settings.empty_space + settings.noise_span),
        is_population(set, draws, pool),
    ensures
        forall|p: int|
            #![trigger set[p]]
            0 <= p < set.len() ==> {
                &&& set[p].spec_origin().in_unit_cube()
                &&& settings.min_sphere_radius <= set[p].radius() <= settings.max_sphere_radius
                &&& is_magnitude(set[p].radius())
                &&& settings.empty_space + settings.noise_span <= set[p].density() <= MAX_DENSITY
            },
{
    lemma_density_pool(pool, settings.empty_space + settings.noise_span);
}

/// Calls `rand::seq::SliceRandom::shuffle` with the generator that
/// `rand::thread_rng` hands out. The contract claims that the values are the
/// same afterwards, each as often as before; of their order it claims
/// nothing.
#[verifier::external_body]
fn shuffle(values: &mut Vec<u32>)
    ensures
        final(values)@.to_multiset() == old(values)@.to_multiset(),
{
    values.shuffle(&mut rand::thread_rng());
}

/// A density pool for the two settings, shuffled: every density from their sum
/// up to the largest, each once.
pub fn density_pool(empty_space: u32, noise_span: u32) -> (pool: Vec<u32>)
    ensures
        is_density_pool(pool@, empty_space + noise_span),
{
    let mut pool: Vec<u32> = Vec::new();
    let ghost lowest: int = empty_space + noise_span;
    if empty_space <= MAX_DENSITY && noise_span <= MAX_DENSITY - empty_space {
        let mut density: u32 = empty_space + noise_span;
        while density <= MAX_DENSITY
            invariant
                lowest == empty_space + noise_span,
                lowest <= density <= MAX_DENSITY + 1,
                pool@ =~= rising_densities(lowest).take(density - lowest),
            decreases MAX_DENSITY + 1 - density,
        {
            pool.push(density);
            density += 1;
        }
        assert(pool@ =~= rising_densities(lowest));
    } else {
        assert(pool@ =~= rising_densities(lowest));
    }
    shuffle(&mut pool);
    pool
}

/// Puts `sphere` into a set that stands in order, at the place that keeps the
/// order: behind every sphere that precedes it.
pub fn insert_in_order(set: &mut Vec<Sphere>, sphere: Sphere) -> (place: usize)
    requires
        in_order(old(set)@),
    ensures
        place <= old(set)@.len(),
        final(set)@ == old(set)@.insert(place as int, sphere),
        in_order(final(set)@),
        forall|p: int| 0 <= p < place ==> (#[trigger] old(set)@[p]).precedes(sphere),
        forall|p: int|
            place <= p < old(set)@.len() ==> sphere.strictly_precedes(#[trigger] old(set)@[p]),
{
    let mut place: usize = 0;
    while place < set.len() && !sphere.is_before(&set[place])
        invariant
            place <= set.len(),
            *set == *old(set),
            forall|p: int| 0 <= p < place ==> (#[trigger] set@[p]).precedes(sphere),
        decreases set.len() - place,
    {
        place += 1;
    }
    proof {
        let before = set@;
        before.insert_ensures(place as int, sphere);
    }
    set.insert(place, sphere);
    place
}

/// The population made of the draws and the pool.
pub fn arrange_spheres(draws: &Vec<Draw>, pool: &Vec<u32>) -> (set: Vec<Sphere>)
    requires
        draws.len() <= i32::MAX,
        draws.len() > 0 ==> pool.len() > 0,
    ensures
        is_population(set@, draws@, pool@),
{
    let mut set: Vec<Sphere> = Vec::new();
    let mut n: usize = 0;
    while n < draws.len()
        invariant
            n <= draws.len() <= i32::MAX,
            draws.len() > 0 ==> pool.len() > 0,
            is_population(set@, draws@.take(n as int), pool@),
        decreases draws.len() - n,
    {
        let ghost before = set@;
        let ghost next = draws@.take(n + 1);
        let sphere = Sphere::generate_sphere(
            draws[n].origin,
            draws[n].radius,
            pool[n % pool.len()],
            n as i32,
        );
        let place = insert_in_order(&mut set, sphere);
        proof {
            let after = set@;
            before.insert_ensures(place as int, sphere);
            assert forall|id: int| 0 <= id < next.len() implies #[trigger] has_id(after, id) by {
                if id != n {
                    assert(has_id(before, id));
                    let a = choose|a: int| 0 <= a < before.len() && #[trigger] before[a].id() == id;
                    let p = if a < place { a } else { a + 1 };
                    assert(after[p] == before[a]);
                }
            }
        }
        n += 1;
    }
    set
}

/// The first reason for which no population is made of the draws, if there is
/// one.
pub open spec fn generation_fault(settings: Settings, draws: Seq<Draw>) -> Option<GenerationError> {
    if settings.sphere_count < 0 || draws.len() != settings.sphere_count {
        Some(GenerationError::DrawCount)
    } else if !settings.radii_in_order() {
        Some(GenerationError::RadiusInterval)
    } else if settings.sphere_count > 0 && settings.empty_space + settings.noise_span
        > MAX_DENSITY {
        Some(GenerationError::NoDensities)
    } else if exists|i: int| 0 <= i < draws.len() && !draw_fits(#[trigger] draws[i], settings) {
        let first = choose|i: int|
            0 <= i < draws.len() && !draw_fits(#[trigger] draws[i], settings) && forall|j: int|
                0 <= j < i ==> draw_fits(#[trigger] draws[j], settings);
        Some(GenerationError::Draw(first as usize))
    } else {
        None
    }
}

/// The place of the first draw that does not suit the settings.
fn first_misfit(gen_data: &GeneratorData, draws: &Vec<Draw>) -> (found: Option<usize>)
    ensures
        match found {
            Some(i) => 0 <= i < draws.len() && !draw_fits(draws[i as int], gen_data@) && forall|
                j: int,
            | 0 <= j < i ==> draw_fits(#[trigger] draws[j], gen_data@),
            None => forall|j: int| 0 <= j < draws.len() ==> draw_fits(#[trigger] draws[j], gen_data@),
        },
{
    let mut i: usize = 0;
    while i < draws.len()
        invariant
            i <= draws.len(),
            forall|j: int| 0 <= j < i ==> draw_fits(#[trigger] draws[j], gen_data@),
        decreases draws.len() - i,
    {
        let draw = draws[i];
        if !(draw.origin.is_in_unit_cube() && gen_data.min_sphere_radius <= draw.radius
            && draw.radius <= gen_data.max_sphere_radius) {
            return Some(i);
        }
        i += 1;
    }
    None
}

/// Makes the population of a run: holds the draws against the settings,
/// shuffles a density pool and arranges the spheres. It fails exactly where
/// `generation_fault` names a reason, with that reason. Where it succeeds,
/// the set is the population made of the draws and of some density pool for
/// the settings.
pub fn generate_spheres(gen_data: &GeneratorData, draws: &Vec<Draw>) -> (r: Result<
    Vec<Sphere>,
    GenerationError,
>)
    ensures
        match r {
            Ok(set) => generation_fault(gen_data@, draws@) is None && exists|pool: Seq<u32>|
                #[trigger] is_density_pool(pool, gen_data.empty_space + gen_data.noise_span)
                    && is_population(set@, draws@, pool),
            Err(e) => generation_fault(gen_data@, draws@) == Some(e),
        },
{
    if gen_data.sphere_count < 0 || draws.len() != gen_data.sphere_count as usize {
        return Err(GenerationError::DrawCount);
    }
    if !(gen_data.min_sphere_radius <= gen_data.max_sphere_radius && gen_data.max_sphere_radius
        < INFINITY_BITS) {
        return Err(GenerationError::RadiusInterval);
    }
    if gen_data.sphere_count > 0 && (gen_data.empty_space > MAX_DENSITY || gen_data.noise_span
        > MAX_DENSITY - gen_data.empty_space) {
        return Err(GenerationError::NoDensities);
    }
    match first_misfit(gen_data, draws) {
        Some(i) => {
            Err(GenerationError::Draw(i))
        },
        None => {
            let pool = density_pool(gen_data.empty_space, gen_data.noise_span);
            proof {
                lemma_density_pool(pool@, gen_data.empty_space + gen_data.noise_span);
            }
            let set = arrange_spheres(draws, &pool);
            Ok(set)
        },
    }
}

} // verus!
