//! The sequential backend: every voxel of the grid in the order of the
//! arrays, classified and given its density.
//!
//! The backend does the integer work. Two functions are handed to it for the
//! rest: one says whether a sphere contains the centre of a voxel, the other
//! draws a sample from a Gaussian. Of what they return the backend assumes
//! nothing, and its contract relates every entry of the two arrays to what
//! they may return.

use crate::classifier::{
    classification, get_density_and_material, saturate_density, saturated, Noise,
};
use crate::config::{GeneratorData, Settings, MAX_DENSITY};
use crate::sphere::Sphere;
use crate::vector3uint::Vector3Usize;
use vstd::prelude::*;

verus! {

/// Whether `inside` can be what `contains` says of the voxel `at`: one flag for
/// each sphere, each a value that `contains` may return for that sphere.
pub open spec fn is_membership<C: Fn(&Sphere, usize, usize, usize) -> bool>(
    spheres: Seq<Sphere>,
    contains: C,
    at: Vector3Usize,
    inside: Seq<bool>,
) -> bool {
    &&& inside.len() == spheres.len()
    &&& forall|s: int|
        0 <= s < spheres.len() ==> contains.ensures(
            (&spheres[s], at.x, at.y, at.z),
            #[trigger] inside[s],
        )
}

/// Whether `material` and `density` can be the entries of the voxel `at`:
/// there are flags that `contains` may return for the voxel and a sample that
/// `draw` may return for the noise of their classification, such that
/// `material` is the material of that classification and `density` the
/// sample, held to the range of densities.
pub open spec fn is_voxel<C: Fn(&Sphere, usize, usize, usize) -> bool, N: Fn(Noise) -> i64>(
    settings: Settings,
    spheres: Seq<Sphere>,
    contains: C,
    draw: N,
    at: Vector3Usize,
    material: i32,
    density: u32,
) -> bool {
    exists|inside: Seq<bool>, sample: i64|
        {
            &&& is_membership(spheres, contains, at, inside)
            &&& material == (#[trigger] classification(spheres, inside, settings)).material
            &&& draw.ensures((classification(spheres, inside, settings).noise,), sample)
            &&& density == #[trigger] saturated(sample)
        }
}

/// Whether the two arrays can be the volume: each holds one entry for every
/// voxel of the grid, and the entries at place `n` can be those of the voxel
/// `voxel_at(n)`: the arrays are row-major, the first index the slowest and
/// the last the fastest.
pub open spec fn is_volume<C: Fn(&Sphere, usize, usize, usize) -> bool, N: Fn(Noise) -> i64>(
    settings: Settings,
    spheres: Seq<Sphere>,
    contains: C,
    draw: N,
    materials: Seq<i32>,
    densities: Seq<u32>,
) -> bool {
    &&& materials.len() == settings.pixel_dimensions.product()
    &&& densities.len() == settings.pixel_dimensions.product()
    &&& forall|n: int|
        0 <= n < settings.pixel_dimensions.product() ==> is_voxel(
            settings,
            spheres,
            contains,
            draw,
            #[trigger] settings.pixel_dimensions.voxel_at(n),
            materials[n],
            densities[n],
        )
}

/// In a volume the entries of the voxel `(i, j, k)` of a grid of `X` by `Y` by
/// `Z` voxels stand at place `(i * Y + j) * Z + k`, and no density is above
/// the largest.
pub proof fn lemma_entries_of_voxel<
    C: Fn(&Sphere, usize, usize, usize) -> bool,
    N: Fn(Noise) -> i64,
>(
    settings: Settings,
    spheres: Seq<Sphere>,
    contains: C,
    draw: N,
    materials: Seq<i32>,
    densities: Seq<u32>,
    at: Vector3Usize,
)
    requires
        is_volume(settings, spheres, contains, draw, materials, densities),
        settings.pixel_dimensions.has_voxel(at),
    ensures
        0 <= settings.pixel_dimensions.linear_index(at) < materials.len(),
        settings.pixel_dimensions.linear_index(at) == (at.x * settings.pixel_dimensions.y + at.y)
            * settings.pixel_dimensions.z + at.z,
        is_voxel(
            settings,
            spheres,
            contains,
            draw,
            at,
            materials[settings.pixel_dimensions.linear_index(at)],
            densities[settings.pixel_dimensions.linear_index(at)],
        ),
        densities[settings.pixel_dimensions.linear_index(at)] <= MAX_DENSITY,
{
    settings.pixel_dimensions.lemma_place_of_voxel(at);
}

/// The material of a voxel rests on the membership alone: where two membership
/// functions can only agree on every sphere for the voxel `at`, the two
/// materials are the same, whatever samples are drawn.
pub proof fn lemma_same_membership_same_material<
    C1: Fn(&Sphere, usize, usize, usize) -> bool,
    N1: Fn(Noise) -> i64,
    C2: Fn(&Sphere, usize, usize, usize) -> bool,
    N2: Fn(Noise) -> i64,
>(
    settings: Settings,
    spheres: Seq<Sphere>,
    first: (C1, N1),
    second: (C2, N2),
    at: Vector3Usize,
    first_voxel: (i32, u32),
    second_voxel: (i32, u32),
)
    requires
        forall|s: int, a: bool, b: bool|
            0 <= s < spheres.len() && first.0.ensures((&spheres[s], at.x, at.y, at.z), a)
                && second.0.ensures((&spheres[s], at.x, at.y, at.z), b) ==> a == b,
        is_voxel(settings, spheres, first.0, first.1, at, first_voxel.0, first_voxel.1),
        is_voxel(settings, spheres, second.0, second.1, at, second_voxel.0, second_voxel.1),
    ensures
        first_voxel.0 == second_voxel.0,
{
    let (inside1, sample1) = choose|inside: Seq<bool>, sample: i64|
        {
            &&& is_membership(spheres, first.0, at, inside)
            &&& first_voxel.0 == (#[trigger] classification(spheres, inside, settings)).material
            &&& first.1.ensures((classification(spheres, inside, settings).noise,), sample)
            &&& first_voxel.1 == #[trigger] saturated(sample)
        };
    let (inside2, sample2) = choose|inside: Seq<bool>, sample: i64|
        {
            &&& is_membership(spheres, second.0, at, inside)
            &&& second_voxel.0 == (#[trigger] classification(spheres, inside, settings)).material
            &&& second.1.ensures((classification(spheres, inside, settings).noise,), sample)
            &&& second_voxel.1 == #[trigger] saturated(sample)
        };
    assert(inside1 =~= inside2);
}

/// Asks `contains` about every sphere for the voxel `at` and leaves the
/// answers in `inside`.
fn fill_membership<C: Fn(&Sphere, usize, usize, usize) -> bool>(
    spheres: &Vec<Sphere>,
    contains: &C,
    at: Vector3Usize,
    inside: &mut Vec<bool>,
)
    requires
        forall|s: int|
            0 <= s < spheres.len() ==> contains.requires((&#[trigger] spheres[s], at.x, at.y, at.z)),
    ensures
        is_membership(spheres@, *contains, at, final(inside)@),
{
    inside.clear();
    let mut s: usize = 0;
    while s < spheres.len()
        invariant
            s <= spheres.len(),
            inside.len() == s,
            forall|t: int|
                0 <= t < spheres.len() ==> contains.requires(
                    (&#[trigger] spheres[t], at.x, at.y, at.z),
                ),
            forall|t: int|
                0 <= t < s ==> contains.ensures(
                    (&spheres@[t], at.x, at.y, at.z),
                    #[trigger] inside@[t],
                ),
        decreases spheres.len() - s,
    {
        let flag = contains(&spheres[s], at.x, at.y, at.z);
        inside.push(flag);
        s += 1;
    }
}

/// Classifies the voxel `at` and draws its density: its entries in the two
/// arrays, material first.
pub fn generate_voxel<C: Fn(&Sphere, usize, usize, usize) -> bool, N: Fn(Noise) -> i64>(
    gen_data: &GeneratorData,
    spheres: &Vec<Sphere>,
    contains: &C,
    draw: &N,
    at: Vector3Usize,
    inside: &mut Vec<bool>,
) -> (voxel: (i32, u32))
    requires
        forall|s: int|
            0 <= s < spheres.len() ==> contains.requires((&#[trigger] spheres[s], at.x, at.y, at.z)),
        forall|noise: Noise| draw.requires((noise,)),
    ensures
        is_voxel(gen_data@, spheres@, *contains, *draw, at, voxel.0, voxel.1),
        is_membership(spheres@, *contains, at, final(inside)@),
        voxel.0 == classification(spheres@, final(inside)@, gen_data@).material,
{
    fill_membership(spheres, contains, at, inside);
    let c = get_density_and_material(inside, spheres, gen_data);
    let sample = draw(c.noise);
    let density = saturate_density(sample);
    (c.material, density)
}

/// One unit of work: the entries of the voxel that stands at place `index`
/// in the arrays, material first. A unit rests on nothing that another unit
/// does, so the units can be done in any order, or side by side.
pub fn generate_unit<C: Fn(&Sphere, usize, usize, usize) -> bool, N: Fn(Noise) -> i64>(
    gen_data: &GeneratorData,
    spheres: &Vec<Sphere>,
    contains: &C,
    draw: &N,
    index: usize,
    inside: &mut Vec<bool>,
) -> (voxel: (i32, u32))
    requires
        index < gen_data.pixel_dimensions.product(),
        forall|s: int, i: usize, j: usize, k: usize|
            0 <= s < spheres.len() && gen_data.pixel_dimensions.has_voxel(Vector3Usize { x: i, y: j, z: k })
                ==> contains.requires((&#[trigger] spheres[s], i, j, k)),
        forall|noise: Noise| draw.requires((noise,)),
    ensures
        is_voxel(
            gen_data@,
            spheres@,
            *contains,
            *draw,
            gen_data.pixel_dimensions.voxel_at(index as int),
            voxel.0,
            voxel.1,
        ),
{
    let at = gen_data.pixel_dimensions.coordinates_of(index);
    generate_voxel(gen_data, spheres, contains, draw, at, inside)
}

/// The two arrays of the volume, materials first: every voxel of the grid in
/// row-major order, the first index the slowest and the last the fastest.
pub fn generate_volume_textures<C: Fn(&Sphere, usize, usize, usize) -> bool, N: Fn(Noise) -> i64>(
    gen_data: &GeneratorData,
    spheres: &Vec<Sphere>,
    contains: &C,
    draw: &N,
) -> (textures: (Vec<i32>, Vec<u32>))
    requires
        gen_data.pixel_dimensions.product() <= usize::MAX,
        forall|s: int, i: usize, j: usize, k: usize|
            0 <= s < spheres.len() && gen_data.pixel_dimensions.has_voxel(Vector3Usize { x: i, y: j, z: k })
                ==> contains.requires((&#[trigger] spheres[s], i, j, k)),
        forall|noise: Noise| draw.requires((noise,)),
    ensures
        is_volume(gen_data@, spheres@, *contains, *draw, textures.0@, textures.1@),
{
    let mut materials: Vec<i32> = Vec::new();
    let mut densities: Vec<u32> = Vec::new();
    let mut inside: Vec<bool> = Vec::new();
    let total: usize = match gen_data.pixel_dimensions.volume() {
        Some(count) => count,
        None => 0,
    };
    let mut index: usize = 0;
    while index < total
        invariant
            total == gen_data.pixel_dimensions.product(),
            index <= total,
            materials.len() == index,
            densities.len() == index,
            forall|s: int, i: usize, j: usize, k: usize|
                0 <= s < spheres.len() && gen_data.pixel_dimensions.has_voxel(
                    Vector3Usize { x: i, y: j, z: k },
                ) ==> contains.requires((&#[trigger] spheres[s], i, j, k)),
            forall|noise: Noise| draw.requires((noise,)),
            forall|n: int|
                0 <= n < index ==> is_voxel(
                    gen_data@,
                    spheres@,
                    *contains,
                    *draw,
                    #[trigger] gen_data.pixel_dimensions.voxel_at(n),
                    materials[n],
                    densities[n],
                ),
        decreases total - index,
    {
        let voxel = generate_unit(gen_data, spheres, contains, draw, index, &mut inside);
        materials.push(voxel.0);
        densities.push(voxel.1);
        index += 1;
    }
    (materials, densities)
}

} // verus!
