use volume_generator::config::GeneratorData;
use volume_generator::generator::{
    arrange_spheres, density_pool, generate_spheres, insert_in_order, Draw, GenerationError,
};
use volume_generator::sphere::Sphere;
use volume_generator::vector3float::Vector3Float;

fn draw(x: f32, y: f32, z: f32, radius: f32) -> Draw {
    Draw { origin: Vector3Float::new(x.to_bits(), y.to_bits(), z.to_bits()), radius: radius.to_bits() }
}

fn draws(count: usize, min: f32, max: f32) -> Vec<Draw> {
    let mut state: u32 = 12345;
    let mut unit = move || {
        state = state.wrapping_mul(1664525).wrapping_add(1013904223);
        (state >> 8) as f32 / 16777216.0
    };
    (0..count)
        .map(|_| {
            let (x, y, z) = (unit(), unit(), unit());
            draw(x, y, z, unit() * (max - min) + min)
        })
        .collect()
}

fn settings(count: i32, min: f32, max: f32) -> GeneratorData {
    let mut data = GeneratorData::default();
    data.sphere_count = count;
    data.min_sphere_radius = min.to_bits();
    data.max_sphere_radius = max.to_bits();
    data
}

#[test]
fn ids_are_the_numbers_of_the_draws() {
    let data = settings(50, 0.001, 0.1);
    let set = generate_spheres(&data, &draws(50, 0.001, 0.1)).unwrap();
    assert_eq!(set.len(), 50);
    let mut ids: Vec<i32> = set.iter().map(|s| s.id()).collect();
    ids.sort();
    assert_eq!(ids, (0..50).collect::<Vec<i32>>());
}

#[test]
fn spheres_stand_in_order_of_radius() {
    let data = settings(200, 0.001, 0.1);
    let set = generate_spheres(&data, &draws(200, 0.001, 0.1)).unwrap();
    for pair in set.windows(2) {
        let (a, b) = (f32::from_bits(pair[0].radius()), f32::from_bits(pair[1].radius()));
        assert!(a < b || (a == b && pair[0].id() < pair[1].id()));
    }
}

#[test]
fn equal_radii_stand_in_order_of_id() {
    let data = settings(6, 0.25, 0.25);
    let set = generate_spheres(&data, &draws(6, 0.25, 0.25)).unwrap();
    let ids: Vec<i32> = set.iter().map(|s| s.id()).collect();
    assert_eq!(ids, vec![0, 1, 2, 3, 4, 5]);
    assert!(set.iter().all(|s| s.radius() == 0.25f32.to_bits()));
}

#[test]
fn every_sphere_keeps_its_draw() {
    let data = settings(30, 0.001, 0.1);
    let drawn = draws(30, 0.001, 0.1);
    let set = generate_spheres(&data, &drawn).unwrap();
    for s in &set {
        let d = &drawn[s.id() as usize];
        assert_eq!(s.radius(), d.radius);
        assert_eq!(s.origin().x, d.origin.x);
        assert_eq!(s.origin().y, d.origin.y);
        assert_eq!(s.origin().z, d.origin.z);
    }
}

#[test]
fn densities_come_from_the_pool() {
    let mut data = settings(100, 0.001, 0.1);
    data.empty_space = 30;
    data.noise_span = 10;
    let set = generate_spheres(&data, &draws(100, 0.001, 0.1)).unwrap();
    let mut densities: Vec<u32> = set.iter().map(|s| s.density()).collect();
    assert!(densities.iter().all(|d| (40..=255).contains(d)));
    densities.sort();
    densities.dedup();
    assert_eq!(densities.len(), 100);
}

#[test]
fn densities_repeat_when_the_pool_is_short() {
    let mut data = settings(10, 0.001, 0.1);
    data.empty_space = 250;
    data.noise_span = 3;
    let set = generate_spheres(&data, &draws(10, 0.001, 0.1)).unwrap();
    let mut by_id: Vec<&Sphere> = set.iter().collect();
    by_id.sort_by_key(|s| s.id());
    let densities: Vec<u32> = by_id.iter().map(|s| s.density()).collect();
    let mut pool = densities[..3].to_vec();
    pool.sort();
    assert_eq!(pool, vec![253, 254, 255]);
    for (i, d) in densities.iter().enumerate() {
        assert_eq!(*d, densities[i % 3]);
    }
}

#[test]
fn no_spheres_give_an_empty_set() {
    let data = settings(0, 0.001, 0.1);
    assert_eq!(generate_spheres(&data, &Vec::new()).unwrap().len(), 0);
    let mut data = settings(0, 0.001, 0.1);
    data.empty_space = 255;
    data.noise_span = 255;
    assert_eq!(generate_spheres(&data, &Vec::new()).unwrap().len(), 0);
}

#[test]
fn the_pool_holds_every_density_once() {
    let mut pool = density_pool(30, 10);
    assert_eq!(pool.len(), 216);
    pool.sort();
    assert_eq!(pool, (40..=255).collect::<Vec<u32>>());
    assert_eq!(density_pool(255, 0), vec![255]);
    assert_eq!(density_pool(200, 56), Vec::<u32>::new());
    assert_eq!(density_pool(u32::MAX, u32::MAX), Vec::<u32>::new());
    assert_eq!(density_pool(0, 256), Vec::<u32>::new());
}

#[test]
fn the_pool_is_shuffled() {
    let rising: Vec<u32> = (0..=255).collect();
    assert_ne!(density_pool(0, 0), rising);
}

#[test]
fn the_densities_of_a_population_are_shuffled() {
    let mut data = settings(200, 0.001, 0.1);
    data.empty_space = 0;
    data.noise_span = 0;
    let set = generate_spheres(&data, &draws(200, 0.001, 0.1)).unwrap();
    assert!(set.iter().any(|s| s.density() != s.id() as u32));
}

#[test]
fn arranging_is_determined_by_draws_and_pool() {
    let drawn = vec![
        draw(0.1, 0.2, 0.3, 0.5),
        draw(0.4, 0.5, 0.6, 0.25),
        draw(0.7, 0.8, 0.9, 0.5),
        draw(0.0, 0.0, 0.0, 0.125),
    ];
    let set = arrange_spheres(&drawn, &vec![70, 80, 90]);
    let seen: Vec<(i32, u32, u32)> = set.iter().map(|s| (s.id(), s.radius(), s.density())).collect();
    assert_eq!(
        seen,
        vec![
            (3, 0.125f32.to_bits(), 70),
            (1, 0.25f32.to_bits(), 80),
            (0, 0.5f32.to_bits(), 70),
            (2, 0.5f32.to_bits(), 90)
        ]
    );
    assert_eq!(set[0].origin().x, 0.0f32.to_bits());
    assert_eq!(set[1].origin().y, 0.5f32.to_bits());
}

#[test]
fn a_sphere_is_inserted_behind_those_that_precede_it() {
    let o = Vector3Float::new(0, 0, 0);
    let mut set = vec![
        Sphere::generate_sphere(o, 10, 1, 4),
        Sphere::generate_sphere(o, 20, 1, 2),
        Sphere::generate_sphere(o, 20, 1, 6),
    ];
    assert_eq!(insert_in_order(&mut set, Sphere::generate_sphere(o, 20, 1, 5)), 2);
    assert_eq!(insert_in_order(&mut set, Sphere::generate_sphere(o, 5, 1, 9)), 0);
    assert_eq!(insert_in_order(&mut set, Sphere::generate_sphere(o, 30, 1, 0)), 5);
    assert_eq!(insert_in_order(&mut set, Sphere::generate_sphere(o, 20, 1, 2)), 3);
    let ids: Vec<i32> = set.iter().map(|s| s.id()).collect();
    assert_eq!(ids, vec![9, 4, 2, 2, 5, 6, 0]);
}

#[test]
fn a_wrong_number_of_draws_is_refused() {
    let data = settings(3, 0.001, 0.1);
    assert_eq!(generate_spheres(&data, &draws(2, 0.001, 0.1)).err(), Some(GenerationError::DrawCount));
    assert_eq!(generate_spheres(&data, &draws(4, 0.001, 0.1)).err(), Some(GenerationError::DrawCount));
    let data = settings(-1, 0.001, 0.1);
    assert_eq!(generate_spheres(&data, &Vec::new()).err(), Some(GenerationError::DrawCount));
}

#[test]
fn a_degenerate_radius_interval_is_refused() {
    for (min, max) in [(0.2, 0.1), (-0.1, 0.1), (0.1, f32::INFINITY), (0.1, f32::NAN), (f32::NAN, 0.1), (-0.0, 0.1)] {
        let data = settings(1, min, max);
        assert_eq!(
            generate_spheres(&data, &vec![draw(0.5, 0.5, 0.5, 0.1)]).err(),
            Some(GenerationError::RadiusInterval)
        );
    }
}

#[test]
fn an_empty_pool_is_refused_when_spheres_are_asked_for() {
    let mut data = settings(1, 0.001, 0.1);
    data.empty_space = 250;
    data.noise_span = 6;
    assert_eq!(
        generate_spheres(&data, &vec![draw(0.5, 0.5, 0.5, 0.05)]).err(),
        Some(GenerationError::NoDensities)
    );
    data.empty_space = u32::MAX;
    data.noise_span = u32::MAX;
    assert_eq!(
        generate_spheres(&data, &vec![draw(0.5, 0.5, 0.5, 0.05)]).err(),
        Some(GenerationError::NoDensities)
    );
}

#[test]
fn the_first_draw_that_does_not_fit_is_named() {
    let data = settings(4, 0.1, 0.2);
    let mut drawn = vec![
        draw(0.5, 0.5, 0.5, 0.1),
        draw(0.0, 0.999, 0.5, 0.2),
        draw(0.5, 0.5, 0.5, 0.15),
        draw(0.5, 0.5, 0.5, 0.15),
    ];
    assert!(generate_spheres(&data, &drawn).is_ok());
    drawn[3] = draw(0.5, 1.0, 0.5, 0.15);
    assert_eq!(generate_spheres(&data, &drawn).err(), Some(GenerationError::Draw(3)));
    drawn[2] = draw(0.5, 0.5, 0.5, 0.25);
    assert_eq!(generate_spheres(&data, &drawn).err(), Some(GenerationError::Draw(2)));
    drawn[1] = draw(0.5, 0.5, -0.5, 0.15);
    assert_eq!(generate_spheres(&data, &drawn).err(), Some(GenerationError::Draw(1)));
    drawn[0] = draw(0.5, 0.5, 0.5, -0.15);
    assert_eq!(generate_spheres(&data, &drawn).err(), Some(GenerationError::Draw(0)));
    drawn[0] = draw(0.5, 0.5, 0.5, 0.05);
    assert_eq!(generate_spheres(&data, &drawn).err(), Some(GenerationError::Draw(0)));
    drawn[0] = draw(f32::NAN, 0.5, 0.5, 0.15);
    assert_eq!(generate_spheres(&data, &drawn).err(), Some(GenerationError::Draw(0)));
}

#[test]
fn the_order_of_bit_patterns_is_the_order_of_radii() {
    let radii = [0.0f32, 1.0e-40, 0.001, 0.1, 0.5, 1.0, 10.0, 255.0, f32::MAX];
    for pair in radii.windows(2) {
        assert!(pair[0] < pair[1]);
        assert!(pair[0].to_bits() < pair[1].to_bits());
    }
    assert!(f32::MAX.to_bits() < volume_generator::single::INFINITY_BITS);
    assert_eq!(f32::INFINITY.to_bits(), volume_generator::single::INFINITY_BITS);
    assert_eq!(1.0f32.to_bits(), volume_generator::single::ONE_BITS);
    assert_eq!(0.0f32.to_bits(), volume_generator::single::ZERO_BITS);
}
