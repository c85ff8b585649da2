use volume_generator::config::{ConfigError, GeneratorData, MAX_DENSITY};
use volume_generator::vector3uint::Vector3Usize;

#[test]
fn the_usual_settings_are_valid() {
    assert_eq!(GeneratorData::default().validate(), Ok(()));
    assert_eq!(MAX_DENSITY, 255);
}

#[test]
fn a_negative_sphere_count_is_a_fault() {
    let mut data = GeneratorData::default();
    data.sphere_count = -1;
    data.min_sphere_radius = 5;
    data.max_sphere_radius = 4;
    assert_eq!(data.validate(), Err(ConfigError::NegativeSphereCount));
}

#[test]
fn a_degenerate_radius_interval_is_a_fault() {
    for (min, max) in [(0.2f32, 0.1f32), (-0.1, 0.1), (0.1, f32::INFINITY), (f32::NAN, 0.1), (0.1, f32::NAN)] {
        let mut data = GeneratorData::default();
        data.min_sphere_radius = min.to_bits();
        data.max_sphere_radius = max.to_bits();
        data.empty_space = 300;
        assert_eq!(data.validate(), Err(ConfigError::RadiusInterval));
    }
    let mut data = GeneratorData::default();
    data.min_sphere_radius = 0.1f32.to_bits();
    data.max_sphere_radius = 0.1f32.to_bits();
    assert_eq!(data.validate(), Ok(()));
    data.min_sphere_radius = 0;
    data.max_sphere_radius = f32::MAX.to_bits();
    assert_eq!(data.validate(), Ok(()));
}

#[test]
fn a_threshold_above_the_largest_density_is_a_fault() {
    let mut data = GeneratorData::default();
    data.empty_space = 256;
    data.sphere_count = 0;
    assert_eq!(data.validate(), Err(ConfigError::EmptySpaceOutOfRange));
    data.empty_space = 255;
    assert_eq!(data.validate(), Ok(()));
}

#[test]
fn an_empty_pool_is_a_fault_when_spheres_are_asked_for() {
    let mut data = GeneratorData::default();
    data.empty_space = 250;
    data.noise_span = 6;
    data.pixel_dimensions = Vector3Usize::new(0, 0, 0);
    assert_eq!(data.validate(), Err(ConfigError::NoDensities));
    data.noise_span = u32::MAX;
    assert_eq!(data.validate(), Err(ConfigError::NoDensities));
    data.sphere_count = 0;
    assert_eq!(data.validate(), Err(ConfigError::ZeroDimension));
    data.sphere_count = 1;
    data.noise_span = 5;
    data.pixel_dimensions = Vector3Usize::new(1, 1, 1);
    assert_eq!(data.validate(), Ok(()));
}

#[test]
fn a_grid_without_voxels_is_a_fault() {
    for dims in [(0, 4, 4), (4, 0, 4), (4, 4, 0)] {
        let mut data = GeneratorData::default();
        data.pixel_dimensions = Vector3Usize::new(dims.0, dims.1, dims.2);
        assert_eq!(data.validate(), Err(ConfigError::ZeroDimension));
    }
}

#[test]
fn a_grid_too_large_to_count_is_a_fault() {
    let mut data = GeneratorData::default();
    data.pixel_dimensions = Vector3Usize::new(usize::MAX, 2, 1);
    assert_eq!(data.validate(), Err(ConfigError::VolumeTooLarge));
    data.pixel_dimensions = Vector3Usize::new(usize::MAX, 1, 1);
    assert_eq!(data.validate(), Ok(()));
}
