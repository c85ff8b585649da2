use volume_generator::args::{get_params_from_args, read_dimensions, Argument, Warning};
use volume_generator::config::{GeneratorData, USUAL_MAX_RADIUS, USUAL_MIN_RADIUS};
use volume_generator::vector3uint::Vector3Usize;

fn arguments(texts: &[&str]) -> Vec<Argument> {
    texts
        .iter()
        .map(|text| Argument {
            text: text.to_string(),
            radius: text.parse::<f32>().ok().map(f32::to_bits),
        })
        .collect()
}

#[test]
fn no_arguments_give_the_usual_settings() {
    let parsed = get_params_from_args(&arguments(&["volgen"]));
    assert!(!parsed.help);
    assert!(parsed.warnings.is_empty());
    assert_eq!(parsed.data.variation_count, 1);
    assert_eq!(parsed.data.sphere_count, 100);
    assert_eq!(parsed.data.min_sphere_radius, 0.001f32.to_bits());
    assert_eq!(parsed.data.max_sphere_radius, 0.1f32.to_bits());
    assert_eq!(parsed.data.min_sphere_radius, USUAL_MIN_RADIUS);
    assert_eq!(parsed.data.max_sphere_radius, USUAL_MAX_RADIUS);
    assert_eq!(parsed.data.empty_space, 30);
    assert_eq!(parsed.data.noise_span, 10);
    assert_eq!(parsed.data.sphere_group_count, 1);
    assert_eq!(parsed.data.pixel_dimensions, Vector3Usize::new(256, 256, 256));
    assert_eq!(parsed.data.generation_name, "untitled");
}

#[test]
fn default_settings_are_the_usual_settings() {
    let data = GeneratorData::default();
    assert_eq!(data.sphere_count, 100);
    assert_eq!(data.generation_name, "untitled");
    assert_eq!(data.pixel_dimensions, Vector3Usize::new(256, 256, 256));
}

#[test]
fn dimension_string_parses() {
    let current = Vector3Usize::new(256, 256, 256);
    assert_eq!(read_dimensions("16x16x16", current), (Vector3Usize::new(16, 16, 16), None));
    assert_eq!(read_dimensions("1x20x300", current), (Vector3Usize::new(1, 20, 300), None));
}

#[test]
fn malformed_dimension_string_falls_back() {
    let current = Vector3Usize::new(256, 128, 64);
    assert_eq!(
        read_dimensions("16x16", current),
        (current, Some(Warning::DimensionsIncomplete(current)))
    );
    assert_eq!(
        read_dimensions("16x16x16x16", current),
        (current, Some(Warning::DimensionsIncomplete(current)))
    );
    assert_eq!(read_dimensions("", current), (current, Some(Warning::DimensionsIncomplete(current))));
    assert_eq!(
        read_dimensions("16,16,16", current),
        (current, Some(Warning::DimensionsIncomplete(current)))
    );
}

#[test]
fn unreadable_sizes_keep_their_axis() {
    let current = Vector3Usize::new(256, 128, 64);
    assert_eq!(
        read_dimensions("16xabcx32", current),
        (
            Vector3Usize::new(16, 128, 32),
            Some(Warning::DimensionsInvalid { x: false, y: true, z: false })
        )
    );
    assert_eq!(
        read_dimensions("xx", current),
        (current, Some(Warning::DimensionsInvalid { x: true, y: true, z: true }))
    );
    assert_eq!(
        read_dimensions("-1x2x 3", current),
        (
            Vector3Usize::new(256, 2, 64),
            Some(Warning::DimensionsInvalid { x: true, y: false, z: true })
        )
    );
}

#[test]
fn dimension_option_sets_the_grid() {
    let parsed = get_params_from_args(&arguments(&["volgen", "-d", "16x16x16"]));
    assert!(!parsed.help);
    assert!(parsed.warnings.is_empty());
    assert_eq!(parsed.data.pixel_dimensions, Vector3Usize::new(16, 16, 16));
}

#[test]
fn malformed_dimension_option_does_not_stop_the_reading() {
    let parsed = get_params_from_args(&arguments(&["volgen", "-d", "16by16", "-i", "7"]));
    assert!(!parsed.help);
    let usual = Vector3Usize::new(256, 256, 256);
    assert_eq!(parsed.warnings, vec![Warning::DimensionsIncomplete(usual)]);
    assert_eq!(parsed.data.pixel_dimensions, usual);
    assert_eq!(parsed.data.sphere_count, 7);
}

#[test]
fn every_option_is_read() {
    let parsed = get_params_from_args(&arguments(&[
        "volgen", "-o", "scan", "-v", "3", "-i", "12", "-r", "0.25", "0.5", "-n", "20", "-q", "5",
        "-d", "8x4x2",
    ]));
    assert!(!parsed.help);
    assert!(parsed.warnings.is_empty());
    assert_eq!(parsed.data.generation_name, "scan");
    assert_eq!(parsed.data.variation_count, 3);
    assert_eq!(parsed.data.sphere_count, 12);
    assert_eq!(parsed.data.min_sphere_radius, 0.25f32.to_bits());
    assert_eq!(parsed.data.max_sphere_radius, 0.5f32.to_bits());
    assert_eq!(parsed.data.empty_space, 20);
    assert_eq!(parsed.data.noise_span, 5);
    assert_eq!(parsed.data.pixel_dimensions, Vector3Usize::new(8, 4, 2));
}

#[test]
fn one_radius_is_the_largest_and_zero_the_smallest() {
    let parsed = get_params_from_args(&arguments(&["volgen", "-r", "0.75"]));
    assert!(parsed.warnings.is_empty());
    assert_eq!(parsed.data.min_sphere_radius, 0.0f32.to_bits());
    assert_eq!(parsed.data.max_sphere_radius, 0.75f32.to_bits());
}

#[test]
fn unreadable_radii_warn_and_keep_the_settings() {
    let parsed = get_params_from_args(&arguments(&["volgen", "-r", "small", "large", "-q", "1"]));
    assert_eq!(
        parsed.warnings,
        vec![
            Warning::BottomRadiusInvalid(USUAL_MIN_RADIUS),
            Warning::TopRadiusInvalid(USUAL_MAX_RADIUS)
        ]
    );
    assert_eq!(parsed.data.min_sphere_radius, USUAL_MIN_RADIUS);
    assert_eq!(parsed.data.max_sphere_radius, USUAL_MAX_RADIUS);
    assert_eq!(parsed.data.noise_span, 1);

    let parsed = get_params_from_args(&arguments(&["volgen", "-r", "0.5", "large", "x"]));
    assert_eq!(parsed.warnings, vec![Warning::TopRadiusInvalid(USUAL_MAX_RADIUS)]);
    assert_eq!(parsed.data.min_sphere_radius, 0.5f32.to_bits());
    assert_eq!(parsed.data.max_sphere_radius, USUAL_MAX_RADIUS);

    let parsed = get_params_from_args(&arguments(&["volgen", "-r", "large"]));
    assert_eq!(parsed.warnings, vec![Warning::TopRadiusInvalid(USUAL_MAX_RADIUS)]);
    assert_eq!(parsed.data.min_sphere_radius, USUAL_MIN_RADIUS);
}

#[test]
fn options_without_value_warn() {
    let usual = Vector3Usize::new(256, 256, 256);
    let cases: Vec<(&str, Warning)> = vec![
        ("-o", Warning::OutputNameMissing),
        ("-v", Warning::VariationsMissing(1)),
        ("-i", Warning::InstancesMissing(100)),
        ("-r", Warning::RadiusMissing(USUAL_MIN_RADIUS, USUAL_MAX_RADIUS)),
        ("-n", Warning::EmptySpaceMissing(30)),
        ("-q", Warning::NoiseMissing(10)),
        ("-d", Warning::DimensionsMissing(usual)),
    ];
    for (option, warning) in cases {
        let parsed = get_params_from_args(&arguments(&["volgen", option]));
        assert!(!parsed.help);
        assert_eq!(parsed.warnings, vec![warning]);
        assert_eq!(parsed.data.sphere_count, 100);
    }
}

#[test]
fn unreadable_numbers_warn_and_keep_the_settings() {
    let parsed = get_params_from_args(&arguments(&[
        "volgen", "-v", "-3", "-i", "many", "-n", "4294967296", "-q", "1.5",
    ]));
    assert_eq!(
        parsed.warnings,
        vec![
            Warning::VariationsInvalid(1),
            Warning::InstancesInvalid(100),
            Warning::EmptySpaceInvalid(30),
            Warning::NoiseInvalid(10)
        ]
    );
    assert_eq!(parsed.data.variation_count, 1);
    assert_eq!(parsed.data.sphere_count, 100);
    assert_eq!(parsed.data.empty_space, 30);
    assert_eq!(parsed.data.noise_span, 10);
}

#[test]
fn a_warning_carries_the_value_in_force() {
    let parsed = get_params_from_args(&arguments(&["volgen", "-v", "5", "-v", "five"]));
    assert_eq!(parsed.warnings, vec![Warning::VariationsInvalid(5)]);
    assert_eq!(parsed.data.variation_count, 5);
}

#[test]
fn negative_sphere_count_is_read() {
    let parsed = get_params_from_args(&arguments(&["volgen", "-i", "-4"]));
    assert!(parsed.warnings.is_empty());
    assert_eq!(parsed.data.sphere_count, -4);
    let parsed = get_params_from_args(&arguments(&["volgen", "-i", "+2147483647"]));
    assert_eq!(parsed.data.sphere_count, i32::MAX);
    let parsed = get_params_from_args(&arguments(&["volgen", "-i", "-2147483648"]));
    assert_eq!(parsed.data.sphere_count, i32::MIN);
    let parsed = get_params_from_args(&arguments(&["volgen", "-i", "2147483648"]));
    assert_eq!(parsed.warnings, vec![Warning::InstancesInvalid(100)]);
}

#[test]
fn help_ends_the_reading() {
    let parsed = get_params_from_args(&arguments(&["volgen", "-i", "7", "-h", "-v", "9"]));
    assert!(parsed.help);
    assert!(parsed.warnings.is_empty());
    assert_eq!(parsed.data.sphere_count, 7);
    assert_eq!(parsed.data.variation_count, 1);
}

#[test]
fn a_value_is_read_again_as_an_argument() {
    let parsed = get_params_from_args(&arguments(&["volgen", "-o", "-v", "4"]));
    assert_eq!(parsed.data.generation_name, "-v");
    assert_eq!(parsed.data.variation_count, 4);
    let parsed = get_params_from_args(&arguments(&["volgen", "-o", "-h"]));
    assert!(parsed.help);
    assert_eq!(parsed.data.generation_name, "-h");
}

#[test]
fn other_arguments_change_nothing() {
    let parsed = get_params_from_args(&arguments(&["volgen", "--help", "-x", "o", "-", "-oo"]));
    assert!(!parsed.help);
    assert!(parsed.warnings.is_empty());
    assert_eq!(parsed.data.generation_name, "untitled");
}

#[test]
fn no_argument_at_all() {
    let parsed = get_params_from_args(&Vec::new());
    assert!(!parsed.help);
    assert!(parsed.warnings.is_empty());
    assert_eq!(parsed.data.variation_count, 1);
}
