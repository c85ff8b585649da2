//! The settings of a run.

use crate::single::INFINITY_BITS;
use crate::vector3uint::Vector3Usize;
use vstd::prelude::*;

verus! {

/// The settings of a run. The two radii are bit patterns of single-precision
/// numbers.
#[derive(Clone, Debug)]
pub struct GeneratorData {
    pub variation_count: u32,
    pub sphere_count: i32,
    pub min_sphere_radius: u32,
    pub max_sphere_radius: u32,
    pub empty_space: u32,
    pub noise_span: u32,
    pub sphere_group_count: i32,
    pub pixel_dimensions: Vector3Usize,
    pub generation_name: String,
}

/// The settings as values: the name is the sequence of its characters.
pub struct Settings {
    pub variation_count: u32,
    pub sphere_count: i32,
    pub min_sphere_radius: u32,
    pub max_sphere_radius: u32,
    pub empty_space: u32,
    pub noise_span: u32,
    pub sphere_group_count: i32,
    pub pixel_dimensions: Vector3Usize,
    pub generation_name: Seq<char>,
}

impl View for GeneratorData {
    type V = Settings;

    open spec fn view(&self) -> Settings {
        Settings {
            variation_count: self.variation_count,
            sphere_count: self.sphere_count,
            min_sphere_radius: self.min_sphere_radius,
            max_sphere_radius: self.max_sphere_radius,
            empty_space: self.empty_space,
            noise_span: self.noise_span,
            sphere_group_count: self.sphere_group_count,
            pixel_dimensions: self.pixel_dimensions,
            generation_name: self.generation_name@,
        }
    }
}

/// The bit pattern of 0.001, the smallest radius of the usual settings.
pub const USUAL_MIN_RADIUS: u32 = 0x3a83_126f;

/// The bit pattern of 0.1, the largest radius of the usual settings.
pub const USUAL_MAX_RADIUS: u32 = 0x3dcc_cccd;

/// The largest density there is.
pub const MAX_DENSITY: u32 = 255;

/// The usual settings: one variation of a hundred spheres with radii from
/// 0.001 to 0.1 in a grid of 256 voxels a side.
pub open spec fn usual_settings() -> Settings {
    Settings {
        variation_count: 1,
        sphere_count: 100,
        min_sphere_radius: USUAL_MIN_RADIUS,
        max_sphere_radius: USUAL_MAX_RADIUS,
        empty_space: 30,
        noise_span: 10,
        sphere_group_count: 1,
        pixel_dimensions: Vector3Usize { x: 256, y: 256, z: 256 },
        generation_name: "untitled"@,
    }
}

impl Default for GeneratorData {
    fn default() -> (data: Self)
        ensures
            data@ == usual_settings(),
    {
        GeneratorData {
            variation_count: 1,
            sphere_count: 100,
            min_sphere_radius: USUAL_MIN_RADIUS,
            max_sphere_radius: USUAL_MAX_RADIUS,
            empty_space: 30,
            noise_span: 10,
            sphere_group_count: 1,
            pixel_dimensions: Vector3Usize::new(256, 256, 256),
            generation_name: "untitled".to_owned(),
        }
    }
}

/// What can be wrong with settings.
#[derive(Clone, Copy, Debug, PartialEq, Eq, Structural)]
pub enum ConfigError {
    /// The number of spheres is negative.
    NegativeSphereCount,
    /// A radius is negative, infinite or no number, or the smallest radius is
    /// larger than the largest.
    RadiusInterval,
    /// The empty-space threshold is above the largest density.
    EmptySpaceOutOfRange,
    /// Spheres are asked for, but there is no density from the sum of
    /// threshold and noise spread up to the largest density.
    NoDensities,
    /// The grid has no voxel along some axis.
    ZeroDimension,
    /// The number of voxels does not fit in `usize`.
    VolumeTooLarge,
}

impl Settings {
    /// Whether the two radii are finite and not negative and the smallest is
    /// at most the largest.
    pub open spec fn radii_in_order(self) -> bool {
        self.min_sphere_radius <= self.max_sphere_radius < INFINITY_BITS
    }

    /// The first thing that is wrong with the settings, if anything is.
    pub open spec fn fault(self) -> Option<ConfigError> {
        if self.sphere_count < 0 {
            Some(ConfigError::NegativeSphereCount)
        } else if !self.radii_in_order() {
            Some(ConfigError::RadiusInterval)
        } else if self.empty_space > MAX_DENSITY {
            Some(ConfigError::EmptySpaceOutOfRange)
        } else if self.sphere_count > 0 && self.empty_space + self.noise_span > MAX_DENSITY {
            Some(ConfigError::NoDensities)
        } else if self.pixel_dimensions.x == 0 || self.pixel_dimensions.y == 0
            || self.pixel_dimensions.z == 0 {
            Some(ConfigError::ZeroDimension)
        } else if self.pixel_dimensions.product() > usize::MAX {
            Some(ConfigError::VolumeTooLarge)
        } else {
            None
        }
    }
}

impl GeneratorData {
    /// Looks the settings over before a run: `Ok` exactly when nothing is wrong,
    /// else the first fault.
    pub fn validate(&self) -> (r: Result<(), ConfigError>)
        ensures
            r == match self@.fault() {
                Some(e) => Err::<(), ConfigError>(e),
                None => Ok(()),
            },
    {
        if self.sphere_count < 0 {
            return Err(ConfigError::NegativeSphereCount);
        }
        if !(self.min_sphere_radius <= self.max_sphere_radius && self.max_sphere_radius
            < INFINITY_BITS) {
            return Err(ConfigError::RadiusInterval);
        }
        if self.empty_space > MAX_DENSITY {
            return Err(ConfigError::EmptySpaceOutOfRange);
        }
        if self.sphere_count > 0 && self.noise_span > MAX_DENSITY - self.empty_space {
            return Err(ConfigError::NoDensities);
        }
        if self.pixel_dimensions.x == 0 || self.pixel_dimensions.y == 0 || self.pixel_dimensions.z
            == 0 {
            return Err(ConfigError::ZeroDimension);
        }
        match self.pixel_dimensions.volume() {
            Some(_) => Ok(()),
            None => Err(ConfigError::VolumeTooLarge),
        }
    }
}

} // verus!
