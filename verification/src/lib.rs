//! Synthetic volume generation: spheres of random size and place in the unit
//! cube, a regular grid of voxels over the cube, and for every voxel the sphere
//! that owns it and the density it is given.
//!
//! The library holds the integer logic of the generator, with its contracts
//! and their proofs. Real numbers enter it only as IEEE-754 single-precision
//! bit patterns, which it orders, stores and hands back, but never computes
//! with.

pub mod args;
pub mod classifier;
pub mod config;
pub mod cpu;
pub mod generator;
pub mod gpu;
pub mod numeral;
pub mod output;
pub mod single;
pub mod sphere;
pub mod vector3float;
pub mod vector3uint;
