//! The voxel world of a small instanced renderer: a dense square grid of unit
//! voxels, the culling of faces that touch a neighbour, and the per-face
//! instance data that a single instanced draw consumes.
//!
//! Coordinates are integers; the floating-point model matrices and every GPU
//! handle are built by the application from the exact values kept here.

pub mod bundles;
pub mod face;
pub mod voxel;
pub mod voxel_manager;
