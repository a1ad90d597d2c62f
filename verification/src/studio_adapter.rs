//! Loading Bay's closed Studio adapter: its protocol values, the project
//! location it works in, and the service's request admission.
use vstd::prelude::*;

pub mod asset_import;
pub mod components;
pub mod environment;
pub mod host_file;
pub mod path;
pub mod playback;
pub mod project;
pub mod protocol;
pub mod scene_edits;
pub mod service;
pub mod surface_mode;
pub mod voxel;
pub mod voxel_fill;
pub mod voxel_history;
pub mod voxel_instances;
pub mod voxel_object_batch;

verus! {
}
