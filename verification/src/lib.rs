use vstd::prelude::*;

pub mod snapshot;
pub mod snapshot_links;
pub mod snapshot_restore;
pub mod snapshot_restoration;
pub mod stored_project;
pub mod studio_adapter;
pub mod text;
pub mod vitality;
pub mod voxel_object_projection;
pub mod voxel_volume_projection;
pub mod weapon_authoring;

verus! {
}
