//! The stored-project side of projecting the voxel environment: which
//! environment instance is projected, and how stored content hashes are
//! normalized for the renderer. Meshing and rendering are the engine's.
use vstd::prelude::*;

use crate::stored_project::{StoredProject, StoredVoxelInstance};
use crate::studio_adapter::asset_import::{hash_digits, strip_prefix_text};
use crate::text::{decimal, decimal_text, join2};
use crate::weapon_authoring::entry_scene_index;

verus! {

/// Why the voxel environment could not be projected.
#[derive(Debug, Clone, PartialEq, Eq)]
pub struct StoredVoxelVolumeProjectionError(pub String);

impl StoredVoxelVolumeProjectionError {
    pub fn message(&self) -> (message: &str)
        ensures
            message@ == self.0@,
    {
        self.0.as_str()
    }
}

/// A content hash as the renderer names it: without its `sha256:` label.
pub fn normalized_hash(hash: Option<&str>) -> (normalized: Option<String>)
    ensures
        match hash {
            Some(hash) => normalized is Some && normalized->Some_0@ == hash_digits(hash@),
            None => normalized is None,
        },
{
    match hash {
        Some(hash) => Some(String::from_str(strip_prefix_text(hash, "sha256:"))),
        None => None,
    }
}

fn find_entry_scene(project: &StoredProject) -> (found: Option<usize>)
    ensures
        match found {
            Some(i) => i < project.scenes@.len() && entry_scene_index(*project) == Some(i as int),
            None => entry_scene_index(*project) is None,
        },
{
    let mut index: usize = 0;
    while index < project.scenes.len()
        invariant
            index <= project.scenes@.len(),
            forall|j: int| 0 <= j < index ==> (#[trigger] project.scenes@[j]).id@ != project.entry_scene@,
        decreases project.scenes@.len() - index,
    {
        if crate::stored_project::text_equal(project.scenes[index].id.as_str(), project.entry_scene.as_str()) {
            proof {
                let i = index as int;
                let scenes = project.scenes@;
                assert forall|k: int|
                    0 <= k < scenes.len() && (#[trigger] scenes[k]).id@ == project.entry_scene@
                        && (forall|j: int| 0 <= j < k ==> (#[trigger] scenes[j]).id@ != project.entry_scene@)
                    implies k == i by {
                    if k < i {
                        assert(scenes[k].id@ != project.entry_scene@);
                    }
                    if k > i {
                        assert(scenes[i].id@ != project.entry_scene@);
                    }
                }
            }
            return Some(index);
        }
        index = index + 1;
    }
    None
}

pub open spec fn instance_count_message(count: nat) -> Seq<char> {
    "native voxel projection requires one admitted environment instance, found "@ + decimal(count)
}

/// The voxel environment instance to project: the entry scene must exist and
/// hold exactly one voxel instance.
pub fn environment_instance(project: &StoredProject) -> (result: Result<
    &StoredVoxelInstance,
    StoredVoxelVolumeProjectionError,
>)
    ensures
        match entry_scene_index(*project) {
            None => result matches Err(error) && error.0@ == "entry scene is missing"@,
            Some(s) => {
                let instances = project.scenes@[s].voxel_instances@;
                if instances.len() != 1 {
                    result matches Err(error) && error.0@ == instance_count_message(
                        instances.len(),
                    )
                } else {
                    result matches Ok(instance) && *instance == instances[0]
                }
            },
        },
{
    let scene_index = match find_entry_scene(project) {
        Some(scene_index) => scene_index,
        None => {
            return Err(StoredVoxelVolumeProjectionError(String::from_str("entry scene is missing")));
        },
    };
    let instances = &project.scenes[scene_index].voxel_instances;
    if instances.len() != 1 {
        let message = join2(
            "native voxel projection requires one admitted environment instance, found ",
            decimal_text(instances.len() as u64).as_str(),
        );
        return Err(StoredVoxelVolumeProjectionError(message));
    }
    Ok(&instances[0])
}

} // verus!
