//! Placing voxel-volume instances in a scene: attaching a new instance,
//! moving one, and removing one. Each names its scene and instance by
//! identity; the voxel asset an attached instance uses is checked by the
//! host against the engine payload first.
use vstd::prelude::*;

use crate::stored_project::{text_equal, StoredProject, StoredScene, StoredVoxelInstance};
use crate::studio_adapter::environment::instance_position;
use crate::studio_adapter::protocol::{AdapterRejection, AdapterRejectionView};
use crate::studio_adapter::voxel::scene_position;
use crate::text::join3;

verus! {

pub open spec fn instance_rejection(code: Seq<char>, message: Seq<char>) -> AdapterRejectionView {
    AdapterRejectionView { code, path: None, message }
}

pub open spec fn scene_missing(scene_id: Seq<char>) -> AdapterRejectionView {
    instance_rejection("voxel.sceneMissing"@, "project has no scene `"@ + scene_id + "`"@)
}

pub open spec fn instance_missing(instance_id: Seq<char>) -> AdapterRejectionView {
    instance_rejection(
        "voxel.instanceMissing"@,
        "scene has no voxel instance `"@ + instance_id + "`"@,
    )
}

/// `after` is `before` with the voxel instances of its `s`-th scene replaced
/// by `instances`, and nothing else changed.
pub open spec fn with_scene_instances(
    before: StoredProject,
    after: StoredProject,
    s: int,
    instances: Seq<StoredVoxelInstance>,
) -> bool {
    &&& 0 <= s < before.scenes@.len()
    &&& after.schema_version == before.schema_version
    &&& after.project_id == before.project_id
    &&& after.name == before.name
    &&& after.entry_scene == before.entry_scene
    &&& after.assets == before.assets
    &&& after.item_definitions == before.item_definitions
    &&& after.scenes@.len() == before.scenes@.len()
    &&& forall|j: int| 0 <= j < before.scenes@.len() && j != s ==> after.scenes@[j] == before.scenes@[j]
    &&& after.scenes@[s].id == before.scenes@[s].id
    &&& after.scenes@[s].name == before.scenes@[s].name
    &&& after.scenes@[s].voxel_environment == before.scenes@[s].voxel_environment
    &&& after.scenes@[s].voxel_object_instances == before.scenes@[s].voxel_object_instances
    &&& after.scenes@[s].entities == before.scenes@[s].entities
    &&& after.scenes@[s].voxel_instances@ == instances
}

proof fn lemma_scene_instances_compose(
    first: StoredProject,
    second: StoredProject,
    third: StoredProject,
    s: int,
    between: Seq<StoredVoxelInstance>,
    instances: Seq<StoredVoxelInstance>,
)
    requires
        with_scene_instances(first, second, s, between),
        with_scene_instances(second, third, s, instances),
    ensures
        with_scene_instances(first, third, s, instances),
{
    assert forall|j: int| 0 <= j < first.scenes@.len() && j != s implies third.scenes@[j]
        == first.scenes@[j] by {
        assert(second.scenes@[j] == first.scenes@[j]);
    }
}

pub(crate) fn find_scene_index(project: &StoredProject, scene_id: &str) -> (found: Option<usize>)
    ensures
        match found {
            Some(i) => i < project.scenes@.len() && scene_position(project.scenes@, scene_id@) == Some(
                i as int,
            ),
            None => scene_position(project.scenes@, scene_id@) is None,
        },
{
    let mut index: usize = 0;
    while index < project.scenes.len()
        invariant
            index <= project.scenes@.len(),
            forall|j: int| 0 <= j < index ==> (#[trigger] project.scenes@[j]).id@ != scene_id@,
        decreases project.scenes@.len() - index,
    {
        if text_equal(project.scenes[index].id.as_str(), scene_id) {
            proof {
                let i = index as int;
                let scenes = project.scenes@;
                assert forall|k: int|
                    0 <= k < scenes.len() && (#[trigger] scenes[k]).id@ == scene_id@ && (forall|
                        j: int,
                    | 0 <= j < k ==> (#[trigger] scenes[j]).id@ != scene_id@) implies k == i by {
                    if k < i {
                        assert(scenes[k].id@ != scene_id@);
                    }
                    if k > i {
                        assert(scenes[i].id@ != scene_id@);
                    }
                }
            }
            return Some(index);
        }
        index = index + 1;
    }
    None
}

fn find_instance_index(instances: &Vec<StoredVoxelInstance>, instance_id: &str) -> (found: Option<
    usize,
>)
    ensures
        match found {
            Some(i) => i < instances@.len() && instance_position(instances@, instance_id@) == Some(
                i as int,
            ),
            None => instance_position(instances@, instance_id@) is None,
        },
{
    let mut index: usize = 0;
    while index < instances.len()
        invariant
            index <= instances@.len(),
            forall|j: int| 0 <= j < index ==> (#[trigger] instances@[j]).instance_id@ != instance_id@,
        decreases instances@.len() - index,
    {
        if text_equal(instances[index].instance_id.as_str(), instance_id) {
            proof {
                let i = index as int;
                let all = instances@;
                assert forall|k: int|
                    0 <= k < all.len() && (#[trigger] all[k]).instance_id@ == instance_id@ && (
                    forall|j: int| 0 <= j < k ==> (#[trigger] all[j]).instance_id@ != instance_id@)
                    implies k == i by {
                    if k < i {
                        assert(all[k].instance_id@ != instance_id@);
                    }
                    if k > i {
                        assert(all[i].instance_id@ != instance_id@);
                    }
                }
            }
            return Some(index);
        }
        index = index + 1;
    }
    None
}

fn missing_scene_rejection(scene_id: &str) -> (rejection: AdapterRejection)
    ensures
        rejection@ == scene_missing(scene_id@),
{
    let message = join3("project has no scene `", scene_id, "`");
    AdapterRejection::new("voxel.sceneMissing", message.as_str())
}

fn missing_instance_rejection(instance_id: &str) -> (rejection: AdapterRejection)
    ensures
        rejection@ == instance_missing(instance_id@),
{
    let message = join3("scene has no voxel instance `", instance_id, "`");
    AdapterRejection::new("voxel.instanceMissing", message.as_str())
}

/// Replaces the `s`-th scene's voxel instances.
fn replace_scene_instances(project: &mut StoredProject, s: usize, instances: Vec<StoredVoxelInstance>)
    requires
        s < old(project).scenes@.len(),
    ensures
        with_scene_instances(*old(project), *final(project), s as int, instances@),
{
    let mut scene = project.scenes.remove(s);
    scene.voxel_instances = instances;
    project.scenes.insert(s, scene);
    assert(project.scenes@ == old(project).scenes@.update(s as int, scene));
}

fn take_scene_instances(project: &mut StoredProject, s: usize) -> (instances: Vec<StoredVoxelInstance>)
    requires
        s < old(project).scenes@.len(),
    ensures
        instances@ == old(project).scenes@[s as int].voxel_instances@,
        with_scene_instances(*old(project), *final(project), s as int, Seq::empty()),
{
    let mut scene = project.scenes.remove(s);
    let mut instances: Vec<StoredVoxelInstance> = Vec::new();
    std::mem::swap(&mut instances, &mut scene.voxel_instances);
    project.scenes.insert(s, scene);
    assert(project.scenes@ == old(project).scenes@.update(s as int, scene));
    instances
}

/// Attaches a new voxel instance to the scene `scene_id`; an instance of
/// the same identity must not exist there yet.
pub fn attach_voxel_instance(project: &mut StoredProject, scene_id: &str, instance: StoredVoxelInstance) -> (
    result: Result<(), AdapterRejection>)
    ensures
        match scene_position(old(project).scenes@, scene_id@) {
            None => result matches Err(error) && error@ == scene_missing(scene_id@) && *final(project)
                == *old(project),
            Some(s) => {
                let instances = old(project).scenes@[s].voxel_instances@;
                if instance_position(instances, instance.instance_id@) is Some {
                    result matches Err(error) && error@ == instance_rejection(
                        "voxel.instanceExists"@,
                        "instance `"@ + instance.instance_id@ + "` already exists"@,
                    ) && *final(project) == *old(project)
                } else {
                    result is Ok && with_scene_instances(
                        *old(project),
                        *final(project),
                        s,
                        instances.push(instance),
                    )
                }
            },
        },
{
    let s = match find_scene_index(project, scene_id) {
        Some(s) => s,
        None => {
            return Err(missing_scene_rejection(scene_id));
        },
    };
    if find_instance_index(&project.scenes[s].voxel_instances, instance.instance_id.as_str()).is_some() {
        let message = join3("instance `", instance.instance_id.as_str(), "` already exists");
        return Err(AdapterRejection::new("voxel.instanceExists", message.as_str()));
    }
    let ghost before = *project;
    let mut instances = take_scene_instances(project, s);
    instances.push(instance);
    let ghost middle = *project;
    replace_scene_instances(project, s, instances);
    proof {
        lemma_scene_instances_compose(before, middle, *project, s as int, Seq::empty(), instances@);
    }
    Ok(())
}

/// Moves the voxel instance `instance_id` of the scene `scene_id`.
pub fn set_voxel_instance_transform(
    project: &mut StoredProject,
    scene_id: &str,
    instance_id: &str,
    translation: [u32; 3],
    rotation: [u32; 4],
    scale: [u32; 3],
) -> (result: Result<(), AdapterRejection>)
    ensures
        match scene_position(old(project).scenes@, scene_id@) {
            None => result matches Err(error) && error@ == scene_missing(scene_id@) && *final(project)
                == *old(project),
            Some(s) => {
                let instances = old(project).scenes@[s].voxel_instances@;
                match instance_position(instances, instance_id@) {
                    None => result matches Err(error) && error@ == instance_missing(instance_id@)
                        && *final(project) == *old(project),
                    Some(p) => result is Ok && with_scene_instances(
                        *old(project),
                        *final(project),
                        s,
                        instances.update(
                            p,
                            StoredVoxelInstance { translation, rotation, scale, ..instances[p] },
                        ),
                    ),
                }
            },
        },
{
    let s = match find_scene_index(project, scene_id) {
        Some(s) => s,
        None => {
            return Err(missing_scene_rejection(scene_id));
        },
    };
    let p = match find_instance_index(&project.scenes[s].voxel_instances, instance_id) {
        Some(p) => p,
        None => {
            return Err(missing_instance_rejection(instance_id));
        },
    };
    let ghost before = *project;
    let mut instances = take_scene_instances(project, s);
    let mut moved = instances.remove(p);
    moved.translation = translation;
    moved.rotation = rotation;
    moved.scale = scale;
    instances.insert(p, moved);
    proof {
        let taken = before.scenes@[s as int].voxel_instances@;
        assert(moved == StoredVoxelInstance { translation, rotation, scale, ..taken[p as int] });
        assert(instances@ =~= taken.update(p as int, moved));
    }
    let ghost middle = *project;
    replace_scene_instances(project, s, instances);
    proof {
        lemma_scene_instances_compose(before, middle, *project, s as int, Seq::empty(), instances@);
    }
    Ok(())
}

/// Removes the voxel instance `instance_id` from the scene `scene_id`.
pub fn remove_voxel_instance(project: &mut StoredProject, scene_id: &str, instance_id: &str) -> (
    result: Result<(), AdapterRejection>)
    ensures
        match scene_position(old(project).scenes@, scene_id@) {
            None => result matches Err(error) && error@ == scene_missing(scene_id@) && *final(project)
                == *old(project),
            Some(s) => {
                let instances = old(project).scenes@[s].voxel_instances@;
                match instance_position(instances, instance_id@) {
                    None => result matches Err(error) && error@ == instance_missing(instance_id@)
                        && *final(project) == *old(project),
                    Some(p) => result is Ok && with_scene_instances(
                        *old(project),
                        *final(project),
                        s,
                        instances.remove(p),
                    ),
                }
            },
        },
{
    let s = match find_scene_index(project, scene_id) {
        Some(s) => s,
        None => {
            return Err(missing_scene_rejection(scene_id));
        },
    };
    let p = match find_instance_index(&project.scenes[s].voxel_instances, instance_id) {
        Some(p) => p,
        None => {
            return Err(missing_instance_rejection(instance_id));
        },
    };
    let ghost before = *project;
    let mut instances = take_scene_instances(project, s);
    instances.remove(p);
    let ghost middle = *project;
    replace_scene_instances(project, s, instances);
    proof {
        lemma_scene_instances_compose(before, middle, *project, s as int, Seq::empty(), instances@);
    }
    Ok(())
}

/// Removing an instance just attached gives the scene's instances back:
/// the attached instance is the only one of its identity, at the end.
pub proof fn lemma_attach_then_remove(instances: Seq<StoredVoxelInstance>, instance: StoredVoxelInstance)
    requires
        instance_position(instances, instance.instance_id@) is None,
    ensures
        instance_position(instances.push(instance), instance.instance_id@) == Some(
            instances.len() as int,
        ),
        instances.push(instance).remove(instances.len() as int) == instances,
{
    crate::studio_adapter::environment::lemma_installed_instance_is_found(instances, instance);
    let after = instances.push(instance);
    let id = instance.instance_id@;
    let q = instance_position(after, id)->Some_0;
    if q < instances.len() {
        assert(after[q] == instances[q]);
        assert(instances[q].instance_id@ == id);
    }
    assert(after.remove(instances.len() as int) =~= instances);
}

} // verus!
