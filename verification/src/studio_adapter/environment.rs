//! Materializing a generated voxel environment into a scene: the checks on
//! its targets and how its voxel instance and marker entities are installed.
//! Generating the environment itself is the engine's.
use vstd::prelude::*;

use crate::stored_project::{text_equal, StoredProject, StoredScene, StoredVoxelInstance};
use crate::studio_adapter::protocol::{AdapterRejection, AdapterRejectionView};
use crate::studio_adapter::voxel::scene_position;
use crate::text::{decimal, decimal_text, join2, join3};

verus! {

pub open spec fn environment_rejection(code: Seq<char>, message: Seq<char>) -> AdapterRejectionView {
    AdapterRejectionView { code, path: None, message }
}

/// The player start and the exit must be different entities.
pub fn check_targets(player_entity_id: u64, exit_entity_id: u64) -> (result: Result<
    (),
    AdapterRejection,
>)
    ensures
        result is Ok <==> player_entity_id != exit_entity_id,
        result matches Err(error) ==> error@ == environment_rejection(
            "environment.invalidTarget"@,
            "player and exit targets must be different entities"@,
        ),
{
    if player_entity_id == exit_entity_id {
        return Err(
            AdapterRejection::new(
                "environment.invalidTarget",
                "player and exit targets must be different entities",
            ),
        );
    }
    Ok(())
}

/// An edit proceeds only against the scene revision it was prepared from.
pub fn check_scene_revision(expected: u64, actual: u64) -> (result: Result<(), AdapterRejection>)
    ensures
        result is Ok <==> expected == actual,
        result matches Err(error) ==> error@ == environment_rejection(
            "scene.staleRevision"@,
            "expected scene revision "@ + decimal(expected as nat) + ", found "@ + decimal(
                actual as nat,
            ),
        ),
{
    if expected != actual {
        let mut message = join3("expected scene revision ", decimal_text(expected).as_str(), ", found ");
        message.append(decimal_text(actual).as_str());
        return Err(AdapterRejection::new("scene.staleRevision", message.as_str()));
    }
    Ok(())
}

pub open spec fn has_entity(scene: StoredScene, id: u64) -> bool {
    exists|i: int| 0 <= i < scene.entities@.len() && (#[trigger] scene.entities@[i]).id == id
}

fn scene_has_entity(scene: &StoredScene, id: u64) -> (found: bool)
    ensures
        found == has_entity(*scene, id),
{
    let mut index: usize = 0;
    while index < scene.entities.len()
        invariant
            index <= scene.entities@.len(),
            forall|j: int| 0 <= j < index ==> (#[trigger] scene.entities@[j]).id != id,
        decreases scene.entities@.len() - index,
    {
        if scene.entities[index].id == id {
            return true;
        }
        index = index + 1;
    }
    false
}

pub open spec fn missing_target(label: Seq<char>, id: u64, scene_id: Seq<char>) -> AdapterRejectionView {
    environment_rejection(
        "environment.entityMissing"@,
        label + " target entity "@ + decimal(id as nat) + " is absent from scene `"@ + scene_id
            + "`"@,
    )
}

fn missing_target_rejection(label: &str, id: u64, scene_id: &str) -> (rejection: AdapterRejection)
    ensures
        rejection@ == missing_target(label@, id, scene_id@),
{
    let mut message = join3(label, " target entity ", decimal_text(id).as_str());
    message.append(" is absent from scene `");
    message.append(scene_id);
    message.append("`");
    AdapterRejection::new("environment.entityMissing", message.as_str())
}

/// The scene must exist and hold both the player and the exit entity.
pub fn require_scene_and_entities(
    project: &StoredProject,
    scene_id: &str,
    player_entity_id: u64,
    exit_entity_id: u64,
) -> (result: Result<(), AdapterRejection>)
    ensures
        match scene_position(project.scenes@, scene_id@) {
            None => result matches Err(error) && error@ == environment_rejection(
                "environment.sceneMissing"@,
                "scene `"@ + scene_id@ + "` is absent"@,
            ),
            Some(s) => {
                let scene = project.scenes@[s];
                if !has_entity(scene, player_entity_id) {
                    result matches Err(error) && error@ == missing_target(
                        "player"@,
                        player_entity_id,
                        scene_id@,
                    )
                } else if !has_entity(scene, exit_entity_id) {
                    result matches Err(error) && error@ == missing_target(
                        "exit"@,
                        exit_entity_id,
                        scene_id@,
                    )
                } else {
                    result is Ok
                }
            },
        },
{
    let scene = match crate::studio_adapter::voxel::find_scene(project, scene_id) {
        Ok(scene) => scene,
        Err(_) => {
            let message = join3("scene `", scene_id, "` is absent");
            return Err(AdapterRejection::new("environment.sceneMissing", message.as_str()));
        },
    };
    if !scene_has_entity(scene, player_entity_id) {
        return Err(missing_target_rejection("player", player_entity_id, scene_id));
    }
    if !scene_has_entity(scene, exit_entity_id) {
        return Err(missing_target_rejection("exit", exit_entity_id, scene_id));
    }
    Ok(())
}

pub open spec fn instance_position(instances: Seq<StoredVoxelInstance>, instance_id: Seq<char>) -> Option<
    int,
> {
    if exists|i: int| 0 <= i < instances.len() && (#[trigger] instances[i]).instance_id@ == instance_id {
        Some(
            choose|i: int|
                0 <= i < instances.len() && (#[trigger] instances[i]).instance_id@ == instance_id
                    && forall|j: int|
                    0 <= j < i ==> (#[trigger] instances[j]).instance_id@ != instance_id,
        )
    } else {
        None
    }
}

fn find_instance(instances: &Vec<StoredVoxelInstance>, instance_id: &str) -> (found: Option<usize>)
    ensures
        match found {
            Some(i) => i < instances@.len() && instance_position(instances@, instance_id@) == Some(
                i as int,
            ),
            None => instance_position(instances@, instance_id@) is None,
        },
{
    let mut index: usize = 0;
    while index < instances.len()
        invariant
            index <= instances@.len(),
            forall|j: int| 0 <= j < index ==> (#[trigger] instances@[j]).instance_id@ != instance_id@,
        decreases instances@.len() - index,
    {
        if text_equal(instances[index].instance_id.as_str(), instance_id) {
            proof {
                let i = index as int;
                let all = instances@;
                assert forall|k: int|
                    0 <= k < all.len() && (#[trigger] all[k]).instance_id@ == instance_id@ && (
                    forall|j: int| 0 <= j < k ==> (#[trigger] all[j]).instance_id@ != instance_id@)
                    implies k == i by {
                    if k < i {
                        assert(all[k].instance_id@ != instance_id@);
                    }
                    if k > i {
                        assert(all[i].instance_id@ != instance_id@);
                    }
                }
            }
            return Some(index);
        }
        index = index + 1;
    }
    None
}

/// Installs the environment's voxel instance in a scene: an instance of the
/// same identity is replaced when it targets the same voxel asset and is a
/// conflict otherwise; a new identity is appended.
pub fn install_environment_instance(scene: &mut StoredScene, candidate: StoredVoxelInstance) -> (
    result: Result<(), AdapterRejection>)
    ensures
        final(scene).id == old(scene).id,
        final(scene).name == old(scene).name,
        final(scene).entities == old(scene).entities,
        final(scene).voxel_object_instances == old(scene).voxel_object_instances,
        final(scene).voxel_environment == old(scene).voxel_environment,
        match instance_position(old(scene).voxel_instances@, candidate.instance_id@) {
            None => result is Ok && final(scene).voxel_instances@ == old(
                scene,
            ).voxel_instances@.push(candidate),
            Some(p) => if old(scene).voxel_instances@[p].voxel_asset_id@
                != candidate.voxel_asset_id@ {
                result matches Err(error) && error@ == environment_rejection(
                    "environment.targetConflict"@,
                    "instance `"@ + candidate.instance_id@ + "` targets another voxel asset"@,
                ) && final(scene).voxel_instances@ == old(scene).voxel_instances@
            } else {
                result is Ok && final(scene).voxel_instances@ == old(
                    scene,
                ).voxel_instances@.update(p, candidate)
            },
        },
{
    match find_instance(&scene.voxel_instances, candidate.instance_id.as_str()) {
        Some(index) => {
            if !text_equal(
                scene.voxel_instances[index].voxel_asset_id.as_str(),
                candidate.voxel_asset_id.as_str(),
            ) {
                let message = join3(
                    "instance `",
                    candidate.instance_id.as_str(),
                    "` targets another voxel asset",
                );
                return Err(AdapterRejection::new("environment.targetConflict", message.as_str()));
            }
            scene.voxel_instances.set(index, candidate);
        },
        None => {
            scene.voxel_instances.push(candidate);
        },
    }
    Ok(())
}

proof fn lemma_first_instance(instances: Seq<StoredVoxelInstance>, id: Seq<char>, i: int)
    requires
        0 <= i < instances.len(),
        instances[i].instance_id@ == id,
    ensures
        exists|k: int|
            0 <= k < instances.len() && (#[trigger] instances[k]).instance_id@ == id && forall|j: int|
                0 <= j < k ==> (#[trigger] instances[j]).instance_id@ != id,
    decreases i,
{
    if exists|j: int| 0 <= j < i && (#[trigger] instances[j]).instance_id@ == id {
        let j = choose|j: int| 0 <= j < i && (#[trigger] instances[j]).instance_id@ == id;
        lemma_first_instance(instances, id, j);
    } else {
        assert(forall|j: int| 0 <= j < i ==> (#[trigger] instances[j]).instance_id@ != id);
    }
}

proof fn lemma_appended_instance_is_found(before: Seq<StoredVoxelInstance>, candidate: StoredVoxelInstance)
    requires
        instance_position(before, candidate.instance_id@) is None,
    ensures
        instance_position(before.push(candidate), candidate.instance_id@) == Some(before.len() as int),
{
    let id = candidate.instance_id@;
    let after = before.push(candidate);
    let n = before.len() as int;
    assert(after[n].instance_id@ == id);
    lemma_first_instance(after, id, n);
    let q = instance_position(after, id)->Some_0;
    if q < n {
        assert(after[q] == before[q]);
    }
}

proof fn lemma_replaced_instance_is_found(
    before: Seq<StoredVoxelInstance>,
    candidate: StoredVoxelInstance,
    p: int,
)
    requires
        instance_position(before, candidate.instance_id@) == Some(p),
    ensures
        0 <= p < before.len(),
        instance_position(before.update(p, candidate), candidate.instance_id@) == Some(p),
{
    let id = candidate.instance_id@;
    let w = choose|i: int| 0 <= i < before.len() && (#[trigger] before[i]).instance_id@ == id;
    lemma_first_instance(before, id, w);
    let after = before.update(p, candidate);
    assert(after[p].instance_id@ == id);
    assert forall|j: int| 0 <= j < p implies (#[trigger] after[j]).instance_id@ != id by {
        assert(after[j] == before[j]);
    }
    lemma_first_instance(after, id, p);
    let q = instance_position(after, id)->Some_0;
    if q < p {
        assert(after[q] == before[q]);
    }
    if q > p {
        assert(after[p].instance_id@ != id);
    }
}

/// After an environment instance is installed, the scene's instance of that
/// identity is the installed one.
pub proof fn lemma_installed_instance_is_found(
    before: Seq<StoredVoxelInstance>,
    candidate: StoredVoxelInstance,
)
    ensures
        ({
            let after = match instance_position(before, candidate.instance_id@) {
                None => before.push(candidate),
                Some(p) => before.update(p, candidate),
            };
            match instance_position(after, candidate.instance_id@) {
                Some(q) => after[q] == candidate,
                None => false,
            }
        }),
{
    match instance_position(before, candidate.instance_id@) {
        None => {
            lemma_appended_instance_is_found(before, candidate);
            assert(before.push(candidate)[before.len() as int] == candidate);
        },
        Some(p) => {
            lemma_replaced_instance_is_found(before, candidate, p);
            assert(before.update(p, candidate)[p] == candidate);
        },
    }
}

pub open spec fn entity_position(scene: StoredScene, entity_id: u64) -> Option<int> {
    if has_entity(scene, entity_id) {
        Some(
            choose|i: int|
                0 <= i < scene.entities@.len() && (#[trigger] scene.entities@[i]).id == entity_id
                    && forall|j: int|
                    0 <= j < i ==> (#[trigger] scene.entities@[j]).id != entity_id,
        )
    } else {
        None
    }
}

/// Moves an environment marker's target entity (the first of its identity)
/// to the marker's translation.
pub fn set_entity_translation(scene: &mut StoredScene, entity_id: u64, translation: [u32; 3]) -> (
    result: Result<(), AdapterRejection>)
    ensures
        final(scene).id == old(scene).id,
        final(scene).voxel_instances == old(scene).voxel_instances,
        final(scene).voxel_object_instances == old(scene).voxel_object_instances,
        match entity_position(*old(scene), entity_id) {
            None => result matches Err(error) && error@ == environment_rejection(
                "environment.entityMissing"@,
                "target entity "@ + decimal(entity_id as nat) + " disappeared during publication"@,
            ) && final(scene).entities@ == old(scene).entities@,
            Some(p) => result is Ok && final(scene).entities@.len() == old(scene).entities@.len()
                && (forall|j: int|
                0 <= j < old(scene).entities@.len() && j != p ==> final(scene).entities@[j] == old(
                    scene,
                ).entities@[j]) && final(scene).entities@[p].translation == Some(translation)
                && final(scene).entities@[p].id == entity_id && final(scene).entities@[p].name
                == old(scene).entities@[p].name,
        },
{
    let mut index: usize = 0;
    while index < scene.entities.len()
        invariant
            index <= scene.entities@.len(),
            scene.entities@ == old(scene).entities@,
            scene.id == old(scene).id,
            scene.voxel_instances == old(scene).voxel_instances,
            scene.voxel_object_instances == old(scene).voxel_object_instances,
            forall|j: int| 0 <= j < index ==> (#[trigger] scene.entities@[j]).id != entity_id,
        decreases scene.entities@.len() - index,
    {
        if scene.entities[index].id == entity_id {
            proof {
                let i = index as int;
                let all = old(scene).entities@;
                let q = entity_position(*old(scene), entity_id)->Some_0;
                if q < i {
                    assert(all[q].id != entity_id);
                }
                if q > i {
                    assert(all[i].id != entity_id);
                }
            }
            let mut entity = scene.entities.remove(index);
            entity.translation = Some(translation);
            scene.entities.insert(index, entity);
            return Ok(());
        }
        index = index + 1;
    }
    let message = join3("target entity ", decimal_text(entity_id).as_str(), " disappeared during publication");
    Err(AdapterRejection::new("environment.entityMissing", message.as_str()))
}

} // verus!
