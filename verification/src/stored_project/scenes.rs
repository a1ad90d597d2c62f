//! The scene rules of a project document that concern names, identities and
//! references: each scene is named and declared once, its voxel instances
//! have kebab-case identities declared once and name catalog assets that
//! carry a voxel volume, its entities keep their identity, inventory,
//! pickup and parent rules, and the entry scene is one of the scenes. The
//! catalog identities and those of the assets that carry a voxel volume are
//! given as `asset_ids` and `volume_ids`. Scene identities are parsed by
//! the asset catalog, instance transforms are floating point, and what a
//! voxel-object instance may show is read from engine payloads; those
//! checks are made by the engine and are not part of this model.
use vstd::prelude::*;

use crate::stored_project::diagnostic_code;
use crate::stored_project::hierarchy::{failure_is, reaches_root, unique_ids};
use crate::stored_project::inventories::inventory_failure;
use crate::stored_project::pickups::pickup_failure;
use crate::stored_project::scene_entities::{
    lemma_accepted_scene_entities, scene_entities_outcome, validate_scene_entities,
};
use crate::stored_project::{
    contains_text, failure, is_kebab_segment, kebab_segment, text_equal, StoredItemDefinition,
    StoredProjectError, StoredScene, StoredVoxelInstance,
};
use crate::text::{decimal, decimal_text, is_blank, text_is_blank};

verus! {

/// `scenes[s].voxelInstances[k].<field>`
pub open spec fn instance_path(scene_index: nat, k: nat, field: Seq<char>) -> Seq<char> {
    "scenes["@ + decimal(scene_index) + "].voxelInstances["@ + decimal(k) + "]."@ + field
}

/// An instance before the `k`-th that has the `k`-th's identity.
pub open spec fn earlier_instance(instances: Seq<StoredVoxelInstance>, k: int) -> Option<int> {
    if exists|j: int| 0 <= j < k && instances[j].instance_id@ == instances[k].instance_id@ {
        Some(choose|j: int| 0 <= j < k && instances[j].instance_id@ == instances[k].instance_id@)
    } else {
        None
    }
}

pub open spec fn instance_fault(
    instances: Seq<StoredVoxelInstance>,
    asset_ids: Seq<String>,
    volume_ids: Seq<String>,
    k: int,
) -> bool {
    ||| !kebab_segment(instances[k].instance_id@)
    ||| earlier_instance(instances, k) is Some
    ||| !contains_text(asset_ids, instances[k].voxel_asset_id@)
    ||| !contains_text(volume_ids, instances[k].voxel_asset_id@)
}

pub open spec fn instance_failure(
    instances: Seq<StoredVoxelInstance>,
    asset_ids: Seq<String>,
    scene_index: nat,
    k: int,
) -> (Seq<char>, Seq<char>, Seq<char>) {
    if !kebab_segment(instances[k].instance_id@) {
        (
            diagnostic_code::INVALID_VOXEL_INSTANCE@,
            instance_path(scene_index, k as nat, "instanceId"@),
            "voxel instance identity must be one kebab-case segment"@,
        )
    } else if let Some(first) = earlier_instance(instances, k) {
        (
            diagnostic_code::INVALID_VOXEL_INSTANCE@,
            instance_path(scene_index, k as nat, "instanceId"@),
            "instance identity was already declared at voxelInstances["@ + decimal(first as nat)
                + "]"@,
        )
    } else if !contains_text(asset_ids, instances[k].voxel_asset_id@) {
        (
            diagnostic_code::MISSING_ASSET@,
            instance_path(scene_index, k as nat, "voxelAssetId"@),
            "voxel instance references missing asset `"@ + instances[k].voxel_asset_id@ + "`"@,
        )
    } else {
        (
            diagnostic_code::INVALID_VOXEL_INSTANCE@,
            instance_path(scene_index, k as nat, "voxelAssetId"@),
            "voxel instance must reference a canonical voxel-volume asset"@,
        )
    }
}

pub open spec fn first_instance_fault_at(
    instances: Seq<StoredVoxelInstance>,
    asset_ids: Seq<String>, volume_ids: Seq<String>,
    k: int,
) -> bool {
    &&& 0 <= k < instances.len()
    &&& instance_fault(instances, asset_ids, volume_ids, k)
    &&& forall|j: int| 0 <= j < k ==> !#[trigger] instance_fault(instances, asset_ids, volume_ids, j)
}

pub open spec fn first_instance_fault(
    instances: Seq<StoredVoxelInstance>,
    asset_ids: Seq<String>,
    volume_ids: Seq<String>,
) -> Option<
    int,
> {
    if exists|k: int| #[trigger] first_instance_fault_at(instances, asset_ids, volume_ids, k) {
        Some(choose|k: int| #[trigger] first_instance_fault_at(instances, asset_ids, volume_ids, k))
    } else {
        None
    }
}

/// A scene before the `s`-th that has the `s`-th's identity.
pub open spec fn earlier_scene(scenes: Seq<StoredScene>, s: int) -> Option<int> {
    if exists|t: int| 0 <= t < s && scenes[t].id@ == scenes[s].id@ {
        Some(choose|t: int| 0 <= t < s && scenes[t].id@ == scenes[s].id@)
    } else {
        None
    }
}

/// The `s`-th scene passes the checks made before its entities: its name,
/// its identity, and its voxel instances.
pub open spec fn scene_header_passes(
    scenes: Seq<StoredScene>,
    asset_ids: Seq<String>,
    volume_ids: Seq<String>,
    s: int,
) -> bool {
    &&& !is_blank(scenes[s].name@)
    &&& earlier_scene(scenes, s) is None
    &&& first_instance_fault(scenes[s].voxel_instances@, asset_ids, volume_ids) is None
}

/// What the `s`-th scene is refused for, its checks taken in order.
pub open spec fn scene_failure(
    scenes: Seq<StoredScene>,
    asset_ids: Seq<String>,
    volume_ids: Seq<String>,
    definitions: Seq<StoredItemDefinition>,
    slot_limit: usize,
    s: int,
) -> Option<
    (Seq<char>, Seq<char>, Seq<char>),
> {
    let scene = scenes[s];
    if is_blank(scene.name@) {
        Some(
            (
                diagnostic_code::INVALID_VALUE@,
                "scenes["@ + decimal(s as nat) + "].name"@,
                "scene name must not be empty"@,
            ),
        )
    } else if let Some(first) = earlier_scene(scenes, s) {
        Some(
            (
                diagnostic_code::DUPLICATE_SCENE@,
                "scenes["@ + decimal(s as nat) + "].id"@,
                "scene `"@ + scene.id@ + "` was already declared at scenes["@ + decimal(first as nat)
                    + "].id"@,
            ),
        )
    } else if let Some(k) = first_instance_fault(scene.voxel_instances@, asset_ids, volume_ids) {
        Some(instance_failure(scene.voxel_instances@, asset_ids, s as nat, k))
    } else {
        scene_entities_outcome(scene.entities@, definitions, slot_limit, s as nat)
    }
}

pub open spec fn first_scene_fault_at(
    scenes: Seq<StoredScene>,
    asset_ids: Seq<String>,
    volume_ids: Seq<String>,
    definitions: Seq<StoredItemDefinition>,
    slot_limit: usize,
    s: int,
) -> bool {
    &&& 0 <= s < scenes.len()
    &&& scene_failure(scenes, asset_ids, volume_ids, definitions, slot_limit, s) is Some
    &&& forall|t: int|
        0 <= t < s ==> #[trigger] scene_failure(scenes, asset_ids, volume_ids, definitions, slot_limit, t) is None
}

pub open spec fn first_scene_fault(
    scenes: Seq<StoredScene>,
    asset_ids: Seq<String>,
    volume_ids: Seq<String>,
    definitions: Seq<StoredItemDefinition>,
    slot_limit: usize,
) -> Option<int> {
    if exists|s: int| #[trigger] first_scene_fault_at(scenes, asset_ids, volume_ids, definitions, slot_limit, s) {
        Some(choose|s: int| #[trigger] first_scene_fault_at(scenes, asset_ids, volume_ids, definitions, slot_limit, s))
    } else {
        None
    }
}

pub open spec fn has_scene(scenes: Seq<StoredScene>, id: Seq<char>) -> bool {
    exists|s: int| 0 <= s < scenes.len() && (#[trigger] scenes[s]).id@ == id
}

/// The refusal owed to a document's scenes, or `None` when they pass.
pub open spec fn scenes_outcome(
    scenes: Seq<StoredScene>,
    asset_ids: Seq<String>,
    volume_ids: Seq<String>,
    definitions: Seq<StoredItemDefinition>,
    slot_limit: usize,
    entry_scene: Seq<char>,
) -> Option<
    (Seq<char>, Seq<char>, Seq<char>),
> {
    match first_scene_fault(scenes, asset_ids, volume_ids, definitions, slot_limit) {
        Some(s) => scene_failure(scenes, asset_ids, volume_ids, definitions, slot_limit, s),
        None => if has_scene(scenes, entry_scene) {
            None
        } else {
            Some(
                (
                    diagnostic_code::MISSING_ENTRY_SCENE@,
                    "entryScene"@,
                    "entry scene `"@ + entry_scene + "` is not present in `scenes`"@,
                ),
            )
        },
    }
}

proof fn lemma_instance_fault_is_first(
    instances: Seq<StoredVoxelInstance>,
    asset_ids: Seq<String>,
    volume_ids: Seq<String>,
    k: int,
)
    requires
        first_instance_fault_at(instances, asset_ids, volume_ids, k),
    ensures
        first_instance_fault(instances, asset_ids, volume_ids) == Some(k),
{
    let c = choose|c: int| #[trigger] first_instance_fault_at(instances, asset_ids, volume_ids, c);
    if c < k {
        assert(!instance_fault(instances, asset_ids, volume_ids, c));
    }
    if k < c {
        assert(!instance_fault(instances, asset_ids, volume_ids, k));
    }
}

proof fn lemma_scene_fault_is_first(
    scenes: Seq<StoredScene>,
    asset_ids: Seq<String>,
    volume_ids: Seq<String>,
    definitions: Seq<StoredItemDefinition>,
    slot_limit: usize,
    s: int,
)
    requires
        first_scene_fault_at(scenes, asset_ids, volume_ids, definitions, slot_limit, s),
    ensures
        first_scene_fault(scenes, asset_ids, volume_ids, definitions, slot_limit) == Some(s),
{
    let c = choose|c: int| #[trigger] first_scene_fault_at(scenes, asset_ids, volume_ids, definitions, slot_limit, c);
    if c < s {
        assert(scene_failure(scenes, asset_ids, volume_ids, definitions, slot_limit, c) is None);
    }
    if s < c {
        assert(scene_failure(scenes, asset_ids, volume_ids, definitions, slot_limit, s) is None);
    }
}

fn contains_asset(asset_ids: &Vec<String>, id: &str) -> (found: bool)
    ensures
        found == contains_text(asset_ids@, id@),
{
    let mut index: usize = 0;
    while index < asset_ids.len()
        invariant
            index <= asset_ids@.len(),
            forall|j: int| 0 <= j < index ==> (#[trigger] asset_ids@[j])@ != id@,
        decreases asset_ids@.len() - index,
    {
        if text_equal(asset_ids[index].as_str(), id) {
            return true;
        }
        index = index + 1;
    }
    false
}

fn instance_path_text(scene_index: usize, k: usize, field: &str) -> (path: String)
    ensures
        path@ == instance_path(scene_index as nat, k as nat, field@),
{
    let mut path = String::from_str("scenes[");
    path.append(decimal_text(scene_index as u64).as_str());
    path.append("].voxelInstances[");
    path.append(decimal_text(k as u64).as_str());
    path.append("].");
    path.append(field);
    path
}

fn scene_path_text(scene_index: usize, field: &str) -> (path: String)
    ensures
        path@ == "scenes["@ + decimal(scene_index as nat) + "]."@ + field@,
{
    let mut path = String::from_str("scenes[");
    path.append(decimal_text(scene_index as u64).as_str());
    path.append("].");
    path.append(field);
    path
}

/// Checks a scene's voxel instances in order: a kebab-case identity, not
/// declared before in the scene (the refusal names the earlier one), a
/// voxel asset that is among `asset_ids`, the catalog's identities, and one
/// of `volume_ids`, the catalog assets that carry a voxel volume.
pub fn validate_voxel_instance_listing(
    instances: &Vec<StoredVoxelInstance>,
    scene_index: usize,
    asset_ids: &Vec<String>, volume_ids: &Vec<String>,
) -> (result: Result<(), StoredProjectError>)
    ensures
        match first_instance_fault(instances@, asset_ids@, volume_ids@) {
            None => result is Ok,
            Some(k) => result matches Err(error) && failure_is(
                error,
                instance_failure(instances@, asset_ids@, scene_index as nat, k).0,
                instance_failure(instances@, asset_ids@, scene_index as nat, k).1,
                instance_failure(instances@, asset_ids@, scene_index as nat, k).2,
            ),
        },
{
    let mut index: usize = 0;
    while index < instances.len()
        invariant
            index <= instances@.len(),
            forall|j: int| 0 <= j < index ==> !instance_fault(instances@, asset_ids@, volume_ids@, j),
        decreases instances@.len() - index,
    {
        let ghost k = index as int;
        let instance = &instances[index];
        if !is_kebab_segment(instance.instance_id.as_str()) {
            let error = failure(
                diagnostic_code::INVALID_VOXEL_INSTANCE,
                instance_path_text(scene_index, index, "instanceId"),
                String::from_str("voxel instance identity must be one kebab-case segment"),
            );
            proof {
                lemma_instance_fault_is_first(instances@, asset_ids@, volume_ids@, k);
                reveal_strlit("instanceId");
                reveal_strlit("voxel instance identity must be one kebab-case segment");
            }
            return Err(error);
        }
        let mut earlier: usize = 0;
        while earlier < index
            invariant
                index < instances@.len(),
                k == index as int,
                earlier <= index,
                *instance == instances@[k],
                kebab_segment(instances@[k].instance_id@),
                forall|j: int| 0 <= j < index ==> !instance_fault(instances@, asset_ids@, volume_ids@, j),
                forall|j: int|
                    0 <= j < earlier ==> (#[trigger] instances@[j]).instance_id@ != instances@[k].instance_id@,
            decreases index - earlier,
        {
            if text_equal(instances[earlier].instance_id.as_str(), instance.instance_id.as_str()) {
                proof {
                    assert(earlier_instance(instances@, k) is Some);
                    let chosen = earlier_instance(instances@, k)->Some_0;
                    let found = earlier as int;
                    if chosen != found {
                        let (low, high) = if chosen < found {
                            (chosen, found)
                        } else {
                            (found, chosen)
                        };
                        assert(instances@[low].instance_id@ == instances@[high].instance_id@);
                        assert(earlier_instance(instances@, high) is Some);
                        assert(instance_fault(instances@, asset_ids@, volume_ids@, high));
                    }
                }
                let mut message = String::from_str("instance identity was already declared at voxelInstances[");
                message.append(decimal_text(earlier as u64).as_str());
                message.append("]");
                let error = failure(
                    diagnostic_code::INVALID_VOXEL_INSTANCE,
                    instance_path_text(scene_index, index, "instanceId"),
                    message,
                );
                proof {
                    lemma_instance_fault_is_first(instances@, asset_ids@, volume_ids@, k);
                    reveal_strlit("instanceId");
                    reveal_strlit("instance identity was already declared at voxelInstances[");
                    reveal_strlit("]");
                }
                return Err(error);
            }
            earlier = earlier + 1;
        }
        proof {
            assert(earlier_instance(instances@, k) is None);
        }
        if !contains_asset(asset_ids, instance.voxel_asset_id.as_str()) {
            let mut message = String::from_str("voxel instance references missing asset `");
            message.append(instance.voxel_asset_id.as_str());
            message.append("`");
            let error = failure(
                diagnostic_code::MISSING_ASSET,
                instance_path_text(scene_index, index, "voxelAssetId"),
                message,
            );
            proof {
                lemma_instance_fault_is_first(instances@, asset_ids@, volume_ids@, k);
                reveal_strlit("voxelAssetId");
                reveal_strlit("voxel instance references missing asset `");
                reveal_strlit("`");
            }
            return Err(error);
        }
        if !contains_asset(volume_ids, instance.voxel_asset_id.as_str()) {
            let error = failure(
                diagnostic_code::INVALID_VOXEL_INSTANCE,
                instance_path_text(scene_index, index, "voxelAssetId"),
                String::from_str("voxel instance must reference a canonical voxel-volume asset"),
            );
            proof {
                lemma_instance_fault_is_first(instances@, asset_ids@, volume_ids@, k);
                reveal_strlit("voxelAssetId");
                reveal_strlit("voxel instance must reference a canonical voxel-volume asset");
            }
            return Err(error);
        }
        index = index + 1;
    }
    proof {
        assert forall|k: int| !first_instance_fault_at(instances@, asset_ids@, volume_ids@, k) by {}
    }
    Ok(())
}

/// Checks a document's scenes in order (name, identity declared once,
/// voxel instances, then the rules of its entities, against the project's
/// item `definitions` and the game's inventory `slot_limit`), and then that
/// the entry scene is one of them; `asset_ids` are the catalog's
/// identities and `volume_ids` those of its assets that carry a voxel
/// volume.
pub fn validate_scene_listing(
    scenes: &Vec<StoredScene>,
    asset_ids: &Vec<String>,
    volume_ids: &Vec<String>,
    definitions: &Vec<StoredItemDefinition>,
    slot_limit: usize,
    entry_scene: &str,
) -> (
    result: Result<(), StoredProjectError>)
    ensures
        match scenes_outcome(scenes@, asset_ids@, volume_ids@, definitions@, slot_limit, entry_scene@) {
            None => result is Ok,
            Some((code, path, message)) => result matches Err(error) && failure_is(
                error,
                code,
                path,
                message,
            ),
        },
{
    let mut index: usize = 0;
    while index < scenes.len()
        invariant
            index <= scenes@.len(),
            forall|t: int|
                0 <= t < index ==> #[trigger] scene_failure(
                    scenes@,
                    asset_ids@,
                    volume_ids@,
                    definitions@,
                    slot_limit,
                    t,
                ) is None,
        decreases scenes@.len() - index,
    {
        let ghost s = index as int;
        let scene = &scenes[index];
        if text_is_blank(scene.name.as_str()) {
            let error = failure(
                diagnostic_code::INVALID_VALUE,
                scene_path_text(index, "name"),
                String::from_str("scene name must not be empty"),
            );
            proof {
                lemma_scene_fault_is_first(scenes@, asset_ids@, volume_ids@, definitions@, slot_limit, s);
                reveal_strlit("name");
                reveal_strlit("].");
                reveal_strlit("].name");
                reveal_strlit("scene name must not be empty");
                let prefix = "scenes["@ + decimal(s as nat);
                assert(prefix + "]."@ + "name"@ =~= prefix + "].name"@);
            }
            return Err(error);
        }
        let mut earlier: usize = 0;
        while earlier < index
            invariant
                index < scenes@.len(),
                s == index as int,
                earlier <= index,
                *scene == scenes@[s],
                !is_blank(scenes@[s].name@),
                forall|t: int|
                0 <= t < index ==> #[trigger] scene_failure(
                    scenes@,
                    asset_ids@,
                    volume_ids@,
                    definitions@,
                    slot_limit,
                    t,
                ) is None,
                forall|t: int| 0 <= t < earlier ==> (#[trigger] scenes@[t]).id@ != scenes@[s].id@,
            decreases index - earlier,
        {
            if text_equal(scenes[earlier].id.as_str(), scene.id.as_str()) {
                proof {
                    assert(earlier_scene(scenes@, s) is Some);
                    let chosen = earlier_scene(scenes@, s)->Some_0;
                    let found = earlier as int;
                    if chosen != found {
                        let (low, high) = if chosen < found {
                            (chosen, found)
                        } else {
                            (found, chosen)
                        };
                        assert(scenes@[low].id@ == scenes@[high].id@);
                        assert(earlier_scene(scenes@, high) is Some);
                        assert(scene_failure(scenes@, asset_ids@, volume_ids@, definitions@, slot_limit, high) is Some);
                    }
                }
                let mut message = String::from_str("scene `");
                message.append(scene.id.as_str());
                message.append("` was already declared at scenes[");
                message.append(decimal_text(earlier as u64).as_str());
                message.append("].id");
                let error = failure(diagnostic_code::DUPLICATE_SCENE, scene_path_text(index, "id"), message);
                proof {
                    lemma_scene_fault_is_first(scenes@, asset_ids@, volume_ids@, definitions@, slot_limit, s);
                    reveal_strlit("id");
                    reveal_strlit("].");
                    reveal_strlit("].id");
                    let prefix = "scenes["@ + decimal(s as nat);
                    assert(prefix + "]."@ + "id"@ =~= prefix + "].id"@);
                    reveal_strlit("scene `");
                    reveal_strlit("` was already declared at scenes[");
                    reveal_strlit("].id");
                }
                return Err(error);
            }
            earlier = earlier + 1;
        }
        proof {
            assert(earlier_scene(scenes@, s) is None);
        }
        match validate_voxel_instance_listing(&scene.voxel_instances, index, asset_ids, volume_ids) {
            Err(error) => {
                proof {
                    lemma_scene_fault_is_first(scenes@, asset_ids@, volume_ids@, definitions@, slot_limit, s);
                }
                return Err(error);
            },
            Ok(()) => {},
        }
        proof {
            assert(scene_header_passes(scenes@, asset_ids@, volume_ids@, s));
        }
        match validate_scene_entities(&scene.entities, definitions, slot_limit, index) {
            Err(error) => {
                proof {
                    lemma_scene_fault_is_first(scenes@, asset_ids@, volume_ids@, definitions@, slot_limit, s);
                }
                return Err(error);
            },
            Ok(()) => {},
        }
        assert(scene_failure(scenes@, asset_ids@, volume_ids@, definitions@, slot_limit, s) is None);
        index = index + 1;
    }
    proof {
        assert forall|s: int| !first_scene_fault_at(scenes@, asset_ids@, volume_ids@, definitions@, slot_limit, s) by {}
    }
    let mut position: usize = 0;
    while position < scenes.len()
        invariant
            position <= scenes@.len(),
            first_scene_fault(scenes@, asset_ids@, volume_ids@, definitions@, slot_limit) is None,
            forall|t: int| 0 <= t < position ==> (#[trigger] scenes@[t]).id@ != entry_scene@,
        decreases scenes@.len() - position,
    {
        if text_equal(scenes[position].id.as_str(), entry_scene) {
            assert(has_scene(scenes@, entry_scene@)) by {
                assert(scenes@[position as int].id@ == entry_scene@);
            }
            return Ok(());
        }
        position = position + 1;
    }
    let mut message = String::from_str("entry scene `");
    message.append(entry_scene);
    message.append("` is not present in `scenes`");
    let error = failure(diagnostic_code::MISSING_ENTRY_SCENE, String::from_str("entryScene"), message);
    proof {
        reveal_strlit("entryScene");
        reveal_strlit("entry scene `");
        reveal_strlit("` is not present in `scenes`");
    }
    Err(error)
}

proof fn lemma_instance_fault_has_a_first(
    instances: Seq<StoredVoxelInstance>,
    asset_ids: Seq<String>,
    volume_ids: Seq<String>,
    k: int,
)
    requires
        0 <= k < instances.len(),
        instance_fault(instances, asset_ids, volume_ids, k),
    ensures
        first_instance_fault(instances, asset_ids, volume_ids) is Some,
    decreases k,
{
    if forall|j: int| 0 <= j < k ==> !#[trigger] instance_fault(instances, asset_ids, volume_ids, j) {
        lemma_instance_fault_is_first(instances, asset_ids, volume_ids, k);
    } else {
        let j = choose|j: int| 0 <= j < k && #[trigger] instance_fault(instances, asset_ids, volume_ids, j);
        lemma_instance_fault_has_a_first(instances, asset_ids, volume_ids, j);
    }
}

proof fn lemma_scene_fault_has_a_first(
    scenes: Seq<StoredScene>,
    asset_ids: Seq<String>,
    volume_ids: Seq<String>,
    definitions: Seq<StoredItemDefinition>,
    slot_limit: usize,
    s: int,
)
    requires
        0 <= s < scenes.len(),
        scene_failure(scenes, asset_ids, volume_ids, definitions, slot_limit, s) is Some,
    ensures
        first_scene_fault(scenes, asset_ids, volume_ids, definitions, slot_limit) is Some,
    decreases s,
{
    if forall|t: int|
        0 <= t < s ==> #[trigger] scene_failure(scenes, asset_ids, volume_ids, definitions, slot_limit, t) is None {
        lemma_scene_fault_is_first(scenes, asset_ids, volume_ids, definitions, slot_limit, s);
    } else {
        let t = choose|t: int|
            0 <= t < s && #[trigger] scene_failure(scenes, asset_ids, volume_ids, definitions, slot_limit, t) is Some;
        lemma_scene_fault_has_a_first(scenes, asset_ids, volume_ids, definitions, slot_limit, t);
    }
}

/// Scenes that pass are each declared once and the entry scene is one of
/// them; in each scene the voxel instances are declared once and name
/// catalog assets that carry a voxel volume, the entity identities are
/// distinct, no inventory or pickup is refused, and the chain of parents
/// above every entity ends at an entity without a parent.
pub proof fn lemma_accepted_scenes_are_well_formed(
    scenes: Seq<StoredScene>,
    asset_ids: Seq<String>, volume_ids: Seq<String>, definitions: Seq<StoredItemDefinition>, slot_limit: usize,
    entry_scene: Seq<char>,
)
    requires
        scenes_outcome(scenes, asset_ids, volume_ids, definitions, slot_limit, entry_scene) is None,
    ensures
        has_scene(scenes, entry_scene),
        forall|s: int, t: int|
            0 <= s < t < scenes.len() ==> (#[trigger] scenes[s]).id@ != (#[trigger] scenes[t]).id@,
        forall|s: int, k: int|
            0 <= s < scenes.len() && 0 <= k < scenes[s].voxel_instances@.len() ==> contains_text(
                asset_ids,
                (#[trigger] scenes[s].voxel_instances@[k]).voxel_asset_id@,
            ) && contains_text(volume_ids, scenes[s].voxel_instances@[k].voxel_asset_id@),
        forall|s: int, j: int, k: int|
            0 <= s < scenes.len() && 0 <= j < k < scenes[s].voxel_instances@.len() ==> (
            #[trigger] scenes[s].voxel_instances@[j]).instance_id@ != (
            #[trigger] scenes[s].voxel_instances@[k]).instance_id@,
        forall|s: int| 0 <= s < scenes.len() ==> unique_ids(#[trigger] scenes[s].entities@),
        forall|s: int, i: int|
            0 <= s < scenes.len() && 0 <= i < scenes[s].entities@.len() ==> #[trigger] reaches_root(
                scenes[s].entities@,
                i,
            ),
        forall|s: int, k: int|
            0 <= s < scenes.len() && 0 <= k < scenes[s].entities@.len() ==> inventory_failure(
                #[trigger] scenes[s].entities@[k],
                definitions,
                slot_limit,
                s as nat,
                k as nat,
            ) is None && pickup_failure(scenes[s].entities@[k], definitions, s as nat, k as nat) is None,
{
    assert forall|s: int| 0 <= s < scenes.len() implies #[trigger] scene_failure(
        scenes,
        asset_ids, volume_ids, definitions, slot_limit,
        s,
    ) is None by {
        if scene_failure(scenes, asset_ids, volume_ids, definitions, slot_limit, s) is Some {
            lemma_scene_fault_has_a_first(scenes, asset_ids, volume_ids, definitions, slot_limit, s);
        }
    }
    assert forall|s: int, t: int| 0 <= s < t < scenes.len() implies (#[trigger] scenes[s]).id@ != (
    #[trigger] scenes[t]).id@ by {
        assert(scene_failure(scenes, asset_ids, volume_ids, definitions, slot_limit, t) is None);
        if scenes[s].id@ == scenes[t].id@ {
            assert(earlier_scene(scenes, t) is Some);
        }
    }
    assert forall|s: int, k: int|
        0 <= s < scenes.len() && 0 <= k < scenes[s].voxel_instances@.len() implies !instance_fault(
        scenes[s].voxel_instances@,
        asset_ids, volume_ids,
        k,
    ) by {
        assert(scene_failure(scenes, asset_ids, volume_ids, definitions, slot_limit, s) is None);
        if instance_fault(scenes[s].voxel_instances@, asset_ids, volume_ids, k) {
            lemma_instance_fault_has_a_first(scenes[s].voxel_instances@, asset_ids, volume_ids, k);
        }
    }
    assert forall|s: int, j: int, k: int|
        0 <= s < scenes.len() && 0 <= j < k < scenes[s].voxel_instances@.len() implies (
        #[trigger] scenes[s].voxel_instances@[j]).instance_id@ != (
        #[trigger] scenes[s].voxel_instances@[k]).instance_id@ by {
        assert(!instance_fault(scenes[s].voxel_instances@, asset_ids, volume_ids, k));
        if scenes[s].voxel_instances@[j].instance_id@ == scenes[s].voxel_instances@[k].instance_id@ {
            assert(earlier_instance(scenes[s].voxel_instances@, k) is Some);
        }
    }
    assert forall|s: int, k: int|
        0 <= s < scenes.len() && 0 <= k < scenes[s].voxel_instances@.len() implies contains_text(
        asset_ids,
        (#[trigger] scenes[s].voxel_instances@[k]).voxel_asset_id@,
    ) && contains_text(volume_ids, scenes[s].voxel_instances@[k].voxel_asset_id@) by {
        assert(!instance_fault(scenes[s].voxel_instances@, asset_ids, volume_ids, k));
    }
    assert forall|s: int| 0 <= s < scenes.len() implies unique_ids(#[trigger] scenes[s].entities@)
        && (forall|i: int| 0 <= i < scenes[s].entities@.len() ==> #[trigger] reaches_root(scenes[s].entities@, i))
        && (forall|k: int|
        0 <= k < scenes[s].entities@.len() ==> inventory_failure(
            #[trigger] scenes[s].entities@[k],
            definitions,
            slot_limit,
            s as nat,
            k as nat,
        ) is None && pickup_failure(scenes[s].entities@[k], definitions, s as nat, k as nat) is None) by {
        assert(scene_failure(scenes, asset_ids, volume_ids, definitions, slot_limit, s) is None);
        lemma_accepted_scene_entities(scenes[s].entities@, definitions, slot_limit, s as nat);
    }
    assert forall|s: int, i: int|
        0 <= s < scenes.len() && 0 <= i < scenes[s].entities@.len() implies #[trigger] reaches_root(
        scenes[s].entities@,
        i,
    ) by {
        assert(unique_ids(scenes[s].entities@));
    }
    assert forall|s: int, k: int|
        0 <= s < scenes.len() && 0 <= k < scenes[s].entities@.len() implies inventory_failure(
        #[trigger] scenes[s].entities@[k],
        definitions,
        slot_limit,
        s as nat,
        k as nat,
    ) is None && pickup_failure(scenes[s].entities@[k], definitions, s as nat, k as nat) is None by {
        assert(unique_ids(scenes[s].entities@));
    }
    assert(first_scene_fault(scenes, asset_ids, volume_ids, definitions, slot_limit) is None);
}

} // verus!
