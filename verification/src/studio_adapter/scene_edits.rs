//! Edits of a project document's scene list and of the components of its
//! entry scene's entities. Each edit works on the candidate document that
//! the host then admits, stores, and publishes; a refused edit leaves the
//! candidate as it was.
use vstd::prelude::*;

use crate::stored_project::scenes::has_scene;
use crate::stored_project::{
    text_equal, StoredCollision, StoredEntityDefinition, StoredKinematic, StoredProject, StoredScene,
};
use crate::studio_adapter::environment::entity_position;
use crate::studio_adapter::protocol::{AdapterRejection, AdapterRejectionView};
use crate::text::{decimal, decimal_text, join3};
use crate::weapon_authoring::entry_scene_index;

verus! {

pub open spec fn edit_rejection(code: Seq<char>, message: Seq<char>) -> AdapterRejectionView {
    AdapterRejectionView { code, path: None, message }
}

pub open spec fn missing_scene(scene_id: Seq<char>) -> AdapterRejectionView {
    edit_rejection("project.missingScene"@, "scene `"@ + scene_id + "` does not exist"@)
}

/// The project's scenes without those of identity `scene_id`, in order.
pub open spec fn scenes_without(scenes: Seq<StoredScene>, scene_id: Seq<char>) -> Seq<StoredScene> {
    scenes.filter(|scene: StoredScene| scene.id@ != scene_id)
}

/// `after` is `before` with only its scenes replaced by `scenes` and its
/// entry scene set to `entry_scene`.
pub open spec fn with_scenes(
    before: StoredProject,
    after: StoredProject,
    scenes: Seq<StoredScene>,
    entry_scene: Seq<char>,
) -> bool {
    &&& after.schema_version == before.schema_version
    &&& after.project_id == before.project_id
    &&& after.name == before.name
    &&& after.entry_scene@ == entry_scene
    &&& after.assets == before.assets
    &&& after.item_definitions == before.item_definitions
    &&& after.scenes@ == scenes
}

/// A scene with identity `scene_id`, named `name`, with nothing in it.
pub open spec fn empty_scene(scene: StoredScene, scene_id: Seq<char>, name: Seq<char>) -> bool {
    &&& scene.id@ == scene_id
    &&& scene.name@ == name
    &&& scene.voxel_environment is None
    &&& scene.voxel_instances@.len() == 0
    &&& scene.voxel_object_instances@.len() == 0
    &&& scene.entities@.len() == 0
}

fn position_of_scene(scenes: &Vec<StoredScene>, scene_id: &str) -> (found: Option<usize>)
    ensures
        match found {
            Some(i) => i < scenes@.len() && scenes@[i as int].id@ == scene_id@ && forall|j: int|
                0 <= j < i ==> (#[trigger] scenes@[j]).id@ != scene_id@,
            None => !has_scene(scenes@, scene_id@),
        },
{
    let mut index: usize = 0;
    while index < scenes.len()
        invariant
            index <= scenes@.len(),
            forall|j: int| 0 <= j < index ==> (#[trigger] scenes@[j]).id@ != scene_id@,
        decreases scenes@.len() - index,
    {
        if text_equal(scenes[index].id.as_str(), scene_id) {
            return Some(index);
        }
        index = index + 1;
    }
    None
}

fn missing_scene_rejection(scene_id: &str) -> (rejection: AdapterRejection)
    ensures
        rejection@ == missing_scene(scene_id@),
{
    let message = join3("scene `", scene_id, "` does not exist");
    AdapterRejection::new("project.missingScene", message.as_str())
}

/// Adds an empty scene at the end of the scene list, and makes it the entry
/// scene when `make_entry` is set; a scene of that identity must not exist.
pub fn create_scene(project: &mut StoredProject, scene_id: String, name: String, make_entry: bool) -> (
    result: Result<(), AdapterRejection>)
    ensures
        if has_scene(old(project).scenes@, scene_id@) {
            &&& result matches Err(error) && error@ == edit_rejection(
                "project.duplicateScene"@,
                "scene `"@ + scene_id@ + "` already exists"@,
            )
            &&& *final(project) == *old(project)
        } else {
            &&& result is Ok
            &&& final(project).scenes@.len() == old(project).scenes@.len() + 1
            &&& empty_scene(final(project).scenes@.last(), scene_id@, name@)
            &&& with_scenes(
                *old(project),
                *final(project),
                old(project).scenes@.push(final(project).scenes@.last()),
                if make_entry {
                    scene_id@
                } else {
                    old(project).entry_scene@
                },
            )
        },
{
    if position_of_scene(&project.scenes, scene_id.as_str()).is_some() {
        let message = join3("scene `", scene_id.as_str(), "` already exists");
        return Err(AdapterRejection::new("project.duplicateScene", message.as_str()));
    }
    let entry = if make_entry {
        scene_id.clone()
    } else {
        project.entry_scene.clone()
    };
    let scene = StoredScene {
        id: scene_id,
        name,
        voxel_environment: None,
        voxel_instances: Vec::new(),
        voxel_object_instances: Vec::new(),
        entities: Vec::new(),
    };
    project.scenes.push(scene);
    project.entry_scene = entry;
    Ok(())
}

/// Renames the first scene of identity `scene_id`.
pub fn rename_scene(project: &mut StoredProject, scene_id: &str, name: String) -> (result: Result<
    (),
    AdapterRejection,
>)
    ensures
        if has_scene(old(project).scenes@, scene_id@) {
            exists|i: int|
                #![trigger old(project).scenes@[i]]
                0 <= i < old(project).scenes@.len() && old(project).scenes@[i].id@ == scene_id@
                    && (forall|j: int| 0 <= j < i ==> (#[trigger] old(project).scenes@[j]).id@ != scene_id@)
                    && result is Ok && with_scenes(
                    *old(project),
                    *final(project),
                    old(project).scenes@.update(i, StoredScene { name, ..old(project).scenes@[i] }),
                    old(project).entry_scene@,
                )
        } else {
            result matches Err(error) && error@ == missing_scene(scene_id@) && *final(project)
                == *old(project)
        },
{
    let index = match position_of_scene(&project.scenes, scene_id) {
        Some(index) => index,
        None => {
            return Err(missing_scene_rejection(scene_id));
        },
    };
    let ghost before = *project;
    let mut scene = project.scenes.remove(index);
    scene.name = name;
    project.scenes.insert(index, scene);
    proof {
        let i = index as int;
        assert(project.scenes@ =~= before.scenes@.update(i, StoredScene { name, ..before.scenes@[i] }));
        assert(before.scenes@[i].id@ == scene_id@);
    }
    Ok(())
}

/// Removes every scene of identity `scene_id`. The entry scene cannot be
/// removed, and at least one scene must go.
pub fn delete_scene(project: &mut StoredProject, scene_id: &str) -> (result: Result<(), AdapterRejection>)
    ensures
        if old(project).entry_scene@ == scene_id@ {
            &&& result matches Err(error) && error@ == edit_rejection(
                "project.entrySceneDeletion"@,
                "select another entry scene before deleting this scene"@,
            )
            &&& *final(project) == *old(project)
        } else if !has_scene(old(project).scenes@, scene_id@) {
            result matches Err(error) && error@ == missing_scene(scene_id@) && *final(project)
                == *old(project)
        } else {
            &&& result is Ok
            &&& with_scenes(
                *old(project),
                *final(project),
                scenes_without(old(project).scenes@, scene_id@),
                old(project).entry_scene@,
            )
        },
{
    if text_equal(project.entry_scene.as_str(), scene_id) {
        return Err(
            AdapterRejection::new(
                "project.entrySceneDeletion",
                "select another entry scene before deleting this scene",
            ),
        );
    }
    if position_of_scene(&project.scenes, scene_id).is_none() {
        return Err(missing_scene_rejection(scene_id));
    }
    let ghost before = *project;
    let ghost keep = |scene: StoredScene| scene.id@ != scene_id@;
    let mut taken: Vec<StoredScene> = Vec::new();
    std::mem::swap(&mut taken, &mut project.scenes);
    let mut kept: Vec<StoredScene> = Vec::new();
    let ghost mut done: int = 0;
    while taken.len() > 0
        invariant
            0 <= done <= before.scenes@.len(),
            taken@ == before.scenes@.skip(done),
            keep == (|scene: StoredScene| scene.id@ != scene_id@),
            kept@ == before.scenes@.take(done).filter(keep),
        decreases taken@.len(),
    {
        let scene = taken.remove(0);
        proof {
            assert(scene == before.scenes@[done]);
            before.scenes@.take(done).lemma_filter_push(scene, keep);
            assert(before.scenes@.take(done + 1) =~= before.scenes@.take(done).push(scene));
        }
        if !text_equal(scene.id.as_str(), scene_id) {
            kept.push(scene);
        }
        proof {
            assert(taken@ =~= before.scenes@.skip(done + 1));
            done = done + 1;
        }
    }
    proof {
        assert(before.scenes@.take(done) =~= before.scenes@);
    }
    project.scenes = kept;
    Ok(())
}

/// Makes the scene `scene_id` the entry scene.
pub fn set_entry_scene(project: &mut StoredProject, scene_id: String) -> (result: Result<
    (),
    AdapterRejection,
>)
    ensures
        if has_scene(old(project).scenes@, scene_id@) {
            result is Ok && with_scenes(*old(project), *final(project), old(project).scenes@, scene_id@)
        } else {
            result matches Err(error) && error@ == missing_scene(scene_id@) && *final(project)
                == *old(project)
        },
{
    if position_of_scene(&project.scenes, scene_id.as_str()).is_none() {
        return Err(missing_scene_rejection(scene_id.as_str()));
    }
    project.entry_scene = scene_id;
    Ok(())
}

/// Deleting a scene just created gives the scene list back as it was.
pub proof fn lemma_delete_undoes_create(scenes: Seq<StoredScene>, created: StoredScene)
    requires
        !has_scene(scenes, created.id@),
    ensures
        scenes_without(scenes.push(created), created.id@) == scenes,
{
    let keep = |scene: StoredScene| scene.id@ != created.id@;
    scenes.lemma_filter_push(created, keep);
    lemma_filter_keeps_all(scenes, keep);
}

proof fn lemma_filter_keeps_all(scenes: Seq<StoredScene>, keep: spec_fn(StoredScene) -> bool)
    requires
        forall|i: int| 0 <= i < scenes.len() ==> keep(#[trigger] scenes[i]),
    ensures
        scenes.filter(keep) == scenes,
    decreases scenes.len(),
{
    if scenes.len() > 0 {
        let rest = scenes.drop_last();
        assert forall|i: int| 0 <= i < rest.len() implies keep(#[trigger] rest[i]) by {
            assert(rest[i] == scenes[i]);
        }
        lemma_filter_keeps_all(rest, keep);
        rest.lemma_filter_push(scenes.last(), keep);
        assert(rest.push(scenes.last()) =~= scenes);
    }
}

/// No scene of a deleted identity is left.
pub proof fn lemma_deleted_scene_is_gone(scenes: Seq<StoredScene>, scene_id: Seq<char>)
    ensures
        !has_scene(scenes_without(scenes, scene_id), scene_id),
{
    let kept = scenes_without(scenes, scene_id);
    scenes.filter_lemma(|scene: StoredScene| scene.id@ != scene_id);
    assert forall|i: int| 0 <= i < kept.len() implies (#[trigger] kept[i]).id@ != scene_id by {}
}

/// `after` is `before` with the entities of its `s`-th scene replaced by
/// `entities`, and nothing else changed.
pub open spec fn with_scene_entities(
    before: StoredProject,
    after: StoredProject,
    s: int,
    entities: Seq<StoredEntityDefinition>,
) -> bool {
    &&& 0 <= s < before.scenes@.len()
    &&& with_scenes(before, after, after.scenes@, before.entry_scene@)
    &&& after.scenes@.len() == before.scenes@.len()
    &&& forall|j: int| 0 <= j < before.scenes@.len() && j != s ==> after.scenes@[j] == before.scenes@[j]
    &&& after.scenes@[s].id == before.scenes@[s].id
    &&& after.scenes@[s].name == before.scenes@[s].name
    &&& after.scenes@[s].voxel_environment == before.scenes@[s].voxel_environment
    &&& after.scenes@[s].voxel_instances == before.scenes@[s].voxel_instances
    &&& after.scenes@[s].voxel_object_instances == before.scenes@[s].voxel_object_instances
    &&& after.scenes@[s].entities@ == entities
}

/// A change to one component of an entity.
pub enum EntityComponentEdit {
    Collision(Option<StoredCollision>),
    Kinematic(Option<StoredKinematic>),
    Name(String),
    Parent { parent: Option<u64>, child_order: u32 },
}

pub open spec fn edited_entity(entity: StoredEntityDefinition, edit: EntityComponentEdit) -> StoredEntityDefinition {
    match edit {
        EntityComponentEdit::Collision(collision) => StoredEntityDefinition { collision, ..entity },
        EntityComponentEdit::Kinematic(kinematic) => StoredEntityDefinition { kinematic, ..entity },
        EntityComponentEdit::Name(name) => StoredEntityDefinition { name, ..entity },
        EntityComponentEdit::Parent { parent, child_order } => StoredEntityDefinition {
            parent,
            child_order,
            ..entity
        },
    }
}

pub open spec fn missing_entity(entity_id: u64) -> AdapterRejectionView {
    edit_rejection("project.missingEntity"@, "entry scene has no entity "@ + decimal(entity_id as nat))
}

/// What an edit of the first entity `entity_id` of the entry scene makes of
/// the document.
pub open spec fn entity_edit_outcome(
    before: StoredProject,
    after: StoredProject,
    entity_id: u64,
    edit: EntityComponentEdit,
    result: Result<(), AdapterRejection>,
) -> bool {
    let e = entry_scene_index(before)->Some_0;
    let entities = before.scenes@[e].entities@;
    match entity_position(before.scenes@[e], entity_id) {
        None => result matches Err(error) && error@ == missing_entity(entity_id) && after == before,
        Some(p) => result is Ok && with_scene_entities(
            before,
            after,
            e,
            entities.update(p, edited_entity(entities[p], edit)),
        ),
    }
}

fn position_of_entity(entities: &Vec<StoredEntityDefinition>, entity_id: u64) -> (found: Option<usize>)
    ensures
        match found {
            Some(i) => i < entities@.len() && entities@[i as int].id == entity_id && forall|j: int|
                0 <= j < i ==> (#[trigger] entities@[j]).id != entity_id,
            None => forall|j: int| 0 <= j < entities@.len() ==> (#[trigger] entities@[j]).id != entity_id,
        },
{
    let mut index: usize = 0;
    while index < entities.len()
        invariant
            index <= entities@.len(),
            forall|j: int| 0 <= j < index ==> (#[trigger] entities@[j]).id != entity_id,
        decreases entities@.len() - index,
    {
        if entities[index].id == entity_id {
            return Some(index);
        }
        index = index + 1;
    }
    None
}

fn edit_entry_entity(project: &mut StoredProject, entity_id: u64, edit: EntityComponentEdit) -> (
    result: Result<(), AdapterRejection>)
    requires
        entry_scene_index(*old(project)) is Some,
    ensures
        entity_edit_outcome(*old(project), *final(project), entity_id, edit, result),
{
    let e = match position_of_scene(&project.scenes, project.entry_scene.as_str()) {
        Some(e) => e,
        None => {
            proof {
                let k = entry_scene_index(*project)->Some_0;
                assert(project.scenes@[k].id@ == project.entry_scene@);
                assert(false);
            }
            return Err(missing_scene_rejection(project.entry_scene.as_str()));
        },
    };
    proof {
        let k = entry_scene_index(*project)->Some_0;
        if k < e as int {
            assert(project.scenes@[k].id@ != project.entry_scene@);
        }
        if (e as int) < k {
            assert(project.scenes@[e as int].id@ != project.entry_scene@);
        }
    }
    let ghost before = *project;
    let index = match position_of_entity(&project.scenes[e].entities, entity_id) {
        Some(index) => index,
        None => {
            let message = crate::text::join2("entry scene has no entity ", decimal_text(entity_id).as_str());
            return Err(AdapterRejection::new("project.missingEntity", message.as_str()));
        },
    };
    proof {
        let scene = before.scenes@[e as int];
        let q = entity_position(scene, entity_id)->Some_0;
        assert(scene.entities@[index as int].id == entity_id);
        if q < index as int {
            assert(scene.entities@[q].id != entity_id);
        }
        if (index as int) < q {
            assert(scene.entities@[index as int].id != entity_id);
        }
    }
    let mut scene = project.scenes.remove(e);
    let mut entity = scene.entities.remove(index);
    match edit {
        EntityComponentEdit::Collision(collision) => {
            entity.collision = collision;
        },
        EntityComponentEdit::Kinematic(kinematic) => {
            entity.kinematic = kinematic;
        },
        EntityComponentEdit::Name(name) => {
            entity.name = name;
        },
        EntityComponentEdit::Parent { parent, child_order } => {
            entity.parent = parent;
            entity.child_order = child_order;
        },
    }
    scene.entities.insert(index, entity);
    project.scenes.insert(e, scene);
    proof {
        let old_entities = before.scenes@[e as int].entities@;
        assert(scene.entities@ =~= old_entities.update(
            index as int,
            edited_entity(old_entities[index as int], edit),
        ));
        assert(project.scenes@ =~= before.scenes@.update(e as int, scene));
    }
    Ok(())
}

/// Sets or clears the collision of the entry scene's entity `entity_id`.
pub fn set_entity_collision(project: &mut StoredProject, entity_id: u64, collision: Option<StoredCollision>) -> (
    result: Result<(), AdapterRejection>)
    requires
        entry_scene_index(*old(project)) is Some,
    ensures
        entity_edit_outcome(
            *old(project),
            *final(project),
            entity_id,
            EntityComponentEdit::Collision(collision),
            result,
        ),
{
    edit_entry_entity(project, entity_id, EntityComponentEdit::Collision(collision))
}

/// Sets or clears the kinematic body of the entry scene's entity `entity_id`.
pub fn set_entity_kinematic(project: &mut StoredProject, entity_id: u64, kinematic: Option<StoredKinematic>) -> (
    result: Result<(), AdapterRejection>)
    requires
        entry_scene_index(*old(project)) is Some,
    ensures
        entity_edit_outcome(
            *old(project),
            *final(project),
            entity_id,
            EntityComponentEdit::Kinematic(kinematic),
            result,
        ),
{
    edit_entry_entity(project, entity_id, EntityComponentEdit::Kinematic(kinematic))
}

/// Renames the entry scene's entity `entity_id`, once the engine's scene
/// edit has accepted the new label.
pub fn rename_scene_object(project: &mut StoredProject, entity_id: u64, name: String) -> (result: Result<
    (),
    AdapterRejection,
>)
    requires
        entry_scene_index(*old(project)) is Some,
    ensures
        entity_edit_outcome(
            *old(project),
            *final(project),
            entity_id,
            EntityComponentEdit::Name(name),
            result,
        ),
{
    edit_entry_entity(project, entity_id, EntityComponentEdit::Name(name))
}

/// Moves the entry scene's entity `entity_id` under `parent` at
/// `child_order`, once the engine's scene edit has accepted the move.
pub fn reparent_scene_object(
    project: &mut StoredProject,
    entity_id: u64,
    parent: Option<u64>,
    child_order: u32,
) -> (result: Result<(), AdapterRejection>)
    requires
        entry_scene_index(*old(project)) is Some,
    ensures
        entity_edit_outcome(
            *old(project),
            *final(project),
            entity_id,
            EntityComponentEdit::Parent { parent, child_order },
            result,
        ),
{
    edit_entry_entity(project, entity_id, EntityComponentEdit::Parent { parent, child_order })
}

/// Whether `id` is among `retained`.
pub open spec fn is_retained(retained: Seq<u64>, id: u64) -> bool {
    exists|k: int| 0 <= k < retained.len() && retained[k] == id
}

/// The entities that stay, in order: those whose identity is retained.
pub open spec fn entities_kept(entities: Seq<StoredEntityDefinition>, retained: Seq<u64>) -> Seq<
    StoredEntityDefinition,
> {
    entities.filter(|entity: StoredEntityDefinition| is_retained(retained, entity.id))
}

fn retains(retained: &Vec<u64>, id: u64) -> (found: bool)
    ensures
        found == is_retained(retained@, id),
{
    let mut index: usize = 0;
    while index < retained.len()
        invariant
            index <= retained@.len(),
            forall|k: int| 0 <= k < index ==> retained@[k] != id,
        decreases retained@.len() - index,
    {
        if retained[index] == id {
            return true;
        }
        index = index + 1;
    }
    false
}

/// Deletes a scene object from the entry scene: `retained` holds the
/// identities of the nodes the engine's scene kept after deleting the object
/// and its descendants (a set, so without repeats, and no larger than the
/// scene); every other entity is dropped, the rest keep their order.
/// Returns how many entities the scene held beyond those retained.
pub fn delete_scene_object(project: &mut StoredProject, retained: &Vec<u64>) -> (removed: usize)
    requires
        entry_scene_index(*old(project)) is Some,
        retained@.no_duplicates(),
        retained@.len() <= old(project).scenes@[entry_scene_index(*old(project))->Some_0].entities@.len(),
    ensures
        removed == old(project).scenes@[entry_scene_index(*old(project))->Some_0].entities@.len()
            - retained@.len(),
        with_scene_entities(
            *old(project),
            *final(project),
            entry_scene_index(*old(project))->Some_0,
            entities_kept(
                old(project).scenes@[entry_scene_index(*old(project))->Some_0].entities@,
                retained@,
            ),
        ),
{
    let e = match position_of_scene(&project.scenes, project.entry_scene.as_str()) {
        Some(e) => e,
        None => {
            proof {
                let k = entry_scene_index(*project)->Some_0;
                assert(project.scenes@[k].id@ == project.entry_scene@);
                assert(false);
            }
            return 0;
        },
    };
    proof {
        let k = entry_scene_index(*project)->Some_0;
        if k < e as int {
            assert(project.scenes@[k].id@ != project.entry_scene@);
        }
        if (e as int) < k {
            assert(project.scenes@[e as int].id@ != project.entry_scene@);
        }
    }
    let ghost before = *project;
    let mut scene = project.scenes.remove(e);
    let removed = scene.entities.len() - retained.len();
    let ghost original = scene.entities@;
    let ghost keep = |entity: StoredEntityDefinition| is_retained(retained@, entity.id);
    let mut taken: Vec<StoredEntityDefinition> = Vec::new();
    std::mem::swap(&mut taken, &mut scene.entities);
    let mut kept: Vec<StoredEntityDefinition> = Vec::new();
    let ghost mut done: int = 0;
    while taken.len() > 0
        invariant
            0 <= done <= original.len(),
            taken@ == original.skip(done),
            keep == (|entity: StoredEntityDefinition| is_retained(retained@, entity.id)),
            kept@ == original.take(done).filter(keep),
        decreases taken@.len(),
    {
        let entity = taken.remove(0);
        proof {
            assert(entity == original[done]);
            original.take(done).lemma_filter_push(entity, keep);
            assert(original.take(done + 1) =~= original.take(done).push(entity));
        }
        if retains(retained, entity.id) {
            kept.push(entity);
        }
        proof {
            assert(taken@ =~= original.skip(done + 1));
            done = done + 1;
        }
    }
    proof {
        assert(original.take(done) =~= original);
    }
    scene.entities = kept;
    project.scenes.insert(e, scene);
    proof {
        assert(project.scenes@ =~= before.scenes@.update(e as int, scene));
    }
    removed
}

} // verus!
