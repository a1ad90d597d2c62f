//! Attaching a batch of voxel-object instances to a project's scenes. Each
//! instance gets an owner entity of its own, a root of its scene's
//! hierarchy, whose identity follows the largest entity identity of the
//! project; the batch is refused as a whole, leaving the project as it was,
//! when any placement cannot be made, its surface mode among the reasons
//! (see `surface_mode`).
use vstd::prelude::*;

use crate::stored_project::{
    text_equal, StoredAsset, StoredEntityDefinition, StoredProject, StoredScene, StoredVoxelObjectFrameSelection,
    StoredVoxelObjectInstance,
};
use crate::studio_adapter::protocol::{AdapterRejection, AdapterRejectionView};
use crate::studio_adapter::surface_mode::{ensure_surface_mode_supported, surface_rejection};
use crate::studio_adapter::voxel::scene_position;
use crate::studio_adapter::voxel_instances::find_scene_index;
use crate::text::{decimal, decimal_text, join3};

verus! {

/// The largest integer that JSON numbers carry exactly, `2^53 - 1`.
pub const JSON_SAFE_INTEGER_MAX: u64 = 9_007_199_254_740_991;

/// A voxel-object instance to attach to the scene `scene_id`, with the
/// engine's surface mode for it: whether it is the default, and the name it
/// is shown by.
pub struct VoxelObjectPlacement {
    pub scene_id: String,
    pub instance: StoredVoxelObjectInstance,
    pub surface_mode_is_default: bool,
    pub surface_mode_name: String,
}

/// What attaching one placement made.
#[derive(Debug, Clone)]
pub struct VoxelObjectPlacementReceipt {
    pub scene_id: String,
    pub instance_id: String,
    pub asset_id: String,
    pub frame_kind: String,
    pub owner_entity_id: u64,
}

pub open spec fn batch_rejection(code: Seq<char>, message: Seq<char>) -> AdapterRejectionView {
    AdapterRejectionView { code, path: None, message }
}

/// `placements[k]`
pub open spec fn placement_name(k: int) -> Seq<char> {
    "placements["@ + decimal(k as nat) + "]"@
}

/// The first `k` in `from..n` at which `holds` does.
pub open spec fn first_where(n: int, holds: spec_fn(int) -> bool, from: int) -> Option<int>
    decreases n - from,
{
    if from < 0 || from >= n {
        None
    } else if holds(from) {
        Some(from)
    } else {
        first_where(n, holds, from + 1)
    }
}

/// The largest entity identity among `entities`, or zero.
pub open spec fn entities_max_id(entities: Seq<StoredEntityDefinition>) -> int
    decreases entities.len(),
{
    if entities.len() == 0 {
        0
    } else {
        let rest = entities_max_id(entities.drop_last());
        if entities.last().id > rest {
            entities.last().id as int
        } else {
            rest
        }
    }
}

/// The largest entity identity of the project's scenes, or zero.
pub open spec fn scenes_max_id(scenes: Seq<StoredScene>) -> int
    decreases scenes.len(),
{
    if scenes.len() == 0 {
        0
    } else {
        let rest = scenes_max_id(scenes.drop_last());
        let last = entities_max_id(scenes.last().entities@);
        if last > rest {
            last
        } else {
            rest
        }
    }
}

/// The largest hierarchy order among the entities without a parent.
pub open spec fn root_order_max(entities: Seq<StoredEntityDefinition>) -> Option<int>
    decreases entities.len(),
{
    if entities.len() == 0 {
        None
    } else {
        let rest = root_order_max(entities.drop_last());
        let last = entities.last();
        if last.parent is Some {
            rest
        } else {
            match rest {
                Some(order) => if last.child_order > order {
                    Some(last.child_order as int)
                } else {
                    Some(order)
                },
                None => Some(last.child_order as int),
            }
        }
    }
}

/// How many placements before the `k`-th go to the `k`-th's scene.
pub open spec fn same_scene_before(placements: Seq<VoxelObjectPlacement>, k: int, j: int) -> nat
    decreases j,
{
    if j <= 0 {
        0
    } else if placements[j - 1].scene_id@ == placements[k].scene_id@ {
        same_scene_before(placements, k, j - 1) + 1
    } else {
        same_scene_before(placements, k, j - 1)
    }
}

/// The scene the `k`-th placement goes to.
pub open spec fn target_scene(scenes: Seq<StoredScene>, placements: Seq<VoxelObjectPlacement>, k: int) -> Option<
    int,
> {
    scene_position(scenes, placements[k].scene_id@)
}

/// The hierarchy order of the `k`-th owner: after every root of its scene,
/// including the owners placed there before it.
#[verifier::opaque]
pub open spec fn owner_order(scenes: Seq<StoredScene>, placements: Seq<VoxelObjectPlacement>, k: int) -> int {
    let s = target_scene(scenes, placements, k)->Some_0;
    let earlier = same_scene_before(placements, k, k);
    match root_order_max(scenes[s].entities@) {
        Some(order) => order + 1 + earlier,
        None => earlier as int,
    }
}

/// The owner entity of the `k`-th placement: a root named after the
/// instance, at the instance's transform, with no components.
pub open spec fn owner_entity(scenes: Seq<StoredScene>, placements: Seq<VoxelObjectPlacement>, k: int) -> StoredEntityDefinition {
    let instance = placements[k].instance;
    StoredEntityDefinition {
        id: (scenes_max_id(scenes) + 1 + k) as u64,
        name: instance.instance_id,
        parent: None,
        child_order: owner_order(scenes, placements, k) as u32,
        translation: Some(instance.translation),
        rotation: instance.rotation,
        scale: instance.scale,
        light: None,
        bounds: None,
        collision: None,
        renderable: None,
        door: None,
        switch: None,
        enemy: false,
        enemy_combat: None,
        defeat_drop: None,
        health: None,
        hazard: None,
        encounter: None,
        extraction_beacon: None,
        kinematic: None,
        navigation: None,
        player_controller: None,
        inventory: None,
        pickup: None,
        weapon: None,
        secret_region: None,
        level_exit: None,
    }
}

/// The owners the first `n` placements add to the `s`-th scene.
pub open spec fn owners_added(scenes: Seq<StoredScene>, placements: Seq<VoxelObjectPlacement>, s: int, n: int) -> Seq<
    StoredEntityDefinition,
>
    decreases n,
{
    if n <= 0 {
        Seq::empty()
    } else if target_scene(scenes, placements, n - 1) == Some(s) {
        owners_added(scenes, placements, s, n - 1).push(owner_entity(scenes, placements, n - 1))
    } else {
        owners_added(scenes, placements, s, n - 1)
    }
}

/// The instances the first `n` placements add to the `s`-th scene.
pub open spec fn instances_added(scenes: Seq<StoredScene>, placements: Seq<VoxelObjectPlacement>, s: int, n: int) -> Seq<
    StoredVoxelObjectInstance,
>
    decreases n,
{
    if n <= 0 {
        Seq::empty()
    } else if target_scene(scenes, placements, n - 1) == Some(s) {
        instances_added(scenes, placements, s, n - 1).push(placements[n - 1].instance)
    } else {
        instances_added(scenes, placements, s, n - 1)
    }
}

/// A placement before the `k`-th with the `k`-th's instance identity.
pub open spec fn repeats_identity(placements: Seq<VoxelObjectPlacement>, k: int) -> bool {
    exists|j: int|
        0 <= j < k && (#[trigger] placements[j]).instance.instance_id@ == placements[k].instance.instance_id@
}

/// Some scene already has an instance of identity `id`.
pub open spec fn instance_exists(scenes: Seq<StoredScene>, id: Seq<char>) -> bool {
    exists|s: int, i: int|
        0 <= s < scenes.len() && 0 <= i < scenes[s].voxel_object_instances@.len()
            && (#[trigger] scenes[s].voxel_object_instances@[i]).instance_id@ == id
}

/// The refusal owed to the `k`-th placement when it is made.
#[verifier::opaque]
pub open spec fn placement_refusal(scenes: Seq<StoredScene>, placements: Seq<VoxelObjectPlacement>, k: int) -> Option<
    AdapterRejectionView,
> {
    if scenes_max_id(scenes) + 1 + k > JSON_SAFE_INTEGER_MAX {
        Some(
            batch_rejection(
                "voxelObject.ownerIdentityExhausted"@,
                placement_name(k) + " cannot allocate another JSON-safe entity owner"@,
            ),
        )
    } else if target_scene(scenes, placements, k) is None {
        Some(
            batch_rejection(
                "project.missingScene"@,
                placement_name(k) + " references missing scene `"@ + placements[k].scene_id@ + "`"@,
            ),
        )
    } else if owner_order(scenes, placements, k) > u32::MAX {
        Some(
            batch_rejection(
                "voxelObject.ownerOrderExhausted"@,
                placement_name(k) + " cannot allocate another root hierarchy order"@,
            ),
        )
    } else {
        None
    }
}

/// The refusal owed to the surface mode of the `k`-th placement.
pub open spec fn placement_surface_rejection(
    assets: Seq<StoredAsset>,
    placements: Seq<VoxelObjectPlacement>,
    k: int,
) -> Option<AdapterRejectionView> {
    surface_rejection(
        assets,
        placements[k].instance.voxel_object_asset_id@,
        placements[k].instance.material_overrides@,
        placements[k].surface_mode_is_default,
        placements[k].surface_mode_name@,
    )
}

/// The refusal owed to the `k`-th placement: its surface mode, then its
/// owner and scene.
pub open spec fn placement_outcome(
    assets: Seq<StoredAsset>,
    scenes: Seq<StoredScene>,
    placements: Seq<VoxelObjectPlacement>,
    k: int,
) -> Option<AdapterRejectionView> {
    match placement_surface_rejection(assets, placements, k) {
        Some(rejection) => Some(rejection),
        None => placement_refusal(scenes, placements, k),
    }
}

pub open spec fn repeat_test(placements: Seq<VoxelObjectPlacement>) -> spec_fn(int) -> bool {
    |k: int| repeats_identity(placements, k)
}

pub open spec fn collision_test(scenes: Seq<StoredScene>, placements: Seq<VoxelObjectPlacement>) -> spec_fn(int) -> bool {
    |k: int| instance_exists(scenes, placements[k].instance.instance_id@)
}

pub open spec fn refusal_test(
    assets: Seq<StoredAsset>,
    scenes: Seq<StoredScene>,
    placements: Seq<VoxelObjectPlacement>,
) -> spec_fn(int) -> bool {
    |k: int| placement_outcome(assets, scenes, placements, k) is Some
}

/// The refusal owed to a batch, checks in order: its size, identities
/// repeated within it, identities that already exist, then each placement.
pub open spec fn batch_outcome(
    assets: Seq<StoredAsset>,
    scenes: Seq<StoredScene>,
    placements: Seq<VoxelObjectPlacement>,
    max_batch: usize,
) -> Option<AdapterRejectionView> {
    let n = placements.len() as int;
    if n == 0 || n > max_batch {
        Some(
            batch_rejection(
                "voxelObject.invalidPlacementBatch"@,
                "voxel-object placement batch must contain 1..="@ + decimal(max_batch as nat) + " entries"@,
            ),
        )
    } else if let Some(k) = first_where(n, repeat_test(placements), 0) {
        Some(
            batch_rejection(
                "voxelObject.duplicatePlacementIdentity"@,
                placement_name(k) + " repeats instance identity `"@ + placements[k].instance.instance_id@
                    + "`"@,
            ),
        )
    } else if let Some(k) = first_where(n, collision_test(scenes, placements), 0) {
        Some(
            batch_rejection(
                "voxelObject.instanceIdentityCollision"@,
                placement_name(k) + " collides with existing instance `"@
                    + placements[k].instance.instance_id@ + "`"@,
            ),
        )
    } else if let Some(k) = first_where(n, refusal_test(assets, scenes, placements), 0) {
        placement_outcome(assets, scenes, placements, k)
    } else {
        None
    }
}

/// `after` is `before` with the batch's owners and instances appended to
/// their scenes, and nothing else changed.
pub open spec fn batch_attached(
    before: StoredProject,
    after: StoredProject,
    placements: Seq<VoxelObjectPlacement>,
    n: int,
) -> bool {
    &&& after.schema_version == before.schema_version
    &&& after.project_id == before.project_id
    &&& after.name == before.name
    &&& after.entry_scene == before.entry_scene
    &&& after.assets == before.assets
    &&& after.item_definitions == before.item_definitions
    &&& after.scenes@.len() == before.scenes@.len()
    &&& forall|s: int|
        0 <= s < before.scenes@.len() ==> {
            let was = before.scenes@[s];
            let now = #[trigger] after.scenes@[s];
            &&& now.id == was.id
            &&& now.name == was.name
            &&& now.voxel_environment == was.voxel_environment
            &&& now.voxel_instances == was.voxel_instances
            &&& now.entities@ == was.entities@ + owners_added(before.scenes@, placements, s, n)
            &&& now.voxel_object_instances@ == was.voxel_object_instances@ + instances_added(
                before.scenes@,
                placements,
                s,
                n,
            )
        }
}

/// The receipt of the `k`-th placement.
pub open spec fn receipt_matches(
    receipt: VoxelObjectPlacementReceipt,
    scenes: Seq<StoredScene>,
    placements: Seq<VoxelObjectPlacement>,
    k: int,
) -> bool {
    let placement = placements[k];
    &&& receipt.scene_id@ == placement.scene_id@
    &&& receipt.instance_id@ == placement.instance.instance_id@
    &&& receipt.asset_id@ == placement.instance.voxel_object_asset_id@
    &&& receipt.frame_kind@ == match placement.instance.frame {
        StoredVoxelObjectFrameSelection::Default => "default"@,
        StoredVoxelObjectFrameSelection::Clip { .. } => "clip"@,
    }
    &&& receipt.owner_entity_id == scenes_max_id(scenes) + 1 + k
}


proof fn lemma_first_where_found(n: int, holds: spec_fn(int) -> bool, from: int, k: int)
    requires
        0 <= from <= k < n,
        holds(k),
        forall|j: int| from <= j < k ==> !#[trigger] holds(j),
    ensures
        first_where(n, holds, from) == Some(k),
    decreases k - from,
{
    if from < k {
        lemma_first_where_found(n, holds, from + 1, k);
    }
}

proof fn lemma_first_where_none(n: int, holds: spec_fn(int) -> bool, from: int)
    requires
        0 <= from <= n,
        forall|j: int| from <= j < n ==> !#[trigger] holds(j),
    ensures
        first_where(n, holds, from) is None,
    decreases n - from,
{
    if from < n {
        lemma_first_where_none(n, holds, from + 1);
    }
}

proof fn lemma_first_where_holds(n: int, holds: spec_fn(int) -> bool, from: int, k: int)
    requires
        first_where(n, holds, from) == Some(k),
    ensures
        holds(k),
        from <= k < n,
    decreases n - from,
{
    if from >= 0 && from < n && !holds(from) {
        lemma_first_where_holds(n, holds, from + 1, k);
    }
}

fn max_entity_id(project: &StoredProject) -> (largest: u64)
    ensures
        largest == scenes_max_id(project.scenes@),
{
    let mut largest: u64 = 0;
    let mut s: usize = 0;
    while s < project.scenes.len()
        invariant
            s <= project.scenes@.len(),
            largest == scenes_max_id(project.scenes@.take(s as int)),
        decreases project.scenes@.len() - s,
    {
        let entities = &project.scenes[s].entities;
        let mut scene_largest: u64 = 0;
        let mut e: usize = 0;
        while e < entities.len()
            invariant
                e <= entities@.len(),
                scene_largest == entities_max_id(entities@.take(e as int)),
            decreases entities@.len() - e,
        {
            assert(entities@.take(e + 1).drop_last() =~= entities@.take(e as int));
            if entities[e].id > scene_largest {
                scene_largest = entities[e].id;
            }
            e = e + 1;
        }
        assert(entities@.take(e as int) =~= entities@);
        assert(project.scenes@.take(s + 1).drop_last() =~= project.scenes@.take(s as int));
        if scene_largest > largest {
            largest = scene_largest;
        }
        s = s + 1;
    }
    assert(project.scenes@.take(s as int) =~= project.scenes@);
    largest
}

fn root_order_of(entities: &Vec<StoredEntityDefinition>) -> (order: Option<u32>)
    ensures
        root_order_max(entities@) == match order {
            Some(value) => Some(value as int),
            None => None,
        },
{
    let mut order: Option<u32> = None;
    let mut e: usize = 0;
    while e < entities.len()
        invariant
            e <= entities@.len(),
            root_order_max(entities@.take(e as int)) == match order {
                Some(value) => Some(value as int),
                None => None,
            },
        decreases entities@.len() - e,
    {
        assert(entities@.take(e + 1).drop_last() =~= entities@.take(e as int));
        assert(entities@.take(e + 1).last() == entities@[e as int]);
        let entity = &entities[e];
        if entity.parent.is_none() {
            order = match order {
                Some(value) => if entity.child_order > value {
                    Some(entity.child_order)
                } else {
                    Some(value)
                },
                None => Some(entity.child_order),
            };
        }
        e = e + 1;
    }
    assert(entities@.take(e as int) =~= entities@);
    order
}

fn same_scene_count(placements: &Vec<VoxelObjectPlacement>, k: usize) -> (count: usize)
    requires
        k < placements@.len(),
    ensures
        count == same_scene_before(placements@, k as int, k as int),
        count <= k,
{
    let mut count: usize = 0;
    let mut j: usize = 0;
    while j < k
        invariant
            k < placements@.len(),
            j <= k,
            count == same_scene_before(placements@, k as int, j as int),
            count <= j,
        decreases k - j,
    {
        if text_equal(placements[j].scene_id.as_str(), placements[k].scene_id.as_str()) {
            count = count + 1;
        }
        j = j + 1;
    }
    count
}

fn instance_id_exists(project: &StoredProject, id: &str) -> (exists: bool)
    ensures
        exists == instance_exists(project.scenes@, id@),
{
    let mut s: usize = 0;
    while s < project.scenes.len()
        invariant
            s <= project.scenes@.len(),
            forall|t: int, i: int|
                0 <= t < s && 0 <= i < project.scenes@[t].voxel_object_instances@.len()
                    ==> (#[trigger] project.scenes@[t].voxel_object_instances@[i]).instance_id@ != id@,
        decreases project.scenes@.len() - s,
    {
        let instances = &project.scenes[s].voxel_object_instances;
        let mut i: usize = 0;
        while i < instances.len()
            invariant
                s < project.scenes@.len(),
                *instances == project.scenes@[s as int].voxel_object_instances,
                i <= instances@.len(),
                forall|t: int, j: int|
                    0 <= t < s && 0 <= j < project.scenes@[t].voxel_object_instances@.len()
                        ==> (#[trigger] project.scenes@[t].voxel_object_instances@[j]).instance_id@ != id@,
                forall|j: int| 0 <= j < i ==> (#[trigger] instances@[j]).instance_id@ != id@,
            decreases instances@.len() - i,
        {
            if text_equal(instances[i].instance_id.as_str(), id) {
                assert(project.scenes@[s as int].voxel_object_instances@[i as int].instance_id@ == id@);
                return true;
            }
            i = i + 1;
        }
        s = s + 1;
    }
    false
}

fn indexed_message(prefix_index: usize, rest: &str) -> (message: String)
    ensures
        message@ == placement_name(prefix_index as int) + rest@,
{
    let mut message = join3("placements[", decimal_text(prefix_index as u64).as_str(), "]");
    message.append(rest);
    proof {
        reveal_strlit("placements[");
        reveal_strlit("]");
    }
    message
}

fn quoted_message(index: usize, lead: &str, quoted: &str) -> (message: String)
    ensures
        message@ == placement_name(index as int) + lead@ + quoted@ + "`"@,
{
    let mut message = indexed_message(index, lead);
    message.append(quoted);
    message.append("`");
    message
}

fn owner_for(base: u64, k: usize, order: u32, instance: &StoredVoxelObjectInstance) -> (owner: StoredEntityDefinition)
    requires
        base + 1 + k <= u64::MAX,
    ensures
        owner.id == base + 1 + k,
        owner.name == instance.instance_id,
        owner.child_order == order,
        owner.parent is None,
        owner.translation == Some(instance.translation),
        owner.rotation == instance.rotation,
        owner.scale == instance.scale,
        owner.light is None && owner.bounds is None && owner.collision is None && owner.renderable is None,
        owner.door is None && owner.switch is None && !owner.enemy && owner.enemy_combat is None,
        owner.defeat_drop is None && owner.health is None && owner.hazard is None && owner.encounter is None,
        owner.extraction_beacon is None && owner.kinematic is None && owner.navigation is None,
        owner.player_controller is None && owner.inventory is None && owner.pickup is None,
        owner.weapon is None && owner.secret_region is None && owner.level_exit is None,
{
    StoredEntityDefinition {
        id: base + 1 + k as u64,
        name: instance.instance_id.clone(),
        parent: None,
        child_order: order,
        translation: Some(instance.translation),
        rotation: instance.rotation,
        scale: instance.scale,
        light: None,
        bounds: None,
        collision: None,
        renderable: None,
        door: None,
        switch: None,
        enemy: false,
        enemy_combat: None,
        defeat_drop: None,
        health: None,
        hazard: None,
        encounter: None,
        extraction_beacon: None,
        kinematic: None,
        navigation: None,
        player_controller: None,
        inventory: None,
        pickup: None,
        weapon: None,
        secret_region: None,
        level_exit: None,
    }
}


fn order_exhausted(k: usize) -> (rejection: AdapterRejection)
    ensures
        rejection@ == batch_rejection(
            "voxelObject.ownerOrderExhausted"@,
            placement_name(k as int) + " cannot allocate another root hierarchy order"@,
        ),
{
    let message = indexed_message(k, " cannot allocate another root hierarchy order");
    AdapterRejection::new("voxelObject.ownerOrderExhausted", message.as_str())
}

proof fn lemma_attach_step(
    before: StoredProject,
    prev: StoredProject,
    now: StoredProject,
    all: Seq<VoxelObjectPlacement>,
    k: int,
    t: int,
)
    requires
        0 <= k < all.len(),
        0 <= t < before.scenes@.len(),
        target_scene(before.scenes@, all, k) == Some(t),
        batch_attached(before, prev, all, k),
        now.schema_version == prev.schema_version,
        now.project_id == prev.project_id,
        now.name == prev.name,
        now.entry_scene == prev.entry_scene,
        now.assets == prev.assets,
        now.item_definitions == prev.item_definitions,
        now.scenes@.len() == prev.scenes@.len(),
        forall|s: int| 0 <= s < prev.scenes@.len() && s != t ==> now.scenes@[s] == prev.scenes@[s],
        now.scenes@[t].id == prev.scenes@[t].id,
        now.scenes@[t].name == prev.scenes@[t].name,
        now.scenes@[t].voxel_environment == prev.scenes@[t].voxel_environment,
        now.scenes@[t].voxel_instances == prev.scenes@[t].voxel_instances,
        now.scenes@[t].entities@ == prev.scenes@[t].entities@.push(owner_entity(before.scenes@, all, k)),
        now.scenes@[t].voxel_object_instances@ == prev.scenes@[t].voxel_object_instances@.push(all[k].instance),
    ensures
        batch_attached(before, now, all, k + 1),
{
    assert forall|s: int| 0 <= s < before.scenes@.len() implies {
        let was = before.scenes@[s];
        let current = #[trigger] now.scenes@[s];
        &&& current.id == was.id
        &&& current.name == was.name
        &&& current.voxel_environment == was.voxel_environment
        &&& current.voxel_instances == was.voxel_instances
        &&& current.entities@ == was.entities@ + owners_added(before.scenes@, all, s, k + 1)
        &&& current.voxel_object_instances@ == was.voxel_object_instances@ + instances_added(
            before.scenes@,
            all,
            s,
            k + 1,
        )
    } by {
        let was = before.scenes@[s];
        assert(prev.scenes@[s].entities@ == was.entities@ + owners_added(before.scenes@, all, s, k));
        if s == t {
            assert(was.entities@ + owners_added(before.scenes@, all, s, k + 1) =~= (was.entities@
                + owners_added(before.scenes@, all, s, k)).push(owner_entity(before.scenes@, all, k)));
            assert(was.voxel_object_instances@ + instances_added(before.scenes@, all, s, k + 1) =~= (
            was.voxel_object_instances@ + instances_added(before.scenes@, all, s, k)).push(all[k].instance));
        } else {
            assert(now.scenes@[s] == prev.scenes@[s]);
        }
    }
}

fn find_repeat(placements: &Vec<VoxelObjectPlacement>) -> (found: Option<usize>)
    ensures
        match found {
            Some(k) => first_where(placements@.len() as int, repeat_test(placements@), 0) == Some(k as int)
                && k < placements@.len(),
            None => first_where(placements@.len() as int, repeat_test(placements@), 0) is None,
        },
{
    let ghost all = placements@;
    let n = placements.len();
    let mut k: usize = 0;
    while k < n
        invariant
            n == all.len(),
            placements@ == all,
            k <= n,
            forall|j: int| 0 <= j < k ==> !#[trigger] repeats_identity(all, j),
        decreases n - k,
    {
        let mut j: usize = 0;
        while j < k
            invariant
                n == all.len(),
                placements@ == all,
                k < n,
                j <= k,
                forall|i: int| 0 <= i < k ==> !#[trigger] repeats_identity(all, i),
                forall|i: int|
                    0 <= i < j ==> (#[trigger] all[i]).instance.instance_id@ != all[k as int].instance.instance_id@,
            decreases k - j,
        {
            if text_equal(placements[j].instance.instance_id.as_str(), placements[k].instance.instance_id.as_str()) {
                proof {
                    assert(all[j as int].instance.instance_id@ == all[k as int].instance.instance_id@);
                    assert(repeat_test(all)(k as int));
                    assert forall|i: int| 0 <= i < k implies !#[trigger] repeat_test(all)(i) by {
                        assert(!repeats_identity(all, i));
                    }
                    lemma_first_where_found(n as int, repeat_test(all), 0, k as int);
                }
                return Some(k);
            }
            j = j + 1;
        }
        k = k + 1;
    }
    proof {
        assert forall|i: int| 0 <= i < n implies !#[trigger] repeat_test(all)(i) by {
            assert(!repeats_identity(all, i));
        }
        lemma_first_where_none(n as int, repeat_test(all), 0);
    }
    None
}

fn find_collision(project: &StoredProject, placements: &Vec<VoxelObjectPlacement>) -> (found: Option<usize>)
    ensures
        match found {
            Some(k) => first_where(
                placements@.len() as int,
                collision_test(project.scenes@, placements@),
                0,
            ) == Some(k as int) && k < placements@.len(),
            None => first_where(placements@.len() as int, collision_test(project.scenes@, placements@), 0)
                is None,
        },
{
    let ghost all = placements@;
    let ghost scenes = project.scenes@;
    let n = placements.len();
    let mut k: usize = 0;
    while k < n
        invariant
            n == all.len(),
            placements@ == all,
            project.scenes@ == scenes,
            k <= n,
            forall|j: int| 0 <= j < k ==> !#[trigger] collision_test(scenes, all)(j),
        decreases n - k,
    {
        if instance_id_exists(project, placements[k].instance.instance_id.as_str()) {
            proof {
                assert(collision_test(scenes, all)(k as int));
                lemma_first_where_found(n as int, collision_test(scenes, all), 0, k as int);
            }
            return Some(k);
        }
        k = k + 1;
    }
    proof {
        lemma_first_where_none(n as int, collision_test(scenes, all), 0);
    }
    None
}

fn plan_one(project: &StoredProject, placements: &Vec<VoxelObjectPlacement>, base: u64, k: usize) -> (result: Result<
    (usize, u32),
    AdapterRejection,
>)
    requires
        base == scenes_max_id(project.scenes@),
        k < placements@.len(),
    ensures
        match placement_outcome(project.assets@, project.scenes@, placements@, k as int) {
            Some(rejection) => result matches Err(error) && error@ == rejection,
            None => result matches Ok(planned) && target_scene(project.scenes@, placements@, k as int) == Some(
                planned.0 as int,
            ) && planned.0 < project.scenes@.len() && planned.1 == owner_order(project.scenes@, placements@, k as int),
        },
{
    reveal(placement_refusal);
    reveal(owner_order);
    ensure_surface_mode_supported(
        project,
        placements[k].instance.voxel_object_asset_id.as_str(),
        &placements[k].instance.material_overrides,
        placements[k].surface_mode_is_default,
        placements[k].surface_mode_name.as_str(),
    )?;
        if base >= JSON_SAFE_INTEGER_MAX || (k as u64) > JSON_SAFE_INTEGER_MAX - 1 - base {
            let message = indexed_message(k, " cannot allocate another JSON-safe entity owner");
            return Err(AdapterRejection::new("voxelObject.ownerIdentityExhausted", message.as_str()));
        }
        let t = match find_scene_index(project, placements[k].scene_id.as_str()) {
            Some(t) => t,
            None => {
                let message = quoted_message(k, " references missing scene `", placements[k].scene_id.as_str());
                return Err(AdapterRejection::new("project.missingScene", message.as_str()));
            },
        };
        let count = same_scene_count(placements, k);
        let order: u32 = match root_order_of(&project.scenes[t].entities) {
            Some(top) => {
                if top == u32::MAX || (count as u64) > ((u32::MAX - 1 - top) as u64) {
                    return Err(order_exhausted(k));
                }
                top + 1 + (count as u32)
            },
            None => {
                if (count as u64) > (u32::MAX as u64) {
                    return Err(order_exhausted(k));
                }
                count as u32
            },
        };
        Ok((t, order))
}

/// What the placements are planned to: for each, its scene's position and
/// its owner's hierarchy order.
pub open spec fn plan_fits(
    scenes: Seq<StoredScene>,
    all: Seq<VoxelObjectPlacement>,
    targets: Seq<usize>,
    orders: Seq<u32>,
    k: int,
) -> bool {
    &&& targets.len() == k
    &&& orders.len() == k
    &&& forall|j: int| 0 <= j < k ==> #[trigger] placement_refusal(scenes, all, j) is None
    &&& forall|j: int|
        0 <= j < k ==> target_scene(scenes, all, j) == Some(#[trigger] targets[j] as int) && targets[j]
            < scenes.len()
    &&& forall|j: int| 0 <= j < k ==> #[trigger] orders[j] == owner_order(scenes, all, j)
}

fn plan_placements(project: &StoredProject, placements: &Vec<VoxelObjectPlacement>, base: u64) -> (result: Result<
    (Vec<usize>, Vec<u32>),
    AdapterRejection,
>)
    requires
        base == scenes_max_id(project.scenes@),
    ensures
        match first_where(placements@.len() as int, refusal_test(project.assets@, project.scenes@, placements@), 0) {
            Some(k) => result matches Err(error) && error@ == placement_outcome(
                project.assets@,
                project.scenes@,
                placements@,
                k,
            )->Some_0,
            None => result matches Ok(plan) && plan_fits(
                project.scenes@,
                placements@,
                plan.0@,
                plan.1@,
                placements@.len() as int,
            ),
        },
{
    let ghost all = placements@;
    let ghost scenes = project.scenes@;
    let ghost assets = project.assets@;
    let n = placements.len();
    let mut targets: Vec<usize> = Vec::new();
    let mut orders: Vec<u32> = Vec::new();
    let mut k: usize = 0;
    while k < n
        invariant
            n == all.len(),
            placements@ == all,
            project.scenes@ == scenes,
            project.assets@ == assets,
            base == scenes_max_id(scenes),
            k <= n,
            plan_fits(scenes, all, targets@, orders@, k as int),
            forall|j: int| 0 <= j < k ==> !#[trigger] refusal_test(assets, scenes, all)(j),
        decreases n - k,
    {
        let (t, order) = match plan_one(project, placements, base, k) {
            Ok(planned) => planned,
            Err(error) => {
                proof {
                    assert(refusal_test(assets, scenes, all)(k as int));
                    lemma_first_where_found(n as int, refusal_test(assets, scenes, all), 0, k as int);
                }
                return Err(error);
            },
        };
        let ghost planned_targets = targets@;
        let ghost planned_orders = orders@;
        targets.push(t);
        orders.push(order);
        proof {
            assert(placement_outcome(assets, scenes, all, k as int) is None);
            assert(placement_refusal(scenes, all, k as int) is None);
            assert forall|j: int| 0 <= j < k + 1 implies #[trigger] placement_refusal(scenes, all, j) is None by {
                if j < k {
                    assert(placement_refusal(scenes, all, j) is None);
                }
            }
            assert forall|j: int| 0 <= j < k + 1 implies target_scene(scenes, all, j) == Some(
                #[trigger] targets@[j] as int,
            ) && targets@[j] < scenes.len() by {
                if j < k {
                    assert(targets@[j] == planned_targets[j]);
                }
            }
            assert forall|j: int| 0 <= j < k + 1 implies #[trigger] orders@[j] == owner_order(scenes, all, j) by {
                if j < k {
                    assert(orders@[j] == planned_orders[j]);
                }
            }
        }
        k = k + 1;
    }
    proof {
        lemma_first_where_none(n as int, refusal_test(assets, scenes, all), 0);
    }
    Ok((targets, orders))
}

fn apply_one(project: &mut StoredProject, t: usize, owner: StoredEntityDefinition, instance: StoredVoxelObjectInstance)
    requires
        t < old(project).scenes@.len(),
    ensures
        final(project).schema_version == old(project).schema_version,
        final(project).project_id == old(project).project_id,
        final(project).name == old(project).name,
        final(project).entry_scene == old(project).entry_scene,
        final(project).assets == old(project).assets,
        final(project).item_definitions == old(project).item_definitions,
        final(project).scenes@.len() == old(project).scenes@.len(),
        forall|s: int| 0 <= s < old(project).scenes@.len() && s != t ==> final(project).scenes@[s] == old(project).scenes@[s],
        final(project).scenes@[t as int].id == old(project).scenes@[t as int].id,
        final(project).scenes@[t as int].name == old(project).scenes@[t as int].name,
        final(project).scenes@[t as int].voxel_environment == old(project).scenes@[t as int].voxel_environment,
        final(project).scenes@[t as int].voxel_instances == old(project).scenes@[t as int].voxel_instances,
        final(project).scenes@[t as int].entities@ == old(project).scenes@[t as int].entities@.push(owner),
        final(project).scenes@[t as int].voxel_object_instances@ == old(project).scenes@[t as int].voxel_object_instances@.push(
            instance,
        ),
{
    let mut scene = project.scenes.remove(t);
    scene.entities.push(owner);
    scene.voxel_object_instances.push(instance);
    project.scenes.insert(t, scene);
    assert(project.scenes@ == old(project).scenes@.update(t as int, scene));
}

fn apply_placements(
    project: &mut StoredProject,
    placements: Vec<VoxelObjectPlacement>,
    base: u64,
    targets: &Vec<usize>,
    orders: &Vec<u32>,
) -> (receipts: Vec<VoxelObjectPlacementReceipt>)
    requires
        base == scenes_max_id(old(project).scenes@),
        plan_fits(old(project).scenes@, placements@, targets@, orders@, placements@.len() as int),
    ensures
        receipts@.len() == placements@.len(),
        forall|k: int|
            0 <= k < placements@.len() ==> receipt_matches(#[trigger] receipts@[k], old(project).scenes@, placements@, k),
        batch_attached(*old(project), *final(project), placements@, placements@.len() as int),
{
    let ghost before = *project;
    let ghost scenes = before.scenes@;
    let ghost all = placements@;
    let n = placements.len();
    let mut remaining = placements;
    let mut receipts: Vec<VoxelObjectPlacementReceipt> = Vec::new();
    proof {
        assert forall|s: int| 0 <= s < before.scenes@.len() implies {
            let was = before.scenes@[s];
            let now = #[trigger] project.scenes@[s];
            &&& now.id == was.id
            &&& now.name == was.name
            &&& now.voxel_environment == was.voxel_environment
            &&& now.voxel_instances == was.voxel_instances
            &&& now.entities@ == was.entities@ + owners_added(scenes, all, s, 0)
            &&& now.voxel_object_instances@ == was.voxel_object_instances@ + instances_added(scenes, all, s, 0)
        } by {
            assert(project.scenes@[s].entities@ =~= before.scenes@[s].entities@ + owners_added(scenes, all, s, 0));
            assert(project.scenes@[s].voxel_object_instances@ =~= before.scenes@[s].voxel_object_instances@
                + instances_added(scenes, all, s, 0));
        }
    }
    let mut k: usize = 0;
    while k < n
        invariant
            n == all.len(),
            k <= n,
            remaining@ == all.subrange(k as int, n as int),
            scenes == before.scenes@,
            before == *old(project),
            base == scenes_max_id(scenes),
            plan_fits(scenes, all, targets@, orders@, n as int),
            batch_attached(before, *project, all, k as int),
            receipts@.len() == k,
            forall|j: int| 0 <= j < k ==> receipt_matches(#[trigger] receipts@[j], scenes, all, j),
        decreases n - k,
    {
        let placement = remaining.remove(0);
        assert(placement == all[k as int]);
        let t = targets[k];
        let order = orders[k];
        proof {
            assert(placement_refusal(scenes, all, k as int) is None);
            assert(base + 1 + k <= JSON_SAFE_INTEGER_MAX) by {
                reveal(placement_refusal);
            }
        }
        let owner = owner_for(base, k, order, &placement.instance);
        assert(owner == owner_entity(scenes, all, k as int));
        let frame_kind = match &placement.instance.frame {
            StoredVoxelObjectFrameSelection::Default => String::from_str("default"),
            StoredVoxelObjectFrameSelection::Clip { .. } => String::from_str("clip"),
        };
        let receipt = VoxelObjectPlacementReceipt {
            scene_id: placement.scene_id,
            instance_id: placement.instance.instance_id.clone(),
            asset_id: placement.instance.voxel_object_asset_id.clone(),
            frame_kind,
            owner_entity_id: base + 1 + k as u64,
        };
        let ghost prev = *project;
        apply_one(project, t, owner, placement.instance);
        proof {
            lemma_attach_step(before, prev, *project, all, k as int, t as int);
        }
        receipts.push(receipt);
        k = k + 1;
    }
    receipts
}

/// Attaches a batch of voxel-object instances to their scenes; `max_batch`
/// bounds the batch. The batch must hold `1..=max_batch` placements with
/// distinct instance identities that no scene has yet. Each placement in
/// turn gets an owner entity whose identity follows the project's largest
/// (JSON-safe), in a scene that exists, as the last root of its hierarchy;
/// its instance is added to the scene. A refusal leaves the project as it
/// was.
pub fn attach_voxel_object_instances(
    project: &mut StoredProject,
    placements: Vec<VoxelObjectPlacement>,
    max_batch: usize,
) -> (result: Result<Vec<VoxelObjectPlacementReceipt>, AdapterRejection>)
    ensures
        match batch_outcome(old(project).assets@, old(project).scenes@, placements@, max_batch) {
            Some(rejection) => result matches Err(error) && error@ == rejection && *final(project)
                == *old(project),
            None => result matches Ok(receipts) && receipts@.len() == placements@.len() && (forall|k: int|
                0 <= k < placements@.len() ==> receipt_matches(
                    #[trigger] receipts@[k],
                    old(project).scenes@,
                    placements@,
                    k,
                )) && batch_attached(*old(project), *final(project), placements@, placements@.len() as int),
        },
{
    let n = placements.len();
    if n == 0 || n > max_batch {
        let message = join3(
            "voxel-object placement batch must contain 1..=",
            decimal_text(max_batch as u64).as_str(),
            " entries",
        );
        return Err(AdapterRejection::new("voxelObject.invalidPlacementBatch", message.as_str()));
    }
    if let Some(k) = find_repeat(&placements) {
        let message = quoted_message(k, " repeats instance identity `", placements[k].instance.instance_id.as_str());
        return Err(AdapterRejection::new("voxelObject.duplicatePlacementIdentity", message.as_str()));
    }
    if let Some(k) = find_collision(project, &placements) {
        let message = quoted_message(
            k,
            " collides with existing instance `",
            placements[k].instance.instance_id.as_str(),
        );
        return Err(AdapterRejection::new("voxelObject.instanceIdentityCollision", message.as_str()));
    }
    let base = max_entity_id(project);
    let (targets, orders) = match plan_placements(project, &placements, base) {
        Ok(plan) => plan,
        Err(error) => {
            proof {
                let k = first_where(n as int, refusal_test(project.assets@, project.scenes@, placements@), 0)->Some_0;
                lemma_first_where_holds(n as int, refusal_test(project.assets@, project.scenes@, placements@), 0, k);
            }
            return Err(error);
        },
    };
    Ok(apply_placements(project, placements, base, &targets, &orders))
}

} // verus!
