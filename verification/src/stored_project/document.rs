//! The validation of a whole project document, its rules taken in the order
//! the game checks them: the header, the voxel-object cell budget of the
//! assets, the item definitions and then the weapon definitions among
//! them, the asset catalog and its material palettes, and the scenes (their
//! voxel instances, then each entity's identity, inventory and pickup, then
//! the parent links) with the entry scene. What the identity parser says of
//! an asset and what the engine judges of its payloads is given as facts
//! (see `asset_catalog`); the entry scene's identity, instance transforms,
//! voxel-object instances and the entity transform, bounds, light and
//! renderable rules are judged by the engine and are not part of this
//! composition.
use vstd::prelude::*;

use crate::stored_project::asset_catalog::{
    binding_resolves, catalogued_kind, first_asset_failure, first_palette_failure, lemma_accepted_catalog_is_distinct,
    lemma_accepted_palettes_resolve, validate_asset_catalog, validate_asset_palettes, version_non_zero,
    CatalogAssetFacts,
};
use crate::stored_project::diagnostic_code;
use crate::stored_project::hierarchy::{failure_is, reaches_root, unique_ids};
use crate::stored_project::inventories::inventory_failure;
use crate::stored_project::item_definitions::{
    earlier_definition, first_definition_failure, quantity_out_of_limits, validate_item_definition_list,
};
use crate::stored_project::pickups::pickup_failure;
use crate::stored_project::scenes::{
    has_scene, lemma_accepted_scenes_are_well_formed, scenes_outcome, validate_scene_listing,
};
use crate::stored_project::voxel_budget::{aggregate_cells, limit_message, validate_voxel_object_aggregate_budget};
use crate::stored_project::weapon_definitions::{
    first_weapon_failure, lemma_accepted_weapons_are_complete, validate_weapon_definitions,
    weapon_complete, WeaponLimits,
};
use crate::stored_project::{
    contains_text, header_outcome, kebab_segment, validate_project_header, StoredAsset,
    StoredItemDefinition, StoredProject, StoredProjectError, MAX_PROJECT_VOXEL_OBJECT_RESOLVED_CELLS,
    STORED_PROJECT_SCHEMA_VERSION,
};
use crate::text::is_blank;

verus! {

/// The refusal owed to a project's voxel-object cells.
pub open spec fn budget_outcome(cells: int) -> Option<(Seq<char>, Seq<char>, Seq<char>)> {
    if cells > u64::MAX {
        Some(
            (
                diagnostic_code::VOXEL_OBJECT_AGGREGATE_LIMIT@,
                "assets"@,
                "voxel-object aggregate cell count overflowed"@,
            ),
        )
    } else if cells > MAX_PROJECT_VOXEL_OBJECT_RESOLVED_CELLS {
        Some((diagnostic_code::VOXEL_OBJECT_AGGREGATE_LIMIT@, "assets"@, limit_message(cells)))
    } else {
        None
    }
}

/// The first refusal of two rules checked in turn.
pub open spec fn then_check(
    first: Option<(Seq<char>, Seq<char>, Seq<char>)>,
    then: Option<(Seq<char>, Seq<char>, Seq<char>)>,
) -> Option<(Seq<char>, Seq<char>, Seq<char>)> {
    match first {
        Some(failure) => Some(failure),
        None => then,
    }
}

/// The identities of a catalog, in order.
pub open spec fn catalog_ids(assets: Seq<StoredAsset>) -> Seq<String> {
    Seq::new(assets.len(), |i: int| assets[i].id)
}

/// The identities of the first `n` catalog assets that carry a voxel
/// volume, in order.
pub open spec fn volume_ids_upto(assets: Seq<StoredAsset>, n: int) -> Seq<String>
    decreases n,
{
    if n <= 0 {
        Seq::empty()
    } else if assets[n - 1].voxel_volume {
        volume_ids_upto(assets, n - 1).push(assets[n - 1].id)
    } else {
        volume_ids_upto(assets, n - 1)
    }
}

/// The identities of the catalog assets that carry a voxel volume.
pub open spec fn volume_ids(assets: Seq<StoredAsset>) -> Seq<String> {
    volume_ids_upto(assets, assets.len() as int)
}

/// The refusal owed to a document, or `None` when it passes: `limits` are
/// the game's weapon and item limits, `slot_limit` its inventory slot
/// limit, and `facts` what the identity parser and the engine say of each
/// catalog asset.
pub open spec fn document_outcome(
    document: StoredProject,
    limits: WeaponLimits,
    slot_limit: usize,
    facts: Seq<CatalogAssetFacts>,
) -> Option<(Seq<char>, Seq<char>, Seq<char>)> {
    then_check(
        header_outcome(document.schema_version, document.project_id@, document.name@),
        then_check(
            budget_outcome(aggregate_cells(document.assets@, None)),
            then_check(
                first_definition_failure(document.item_definitions@, limits.max_item_quantity, 0),
                then_check(
                    first_weapon_failure(document.item_definitions@, limits, 0),
                    then_check(
                        first_asset_failure(document.assets@, facts, 0),
                        then_check(
                            first_palette_failure(document.assets@, facts, 0),
                            scenes_outcome(
                                document.scenes@,
                                catalog_ids(document.assets@),
                                volume_ids(document.assets@),
                                document.item_definitions@,
                                slot_limit,
                                document.entry_scene@,
                            ),
                        ),
                    ),
                ),
            ),
        ),
    )
}

fn catalog_id_list(assets: &Vec<StoredAsset>) -> (ids: Vec<String>)
    ensures
        ids@ == catalog_ids(assets@),
{
    let mut ids: Vec<String> = Vec::new();
    let mut index: usize = 0;
    while index < assets.len()
        invariant
            index <= assets@.len(),
            ids@ == catalog_ids(assets@).take(index as int),
        decreases assets@.len() - index,
    {
        ids.push(assets[index].id.clone());
        index = index + 1;
        assert(ids@ =~= catalog_ids(assets@).take(index as int));
    }
    assert(ids@ =~= catalog_ids(assets@));
    ids
}

fn volume_id_list(assets: &Vec<StoredAsset>) -> (ids: Vec<String>)
    ensures
        ids@ == volume_ids(assets@),
{
    let mut ids: Vec<String> = Vec::new();
    let mut index: usize = 0;
    while index < assets.len()
        invariant
            index <= assets@.len(),
            ids@ == volume_ids_upto(assets@, index as int),
        decreases assets@.len() - index,
    {
        if assets[index].voxel_volume {
            ids.push(assets[index].id.clone());
        }
        index = index + 1;
    }
    ids
}

/// Validates a whole project document, its rules in order: the header, the
/// voxel-object cell budget, the item definitions, the weapon definitions
/// (against `limits`), the asset catalog and its palettes, then the scenes
/// with their entities (against the inventory `slot_limit`) and the entry
/// scene. `facts` are what the asset catalog and the engine say of each
/// catalog asset, in catalog order. The first refusal is returned.
pub fn validate_stored_document(
    document: &StoredProject,
    limits: &WeaponLimits,
    slot_limit: usize,
    facts: &Vec<CatalogAssetFacts>,
) -> (result: Result<(), StoredProjectError>)
    requires
        facts@.len() == document.assets@.len(),
    ensures
        match document_outcome(*document, *limits, slot_limit, facts@) {
            None => result is Ok,
            Some((code, path, message)) => result matches Err(error) && failure_is(error, code, path, message),
        },
{
    validate_project_header(document)?;
    validate_voxel_object_aggregate_budget(&document.assets, None)?;
    validate_item_definition_list(&document.item_definitions, limits.max_item_quantity)?;
    validate_weapon_definitions(&document.item_definitions, limits)?;
    validate_asset_catalog(&document.assets, facts)?;
    validate_asset_palettes(&document.assets, facts)?;
    let ids = catalog_id_list(&document.assets);
    let volumes = volume_id_list(&document.assets);
    validate_scene_listing(
        &document.scenes,
        &ids,
        &volumes,
        &document.item_definitions,
        slot_limit,
        document.entry_scene.as_str(),
    )
}

/// An identity among the voxel-volume identities of a catalog's first `n`
/// assets is that of one of them that carries a voxel volume.
proof fn lemma_volume_id_names_a_volume(assets: Seq<StoredAsset>, n: int, id: Seq<char>)
    requires
        0 <= n <= assets.len(),
        contains_text(volume_ids_upto(assets, n), id),
    ensures
        exists|i: int| 0 <= i < n && (#[trigger] assets[i]).id@ == id && assets[i].voxel_volume,
    decreases n,
{
    let before = volume_ids_upto(assets, n - 1);
    let j = choose|j: int|
        0 <= j < volume_ids_upto(assets, n).len() && (#[trigger] volume_ids_upto(assets, n)[j])@ == id;
    if assets[n - 1].voxel_volume && j == before.len() {
        assert(assets[n - 1].id@ == id);
    } else {
        assert(before[j]@ == id);
        lemma_volume_id_names_a_volume(assets, n - 1, id);
    }
}

/// Some asset of the catalog with identity `id` carries a voxel volume.
pub open spec fn names_voxel_volume(assets: Seq<StoredAsset>, id: Seq<char>) -> bool {
    exists|i: int| 0 <= i < assets.len() && (#[trigger] assets[i]).id@ == id && assets[i].voxel_volume
}

proof fn lemma_no_definition_failure_before(
    definitions: Seq<StoredItemDefinition>,
    max_item_quantity: u32,
    k: int,
    i: int,
)
    requires
        0 <= k <= i < definitions.len(),
        first_definition_failure(definitions, max_item_quantity, k) is None,
    ensures
        !quantity_out_of_limits(definitions[i], max_item_quantity),
        earlier_definition(definitions, i) is None,
    decreases i - k,
{
    if k < i {
        lemma_no_definition_failure_before(definitions, max_item_quantity, k + 1, i);
    }
}

/// What an accepted document promises: the current schema, a kebab-case
/// project identity and a name; voxel objects whose cells stay within the
/// project bound; item definitions declared once, each within its kind's
/// limits; complete weapon definitions whose ammunition names an ammunition
/// definition; catalog identities declared once, none a scene, every
/// payload accepted by the engine and every catalog version non-zero;
/// palette bindings that name catalogued
/// material definitions; scenes declared once, among them the entry
/// scene; and in each scene voxel instances declared once that name
/// catalog assets carrying a voxel volume, distinct entity identities,
/// parent chains that end at an entity without a parent, and inventories
/// and pickups that pass their rules.
pub proof fn lemma_accepted_document_is_consistent(
    document: StoredProject,
    limits: WeaponLimits,
    slot_limit: usize,
    facts: Seq<CatalogAssetFacts>,
)
    requires
        facts.len() == document.assets@.len(),
        document_outcome(document, limits, slot_limit, facts) is None,
    ensures
        document.schema_version == STORED_PROJECT_SCHEMA_VERSION,
        kebab_segment(document.project_id@),
        !is_blank(document.name@),
        aggregate_cells(document.assets@, None) <= MAX_PROJECT_VOXEL_OBJECT_RESOLVED_CELLS,
        forall|a: int, b: int|
            0 <= a < b < document.item_definitions@.len() ==> (#[trigger] document.item_definitions@[a]).id@
                != (#[trigger] document.item_definitions@[b]).id@,
        forall|i: int|
            0 <= i < document.item_definitions@.len() ==> !quantity_out_of_limits(
                #[trigger] document.item_definitions@[i],
                limits.max_item_quantity,
            ),
        forall|i: int|
            0 <= i < document.item_definitions@.len() && (#[trigger] document.item_definitions@[i]).kind is Weapon
                ==> weapon_complete(document.item_definitions@, limits, i),
        forall|a: int, b: int|
            0 <= a < b < document.assets@.len() ==> (#[trigger] document.assets@[a]).id@ != (
            #[trigger] document.assets@[b]).id@,
        forall|i: int| 0 <= i < document.assets@.len() ==> catalogued_kind((#[trigger] facts[i]).kind),
        forall|i: int| 0 <= i < document.assets@.len() ==> (#[trigger] facts[i]).payload is Ok,
        forall|i: int| 0 <= i < document.assets@.len() ==> version_non_zero((#[trigger] document.assets@[i]).catalog),
        forall|i: int, b: int|
            0 <= i < document.assets@.len() && facts[i].palette is Some && 0 <= b
                < facts[i].palette->Some_0.material_asset_ids@.len() ==> #[trigger] binding_resolves(
                document.assets@,
                facts,
                i,
                b,
            ),
        has_scene(document.scenes@, document.entry_scene@),
        forall|s: int, t: int|
            0 <= s < t < document.scenes@.len() ==> (#[trigger] document.scenes@[s]).id@ != (
            #[trigger] document.scenes@[t]).id@,
        forall|s: int, k: int|
            0 <= s < document.scenes@.len() && 0 <= k < document.scenes@[s].voxel_instances@.len()
                ==> names_voxel_volume(
                document.assets@,
                (#[trigger] document.scenes@[s].voxel_instances@[k]).voxel_asset_id@,
            ),
        forall|s: int, j: int, k: int|
            0 <= s < document.scenes@.len() && 0 <= j < k < document.scenes@[s].voxel_instances@.len() ==> (
            #[trigger] document.scenes@[s].voxel_instances@[j]).instance_id@ != (
            #[trigger] document.scenes@[s].voxel_instances@[k]).instance_id@,
        forall|s: int| 0 <= s < document.scenes@.len() ==> unique_ids(#[trigger] document.scenes@[s].entities@),
        forall|s: int, i: int|
            0 <= s < document.scenes@.len() && 0 <= i < document.scenes@[s].entities@.len() ==> #[trigger] reaches_root(
                document.scenes@[s].entities@,
                i,
            ),
        forall|s: int, k: int|
            0 <= s < document.scenes@.len() && 0 <= k < document.scenes@[s].entities@.len() ==> inventory_failure(
                #[trigger] document.scenes@[s].entities@[k],
                document.item_definitions@,
                slot_limit,
                s as nat,
                k as nat,
            ) is None && pickup_failure(
                document.scenes@[s].entities@[k],
                document.item_definitions@,
                s as nat,
                k as nat,
            ) is None,
{
    let definitions = document.item_definitions@;
    assert forall|i: int| 0 <= i < definitions.len() implies !quantity_out_of_limits(
        #[trigger] definitions[i],
        limits.max_item_quantity,
    ) && earlier_definition(definitions, i) is None by {
        lemma_no_definition_failure_before(definitions, limits.max_item_quantity, 0, i);
    }
    assert forall|a: int, b: int| 0 <= a < b < definitions.len() implies (#[trigger] definitions[a]).id@ != (
    #[trigger] definitions[b]).id@ by {
        assert(earlier_definition(definitions, b) is None);
        if definitions[a].id@ == definitions[b].id@ {
            assert(exists|j: int| 0 <= j < b && (#[trigger] definitions[j]).id@ == definitions[b].id@);
        }
    }
    assert forall|i: int|
        0 <= i < definitions.len() && (#[trigger] definitions[i]).kind is Weapon implies weapon_complete(
        definitions,
        limits,
        i,
    ) by {
        lemma_accepted_weapons_are_complete(definitions, limits, i);
    }
    lemma_accepted_catalog_is_distinct(document.assets@, facts);
    assert forall|i: int, b: int|
        0 <= i < document.assets@.len() && facts[i].palette is Some && 0 <= b
            < facts[i].palette->Some_0.material_asset_ids@.len() implies #[trigger] binding_resolves(
            document.assets@,
            facts,
            i,
            b,
        ) by {
        lemma_accepted_palettes_resolve(document.assets@, facts, i, b);
    }
    let assets = document.assets@;
    lemma_accepted_scenes_are_well_formed(
        document.scenes@,
        catalog_ids(assets),
        volume_ids(assets),
        definitions,
        slot_limit,
        document.entry_scene@,
    );
    assert forall|s: int, k: int|
        0 <= s < document.scenes@.len() && 0 <= k < document.scenes@[s].voxel_instances@.len()
            implies names_voxel_volume(
            assets,
            (#[trigger] document.scenes@[s].voxel_instances@[k]).voxel_asset_id@,
        ) by {
        let id = document.scenes@[s].voxel_instances@[k].voxel_asset_id@;
        lemma_volume_id_names_a_volume(assets, assets.len() as int, id);
    }
}

} // verus!
