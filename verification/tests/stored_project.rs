use loading_bay::stored_project::item_definitions::validate_item_definition_list;
use loading_bay::stored_project::inventories::validate_entity_inventory;
use loading_bay::stored_project::pickups::validate_entity_pickup;
use loading_bay::stored_project::StoredItemKind;
use loading_bay::stored_project::voxel_budget::{
    add_voxel_frame_cells, validate_voxel_object_aggregate_budget, VoxelObjectCells,
};
use loading_bay::stored_project::hierarchy::{
    validate_entity_identities, validate_entity_parents, validate_entity_structure,
};
use loading_bay::stored_project::scenes::{validate_scene_listing, validate_voxel_instance_listing};
use loading_bay::stored_project::{
    is_kebab_segment, json_path, validate_project_header, validate_stored_import,
    ImportManifestIdentity, ImportMetadataError, ImportSidecarIdentity, StoredAsset, StoredAssetImport,
    StoredEntityDefinition, StoredImportSource, StoredProject, StoredScene, StoredVoxelInstance, StoredProjectError, STORED_PROJECT_SCHEMA_VERSION,
};

fn project(schema_version: u32, project_id: &str, name: &str) -> StoredProject {
    StoredProject {
        schema_version,
        project_id: project_id.to_string(),
        name: name.to_string(),
        entry_scene: "scene:main".to_string(),
        assets: vec![],
        item_definitions: vec![],
        scenes: vec![],
    }
}

#[test]
fn project_header_is_checked_in_order() {
    let error = validate_project_header(&project(3, "Bad Id", "")).unwrap_err();
    assert_eq!(error.diagnostic().code, "project.unsupportedSchema");
    assert_eq!(error.diagnostic().path, "schemaVersion");
    assert_eq!(error.diagnostic().message, "expected schema 20, found 3");
    let error =
        validate_project_header(&project(STORED_PROJECT_SCHEMA_VERSION, "Bad Id", "")).unwrap_err();
    assert_eq!(error.diagnostic().code, "project.invalidProjectId");
    let error = validate_project_header(&project(STORED_PROJECT_SCHEMA_VERSION, "loading-bay", " \n"))
        .unwrap_err();
    assert_eq!(error.diagnostic().path, "name");
    assert_eq!(error.diagnostic().message, "project name must not be empty");
    assert!(validate_project_header(&project(STORED_PROJECT_SCHEMA_VERSION, "loading-bay", "Bay"))
        .is_ok());
}

#[test]
fn kebab_segments() {
    assert!(is_kebab_segment("loading-bay-2"));
    assert!(!is_kebab_segment(""));
    assert!(!is_kebab_segment("Loading"));
    assert!(!is_kebab_segment("a/b"));
}

#[test]
fn serde_paths_render_from_the_document_root() {
    assert_eq!(json_path(""), "$");
    assert_eq!(json_path("."), "$");
    assert_eq!(json_path("scenes[0].name"), "scenes[0].name");
}

#[test]
fn errors_render_code_path_and_message() {
    let error = StoredProjectError::new("project.invalidValue", "name".to_string(), "empty".to_string());
    assert_eq!(error.render(), "project.invalidValue at name: empty");
}

#[test]
fn import_sources_have_one_path() {
    assert_eq!(StoredImportSource::Project { path: "a.obj".to_string() }.path(), "a.obj");
    assert_eq!(StoredImportSource::Host { path: "/a.obj".to_string() }.path(), "/a.obj");
}

fn import() -> StoredAssetImport {
    StoredAssetImport {
        source: StoredImportSource::Project { path: "meshes/crate.obj".to_string() },
        source_hash: "sha256:abc".to_string(),
        source_byte_count: 10,
        importer_version: 3,
        manifest_json: "{}".to_string(),
        sidecar_json: "{}".to_string(),
        generated_asset_ids: vec!["static-mesh:crate".to_string()],
    }
}

fn manifest() -> ImportManifestIdentity {
    ImportManifestIdentity {
        mesh_asset_id: "static-mesh:crate".to_string(),
        source_hash: "sha256:abc".to_string(),
        importer_version: 3,
    }
}

fn sidecar() -> ImportSidecarIdentity {
    ImportSidecarIdentity { source_hash: "sha256:abc".to_string(), importer_version: 3 }
}

#[test]
fn stored_imports_must_agree_with_their_metadata() {
    assert!(validate_stored_import(&import(), "static-mesh:crate", 2, Ok(manifest()), Ok(sidecar()))
        .is_ok());
    let error = validate_stored_import(
        &import(),
        "static-mesh:crate",
        2,
        Err(ImportMetadataError { path: "meshAssetId".to_string(), message: "missing".to_string() }),
        Ok(sidecar()),
    )
    .unwrap_err();
    assert_eq!(error.diagnostic().code, "project.invalidImport");
    assert_eq!(error.diagnostic().path, "assets[2].import.manifestJson.meshAssetId");
    assert_eq!(error.diagnostic().message, "missing");
    let mut stale = sidecar();
    stale.importer_version = 2;
    let error =
        validate_stored_import(&import(), "static-mesh:crate", 2, Ok(manifest()), Ok(stale))
            .unwrap_err();
    assert_eq!(error.diagnostic().path, "assets[2].import");
    let error = validate_stored_import(&import(), "static-mesh:other", 2, Ok(ImportManifestIdentity {
        mesh_asset_id: "static-mesh:other".to_string(),
        ..manifest()
    }), Ok(sidecar()))
    .unwrap_err();
    assert_eq!(error.diagnostic().path, "assets[2].import.generatedAssetIds");
}

fn object(id: &str, frames: Vec<Vec<u32>>) -> VoxelObjectCells {
    VoxelObjectCells { asset_id: id.to_string(), frames, material_palette: vec![] }
}

fn object_asset(id: &str, frames: Vec<Vec<u32>>) -> StoredAsset {
    StoredAsset { id: id.to_string(), catalog: None, import: None, voxel_volume: false, voxel_object: Some(object(id, frames)), textured_material: false }
}

fn plain_asset(id: &str) -> StoredAsset {
    StoredAsset { id: id.to_string(), catalog: None, import: None, voxel_volume: false, voxel_object: None, textured_material: false }
}

#[test]
fn voxel_object_cells_are_summed_across_frames() {
    assert_eq!(add_voxel_frame_cells(5, &vec![1, 2, 3]).unwrap(), 11);
    let overflow = add_voxel_frame_cells(u64::MAX - 1, &vec![1, 1]).unwrap_err();
    assert_eq!(overflow.diagnostic().message, "voxel-object aggregate cell count overflowed");
    let objects = vec![
        object_asset("a", vec![vec![30_000], vec![30_000]]),
        plain_asset("material:steel"),
        object_asset("b", vec![vec![5_536]]),
    ];
    assert!(validate_voxel_object_aggregate_budget(&objects, None).is_ok());
    let over = vec![object_asset("a", vec![vec![30_000], vec![30_000]]), object_asset("b", vec![vec![5_537]])];
    let error = validate_voxel_object_aggregate_budget(&over, None).unwrap_err();
    assert_eq!(error.diagnostic().code, "project.voxelObjectAggregateLimit");
    assert_eq!(error.diagnostic().path, "assets");
    assert_eq!(
        error.diagnostic().message,
        "voxel-object frames resolve 65537 aggregate cells; project limit is 65536"
    );
    let replacement = object("b", vec![vec![1]]);
    assert!(validate_voxel_object_aggregate_budget(&over, Some(&replacement)).is_ok());
    let large = object("c", vec![vec![10_000]]);
    let error = validate_voxel_object_aggregate_budget(&objects, Some(&large)).unwrap_err();
    assert_eq!(error.diagnostic().path, "voxelObjectCandidate");
}

fn entity(id: u64, name: &str, parent: Option<u64>) -> StoredEntityDefinition {
    StoredEntityDefinition {
        id,
        name: name.to_string(),
        parent,
        child_order: 0,
        translation: None,
        rotation: [0, 0, 0, 0x3f80_0000],
        scale: [0x3f80_0000; 3],
        light: None,
        bounds: None,
        collision: None,
        renderable: None,
        door: None,
        switch: None,
        enemy: false,
        enemy_combat: None,
        defeat_drop: None,
        health: None,
        hazard: None,
        encounter: None,
        extraction_beacon: None,
        kinematic: None,
        navigation: None,
        player_controller: None,
        inventory: None,
        pickup: None,
        weapon: None,
        secret_region: None,
        level_exit: None,
    }
}

fn diagnostic(error: StoredProjectError) -> (String, String, String) {
    let diagnostic = error.diagnostic();
    (diagnostic.code.clone(), diagnostic.path.clone(), diagnostic.message.clone())
}

#[test]
fn entity_identities_are_checked_in_order() {
    let blank = vec![entity(1, "root", None), entity(2, " ", Some(1))];
    assert_eq!(
        diagnostic(validate_entity_identities(&blank, 2).unwrap_err()),
        (
            "project.invalidValue".to_string(),
            "scenes[2].entities[1].name".to_string(),
            "entity name must not be empty".to_string()
        )
    );
    let duplicate = vec![entity(5, "a", None), entity(6, "b", None), entity(5, "c", None)];
    assert_eq!(
        diagnostic(validate_entity_identities(&duplicate, 0).unwrap_err()),
        (
            "project.duplicateEntity".to_string(),
            "scenes[0].entities[2].id".to_string(),
            "entity 5 was already declared at scenes[0].entities[0].id".to_string()
        )
    );
    let own_parent = vec![entity(1, "a", None), entity(3, "b", Some(3))];
    assert_eq!(
        diagnostic(validate_entity_identities(&own_parent, 1).unwrap_err()),
        (
            "project.invalidRelationship".to_string(),
            "scenes[1].entities[1].parent".to_string(),
            "entity cannot be its own parent".to_string()
        )
    );
    assert!(validate_entity_identities(&vec![entity(1, "a", None), entity(2, "b", Some(1))], 0).is_ok());
}

#[test]
fn entity_parents_must_exist_and_not_cycle() {
    let forest = vec![
        entity(3, "leaf", Some(2)),
        entity(2, "branch", Some(1)),
        entity(1, "root", None),
        entity(4, "other root", None),
    ];
    assert!(validate_entity_parents(&forest, 0).is_ok());
    assert!(validate_entity_structure(&forest, 0).is_ok());

    let missing = vec![entity(1, "root", None), entity(2, "orphan", Some(9))];
    assert_eq!(
        diagnostic(validate_entity_parents(&missing, 4).unwrap_err()),
        (
            "project.invalidRelationship".to_string(),
            "scenes[4].entities[1].parent".to_string(),
            "parent entity 9 does not exist in this scene".to_string()
        )
    );

    let cycle = vec![
        entity(1, "root", None),
        entity(2, "a", Some(3)),
        entity(3, "b", Some(4)),
        entity(4, "c", Some(2)),
    ];
    assert_eq!(
        diagnostic(validate_entity_parents(&cycle, 0).unwrap_err()),
        (
            "project.invalidRelationship".to_string(),
            "scenes[0].entities[1].parent".to_string(),
            "entity parent relationship contains a cycle".to_string()
        )
    );
}

#[test]
fn entity_structure_checks_identities_before_parents() {
    let both = vec![entity(1, "a", Some(7)), entity(1, "b", None)];
    assert_eq!(
        diagnostic(validate_entity_structure(&both, 0).unwrap_err()).0,
        "project.duplicateEntity"
    );
    let parents_only = vec![entity(1, "a", Some(7))];
    assert_eq!(
        diagnostic(validate_entity_structure(&parents_only, 0).unwrap_err()).2,
        "parent entity 7 does not exist in this scene"
    );
}

fn instance(id: &str, asset: &str) -> StoredVoxelInstance {
    StoredVoxelInstance {
        instance_id: id.to_string(),
        voxel_asset_id: asset.to_string(),
        translation: [0; 3],
        rotation: [0, 0, 0, 0x3f80_0000],
        scale: [0x3f80_0000; 3],
    }
}

fn scene(id: &str, name: &str, instances: Vec<StoredVoxelInstance>, entities: Vec<StoredEntityDefinition>) -> StoredScene {
    StoredScene {
        id: id.to_string(),
        name: name.to_string(),
        voxel_environment: None,
        voxel_instances: instances,
        voxel_object_instances: vec![],
        entities,
    }
}

fn catalog() -> Vec<String> {
    vec!["voxel-volume:hangar".to_string(), "material:steel".to_string()]
}

fn volumes() -> Vec<String> {
    vec!["voxel-volume:hangar".to_string()]
}

#[test]
fn voxel_instances_are_listed_once_with_known_assets() {
    let assets = catalog();
    let volumes = volumes();
    let bad_id = vec![instance("Crate", "voxel-volume:hangar")];
    assert_eq!(
        diagnostic(validate_voxel_instance_listing(&bad_id, 1, &assets, &volumes).unwrap_err()),
        (
            "project.invalidVoxelInstance".to_string(),
            "scenes[1].voxelInstances[0].instanceId".to_string(),
            "voxel instance identity must be one kebab-case segment".to_string()
        )
    );
    let repeated = vec![
        instance("a", "voxel-volume:hangar"),
        instance("b", "voxel-volume:hangar"),
        instance("a", "voxel-volume:hangar"),
    ];
    assert_eq!(
        diagnostic(validate_voxel_instance_listing(&repeated, 0, &assets, &volumes).unwrap_err()),
        (
            "project.invalidVoxelInstance".to_string(),
            "scenes[0].voxelInstances[2].instanceId".to_string(),
            "instance identity was already declared at voxelInstances[0]".to_string()
        )
    );
    let unknown = vec![instance("a", "voxel-volume:annex")];
    assert_eq!(
        diagnostic(validate_voxel_instance_listing(&unknown, 0, &assets, &volumes).unwrap_err()),
        (
            "project.missingAsset".to_string(),
            "scenes[0].voxelInstances[0].voxelAssetId".to_string(),
            "voxel instance references missing asset `voxel-volume:annex`".to_string()
        )
    );
    let not_a_volume = vec![instance("a", "material:steel")];
    assert_eq!(
        diagnostic(validate_voxel_instance_listing(&not_a_volume, 0, &assets, &volumes).unwrap_err()),
        (
            "project.invalidVoxelInstance".to_string(),
            "scenes[0].voxelInstances[0].voxelAssetId".to_string(),
            "voxel instance must reference a canonical voxel-volume asset".to_string()
        )
    );
    assert!(validate_voxel_instance_listing(&vec![instance("a", "voxel-volume:hangar")], 0, &assets, &volumes).is_ok());
}

#[test]
fn scenes_are_checked_in_order_then_the_entry_scene() {
    let assets = catalog();
    let volumes = volumes();
    let good = vec![
        scene("scene:intro", "Intro", vec![instance("a", "voxel-volume:hangar")], vec![entity(1, "root", None)]),
        scene("scene:main", "Main", vec![], vec![entity(1, "root", None), entity(2, "child", Some(1))]),
    ];
    assert!(validate_scene_listing(&good, &assets, &volumes, &vec![], 8, "scene:main").is_ok());
    assert_eq!(
        diagnostic(validate_scene_listing(&good, &assets, &volumes, &vec![], 8, "scene:outro").unwrap_err()),
        (
            "project.missingEntryScene".to_string(),
            "entryScene".to_string(),
            "entry scene `scene:outro` is not present in `scenes`".to_string()
        )
    );

    let unnamed = vec![good[0].clone(), scene("scene:main", "", vec![], vec![])];
    assert_eq!(
        diagnostic(validate_scene_listing(&unnamed, &assets, &volumes, &vec![], 8, "scene:main").unwrap_err()),
        (
            "project.invalidValue".to_string(),
            "scenes[1].name".to_string(),
            "scene name must not be empty".to_string()
        )
    );
    let twice = vec![good[0].clone(), good[1].clone(), scene("scene:intro", "Again", vec![], vec![])];
    assert_eq!(
        diagnostic(validate_scene_listing(&twice, &assets, &volumes, &vec![], 8, "scene:main").unwrap_err()),
        (
            "project.duplicateScene".to_string(),
            "scenes[2].id".to_string(),
            "scene `scene:intro` was already declared at scenes[0].id".to_string()
        )
    );
    let orphan = vec![
        good[0].clone(),
        scene("scene:main", "Main", vec![], vec![entity(2, "child", Some(1))]),
    ];
    assert_eq!(
        diagnostic(validate_scene_listing(&orphan, &assets, &volumes, &vec![], 8, "scene:none").unwrap_err()),
        (
            "project.invalidRelationship".to_string(),
            "scenes[1].entities[0].parent".to_string(),
            "parent entity 1 does not exist in this scene".to_string()
        )
    );
    let bad_instance = vec![scene("scene:main", "Main", vec![instance("a", "voxel-volume:x")], vec![entity(1, "", None)])];
    assert_eq!(
        diagnostic(validate_scene_listing(&bad_instance, &assets, &volumes, &vec![], 8, "scene:main").unwrap_err()).1,
        "scenes[0].voxelInstances[0].voxelAssetId"
    );
}

#[test]
fn a_parent_chain_that_leaves_the_scene_is_refused() {
    let leaving = vec![entity(1, "a", Some(2)), entity(2, "b", Some(9))];
    assert_eq!(
        diagnostic(validate_entity_parents(&leaving, 3).unwrap_err()),
        (
            "project.invalidRelationship".to_string(),
            "scenes[3].entities[0].parent".to_string(),
            "entity parent chain leaves this scene".to_string()
        )
    );
    let named = vec![entity(1, "a", None), entity(2, "b", Some(1)), entity(3, "c", Some(2))];
    assert!(validate_entity_structure(&named, 0).is_ok());
}

fn item(id: &str, max_quantity: u32, kind: loading_bay::stored_project::StoredItemKind) -> loading_bay::stored_project::StoredItemDefinition {
    loading_bay::stored_project::StoredItemDefinition { id: id.to_string(), max_quantity, kind }
}

fn shotgun() -> loading_bay::stored_project::StoredItemKind {
    loading_bay::stored_project::StoredItemKind::Weapon {
        ammunition: "item/shells".to_string(),
        attack_mode: None,
        pellet_count: None,
        spread_degrees: None,
        damage: Some(10),
        max_distance: None,
        cooldown_ticks: Some(3),
        ammunition_cost: Some(1),
        muzzle_offset: None,
        presentation: None,
    }
}

fn placed_pickup(item_id: &str, quantity: u32, starter: Option<(&str, u32)>) -> StoredEntityDefinition {
    let mut pickup = entity(7, "pickup", None);
    pickup.translation = Some([0; 3]);
    pickup.bounds = Some(loading_bay::stored_project::StoredBounds { min: [0; 3], max: [0x3f80_0000; 3] });
    pickup.renderable = Some(loading_bay::stored_project::StoredRenderable {
        asset: "static-mesh:shells".to_string(),
        visible: true,
        initial_clip: None,
    });
    pickup.pickup = Some(loading_bay::stored_project::StoredPickup {
        item: item_id.to_string(),
        quantity,
        starter_ammunition: starter.map(|(item, quantity)| loading_bay::stored_project::StoredInventoryStack {
            item: item.to_string(),
            quantity,
        }),
    });
    pickup
}

#[test]
fn pickups_name_declared_items_within_their_limits() {
    let items = vec![item("item/shells", 50, StoredItemKind::Ammunition), item("item/shotgun", 1, shotgun())];
    assert!(validate_entity_pickup(&placed_pickup("item/shells", 20, None), &items, 0, 3).is_ok());
    assert!(validate_entity_pickup(&placed_pickup("item/shotgun", 1, Some(("item/shells", 8))), &items, 0, 3).is_ok());
    assert_eq!(
        diagnostic(validate_entity_pickup(&placed_pickup("item/rockets", 1, None), &items, 0, 3).unwrap_err()),
        (
            "project.missingItemDefinition".to_string(),
            "scenes[0].entities[3].pickup.item".to_string(),
            "pickup references missing item `item/rockets`".to_string()
        )
    );
    assert_eq!(
        diagnostic(validate_entity_pickup(&placed_pickup("item/shells", 51, None), &items, 0, 3).unwrap_err()).2,
        "pickup quantity must be between 1 and 50"
    );
    assert_eq!(
        diagnostic(validate_entity_pickup(&placed_pickup("item/shells", 5, Some(("item/shells", 1))), &items, 0, 3).unwrap_err()).1,
        "scenes[0].entities[3].pickup.starterAmmunition"
    );
    assert_eq!(
        diagnostic(validate_entity_pickup(&placed_pickup("item/shotgun", 1, Some(("item/shells", 0))), &items, 0, 3).unwrap_err()).2,
        "starter ammunition quantity is outside its definition limit"
    );
    let mut solid = placed_pickup("item/shells", 5, None);
    solid.collision = Some(loading_bay::stored_project::StoredCollision { enabled: true, static_collider: true });
    assert_eq!(
        diagnostic(validate_entity_pickup(&solid, &items, 1, 0).unwrap_err()),
        (
            "project.invalidComponent".to_string(),
            "scenes[1].entities[0].pickup".to_string(),
            "pickup trigger bounds must remain non-solid and non-kinematic".to_string()
        )
    );
    let mut unplaced = placed_pickup("item/shells", 5, None);
    unplaced.bounds = None;
    assert_eq!(
        diagnostic(validate_entity_pickup(&unplaced, &items, 1, 0).unwrap_err()).2,
        "pickup entities require an authored translation, bounds, and renderable"
    );
}

fn owner(stacks: Vec<(&str, u32)>, equipped: Option<&str>, slots: Vec<&str>, capacity: usize) -> StoredEntityDefinition {
    let mut owner = entity(4, "player", None);
    owner.inventory = Some(loading_bay::stored_project::StoredInventory {
        capacity_slots: capacity,
        starting_stacks: stacks
            .into_iter()
            .map(|(item, quantity)| loading_bay::stored_project::StoredInventoryStack { item: item.to_string(), quantity })
            .collect(),
        initially_equipped_weapon: equipped.map(|weapon| weapon.to_string()),
        weapon_slots: slots.into_iter().map(|slot| slot.to_string()).collect(),
    });
    owner
}

#[test]
fn inventories_hold_declared_items_and_slot_their_weapon() {
    let items = vec![item("item/shells", 50, StoredItemKind::Ammunition), item("item/shotgun", 1, shotgun())];
    let good = owner(vec![("item/shotgun", 1), ("item/shells", 8)], Some("item/shotgun"), vec!["item/shotgun"], 8);
    assert!(validate_entity_inventory(&good, &items, 16, 0, 2).is_ok());
    let message = |entity: &StoredEntityDefinition| diagnostic(validate_entity_inventory(entity, &items, 16, 0, 2).unwrap_err());
    assert_eq!(
        message(&owner(vec![], None, vec![], 17)).2,
        "inventory capacity must be within the bounded slot limit"
    );
    assert_eq!(
        message(&owner(vec![("item/shells", 1), ("item/shotgun", 1)], None, vec![], 1)).1,
        "scenes[0].entities[2].inventory.startingStacks"
    );
    assert_eq!(
        message(&owner(vec![("item/shells", 1), ("item/shells", 2)], None, vec![], 4)),
        (
            "project.duplicateInventoryStack".to_string(),
            "scenes[0].entities[2].inventory.startingStacks[1].item".to_string(),
            "an inventory can contain at most one stack per item definition".to_string()
        )
    );
    assert_eq!(
        message(&owner(vec![("item/shells", 60)], None, vec![], 4)).2,
        "starting quantity must be between 1 and 50"
    );
    assert_eq!(
        message(&owner(vec![("item/shells", 6)], Some("item/shotgun"), vec!["item/shotgun"], 4)).2,
        "equipped weapon must be an owned weapon item"
    );
    assert_eq!(
        message(&owner(vec![("item/shotgun", 1)], None, vec!["item/shells"], 4)),
        (
            "project.invalidComponent".to_string(),
            "scenes[0].entities[2].inventory.weaponSlots[0]".to_string(),
            "weapon slots must reference weapon item definitions".to_string()
        )
    );
    assert_eq!(
        message(&owner(vec![("item/shotgun", 1)], Some("item/shotgun"), vec![], 4)).2,
        "equipped weapon must occupy an authored weapon slot"
    );
}

#[test]
fn item_definitions_keep_their_kind_limits_and_identities() {
    let good = vec![item("item/shells", 50, StoredItemKind::Ammunition), item("item/shotgun", 1, shotgun())];
    assert!(validate_item_definition_list(&good, 999).is_ok());
    let message = |items: Vec<loading_bay::stored_project::StoredItemDefinition>| {
        diagnostic(validate_item_definition_list(&items, 999).unwrap_err())
    };
    assert_eq!(
        message(vec![item("item/shells", 50, StoredItemKind::Ammunition), item("item/shotgun", 2, shotgun())]),
        (
            "project.invalidValue".to_string(),
            "itemDefinitions[1].maxQuantity".to_string(),
            "item quantity and effect values must be within their concrete kind limits".to_string()
        )
    );
    assert_eq!(message(vec![item("item/shells", 1000, StoredItemKind::Ammunition)]).1, "itemDefinitions[0].maxQuantity");
    assert_eq!(
        message(vec![item("item/medkit", 3, StoredItemKind::HealthSupply { restore_health: 0 })]).1,
        "itemDefinitions[0].maxQuantity"
    );
    assert_eq!(
        message(vec![
            item("item/shells", 50, StoredItemKind::Ammunition),
            item("item/key", 1, StoredItemKind::AccessKey),
            item("item/shells", 20, StoredItemKind::Ammunition),
        ]),
        (
            "project.duplicateItemDefinition".to_string(),
            "itemDefinitions[2].id".to_string(),
            "item definition `item/shells` was already declared at itemDefinitions[0].id".to_string()
        )
    );
}
