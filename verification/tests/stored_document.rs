use loading_bay::stored_project::asset_catalog::{
    validate_asset_catalog, validate_asset_palettes, AssetPalette, CatalogAssetFacts, CatalogAssetKind, PalettePayload,
};
use loading_bay::stored_project::document::validate_stored_document;
use loading_bay::stored_project::voxel_budget::VoxelObjectCells;
use loading_bay::stored_project::weapon_definitions::{validate_weapon_definitions, WeaponLimits};
use loading_bay::stored_project::{
    StoredAsset, StoredAssetCatalogMetadata, StoredEntityDefinition, StoredInventory, StoredInventoryStack,
    StoredItemDefinition, StoredItemKind, StoredProject,
    StoredPickup, StoredProjectError, StoredScene, StoredVoxelInstance, StoredWeaponAttackMode,
    STORED_PROJECT_SCHEMA_VERSION,
};

fn limits() -> WeaponLimits {
    WeaponLimits {
        max_pellets: 12,
        max_spread_degrees: 45.0f32.to_bits(),
        max_damage: 500,
        max_range: 1000.0f32.to_bits(),
        max_cooldown_ticks: 600,
        max_muzzle_offset: 2.0f32.to_bits(),
        max_item_quantity: 99,
    }
}

fn triple(error: StoredProjectError) -> (String, String, String) {
    let diagnostic = error.diagnostic();
    (diagnostic.code.clone(), diagnostic.path.clone(), diagnostic.message.clone())
}

fn rifle(ammunition: &str) -> StoredItemKind {
    StoredItemKind::Weapon {
        ammunition: ammunition.to_string(),
        attack_mode: Some(StoredWeaponAttackMode::Hitscan),
        pellet_count: None,
        spread_degrees: None,
        damage: Some(25),
        max_distance: Some(80.0f32.to_bits()),
        cooldown_ticks: Some(12),
        ammunition_cost: Some(1),
        muzzle_offset: Some([0.25f32.to_bits(), (-0.5f32).to_bits(), 1.0f32.to_bits()]),
        presentation: Some("rifle".to_string()),
    }
}

fn definition(id: &str, max_quantity: u32, kind: StoredItemKind) -> StoredItemDefinition {
    StoredItemDefinition { id: id.to_string(), max_quantity, kind }
}

fn arsenal(kind: StoredItemKind) -> Vec<StoredItemDefinition> {
    vec![definition("rifle", 1, kind), definition("rounds", 50, StoredItemKind::Ammunition)]
}

fn weapon_refusal(kind: StoredItemKind) -> Result<(), StoredProjectError> {
    validate_weapon_definitions(&arsenal(kind), &limits())
}

const INCOMPLETE: &str = "current weapon definitions require valid attackMode, damage, maxDistance, cooldownTicks, ammunitionCost, muzzleOffset, and presentation";

fn with_rifle(change: impl Fn(&mut StoredItemKind)) -> StoredItemKind {
    let mut kind = rifle("rounds");
    change(&mut kind);
    kind
}

#[test]
fn complete_weapons_with_ammunition_are_accepted() {
    assert!(weapon_refusal(rifle("rounds")).is_ok());
    let shotgun = with_rifle(|kind| {
        if let StoredItemKind::Weapon { attack_mode, pellet_count, spread_degrees, .. } = kind {
            *attack_mode = Some(StoredWeaponAttackMode::Spread);
            *pellet_count = Some(8);
            *spread_degrees = Some(12.5f32.to_bits());
        }
    });
    assert!(weapon_refusal(shotgun).is_ok());
    assert!(validate_weapon_definitions(&vec![definition("rounds", 50, StoredItemKind::Ammunition)], &limits()).is_ok());
}

#[test]
fn incomplete_weapons_are_refused_at_their_kind() {
    let refused = (
        "project.invalidValue".to_string(),
        "itemDefinitions[0].kind".to_string(),
        INCOMPLETE.to_string(),
    );
    let changes: Vec<Box<dyn Fn(&mut StoredItemKind)>> = vec![
        Box::new(|kind| if let StoredItemKind::Weapon { attack_mode, .. } = kind { *attack_mode = None }),
        Box::new(|kind| if let StoredItemKind::Weapon { pellet_count, .. } = kind { *pellet_count = Some(2) }),
        Box::new(|kind| if let StoredItemKind::Weapon { damage, .. } = kind { *damage = Some(0) }),
        Box::new(|kind| if let StoredItemKind::Weapon { damage, .. } = kind { *damage = Some(501) }),
        Box::new(|kind| if let StoredItemKind::Weapon { max_distance, .. } = kind { *max_distance = Some(0.0f32.to_bits()) }),
        Box::new(|kind| if let StoredItemKind::Weapon { max_distance, .. } = kind { *max_distance = Some((-3.0f32).to_bits()) }),
        Box::new(|kind| if let StoredItemKind::Weapon { max_distance, .. } = kind { *max_distance = Some(f32::NAN.to_bits()) }),
        Box::new(|kind| if let StoredItemKind::Weapon { max_distance, .. } = kind { *max_distance = Some(1000.5f32.to_bits()) }),
        Box::new(|kind| if let StoredItemKind::Weapon { cooldown_ticks, .. } = kind { *cooldown_ticks = None }),
        Box::new(|kind| if let StoredItemKind::Weapon { cooldown_ticks, .. } = kind { *cooldown_ticks = Some(601) }),
        Box::new(|kind| if let StoredItemKind::Weapon { ammunition_cost, .. } = kind { *ammunition_cost = Some(0) }),
        Box::new(|kind| if let StoredItemKind::Weapon { ammunition_cost, .. } = kind { *ammunition_cost = Some(100) }),
        Box::new(|kind| {
            if let StoredItemKind::Weapon { muzzle_offset, .. } = kind {
                *muzzle_offset = Some([0, (-2.5f32).to_bits(), 0])
            }
        }),
        Box::new(|kind| {
            if let StoredItemKind::Weapon { muzzle_offset, .. } = kind {
                *muzzle_offset = Some([0, f32::INFINITY.to_bits(), 0])
            }
        }),
        Box::new(|kind| if let StoredItemKind::Weapon { presentation, .. } = kind { *presentation = Some(String::new()) }),
        Box::new(|kind| if let StoredItemKind::Weapon { presentation, .. } = kind { *presentation = Some("é".repeat(49)) }),
        Box::new(|kind| if let StoredItemKind::Weapon { presentation, .. } = kind { *presentation = None }),
    ];
    for change in changes {
        let kind = with_rifle(|kind| change(kind));
        assert_eq!(triple(weapon_refusal(kind).unwrap_err()), refused);
    }
    let spread_without_spread = with_rifle(|kind| {
        if let StoredItemKind::Weapon { attack_mode, pellet_count, .. } = kind {
            *attack_mode = Some(StoredWeaponAttackMode::Spread);
            *pellet_count = Some(8);
        }
    });
    assert_eq!(triple(weapon_refusal(spread_without_spread).unwrap_err()), refused);
    let muzzle_at_limit = with_rifle(|kind| {
        if let StoredItemKind::Weapon { muzzle_offset, .. } = kind {
            *muzzle_offset = Some([(-2.0f32).to_bits(), 2.0f32.to_bits(), (-0.0f32).to_bits()])
        }
    });
    assert!(weapon_refusal(muzzle_at_limit).is_ok());
    let presentation_at_limit = with_rifle(|kind| {
        if let StoredItemKind::Weapon { presentation, .. } = kind {
            *presentation = Some("é".repeat(48))
        }
    });
    assert!(weapon_refusal(presentation_at_limit).is_ok());
}

#[test]
fn weapon_ammunition_must_name_an_ammunition_definition() {
    assert_eq!(
        triple(weapon_refusal(rifle("shells")).unwrap_err()),
        (
            "project.missingItemDefinition".to_string(),
            "itemDefinitions[0].kind.ammunition".to_string(),
            "weapon references missing ammunition `shells`".to_string()
        )
    );
    assert_eq!(
        triple(weapon_refusal(rifle("rifle")).unwrap_err()),
        (
            "project.invalidValue".to_string(),
            "itemDefinitions[0].kind.ammunition".to_string(),
            "weapon ammunition must reference an ammunition item definition".to_string()
        )
    );
}

fn asset(id: &str, version: Option<u32>) -> StoredAsset {
    StoredAsset {
        id: id.to_string(),
        catalog: version.map(|version| StoredAssetCatalogMetadata { version, hash: None, source_path: None, label: None }),
        import: None,
        voxel_volume: id.starts_with("voxel-volume:"),
        voxel_object: None,
        textured_material: false,
    }
}

fn fact(kind: CatalogAssetKind) -> CatalogAssetFacts {
    CatalogAssetFacts { kind: Ok(kind), payload: Ok(()), palette: None, material: kind == CatalogAssetKind::Material }
}

fn palette(payload: PalettePayload, ids: &[&str]) -> Option<AssetPalette> {
    Some(AssetPalette { payload, material_asset_ids: ids.iter().map(|id| id.to_string()).collect() })
}

#[test]
fn asset_catalog_rules_are_checked_per_asset_in_order() {
    let assets = vec![asset("voxel-volume:hangar", Some(1)), asset("material:steel", None)];
    let facts = vec![fact(CatalogAssetKind::VoxelVolume), fact(CatalogAssetKind::Material)];
    assert!(validate_asset_catalog(&assets, &facts).is_ok());

    let unparsed = vec![fact(CatalogAssetKind::VoxelVolume), CatalogAssetFacts { kind: Err("unknown asset kind `mesh`".to_string()), payload: Ok(()), palette: None, material: false }];
    assert_eq!(
        triple(validate_asset_catalog(&assets, &unparsed).unwrap_err()),
        ("project.invalidAssetId".to_string(), "assets[1].id".to_string(), "unknown asset kind `mesh`".to_string())
    );
    let scene = vec![fact(CatalogAssetKind::Scene), fact(CatalogAssetKind::Material)];
    assert_eq!(
        triple(validate_asset_catalog(&assets, &scene).unwrap_err()),
        (
            "project.wrongAssetKind".to_string(),
            "assets[0].id".to_string(),
            "scene documents belong in `scenes`, not the asset catalog".to_string()
        )
    );
    let twice = vec![asset("material:steel", None), asset("voxel-volume:hangar", None), asset("material:steel", Some(0))];
    let facts3 = vec![fact(CatalogAssetKind::Material), fact(CatalogAssetKind::VoxelVolume), fact(CatalogAssetKind::Material)];
    assert_eq!(
        triple(validate_asset_catalog(&twice, &facts3).unwrap_err()),
        (
            "project.duplicateAsset".to_string(),
            "assets[2].id".to_string(),
            "asset `material:steel` was already declared at assets[0].id".to_string()
        )
    );
    let payload = vec![
        fact(CatalogAssetKind::VoxelVolume),
        CatalogAssetFacts {
            kind: Ok(CatalogAssetKind::Material),
            payload: Err(StoredProjectError::new(
                "project.invalidMaterial",
                "assets[1]".to_string(),
                "material assets require exactly one asset-catalog material definition".to_string(),
            )),
            palette: None,
            material: false,
        },
    ];
    assert_eq!(
        triple(validate_asset_catalog(&assets, &payload).unwrap_err()),
        (
            "project.invalidMaterial".to_string(),
            "assets[1]".to_string(),
            "material assets require exactly one asset-catalog material definition".to_string()
        )
    );
    let unversioned = vec![asset("voxel-volume:hangar", Some(0))];
    assert_eq!(
        triple(validate_asset_catalog(&unversioned, &vec![fact(CatalogAssetKind::VoxelVolume)]).unwrap_err()),
        (
            "project.invalidValue".to_string(),
            "assets[0].catalog.version".to_string(),
            "catalog versions must be non-zero".to_string()
        )
    );
}

fn scene(id: &str, instances: Vec<StoredVoxelInstance>) -> StoredScene {
    StoredScene {
        id: id.to_string(),
        name: "Main".to_string(),
        voxel_environment: None,
        voxel_instances: instances,
        voxel_object_instances: vec![],
        entities: vec![],
    }
}

fn instance(id: &str, asset: &str) -> StoredVoxelInstance {
    StoredVoxelInstance {
        instance_id: id.to_string(),
        voxel_asset_id: asset.to_string(),
        translation: [0, 0, 0],
        rotation: [0, 0, 0, 0x3f80_0000],
        scale: [0x3f80_0000; 3],
    }
}

fn document() -> StoredProject {
    StoredProject {
        schema_version: STORED_PROJECT_SCHEMA_VERSION,
        project_id: "loading-bay".to_string(),
        name: "Loading Bay".to_string(),
        entry_scene: "scene:main".to_string(),
        assets: vec![asset("voxel-volume:hangar", Some(1)), asset("material:steel", None)],
        item_definitions: arsenal(rifle("rounds")),
        scenes: vec![scene("scene:main", vec![instance("crate", "voxel-volume:hangar")])],
    }
}

fn document_facts() -> Vec<CatalogAssetFacts> {
    let mut volume = fact(CatalogAssetKind::VoxelVolume);
    volume.palette = palette(PalettePayload::VoxelVolume, &["material:steel"]);
    vec![volume, fact(CatalogAssetKind::Material)]
}

fn validate(document: &StoredProject) -> Result<(), StoredProjectError> {
    validate_stored_document(document, &limits(), 8, &document_facts())
}

#[test]
fn a_consistent_document_is_accepted() {
    assert!(validate(&document()).is_ok());
}

#[test]
fn document_rules_are_checked_in_order() {
    let mut unnamed = document();
    unnamed.name = " ".to_string();
    unnamed.item_definitions = arsenal(rifle("shells"));
    assert_eq!(triple(validate(&unnamed).unwrap_err()).1, "name");

    let mut heavy = document();
    heavy.item_definitions = arsenal(rifle("shells"));
    let mut crate_object = asset("voxel-object:crate", Some(1));
    crate_object.voxel_object =
        Some(VoxelObjectCells { asset_id: "voxel-object:crate".to_string(), frames: vec![vec![40_000], vec![30_000]], material_palette: vec![] });
    heavy.assets.push(crate_object);
    let mut heavy_facts = document_facts();
    heavy_facts.push(fact(CatalogAssetKind::VoxelObject));
    let refusal = validate_stored_document(&heavy, &limits(), 8, &heavy_facts).unwrap_err();
    assert_eq!(
        triple(refusal),
        (
            "project.voxelObjectAggregateLimit".to_string(),
            "assets".to_string(),
            "voxel-object frames resolve 70000 aggregate cells; project limit is 65536".to_string()
        )
    );

    let mut overfull = document();
    overfull.item_definitions = vec![definition("rifle", 2, rifle("shells"))];
    assert_eq!(triple(validate(&overfull).unwrap_err()).1, "itemDefinitions[0].maxQuantity");

    let mut unarmed = document();
    unarmed.item_definitions = arsenal(rifle("shells"));
    unarmed.assets = vec![asset("voxel-volume:hangar", Some(0)), asset("material:steel", None)];
    assert_eq!(triple(validate(&unarmed).unwrap_err()).1, "itemDefinitions[0].kind.ammunition");

    let mut uncatalogued = document();
    uncatalogued.assets = vec![asset("voxel-volume:hangar", Some(0)), asset("material:steel", None)];
    uncatalogued.entry_scene = "scene:elsewhere".to_string();
    assert_eq!(triple(validate(&uncatalogued).unwrap_err()).1, "assets[0].catalog.version");

    let mut not_a_volume = document();
    not_a_volume.scenes = vec![scene("scene:main", vec![instance("crate", "material:steel")])];
    assert_eq!(
        triple(validate(&not_a_volume).unwrap_err()),
        (
            "project.invalidVoxelInstance".to_string(),
            "scenes[0].voxelInstances[0].voxelAssetId".to_string(),
            "voxel instance must reference a canonical voxel-volume asset".to_string()
        )
    );

    let mut lost = document();
    lost.entry_scene = "scene:elsewhere".to_string();
    assert_eq!(triple(validate(&lost).unwrap_err()).0, "project.missingEntryScene");
}

#[test]
fn voxel_palettes_must_name_catalogued_materials() {
    let assets = vec![asset("voxel-object:crate", None), asset("material:steel", None), asset("voxel-volume:hangar", None)];
    let mut object = fact(CatalogAssetKind::VoxelObject);
    object.palette = palette(PalettePayload::VoxelObject, &["material:steel", "material:glass"]);
    let facts = vec![object, fact(CatalogAssetKind::Material), fact(CatalogAssetKind::VoxelVolume)];
    assert_eq!(
        triple(validate_asset_palettes(&assets, &facts).unwrap_err()),
        (
            "project.missingAsset".to_string(),
            "assets[0].voxelObject.materialPalette[1].materialAssetId".to_string(),
            "voxel material binding references missing asset `material:glass`".to_string()
        )
    );

    let mut volume = fact(CatalogAssetKind::VoxelVolume);
    volume.palette = palette(PalettePayload::VoxelVolume, &["material:steel", "voxel-object:crate"]);
    let facts = vec![fact(CatalogAssetKind::VoxelObject), fact(CatalogAssetKind::Material), volume];
    assert_eq!(
        triple(validate_asset_palettes(&assets, &facts).unwrap_err()),
        (
            "project.invalidMaterial".to_string(),
            "assets[2].voxelVolume.materialPalette[1].materialAssetId".to_string(),
            "voxel material binding must resolve to an asset-catalog material definition".to_string()
        )
    );

    let mut resolved = fact(CatalogAssetKind::VoxelVolume);
    resolved.palette = palette(PalettePayload::VoxelVolume, &["material:steel"]);
    let facts = vec![fact(CatalogAssetKind::VoxelObject), fact(CatalogAssetKind::Material), resolved];
    assert!(validate_asset_palettes(&assets, &facts).is_ok());
}

#[test]
fn documents_check_palettes_after_the_catalog() {
    let mut unresolved = document();
    unresolved.entry_scene = "scene:elsewhere".to_string();
    let mut volume = fact(CatalogAssetKind::VoxelVolume);
    volume.palette = palette(PalettePayload::VoxelVolume, &["material:brass"]);
    let facts = vec![volume, fact(CatalogAssetKind::Material)];
    let refusal = validate_stored_document(&unresolved, &limits(), 8, &facts).unwrap_err();
    assert_eq!(triple(refusal).1, "assets[0].voxelVolume.materialPalette[0].materialAssetId");
}

fn entity(id: u64, name: &str) -> StoredEntityDefinition {
    StoredEntityDefinition {
        id,
        name: name.to_string(),
        parent: None,
        child_order: 0,
        translation: None,
        rotation: [0, 0, 0, 0x3f80_0000],
        scale: [0x3f80_0000; 3],
        light: None,
        bounds: None,
        collision: None,
        renderable: None,
        door: None,
        switch: None,
        enemy: false,
        enemy_combat: None,
        defeat_drop: None,
        health: None,
        hazard: None,
        encounter: None,
        extraction_beacon: None,
        kinematic: None,
        navigation: None,
        player_controller: None,
        inventory: None,
        pickup: None,
        weapon: None,
        secret_region: None,
        level_exit: None,
    }
}

fn carrier(id: u64, capacity_slots: usize, stacks: Vec<(&str, u32)>) -> StoredEntityDefinition {
    let mut carrier = entity(id, "carrier");
    carrier.inventory = Some(StoredInventory {
        capacity_slots,
        starting_stacks: stacks
            .into_iter()
            .map(|(item, quantity)| StoredInventoryStack { item: item.to_string(), quantity })
            .collect(),
        initially_equipped_weapon: None,
        weapon_slots: vec![],
    });
    carrier
}

fn stray_pickup(id: u64, item: &str) -> StoredEntityDefinition {
    let mut pickup = entity(id, "pickup");
    pickup.pickup = Some(StoredPickup { item: item.to_string(), quantity: 1, starter_ammunition: None });
    pickup
}

fn with_entities(entities: Vec<StoredEntityDefinition>) -> StoredProject {
    let mut project = document();
    project.scenes[0].entities = entities;
    project
}

#[test]
fn documents_accept_entities_whose_inventories_pass() {
    assert!(validate(&with_entities(vec![carrier(1, 4, vec![("rounds", 30)])])).is_ok());
}

#[test]
fn documents_refuse_a_pickup_of_a_missing_item() {
    let refusal = validate(&with_entities(vec![entity(1, "root"), stray_pickup(2, "grenade")])).unwrap_err();
    assert_eq!(
        triple(refusal),
        (
            "project.missingItemDefinition".to_string(),
            "scenes[0].entities[1].pickup.item".to_string(),
            "pickup references missing item `grenade`".to_string()
        )
    );
}

#[test]
fn documents_refuse_an_inventory_beyond_the_slot_limit() {
    let refusal = validate(&with_entities(vec![carrier(1, 9, vec![])])).unwrap_err();
    assert_eq!(
        triple(refusal),
        (
            "project.invalidComponent".to_string(),
            "scenes[0].entities[0].inventory.capacitySlots".to_string(),
            "inventory capacity must be within the bounded slot limit".to_string()
        )
    );
    assert!(validate_stored_document(&with_entities(vec![carrier(1, 9, vec![])]), &limits(), 9, &document_facts()).is_ok());
}

#[test]
fn document_entities_are_checked_one_by_one_before_their_parents() {
    let mut unnamed = entity(2, " ");
    unnamed.parent = Some(7);
    let refusal = validate(&with_entities(vec![carrier(1, 0, vec![]), unnamed.clone()])).unwrap_err();
    assert_eq!(triple(refusal).1, "scenes[0].entities[0].inventory.capacitySlots");
    let refusal = validate(&with_entities(vec![entity(1, "root"), unnamed.clone()])).unwrap_err();
    assert_eq!(triple(refusal).1, "scenes[0].entities[1].name");
    let mut orphan = entity(2, "orphan");
    orphan.parent = Some(7);
    let refusal = validate(&with_entities(vec![orphan, stray_pickup(3, "grenade")])).unwrap_err();
    assert_eq!(triple(refusal).1, "scenes[0].entities[1].pickup.item");
}
