use loading_bay::stored_project::voxel_budget::VoxelObjectCells;
use loading_bay::stored_project::{
    StoredAsset, StoredVoxelMaterialBinding, StoredEntityDefinition, StoredProject, StoredScene, StoredVoxelObjectFrameSelection, StoredVoxelObjectInstance,
    STORED_PROJECT_SCHEMA_VERSION,
};
use loading_bay::studio_adapter::voxel_object_batch::{
    attach_voxel_object_instances, VoxelObjectPlacement, JSON_SAFE_INTEGER_MAX,
};

fn entity(id: u64, parent: Option<u64>, child_order: u32) -> StoredEntityDefinition {
    StoredEntityDefinition {
        id,
        name: format!("entity-{id}"),
        parent,
        child_order,
        translation: None,
        rotation: [0, 0, 0, 0x3f80_0000],
        scale: [0x3f80_0000; 3],
        light: None,
        bounds: None,
        collision: None,
        renderable: None,
        door: None,
        switch: None,
        enemy: false,
        enemy_combat: None,
        defeat_drop: None,
        health: None,
        hazard: None,
        encounter: None,
        extraction_beacon: None,
        kinematic: None,
        navigation: None,
        player_controller: None,
        inventory: None,
        pickup: None,
        weapon: None,
        secret_region: None,
        level_exit: None,
    }
}

fn instance(id: &str, frame: StoredVoxelObjectFrameSelection) -> StoredVoxelObjectInstance {
    StoredVoxelObjectInstance {
        instance_id: id.to_string(),
        voxel_object_asset_id: "voxel-object:crate".to_string(),
        frame,
        translation: [0x4000_0000, 0, 0],
        rotation: [0, 0, 0, 0x3f80_0000],
        scale: [0x3f80_0000; 3],
        material_overrides: vec![],
    }
}

fn scene(id: &str, entities: Vec<StoredEntityDefinition>) -> StoredScene {
    StoredScene {
        id: id.to_string(),
        name: id.to_string(),
        voxel_environment: None,
        voxel_instances: vec![],
        voxel_object_instances: vec![],
        entities,
    }
}

fn project() -> StoredProject {
    let mut hangar = scene("scene:hangar", vec![entity(4, None, 2), entity(9, Some(4), 7), entity(2, None, 0)]);
    hangar.voxel_object_instances.push(instance("old-crate", StoredVoxelObjectFrameSelection::Default));
    StoredProject {
        schema_version: STORED_PROJECT_SCHEMA_VERSION,
        project_id: "loading-bay".to_string(),
        name: "Loading Bay".to_string(),
        entry_scene: "scene:hangar".to_string(),
        assets: vec![],
        item_definitions: vec![],
        scenes: vec![hangar, scene("scene:yard", vec![entity(12, None, 5)]), scene("scene:empty", vec![])],
    }
}

fn placement(scene_id: &str, instance: StoredVoxelObjectInstance) -> VoxelObjectPlacement {
    VoxelObjectPlacement {
        scene_id: scene_id.to_string(),
        instance,
        surface_mode_is_default: true,
        surface_mode_name: "cubes".to_string(),
    }
}

fn place(scene_id: &str, id: &str) -> VoxelObjectPlacement {
    placement(scene_id, instance(id, StoredVoxelObjectFrameSelection::Default))
}

#[test]
fn a_batch_gets_fresh_owners_as_the_last_roots() {
    let mut project = project();
    let clip = StoredVoxelObjectFrameSelection::Clip { clip_id: "spin".to_string(), frame_index: 1 };
    let placements = vec![
        place("scene:hangar", "crate-a"),
        placement("scene:empty", instance("crate-b", clip)),
        place("scene:hangar", "crate-c"),
    ];
    let receipts = attach_voxel_object_instances(&mut project, placements, 8).unwrap();
    let owners: Vec<u64> = receipts.iter().map(|receipt| receipt.owner_entity_id).collect();
    assert_eq!(owners, vec![13, 14, 15]);
    assert_eq!(receipts[1].frame_kind, "clip");
    assert_eq!(receipts[0].frame_kind, "default");
    assert_eq!(receipts[2].scene_id, "scene:hangar");
    let hangar = &project.scenes[0];
    assert_eq!(hangar.entities.len(), 5);
    assert_eq!((hangar.entities[3].id, hangar.entities[3].child_order, hangar.entities[3].parent), (13, 3, None));
    assert_eq!((hangar.entities[4].id, hangar.entities[4].child_order), (15, 4));
    assert_eq!(hangar.entities[3].name, "crate-a");
    assert_eq!(hangar.entities[3].translation, Some([0x4000_0000, 0, 0]));
    let ids: Vec<&str> = hangar.voxel_object_instances.iter().map(|instance| instance.instance_id.as_str()).collect();
    assert_eq!(ids, vec!["old-crate", "crate-a", "crate-c"]);
    let empty = &project.scenes[2];
    assert_eq!((empty.entities[0].id, empty.entities[0].child_order), (14, 0));
    assert_eq!(project.scenes[1].entities.len(), 1);
}

#[test]
fn refused_batches_leave_the_project_unchanged() {
    let cases: Vec<(Vec<VoxelObjectPlacement>, usize, &str, &str)> = vec![
        (vec![], 8, "voxelObject.invalidPlacementBatch", "voxel-object placement batch must contain 1..=8 entries"),
        (
            vec![place("scene:yard", "a"), place("scene:yard", "b")],
            1,
            "voxelObject.invalidPlacementBatch",
            "voxel-object placement batch must contain 1..=1 entries",
        ),
        (
            vec![place("scene:yard", "a"), place("scene:yard", "b"), place("scene:hangar", "a")],
            8,
            "voxelObject.duplicatePlacementIdentity",
            "placements[2] repeats instance identity `a`",
        ),
        (
            vec![place("scene:yard", "a"), place("scene:yard", "old-crate")],
            8,
            "voxelObject.instanceIdentityCollision",
            "placements[1] collides with existing instance `old-crate`",
        ),
        (
            vec![place("scene:yard", "a"), place("scene:attic", "b")],
            8,
            "project.missingScene",
            "placements[1] references missing scene `scene:attic`",
        ),
    ];
    for (placements, max_batch, code, message) in cases {
        let mut project = project();
        let refusal = attach_voxel_object_instances(&mut project, placements, max_batch).unwrap_err();
        assert_eq!(refusal.code, code);
        assert_eq!(refusal.message, message);
        assert_eq!(project, self::project());
    }
}

#[test]
fn owner_identities_and_orders_can_run_out() {
    let mut crowded = project();
    crowded.scenes[1].entities.push(entity(JSON_SAFE_INTEGER_MAX - 1, None, 0));
    let before = crowded.clone();
    let refusal =
        attach_voxel_object_instances(&mut crowded, vec![place("scene:yard", "a"), place("scene:yard", "b")], 8)
            .unwrap_err();
    assert_eq!(refusal.code, "voxelObject.ownerIdentityExhausted");
    assert_eq!(refusal.message, "placements[1] cannot allocate another JSON-safe entity owner");
    assert_eq!(crowded, before);

    let mut ordered = project();
    ordered.scenes[1].entities.push(entity(30, None, u32::MAX - 1));
    let before = ordered.clone();
    let refusal =
        attach_voxel_object_instances(&mut ordered, vec![place("scene:yard", "a"), place("scene:yard", "b")], 8)
            .unwrap_err();
    assert_eq!(refusal.code, "voxelObject.ownerOrderExhausted");
    assert_eq!(refusal.message, "placements[1] cannot allocate another root hierarchy order");
    assert_eq!(ordered, before);
}

fn textured_project() -> StoredProject {
    let mut project = project();
    project.assets = vec![
        StoredAsset {
            id: "voxel-object:crate".to_string(),
            catalog: None,
            import: None,
            voxel_volume: false,
            voxel_object: Some(VoxelObjectCells {
                asset_id: "voxel-object:crate".to_string(),
                frames: vec![vec![1]],
                material_palette: vec![StoredVoxelMaterialBinding {
                    material_slot: 0,
                    material_asset_id: "material:tile".to_string(),
                }],
            }),
            textured_material: false,
        },
        StoredAsset {
            id: "material:tile".to_string(),
            catalog: None,
            import: None,
            voxel_volume: false,
            voxel_object: None,
            textured_material: true,
        },
    ];
    project
}

#[test]
fn batches_refuse_reconstructed_surfaces_over_textured_materials() {
    let mut project = textured_project();
    let unchanged = project.clone();
    let mut smooth = place("scene:hangar", "crate-b");
    smooth.surface_mode_is_default = false;
    smooth.surface_mode_name = "marchingCubes".to_string();
    let refusal = attach_voxel_object_instances(&mut project, vec![place("scene:yard", "crate-a"), smooth], 8).unwrap_err();
    assert_eq!(refusal.code, "voxelObject.surfaceTextureUnsupported");
    assert_eq!(refusal.message, "marchingCubes has no stable UV contract for a textured voxel-object material");
    assert_eq!(project, unchanged);

    let mut lost = place("scene:nowhere", "crate-a");
    lost.surface_mode_is_default = false;
    lost.instance.voxel_object_asset_id = "voxel-object:barrel".to_string();
    let refusal = attach_voxel_object_instances(&mut project, vec![lost, place("scene:nowhere", "crate-b")], 8).unwrap_err();
    assert_eq!(refusal.code, "voxelObject.assetMissing");
    assert_eq!(project, unchanged);

    let refusal = attach_voxel_object_instances(&mut project, vec![place("scene:nowhere", "crate-a")], 8).unwrap_err();
    assert_eq!(refusal.code, "project.missingScene");
    assert!(attach_voxel_object_instances(&mut project, vec![place("scene:yard", "crate-a")], 8).is_ok());
}
