use loading_bay::studio_adapter::scene_edits::{delete_scene_object, rename_scene_object, reparent_scene_object};
use loading_bay::stored_project::voxel_budget::VoxelObjectCells;
use loading_bay::stored_project::{
    StoredAsset, StoredEntityDefinition, StoredImportSource, StoredProject, StoredProjectError,
    StoredScene, StoredVoxelMaterialBinding, StoredVoxelObjectMaterialOverride,
};
use loading_bay::studio_adapter::surface_mode::ensure_surface_mode_supported;
use loading_bay::stored_project::voxel_expansion::expand_voxel_asset;
use loading_bay::stored_project::StoredMaterialVoxel;
use loading_bay::studio_adapter::asset_import::{GltfSourceSizes, LoadedImportSource};
use loading_bay::studio_adapter::environment::{
    check_scene_revision, check_targets, install_environment_instance, require_scene_and_entities,
    set_entity_translation,
};
use loading_bay::studio_adapter::playback::player_rejection;
use loading_bay::studio_adapter::project::{
    domain_tags, entry_scene, render_asset_kind, revision_from_hash, stored_project_rejection,
    RenderAssetKind,
};
use loading_bay::studio_adapter::protocol::VoxelPickFace;
use loading_bay::studio_adapter::voxel::{
    authority_to_local, find_asset, find_scene, local_to_authority_address, pick_face,
    readout_face, require_asset_hash, Direction6,
};
use loading_bay::studio_adapter::voxel_fill::{filled_volume_runs, SparseRun};
use loading_bay::studio_adapter::scene_edits::{
    create_scene, delete_scene, rename_scene, set_entity_collision, set_entity_kinematic, set_entry_scene,
};
use loading_bay::studio_adapter::voxel_instances::{
    attach_voxel_instance, remove_voxel_instance, set_voxel_instance_transform,
};
use loading_bay::studio_adapter::voxel_history::{
    check_history_query, check_preview_samples, check_revert_project, hash_hex, leading_window,
    recent_window,
};

fn bare_entity(id: u64) -> StoredEntityDefinition {
    StoredEntityDefinition {
        id,
        name: "e".to_string(),
        parent: None,
        child_order: 0,
        translation: None,
        rotation: [0, 0, 0, 0x3f80_0000],
        scale: [0x3f80_0000; 3],
        light: None,
        bounds: None,
        collision: None,
        renderable: None,
        door: None,
        switch: None,
        enemy: false,
        enemy_combat: None,
        defeat_drop: None,
        health: None,
        hazard: None,
        encounter: None,
        extraction_beacon: None,
        kinematic: None,
        navigation: None,
        player_controller: None,
        inventory: None,
        pickup: None,
        weapon: None,
        secret_region: None,
        level_exit: None,
    }
}

fn project() -> StoredProject {
    StoredProject {
        schema_version: 20,
        project_id: "bay".to_string(),
        name: "Bay".to_string(),
        entry_scene: "scene:main".to_string(),
        assets: vec![StoredAsset {
            id: "voxel-volume:hangar".to_string(),
            catalog: None,
            import: None,
            voxel_volume: true,
            voxel_object: None,
            textured_material: false,
        }],
        item_definitions: vec![],
        scenes: vec![
            StoredScene {
                id: "scene:intro".to_string(),
                name: "Intro".to_string(),
                voxel_environment: None,
                voxel_instances: vec![],
                voxel_object_instances: vec![],
                entities: vec![],
            },
            StoredScene {
                id: "scene:main".to_string(),
                name: "Main".to_string(),
                voxel_environment: None,
                voxel_instances: vec![],
                voxel_object_instances: vec![],
                entities: vec![bare_entity(1)],
            },
        ],
    }
}

#[test]
fn lookups_find_the_named_asset_and_scene() {
    let project = project();
    assert_eq!(find_asset(&project, "voxel-volume:hangar").unwrap().id, "voxel-volume:hangar");
    let missing = find_asset(&project, "voxel-volume:annex").unwrap_err();
    assert_eq!(missing.code, "voxel.assetMissing");
    assert_eq!(missing.message, "project has no asset `voxel-volume:annex`");
    assert_eq!(find_scene(&project, "scene:intro").unwrap().name, "Intro");
    assert_eq!(find_scene(&project, "scene:x").unwrap_err().code, "voxel.sceneMissing");
    assert_eq!(entry_scene(&project).name, "Main");
}

#[test]
fn voxel_coordinates_map_through_the_grid_origin() {
    let address = local_to_authority_address([0, 0, 0], [9, 9, 9], [100, -5, 7], [1, 2, 3]).unwrap();
    assert_eq!(address, [101, -3, 10]);
    assert_eq!(authority_to_local([100, -5, 7], address).unwrap(), [1, 2, 3]);
    let outside =
        local_to_authority_address([0, 0, 0], [9, 9, 9], [0, 0, 0], [-1, 2, 10]).unwrap_err();
    assert_eq!(outside.code, "voxel.outOfBounds");
    assert_eq!(outside.message, "local voxel [-1, 2, 10] is outside the authored bounds");
    let overflow =
        local_to_authority_address([0, 0, 0], [9, 9, 9], [i64::MAX, 0, 0], [1, 0, 0]).unwrap_err();
    assert_eq!(overflow.code, "voxel.coordinateOverflow");
    assert_eq!(
        authority_to_local([1, 0, 0], [i64::MIN, 0, 0]).unwrap_err().message,
        "pick coordinate could not be mapped into asset-local space"
    );
    assert!(require_asset_hash("h1", "h1").is_ok());
    assert_eq!(
        require_asset_hash("h2", "h1").unwrap_err().message,
        "expected voxel asset hash h1, found h2"
    );
}

#[test]
fn faces_round_trip() {
    for face in [
        VoxelPickFace::NegativeX,
        VoxelPickFace::PositiveX,
        VoxelPickFace::NegativeY,
        VoxelPickFace::PositiveY,
        VoxelPickFace::NegativeZ,
        VoxelPickFace::PositiveZ,
    ] {
        assert_eq!(readout_face(pick_face(face)), face);
    }
    assert_eq!(pick_face(VoxelPickFace::PositiveY), Direction6::PosY);
}

#[test]
fn project_readout_pieces() {
    let mut entity = bare_entity(4);
    entity.enemy = true;
    assert_eq!(domain_tags(&entity), vec!["enemy".to_string()]);
    assert!(domain_tags(&bare_entity(5)).is_empty());
    assert_eq!(revision_from_hash([0, 0, 0, 0, 0, 0, 0, 0]), 1);
    assert_eq!(revision_from_hash([0, 0, 0, 0, 0, 0, 1, 2]), 258);
    assert_eq!(revision_from_hash([0xff; 8]), (1u64 << 53) - 1);
    assert_eq!(render_asset_kind(RenderAssetKind::SpriteAtlas), "spriteAtlas");
    let error =
        StoredProjectError::new("project.invalidValue", "scenes[0].name".to_string(), "empty".to_string());
    let rejection = stored_project_rejection(&error);
    assert_eq!(rejection.code, "project.invalidValue");
    assert_eq!(rejection.path.as_deref(), Some("scenes[0].name"));
    assert_eq!(rejection.message, "empty");
    assert_eq!(player_rejection("clip missing").code, "voxelObject.playbackRejected");
}

#[test]
fn loaded_sources_count_their_closure() {
    let plain = LoadedImportSource {
        stored: StoredImportSource::Project { path: "crate.obj".to_string() },
        byte_len: 42,
        gltf: None,
    };
    assert_eq!(plain.source_byte_count(), 42);
    let gltf = LoadedImportSource {
        stored: StoredImportSource::Project { path: "crate.gltf".to_string() },
        byte_len: 42,
        gltf: Some(GltfSourceSizes { root_json_len: 42, resource_lens: vec![100, 8] }),
    };
    assert_eq!(gltf.source_byte_count(), 150);
}

#[test]
fn history_hashes_are_written_as_sixteen_hex_digits() {
    for value in [0u64, 1, 0xabc, 0xdead_beef_0123_4567, u64::MAX] {
        assert_eq!(hash_hex(value), format!("{value:016x}"));
    }
}

#[test]
fn history_queries_are_bounded() {
    assert_eq!(
        check_history_query(0, 10).unwrap_err().message,
        "maxEntries must be between 1 and 512"
    );
    assert_eq!(
        check_history_query(10, 4097).unwrap_err().message,
        "maxDeltasPerEntry must be between 1 and 4096"
    );
    assert!(check_history_query(512, 4096).is_ok());
    assert_eq!(check_preview_samples(4097).unwrap_err().message, "maxSamples exceeds 4096");
    assert!(check_preview_samples(0).is_ok());
    assert_eq!(
        check_revert_project("a", "b").unwrap_err().code,
        "voxel.historyPreviewStale"
    );
    assert_eq!(recent_window(10, 4), (6, true));
    assert_eq!(recent_window(3, 4), (0, false));
    assert_eq!(leading_window(10, 4), (4, true));
    assert_eq!(leading_window(3, 4), (3, false));
}

fn voxel_instance(id: &str, asset: &str, x: u32) -> loading_bay::stored_project::StoredVoxelInstance {
    loading_bay::stored_project::StoredVoxelInstance {
        instance_id: id.to_string(),
        voxel_asset_id: asset.to_string(),
        translation: [x, 0, 0],
        rotation: [0, 0, 0, 0x3f80_0000],
        scale: [0x3f80_0000; 3],
    }
}

#[test]
fn environments_install_into_their_scene() {
    let mut project = project();
    assert_eq!(check_targets(3, 3).unwrap_err().code, "environment.invalidTarget");
    assert!(check_targets(3, 4).is_ok());
    assert_eq!(
        check_scene_revision(7, 8).unwrap_err().message,
        "expected scene revision 7, found 8"
    );
    assert!(require_scene_and_entities(&project, "scene:main", 1, 1).is_ok());
    assert_eq!(
        require_scene_and_entities(&project, "scene:main", 1, 9).unwrap_err().message,
        "exit target entity 9 is absent from scene `scene:main`"
    );
    assert_eq!(
        require_scene_and_entities(&project, "scene:none", 1, 1).unwrap_err().message,
        "scene `scene:none` is absent"
    );
    let scene = &mut project.scenes[1];
    install_environment_instance(scene, voxel_instance("env", "voxel-volume:hangar", 1)).unwrap();
    install_environment_instance(scene, voxel_instance("env", "voxel-volume:hangar", 2)).unwrap();
    assert_eq!(scene.voxel_instances.len(), 1);
    assert_eq!(scene.voxel_instances[0].translation, [2, 0, 0]);
    let conflict =
        install_environment_instance(scene, voxel_instance("env", "voxel-volume:other", 3)).unwrap_err();
    assert_eq!(conflict.code, "environment.targetConflict");
    assert_eq!(conflict.message, "instance `env` targets another voxel asset");
    set_entity_translation(scene, 1, [5, 6, 7]).unwrap();
    assert_eq!(scene.entities[0].translation, Some([5, 6, 7]));
    assert_eq!(
        set_entity_translation(scene, 2, [0, 0, 0]).unwrap_err().message,
        "target entity 2 disappeared during publication"
    );
}

#[test]
fn initial_volumes_are_filled_row_by_row() {
    let runs = filled_volume_runs([0, 0, 0], [2, 1, 1], 3, 100).unwrap();
    let starts: Vec<[i64; 3]> = runs.iter().map(|run| run.start).collect();
    assert_eq!(starts, vec![[0, 0, 0], [0, 1, 0], [0, 0, 1], [0, 1, 1]]);
    assert!(runs.iter().all(|run| *run == SparseRun { start: run.start, length: 3, material_slot: 3 }));
    assert_eq!(
        filled_volume_runs([1, 0, 0], [0, 0, 0], 3, 100).unwrap_err().message,
        "initial voxel volume represents 0 cells; limit is 100"
    );
    assert_eq!(
        filled_volume_runs([2, 0, 0], [0, 0, 0], 3, 100).unwrap_err().message,
        "initial voxel bounds must be ordered on every axis"
    );
    assert_eq!(
        filled_volume_runs([i64::MIN, 0, 0], [i64::MAX, 0, 0], 3, 100).unwrap_err().message,
        "initial voxel bounds must be ordered with a representable extent"
    );
    assert_eq!(
        filled_volume_runs([0, 0, 0], [9, 9, 9], 3, 999).unwrap_err().message,
        "initial voxel volume represents 1000 cells; limit is 999"
    );
}

#[test]
fn voxel_instances_are_attached_moved_and_removed() {
    let mut project = project();
    let pristine = project.clone();
    let missing = attach_voxel_instance(&mut project, "scene:none", voxel_instance("a", "voxel-volume:hangar", 1))
        .unwrap_err();
    assert_eq!(missing.code, "voxel.sceneMissing");
    assert_eq!(missing.message, "project has no scene `scene:none`");
    assert_eq!(project, pristine);

    attach_voxel_instance(&mut project, "scene:main", voxel_instance("a", "voxel-volume:hangar", 1)).unwrap();
    attach_voxel_instance(&mut project, "scene:main", voxel_instance("b", "voxel-volume:hangar", 2)).unwrap();
    let ids: Vec<&str> = project.scenes[1].voxel_instances.iter().map(|i| i.instance_id.as_str()).collect();
    assert_eq!(ids, vec!["a", "b"]);
    assert!(project.scenes[0].voxel_instances.is_empty());
    let exists = attach_voxel_instance(&mut project, "scene:main", voxel_instance("a", "voxel-volume:hangar", 9))
        .unwrap_err();
    assert_eq!(exists.code, "voxel.instanceExists");
    assert_eq!(exists.message, "instance `a` already exists");
    assert_eq!(project.scenes[1].voxel_instances.len(), 2);

    set_voxel_instance_transform(&mut project, "scene:main", "b", [7, 8, 9], [1, 2, 3, 4], [5, 5, 5]).unwrap();
    let moved = &project.scenes[1].voxel_instances[1];
    assert_eq!((moved.translation, moved.rotation, moved.scale), ([7, 8, 9], [1, 2, 3, 4], [5, 5, 5]));
    assert_eq!(moved.voxel_asset_id, "voxel-volume:hangar");
    assert_eq!(project.scenes[1].voxel_instances[0].translation, [1, 0, 0]);
    let absent = set_voxel_instance_transform(&mut project, "scene:main", "z", [0; 3], [0; 4], [0; 3]).unwrap_err();
    assert_eq!(absent.code, "voxel.instanceMissing");
    assert_eq!(absent.message, "scene has no voxel instance `z`");

    remove_voxel_instance(&mut project, "scene:main", "a").unwrap();
    let ids: Vec<&str> = project.scenes[1].voxel_instances.iter().map(|i| i.instance_id.as_str()).collect();
    assert_eq!(ids, vec!["b"]);
    assert_eq!(remove_voxel_instance(&mut project, "scene:main", "a").unwrap_err().code, "voxel.instanceMissing");
}

#[test]
fn attaching_then_removing_restores_the_scene() {
    let mut project = project();
    attach_voxel_instance(&mut project, "scene:main", voxel_instance("a", "voxel-volume:hangar", 1)).unwrap();
    let before = project.clone();
    attach_voxel_instance(&mut project, "scene:main", voxel_instance("b", "voxel-volume:hangar", 2)).unwrap();
    remove_voxel_instance(&mut project, "scene:main", "b").unwrap();
    assert_eq!(project, before);
}

#[test]
fn scenes_are_created_renamed_and_deleted() {
    let mut project = project();
    let pristine = project.clone();
    let duplicate = create_scene(&mut project, "scene:main".to_string(), "Again".to_string(), false).unwrap_err();
    assert_eq!(duplicate.code, "project.duplicateScene");
    assert_eq!(duplicate.message, "scene `scene:main` already exists");
    assert_eq!(project, pristine);

    create_scene(&mut project, "scene:outro".to_string(), "Outro".to_string(), false).unwrap();
    assert_eq!(project.scenes.len(), 3);
    assert_eq!(project.scenes[2].id, "scene:outro");
    assert_eq!(project.scenes[2].name, "Outro");
    assert!(project.scenes[2].entities.is_empty());
    assert_eq!(project.entry_scene, "scene:main");
    delete_scene(&mut project, "scene:outro").unwrap();
    assert_eq!(project, pristine);

    rename_scene(&mut project, "scene:intro", "Prologue".to_string()).unwrap();
    assert_eq!(project.scenes[0].name, "Prologue");
    assert_eq!(project.scenes[0].id, "scene:intro");
    let missing = rename_scene(&mut project, "scene:none", "X".to_string()).unwrap_err();
    assert_eq!(missing.code, "project.missingScene");
    assert_eq!(missing.message, "scene `scene:none` does not exist");

    let entry = delete_scene(&mut project, "scene:main").unwrap_err();
    assert_eq!(entry.code, "project.entrySceneDeletion");
    assert_eq!(entry.message, "select another entry scene before deleting this scene");
    assert_eq!(delete_scene(&mut project, "scene:none").unwrap_err().code, "project.missingScene");

    create_scene(&mut project, "scene:new".to_string(), "New".to_string(), true).unwrap();
    assert_eq!(project.entry_scene, "scene:new");
    set_entry_scene(&mut project, "scene:main".to_string()).unwrap();
    assert_eq!(project.entry_scene, "scene:main");
    assert_eq!(set_entry_scene(&mut project, "scene:gone".to_string()).unwrap_err().code, "project.missingScene");
    delete_scene(&mut project, "scene:intro").unwrap();
    let ids: Vec<&str> = project.scenes.iter().map(|scene| scene.id.as_str()).collect();
    assert_eq!(ids, vec!["scene:main", "scene:new"]);
}

#[test]
fn entry_scene_entities_take_collision_and_kinematic_edits() {
    let mut project = project();
    let collision = loading_bay::stored_project::StoredCollision { enabled: true, static_collider: false };
    set_entity_collision(&mut project, 1, Some(collision)).unwrap();
    assert_eq!(project.scenes[1].entities[0].collision, Some(collision));
    let kinematic = loading_bay::stored_project::StoredKinematic { half_extents: [1, 2, 3], velocity: [0; 3] };
    set_entity_kinematic(&mut project, 1, Some(kinematic)).unwrap();
    assert_eq!(project.scenes[1].entities[0].kinematic, Some(kinematic));
    set_entity_collision(&mut project, 1, None).unwrap();
    assert_eq!(project.scenes[1].entities[0].collision, None);
    let missing = set_entity_kinematic(&mut project, 7, None).unwrap_err();
    assert_eq!(missing.code, "project.missingEntity");
    assert_eq!(missing.message, "entry scene has no entity 7");
}

#[test]
fn scene_objects_are_renamed_reparented_and_deleted() {
    let mut project = project();
    project.scenes[1].entities.push(bare_entity(2));
    project.scenes[1].entities.push(bare_entity(3));
    rename_scene_object(&mut project, 2, "crate".to_string()).unwrap();
    assert_eq!(project.scenes[1].entities[1].name, "crate");
    reparent_scene_object(&mut project, 3, Some(2), 4).unwrap();
    assert_eq!(project.scenes[1].entities[2].parent, Some(2));
    assert_eq!(project.scenes[1].entities[2].child_order, 4);
    assert_eq!(rename_scene_object(&mut project, 9, "x".to_string()).unwrap_err().message, "entry scene has no entity 9");
    let removed = delete_scene_object(&mut project, &vec![3, 1]);
    assert_eq!(removed, 1);
    let ids: Vec<u64> = project.scenes[1].entities.iter().map(|entity| entity.id).collect();
    assert_eq!(ids, vec![1, 3]);
}

fn surface_project(textured: bool) -> StoredProject {
    let mut project = project();
    let binding = |slot: u16, material: &str| StoredVoxelMaterialBinding {
        material_slot: slot,
        material_asset_id: material.to_string(),
    };
    project.assets.push(StoredAsset {
        id: "voxel-object:crate".to_string(),
        catalog: None,
        import: None,
        voxel_volume: false,
        voxel_object: Some(VoxelObjectCells {
            asset_id: "voxel-object:crate".to_string(),
            frames: vec![vec![4]],
            material_palette: vec![binding(1, "material:steel"), binding(2, "material:rust")],
        }),
        textured_material: false,
    });
    for (id, is_textured) in [("material:steel", textured), ("material:rust", false), ("material:tile", true)] {
        project.assets.push(StoredAsset {
            id: id.to_string(),
            catalog: None,
            import: None,
            voxel_volume: false,
            voxel_object: None,
            textured_material: is_textured,
        });
    }
    project
}

#[test]
fn reconstructed_surface_rejects_an_effective_textured_material() {
    let project = surface_project(true);
    let rejected =
        ensure_surface_mode_supported(&project, "voxel-object:crate", &vec![], false, "marchingCubes").unwrap_err();
    assert_eq!(rejected.code, "voxelObject.surfaceTextureUnsupported");
}

#[test]
fn surface_modes_follow_the_materials_an_instance_shows() {
    let plain = surface_project(false);
    assert!(ensure_surface_mode_supported(&plain, "voxel-object:crate", &vec![], false, "marchingCubes").is_ok());
    let tiled = vec![StoredVoxelObjectMaterialOverride { material_slot: 2, material_asset_id: "material:tile".to_string() }];
    let rejected = ensure_surface_mode_supported(&plain, "voxel-object:crate", &tiled, false, "marchingCubes").unwrap_err();
    assert_eq!(rejected.code, "voxelObject.surfaceTextureUnsupported");
    assert_eq!(rejected.message, "marchingCubes has no stable UV contract for a textured voxel-object material");
    assert!(rejected.path.is_none());
    assert!(ensure_surface_mode_supported(&plain, "voxel-object:crate", &tiled, true, "cubes").is_ok());
    let textured = surface_project(true);
    let covered = vec![StoredVoxelObjectMaterialOverride { material_slot: 1, material_asset_id: "material:rust".to_string() }];
    assert!(ensure_surface_mode_supported(&textured, "voxel-object:crate", &covered, false, "marchingCubes").is_ok());
    let missing = ensure_surface_mode_supported(&plain, "material:steel", &vec![], false, "marchingCubes").unwrap_err();
    assert_eq!(missing.code, "voxelObject.assetMissing");
    assert_eq!(missing.message, "project has no voxel-object asset `material:steel`");
    let absent = ensure_surface_mode_supported(&plain, "voxel-object:barrel", &vec![], false, "marchingCubes").unwrap_err();
    assert_eq!(absent.message, "project has no voxel-object asset `voxel-object:barrel`");
}

#[test]
fn voxel_assets_expand_to_ordered_material_voxels() {
    let run = |start: [i64; 3], length: u32, material_slot: u16| SparseRun { start, length, material_slot };
    let voxel = |address: [i64; 3], material_slot: u16| StoredMaterialVoxel { address, material_slot };
    let voxels = expand_voxel_asset([10, 0, -5], &vec![run([2, 1, 1], 2, 3), run([0, 0, 0], 1, 1)]).unwrap();
    assert_eq!(voxels, vec![voxel([10, 0, -5], 1), voxel([12, 1, -4], 3), voxel([13, 1, -4], 3)]);
    assert!(expand_voxel_asset([0, 0, 0], &vec![]).unwrap().is_empty());
    let past_the_axis = expand_voxel_asset([0, 0, 0], &vec![run([i64::MAX, 0, 0], 2, 1)]).unwrap_err();
    assert_eq!(past_the_axis.diagnostic().code, "project.invalidVoxelAsset");
    assert_eq!(past_the_axis.diagnostic().path, "representation");
    assert_eq!(past_the_axis.diagnostic().message, "sparse run overflowed");
    let moved_off = expand_voxel_asset([1, 0, 0], &vec![run([i64::MAX, 0, 0], 2, 1)]).unwrap_err();
    assert_eq!(moved_off.diagnostic().path, "grid.origin");
    assert_eq!(moved_off.diagnostic().message, "voxel origin mapping overflowed");
    let low = expand_voxel_asset([0, i64::MIN, 0], &vec![run([0, 0, 0], 1, 1), run([0, -1, 0], 1, 1)]).unwrap_err();
    assert_eq!(low.diagnostic().path, "grid.origin");
}
