use loading_bay::stored_project::{
    StoredEntityDefinition, StoredInventory, StoredInventoryStack, StoredItemDefinition,
    StoredItemKind, StoredProject, StoredScene,
};
use loading_bay::weapon_authoring::{
    candidate_from_definition, check_request_size, check_response_size,
    loading_bay_weapon_owner_entity_ids, replace_definition, request_identity, require_common,
    resolve_weapon, LoadingBayWeaponAuthoringAttackMode, LoadingBayWeaponAuthoringCandidate,
    LoadingBayWeaponAuthoringCodecError, LoadingBayWeaponAuthoringRejectionCode,
    LoadingBayWeaponAuthoringRequest, LoadingBayWeaponAuthoringResponse,
    LoadingBayWeaponAuthoringService, LoadingBayWeaponAuthoringWeapon,
};

fn entity(id: u64, inventory: Option<StoredInventory>) -> StoredEntityDefinition {
    StoredEntityDefinition {
        id,
        name: format!("entity-{id}"),
        parent: None,
        child_order: 0,
        translation: None,
        rotation: [0, 0, 0, 0x3f80_0000],
        scale: [0x3f80_0000; 3],
        light: None,
        bounds: None,
        collision: None,
        renderable: None,
        door: None,
        switch: None,
        enemy: false,
        enemy_combat: None,
        defeat_drop: None,
        health: None,
        hazard: None,
        encounter: None,
        extraction_beacon: None,
        kinematic: None,
        navigation: None,
        player_controller: None,
        inventory,
        pickup: None,
        weapon: None,
        secret_region: None,
        level_exit: None,
    }
}

fn candidate(damage: u32) -> LoadingBayWeaponAuthoringCandidate {
    LoadingBayWeaponAuthoringCandidate {
        attack_mode: LoadingBayWeaponAuthoringAttackMode::Hitscan,
        damage,
        max_distance: 0x41a0_0000,
        cooldown_ticks: 6,
        ammunition_item_id: "shells".to_string(),
        ammunition_cost: 1,
        muzzle_offset: [0, 0, 0],
        presentation: "pistol".to_string(),
    }
}

fn project() -> StoredProject {
    let inventory = StoredInventory {
        capacity_slots: 4,
        starting_stacks: vec![
            StoredInventoryStack { item: "shells".to_string(), quantity: 20 },
            StoredInventoryStack { item: "pistol".to_string(), quantity: 1 },
        ],
        initially_equipped_weapon: Some("pistol".to_string()),
        weapon_slots: vec!["pistol".to_string(), "shotgun".to_string()],
    };
    let shotgun = LoadingBayWeaponAuthoringCandidate {
        attack_mode: LoadingBayWeaponAuthoringAttackMode::Spread {
            pellet_count: 7,
            spread_degrees: 0x4120_0000,
        },
        presentation: "shotgun".to_string(),
        ..candidate(10)
    };
    StoredProject {
        schema_version: 20,
        project_id: "loading-bay".to_string(),
        name: "Loading Bay".to_string(),
        entry_scene: "scene:main".to_string(),
        assets: vec![],
        item_definitions: vec![
            StoredItemDefinition {
                id: "pistol".to_string(),
                max_quantity: 1,
                kind: candidate(40).into_stored_kind(),
            },
            StoredItemDefinition {
                id: "shotgun".to_string(),
                max_quantity: 1,
                kind: shotgun.into_stored_kind(),
            },
            StoredItemDefinition {
                id: "shells".to_string(),
                max_quantity: 50,
                kind: StoredItemKind::Ammunition,
            },
        ],
        scenes: vec![StoredScene {
            id: "scene:main".to_string(),
            name: "Main".to_string(),
            voxel_environment: None,
            voxel_instances: vec![],
            voxel_object_instances: vec![],
            entities: vec![entity(10, Some(inventory)), entity(12, None)],
        }],
    }
}

#[test]
fn weapon_owners_follow_the_largest_entity_identity() {
    assert_eq!(loading_bay_weapon_owner_entity_ids(&project()).unwrap(), vec![13, 14]);
    let mut missing = project();
    missing.entry_scene = "scene:other".to_string();
    assert_eq!(
        loading_bay_weapon_owner_entity_ids(&missing).unwrap_err(),
        "entry scene is missing while resolving weapon inspector owners"
    );
}

#[test]
fn weapons_resolve_through_their_inventory_slot() {
    let project = project();
    let pistol = resolve_weapon(&project, 13).unwrap();
    assert_eq!(pistol.item_definition_id, "pistol");
    assert_eq!(pistol.binding.inventory_owner_entity_id, 10);
    assert_eq!(pistol.binding.slot_index, 0);
    assert_eq!(pistol.binding.starting_quantity, 1);
    assert!(pistol.binding.initially_equipped);
    assert_eq!(pistol.definition, candidate(40));
    let shotgun = resolve_weapon(&project, 14).unwrap();
    assert_eq!(shotgun.binding.starting_quantity, 0);
    assert!(!shotgun.binding.initially_equipped);
    let missing = resolve_weapon(&project, 99).unwrap_err();
    assert_eq!(missing.code, LoadingBayWeaponAuthoringRejectionCode::WeaponNotFound);
}

#[test]
fn a_replaced_weapon_reads_back_as_written() {
    let mut project = project();
    let replacement = LoadingBayWeaponAuthoringCandidate {
        attack_mode: LoadingBayWeaponAuthoringAttackMode::Automatic,
        ..candidate(55)
    };
    replace_definition(&mut project, "pistol", replacement.clone()).unwrap();
    let read = resolve_weapon(&project, 13).unwrap();
    assert_eq!(read.definition, replacement);
    assert_eq!(project.item_definitions[0].max_quantity, 1);
    assert_eq!(resolve_weapon(&project, 14).unwrap().item_definition_id, "shotgun");
    let missing = replace_definition(&mut project, "rifle", candidate(1)).unwrap_err();
    assert_eq!(missing.code, LoadingBayWeaponAuthoringRejectionCode::WeaponNotFound);
}

#[test]
fn candidates_round_trip_through_stored_kinds() {
    let definition = StoredItemDefinition {
        id: "pistol".to_string(),
        max_quantity: 1,
        kind: candidate(40).into_stored_kind(),
    };
    assert_eq!(candidate_from_definition(&definition), Some(candidate(40)));
    let ammunition = StoredItemDefinition {
        id: "shells".to_string(),
        max_quantity: 50,
        kind: StoredItemKind::Ammunition,
    };
    assert_eq!(candidate_from_definition(&ammunition), None);
}

#[test]
fn requests_are_checked_before_any_work() {
    let rejection = require_common(2, "req").unwrap_err();
    assert_eq!(rejection.code, LoadingBayWeaponAuthoringRejectionCode::UnsupportedContractVersion);
    assert_eq!(rejection.message, "contract version 2 is unsupported; expected 1");
    let rejection = require_common(1, "").unwrap_err();
    assert_eq!(rejection.code, LoadingBayWeaponAuthoringRejectionCode::InvalidRequestId);
    assert_eq!(rejection.path.as_deref(), Some("$.requestId"));
    assert!(require_common(1, "req").is_ok());
    let request = LoadingBayWeaponAuthoringRequest::ReadLoadingBayWeapon {
        contract_version: 1,
        request_id: "read-1".to_string(),
        expected_project_hash: "abc".to_string(),
        owner_entity_id: 13,
    };
    assert_eq!(request_identity(&request), (1, "read-1".to_string()));
}

#[test]
fn codec_bounds() {
    assert_eq!(
        check_request_size(16_385),
        Err(LoadingBayWeaponAuthoringCodecError::RequestTooLarge { actual: 16_385, limit: 16_384 })
    );
    assert!(check_request_size(16_384).is_ok());
    assert_eq!(check_response_size("{}".to_string()).unwrap(), "{}");
    let large = "x".repeat(32_769);
    assert_eq!(
        check_response_size(large),
        Err(LoadingBayWeaponAuthoringCodecError::ResponseTooLarge { actual: 32_769, limit: 32_768 })
    );
}

#[test]
fn rejections_answer_under_the_request_identity() {
    let response = LoadingBayWeaponAuthoringResponse::rejected(
        "req-9".to_string(),
        LoadingBayWeaponAuthoringRejectionCode::StaleProject,
        "stale".to_string(),
        None,
    );
    match response {
        LoadingBayWeaponAuthoringResponse::LoadingBayWeaponRejected {
            contract_version, request_id, rejection,
        } => {
            assert_eq!(contract_version, 1);
            assert_eq!(request_id, "req-9");
            assert_eq!(rejection.code, LoadingBayWeaponAuthoringRejectionCode::StaleProject);
        }
        other => panic!("unexpected response {other:?}"),
    }
}

#[test]
fn stale_component_revisions_are_refused() {
    let service = LoadingBayWeaponAuthoringService::new();
    assert!(service.check_component_revision("aa", "aa", true).is_ok());
    let rejection = service.check_component_revision("aa", "bb", false).unwrap_err();
    assert_eq!(rejection.code, LoadingBayWeaponAuthoringRejectionCode::StaleComponent);
    assert_eq!(rejection.message, "expected component revision aa, found bb");
}

#[test]
fn weapon_readout_carries_the_contract_identity() {
    let resolved = resolve_weapon(&project(), 13).unwrap();
    let weapon = LoadingBayWeaponAuthoringWeapon::from_resolved(resolved, "rev-1".to_string());
    assert_eq!(weapon.component_type_id, "rusty-engine-demo.loading-bay.weapon");
    assert_eq!(weapon.contract_id, "rusty-engine-demo.loading-bay.weapon-authoring");
    assert_eq!(weapon.owner_entity_id, 13);
    assert_eq!(weapon.component_revision, "rev-1");
}
