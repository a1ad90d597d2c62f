use loading_bay::snapshot::{
    EnemyCombatSnapshot, NavigationSnapshot, SnapshotEnemyAttackKind, SnapshotEnemyCombatPosture,
    SnapshotNavigationState, PlayerControllerSnapshot, PlayerInputBindingsSnapshot,
};
use loading_bay::snapshot::{
    InventoryStackSnapshot, PickupSnapshot, SnapshotPickupCollectionCause, SnapshotPickupState,
};
use loading_bay::snapshot::{
    EnemySnapshot, GameSnapshot, GameSnapshotError, HazardSnapshot, HealthSnapshot, ItemDefinitionSnapshot,
    SnapshotEnemyState, SnapshotItemKind, SnapshotVitalityState, WeaponSnapshot,
    GAME_SNAPSHOT_SCHEMA_VERSION,
};
use loading_bay::snapshot_restoration::{
    check_enemy_combat, check_hazards, check_health, check_navigations, check_pickups, check_player_controllers, check_snapshot_restoration,
    RestorationObservations,
};
use loading_bay::snapshot_restore::EntityCapabilities;

fn snapshot(schema_version: u32) -> GameSnapshot {
    GameSnapshot {
        schema_version,
        tick: 40,
        item_definitions: vec![],
        voxel_collision: None,
        doors: vec![],
        switches: vec![],
        extraction_beacons: vec![],
        controls: vec![],
        enemies: vec![],
        enemy_combat: vec![],
        enemy_drops: vec![],
        health: vec![],
        hazards: vec![],
        encounters: vec![],
        navigations: vec![],
        player_controllers: vec![],
        inventories: vec![],
        pickups: vec![],
        weapons: vec![],
        progression: None,
        scheduled: vec![],
    }
}

fn body(entity: u64) -> EntityCapabilities {
    EntityCapabilities { entity, transform: true, collision: true, renderable: true, bounds: true, kinematic: true, active: true, tombstoned: false, visible: true }
}

fn health(entity: u64, current: u32) -> HealthSnapshot {
    HealthSnapshot {
        entity,
        current,
        max: 100,
        hitbox_half_extents: [1, 1, 1],
        max_armor: 50,
        armor_absorption_percent: 40,
        armor: 0,
        armor_item: None,
        state: None,
    }
}

fn armor_definition(id: &str) -> ItemDefinitionSnapshot {
    ItemDefinitionSnapshot { id: id.to_string(), max_quantity: 5, kind: SnapshotItemKind::Armor { protection: 25 } }
}

fn hazard(entity: u64, cooldown_ticks: u64, ready_at_tick: u64) -> HazardSnapshot {
    HazardSnapshot { entity, damage: 5, cooldown_ticks, ready_at_tick }
}

fn observe(snapshot: &GameSnapshot, entities: Vec<EntityCapabilities>) -> RestorationObservations {
    RestorationObservations {
        entities,
        beacon_radius_valid: vec![true; snapshot.extraction_beacons.len()],
        encounter_radius_in_range: vec![true; snapshot.encounters.len()],
        health_hitbox_valid: vec![true; snapshot.health.len()],
        armor_item_id_valid: vec![true; snapshot.health.len()],
        hazard_config_valid: vec![true; snapshot.hazards.len()],
        max_hazard_cooldown_ticks: 600,
        navigation_config_valid: vec![true; snapshot.navigations.len()],
        enemy_combat_config_valid: vec![true; snapshot.enemy_combat.len()],
        controller_config_valid: vec![true; snapshot.player_controllers.len()],
        max_trigger_definitions: 64,
        pickup_triggers: false,
        hazard_triggers: false,
    }
}

#[test]
fn consistent_health_entries_are_accepted() {
    let mut worn = health(2, 80);
    worn.armor = 10;
    worn.armor_item = Some("vest".to_string());
    worn.state = Some(SnapshotVitalityState::Alive);
    let mut fallen = health(3, 0);
    fallen.state = Some(SnapshotVitalityState::Dead);
    let entries = vec![health(1, 100), worn, fallen];
    let result = check_health(
        &entries,
        &vec![body(1), body(2), body(3)],
        &vec![armor_definition("vest")],
        &vec![true, true, true],
        &vec![true, true, true],
    );
    assert_eq!(result, Ok(()));
}

#[test]
fn health_entries_are_refused_in_order() {
    let items = vec![armor_definition("vest")];
    let duplicate = check_health(
        &vec![health(1, 10), health(1, 10)],
        &vec![body(1)],
        &items,
        &vec![true, true],
        &vec![true, true],
    );
    assert_eq!(duplicate, Err(GameSnapshotError::DuplicateHealth { entity: 1 }));

    let unknown = check_health(&vec![health(4, 10)], &vec![body(1)], &items, &vec![true], &vec![true]);
    assert_eq!(unknown, Err(GameSnapshotError::UnknownHealthEntity { entity: 4 }));

    let mut flat = body(1);
    flat.collision = false;
    let missing = check_health(&vec![health(1, 10)], &vec![flat], &items, &vec![true], &vec![true]);
    assert_eq!(missing, Err(GameSnapshotError::MissingHealthCapability { entity: 1 }));

    let mut named = health(1, 10);
    named.armor = 5;
    named.armor_item = Some("Bad Id".to_string());
    let malformed = check_health(&vec![named], &vec![body(1)], &items, &vec![true], &vec![false]);
    assert_eq!(malformed, Err(GameSnapshotError::InvalidItemDefinitionId { value: "Bad Id".to_string() }));
}

#[test]
fn inconsistent_health_values_are_invalid_configs() {
    let items = vec![
        armor_definition("vest"),
        ItemDefinitionSnapshot { id: "medkit".to_string(), max_quantity: 3, kind: SnapshotItemKind::HealthSupply { restore_health: 20 } },
    ];
    let invalid = |entry: HealthSnapshot, hitbox: bool| {
        check_health(&vec![entry], &vec![body(7)], &items, &vec![hitbox], &vec![true])
    };
    let refused = Err(GameSnapshotError::InvalidHealthConfig { entity: 7 });

    assert_eq!(invalid(health(7, 101), true), refused);
    assert_eq!(invalid(health(7, 10), false), refused);

    let mut no_max = health(7, 0);
    no_max.max = 0;
    assert_eq!(invalid(no_max, true), refused);

    let mut absorbing_nothing = health(7, 10);
    absorbing_nothing.max_armor = 0;
    assert_eq!(invalid(absorbing_nothing.clone(), true), refused);
    absorbing_nothing.armor_absorption_percent = 0;
    assert_eq!(invalid(absorbing_nothing, true), Ok(()));

    let mut over_armored = health(7, 10);
    over_armored.armor = 51;
    over_armored.armor_item = Some("vest".to_string());
    assert_eq!(invalid(over_armored, true), refused);

    let mut bare = health(7, 10);
    bare.armor = 5;
    assert_eq!(invalid(bare, true), refused);

    let mut wrong_item = health(7, 10);
    wrong_item.armor = 5;
    wrong_item.armor_item = Some("medkit".to_string());
    assert_eq!(invalid(wrong_item, true), refused);

    let mut undefined_item = health(7, 10);
    undefined_item.armor = 5;
    undefined_item.armor_item = Some("plate".to_string());
    assert_eq!(invalid(undefined_item, true), refused);

    let mut itemless_wear = health(7, 10);
    itemless_wear.armor_item = Some("vest".to_string());
    assert_eq!(invalid(itemless_wear, true), refused);

    let mut dead_with_health = health(7, 10);
    dead_with_health.state = Some(SnapshotVitalityState::Dead);
    assert_eq!(invalid(dead_with_health, true), refused);

    let mut alive_without_health = health(7, 0);
    alive_without_health.state = Some(SnapshotVitalityState::Alive);
    assert_eq!(invalid(alive_without_health, true), refused);

    assert_eq!(invalid(health(7, 0), true), Ok(()));
}

#[test]
fn hazards_are_checked_against_capabilities_and_cooldowns() {
    let entities = vec![body(1), body(2)];
    assert_eq!(check_hazards(&vec![hazard(1, 30, 60), hazard(2, 30, 0)], &entities, &vec![true, true], 600, 40), Ok(()));
    assert_eq!(
        check_hazards(&vec![hazard(1, 30, 0), hazard(1, 30, 0)], &entities, &vec![true, true], 600, 40),
        Err(GameSnapshotError::DuplicateHazard { entity: 1 })
    );
    assert_eq!(
        check_hazards(&vec![hazard(9, 30, 0)], &entities, &vec![true], 600, 40),
        Err(GameSnapshotError::UnknownHazardEntity { entity: 9 })
    );
    let mut hidden = body(1);
    hidden.renderable = false;
    assert_eq!(
        check_hazards(&vec![hazard(1, 30, 0)], &vec![hidden], &vec![true], 600, 40),
        Err(GameSnapshotError::MissingHazardCapability { entity: 1 })
    );
    let refused = Err(GameSnapshotError::InvalidHazardConfig { entity: 1 });
    assert_eq!(check_hazards(&vec![hazard(1, 30, 71)], &entities, &vec![true], 600, 40), refused);
    assert_eq!(check_hazards(&vec![hazard(1, 30, 70)], &entities, &vec![true], 600, 40), Ok(()));
    assert_eq!(check_hazards(&vec![hazard(1, 601, 0)], &entities, &vec![true], 600, 40), refused);
    assert_eq!(check_hazards(&vec![hazard(1, 30, 0)], &entities, &vec![false], 600, 40), refused);
    assert_eq!(check_hazards(&vec![hazard(1, 30, u64::MAX)], &entities, &vec![true], 600, u64::MAX), Ok(()));
}

#[test]
fn a_consistent_snapshot_restores() {
    let mut state = snapshot(GAME_SNAPSHOT_SCHEMA_VERSION);
    state.item_definitions = vec![armor_definition("vest")];
    state.enemies = vec![EnemySnapshot { entity: 2, state: SnapshotEnemyState::Alive }];
    let mut worn = health(1, 60);
    worn.armor = 20;
    worn.armor_item = Some("vest".to_string());
    state.health = vec![worn, health(2, 30)];
    state.hazards = vec![hazard(3, 20, 45)];
    let observed = observe(&state, vec![body(1), body(2), body(3)]);
    let before = state.clone();
    assert_eq!(check_snapshot_restoration(&mut state, &observed), Ok(()));
    assert_eq!(state, before);
}

#[test]
fn restoration_refuses_the_first_failing_component() {
    let mut state = snapshot(GAME_SNAPSHOT_SCHEMA_VERSION);
    state.enemies = vec![EnemySnapshot { entity: 2, state: SnapshotEnemyState::Defeated }];
    state.health = vec![health(2, 30)];
    state.hazards = vec![hazard(9, 20, 0)];
    let observed = observe(&state, vec![body(2)]);
    assert_eq!(
        check_snapshot_restoration(&mut state, &observed),
        Err(GameSnapshotError::EnemyHealthStateMismatch { entity: 2 })
    );

    let mut bad_health = snapshot(GAME_SNAPSHOT_SCHEMA_VERSION);
    bad_health.health = vec![health(2, 300)];
    bad_health.hazards = vec![hazard(9, 20, 0)];
    let observed = observe(&bad_health, vec![body(2)]);
    assert_eq!(
        check_snapshot_restoration(&mut bad_health, &observed),
        Err(GameSnapshotError::InvalidHealthConfig { entity: 2 })
    );

    let mut late_hazard = snapshot(GAME_SNAPSHOT_SCHEMA_VERSION);
    late_hazard.hazards = vec![hazard(9, 20, 0)];
    let observed = observe(&late_hazard, vec![body(2)]);
    assert_eq!(
        check_snapshot_restoration(&mut late_hazard, &observed),
        Err(GameSnapshotError::UnknownHazardEntity { entity: 9 })
    );
}

#[test]
fn restoration_gates_versions_before_components() {
    let mut future = snapshot(GAME_SNAPSHOT_SCHEMA_VERSION + 1);
    future.health = vec![health(2, 300)];
    let observed = observe(&future, vec![]);
    assert_eq!(
        check_snapshot_restoration(&mut future, &observed),
        Err(GameSnapshotError::UnsupportedSchema { actual: GAME_SNAPSHOT_SCHEMA_VERSION + 1 })
    );

    let mut legacy_weapons = snapshot(GAME_SNAPSHOT_SCHEMA_VERSION);
    legacy_weapons.weapons = vec![WeaponSnapshot {
        entity: 1,
        damage: 10,
        max_distance: 20,
        cooldown_ticks: 5,
        ammo_capacity: 6,
        muzzle_offset: [0, 0, 0],
        ammo_remaining: 6,
        ready_at_tick: 0,
    }];
    let observed = observe(&legacy_weapons, vec![]);
    assert_eq!(
        check_snapshot_restoration(&mut legacy_weapons, &observed),
        Err(GameSnapshotError::FutureWeaponStateInLegacySnapshot)
    );
}

fn navigation(entity: u64) -> NavigationSnapshot {
    NavigationSnapshot {
        entity,
        state: SnapshotNavigationState::Following,
        goal: [0, 0, 0],
        speed_units_per_second: 0x4000_0000,
        max_visited: 64,
    }
}

fn combat(entity: u64, posture: SnapshotEnemyCombatPosture, known: bool, ready_at_tick: u64) -> EnemyCombatSnapshot {
    EnemyCombatSnapshot {
        entity,
        sight_range: 10,
        hearing_range: 5,
        attack_kind: SnapshotEnemyAttackKind::Melee,
        damage: 4,
        range: 2,
        cooldown_ticks: 30,
        origin_offset: [0, 0, 0],
        presentation: "claw".to_string(),
        posture,
        ready_at_tick,
        last_known_target_position: if known { Some([0, 0, 0]) } else { None },
    }
}

fn player(entity: u64) -> PlayerControllerSnapshot {
    PlayerControllerSnapshot {
        entity,
        move_speed_units_per_second: 0,
        move_step_seconds: 0,
        look_degrees_per_unit: 0,
        initial_yaw_degrees: 0,
        initial_pitch_degrees: 0,
        yaw_degrees: 0,
        pitch_degrees: 0,
        bindings: PlayerInputBindingsSnapshot {
            move_forward: "KeyW".to_string(),
            move_backward: "KeyS".to_string(),
            move_left: "KeyA".to_string(),
            move_right: "KeyD".to_string(),
            mouse_look: "MouseMove".to_string(),
            primary_fire: "MouseLeft".to_string(),
            select_weapon: vec![],
        },
    }
}

#[test]
fn navigation_needs_a_mobile_enemy_and_a_collision_scene() {
    let enemies = vec![EnemySnapshot { entity: 2, state: SnapshotEnemyState::Alive }];
    let entities = vec![body(2), body(3)];
    assert_eq!(check_navigations(&vec![navigation(2)], &enemies, &entities, &vec![true], true), Ok(()));
    assert_eq!(
        check_navigations(&vec![navigation(2), navigation(2)], &enemies, &entities, &vec![true, true], true),
        Err(GameSnapshotError::DuplicateNavigation { entity: 2 })
    );
    assert_eq!(
        check_navigations(&vec![navigation(7)], &enemies, &entities, &vec![true], true),
        Err(GameSnapshotError::UnknownNavigationEntity { entity: 7 })
    );
    assert_eq!(
        check_navigations(&vec![navigation(3)], &enemies, &entities, &vec![true], true),
        Err(GameSnapshotError::MissingNavigationCapability { entity: 3 })
    );
    let mut still = body(2);
    still.kinematic = false;
    assert_eq!(
        check_navigations(&vec![navigation(2)], &enemies, &vec![still], &vec![true], true),
        Err(GameSnapshotError::MissingNavigationCapability { entity: 2 })
    );
    assert_eq!(
        check_navigations(&vec![navigation(2)], &enemies, &entities, &vec![true], false),
        Err(GameSnapshotError::NavigationMissingCollisionScene { entity: 2 })
    );
    assert_eq!(
        check_navigations(&vec![navigation(2)], &enemies, &entities, &vec![false], true),
        Err(GameSnapshotError::InvalidNavigationConfig { entity: 2 })
    );
}

#[test]
fn enemy_combat_agrees_with_posture_and_state() {
    let alive = vec![EnemySnapshot { entity: 2, state: SnapshotEnemyState::Alive }];
    let defeated = vec![EnemySnapshot { entity: 2, state: SnapshotEnemyState::Defeated }];
    let health = vec![health(2, 10)];
    let navigations = vec![navigation(2)];
    let entities = vec![body(2), body(3)];
    let check = |entries: Vec<EnemyCombatSnapshot>, enemies: &Vec<EnemySnapshot>| {
        let valid = vec![true; entries.len()];
        check_enemy_combat(&entries, enemies, &health, &navigations, &entities, &valid, 40)
    };
    let invalid = Err(GameSnapshotError::InvalidEnemyCombatState { entity: 2 });
    assert_eq!(check(vec![combat(2, SnapshotEnemyCombatPosture::Pursuing, true, 70)], &alive), Ok(()));
    assert_eq!(check(vec![combat(2, SnapshotEnemyCombatPosture::Alert, false, 0)], &alive), Ok(()));
    assert_eq!(check(vec![combat(2, SnapshotEnemyCombatPosture::Dead, false, 0)], &defeated), Ok(()));
    assert_eq!(check(vec![combat(2, SnapshotEnemyCombatPosture::Pursuing, true, 71)], &alive), invalid);
    assert_eq!(check(vec![combat(2, SnapshotEnemyCombatPosture::Attacking, false, 0)], &alive), invalid);
    assert_eq!(check(vec![combat(2, SnapshotEnemyCombatPosture::Sleeping, true, 0)], &alive), invalid);
    assert_eq!(check(vec![combat(2, SnapshotEnemyCombatPosture::Dead, false, 0)], &alive), invalid);
    assert_eq!(check(vec![combat(2, SnapshotEnemyCombatPosture::Alert, false, 0)], &defeated), invalid);
    assert_eq!(
        check(vec![combat(2, SnapshotEnemyCombatPosture::Alert, false, 0), combat(2, SnapshotEnemyCombatPosture::Alert, false, 0)], &alive),
        Err(GameSnapshotError::DuplicateEnemyCombat { entity: 2 })
    );
    assert_eq!(
        check(vec![combat(9, SnapshotEnemyCombatPosture::Alert, false, 0)], &alive),
        Err(GameSnapshotError::UnknownEnemyCombatEntity { entity: 9 })
    );
    assert_eq!(
        check(vec![combat(3, SnapshotEnemyCombatPosture::Alert, false, 0)], &alive),
        Err(GameSnapshotError::MissingEnemyCombatCapability { entity: 3 })
    );
    let unguided = check_enemy_combat(
        &vec![combat(2, SnapshotEnemyCombatPosture::Alert, false, 0)],
        &alive,
        &health,
        &vec![],
        &entities,
        &vec![true],
        40,
    );
    assert_eq!(unguided, Err(GameSnapshotError::MissingEnemyCombatCapability { entity: 2 }));
    let misconfigured = check_enemy_combat(
        &vec![combat(2, SnapshotEnemyCombatPosture::Alert, false, 0)],
        &alive,
        &health,
        &navigations,
        &entities,
        &vec![false],
        40,
    );
    assert_eq!(misconfigured, invalid);
}

#[test]
fn player_controllers_need_a_full_body_and_a_collision_scene() {
    let entities = vec![body(1)];
    assert_eq!(check_player_controllers(&vec![player(1)], &entities, &vec![true], true), Ok(()));
    assert_eq!(
        check_player_controllers(&vec![player(1), player(1)], &entities, &vec![true, true], true),
        Err(GameSnapshotError::DuplicatePlayerController { entity: 1 })
    );
    assert_eq!(
        check_player_controllers(&vec![player(5)], &entities, &vec![true], true),
        Err(GameSnapshotError::UnknownPlayerControllerEntity { entity: 5 })
    );
    let mut hidden = body(1);
    hidden.renderable = false;
    assert_eq!(
        check_player_controllers(&vec![player(1)], &vec![hidden], &vec![true], true),
        Err(GameSnapshotError::MissingPlayerControllerCapability { entity: 1 })
    );
    assert_eq!(
        check_player_controllers(&vec![player(1)], &entities, &vec![true], false),
        Err(GameSnapshotError::PlayerControllerMissingCollisionScene { entity: 1 })
    );
    assert_eq!(
        check_player_controllers(&vec![player(1)], &entities, &vec![false], true),
        Err(GameSnapshotError::InvalidPlayerControllerConfig { entity: 1 })
    );
}

#[test]
fn restoration_checks_navigation_before_enemy_drops() {
    let mut state = snapshot(GAME_SNAPSHOT_SCHEMA_VERSION);
    state.enemies = vec![EnemySnapshot { entity: 2, state: SnapshotEnemyState::Alive }];
    state.navigations = vec![navigation(2)];
    let observed = observe(&state, vec![body(2)]);
    assert_eq!(
        check_snapshot_restoration(&mut state, &observed),
        Err(GameSnapshotError::NavigationMissingCollisionScene { entity: 2 })
    );
}

fn pickup(entity: u64, item: &str, quantity: u32, state: SnapshotPickupState) -> PickupSnapshot {
    PickupSnapshot { entity, item: item.to_string(), quantity, starter_ammunition: None, state }
}

fn arsenal() -> Vec<ItemDefinitionSnapshot> {
    vec![
        ItemDefinitionSnapshot {
            id: "rifle".to_string(),
            max_quantity: 1,
            kind: SnapshotItemKind::Weapon {
                ammunition: "rounds".to_string(),
                attack_mode: None,
                pellet_count: None,
                spread_degrees: None,
                damage: None,
                max_distance: None,
                cooldown_ticks: None,
                ammunition_cost: None,
                muzzle_offset: None,
                presentation: None,
            },
        },
        ItemDefinitionSnapshot { id: "rounds".to_string(), max_quantity: 50, kind: SnapshotItemKind::Ammunition },
        armor_definition("vest"),
    ]
}

#[test]
fn pickups_agree_with_their_items_and_entities() {
    let items = arsenal();
    let mut hidden = body(2);
    hidden.visible = false;
    let mut gone = body(3);
    gone.active = false;
    gone.tombstoned = true;
    let entities = vec![body(1), hidden, gone, body(4)];
    let check = |pickups: Vec<PickupSnapshot>| check_pickups(&pickups, &entities, &items, 40, 8);
    let collected = SnapshotPickupState::Collected {
        actor: 4,
        collected_at_tick: 40,
        cause: SnapshotPickupCollectionCause::Overlap { trigger_revision: 1 },
    };
    let mut armed = pickup(1, "rifle", 1, SnapshotPickupState::Available);
    armed.starter_ammunition = Some(InventoryStackSnapshot { item: "rounds".to_string(), quantity: 12 });
    assert_eq!(
        check(vec![armed.clone(), pickup(2, "vest", 1, SnapshotPickupState::Dormant), pickup(3, "rounds", 5, collected.clone())]),
        Ok(())
    );
    let invalid = |entity: u64| Err(GameSnapshotError::InvalidPickup { entity });
    assert_eq!(check(vec![pickup(1, "helmet", 1, SnapshotPickupState::Available)]), invalid(1));
    assert_eq!(check(vec![pickup(1, "rounds", 0, SnapshotPickupState::Available)]), invalid(1));
    assert_eq!(check(vec![pickup(1, "rounds", 51, SnapshotPickupState::Available)]), invalid(1));
    let mut overloaded = armed.clone();
    overloaded.starter_ammunition = Some(InventoryStackSnapshot { item: "rounds".to_string(), quantity: 51 });
    assert_eq!(check(vec![overloaded]), invalid(1));
    let mut wrong_starter = armed.clone();
    wrong_starter.starter_ammunition = Some(InventoryStackSnapshot { item: "vest".to_string(), quantity: 1 });
    assert_eq!(check(vec![wrong_starter]), invalid(1));
    let mut unarmed_starter = pickup(1, "vest", 1, SnapshotPickupState::Available);
    unarmed_starter.starter_ammunition = Some(InventoryStackSnapshot { item: "rounds".to_string(), quantity: 1 });
    assert_eq!(check(vec![unarmed_starter]), invalid(1));
    assert_eq!(check(vec![pickup(1, "vest", 1, SnapshotPickupState::Dormant)]), invalid(1));
    assert_eq!(check(vec![pickup(3, "vest", 1, SnapshotPickupState::Available)]), invalid(3));
    assert_eq!(check(vec![pickup(1, "vest", 1, collected.clone())]), invalid(1));
    let unknown_actor = SnapshotPickupState::Collected {
        actor: 9,
        collected_at_tick: 10,
        cause: SnapshotPickupCollectionCause::Interaction { connection_generation: 1, command_sequence: 2 },
    };
    assert_eq!(check(vec![pickup(3, "vest", 1, unknown_actor)]), invalid(3));
    let future = SnapshotPickupState::Collected {
        actor: 4,
        collected_at_tick: 41,
        cause: SnapshotPickupCollectionCause::Overlap { trigger_revision: 1 },
    };
    assert_eq!(
        check(vec![pickup(3, "vest", 1, future)]),
        Err(GameSnapshotError::PickupCollectionFromFuture { entity: 3, collected_at_tick: 41, snapshot_tick: 40 })
    );
    assert_eq!(
        check(vec![pickup(1, "vest", 1, SnapshotPickupState::Available), pickup(1, "vest", 1, SnapshotPickupState::Available)]),
        Err(GameSnapshotError::DuplicatePickup { entity: 1 })
    );
    assert_eq!(
        check(vec![pickup(7, "vest", 1, SnapshotPickupState::Available)]),
        Err(GameSnapshotError::UnknownPickupEntity { entity: 7 })
    );
    let crowded: Vec<PickupSnapshot> = (0..9).map(|entity| pickup(entity, "vest", 1, SnapshotPickupState::Available)).collect();
    assert_eq!(check(crowded), Err(GameSnapshotError::TooManyPickups { count: 9, limit: 8 }));
}
