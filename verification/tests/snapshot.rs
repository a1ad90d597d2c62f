use loading_bay::snapshot::{
    check_snapshot_versions, legacy_snapshot_weapon_kind, migrate_legacy_snapshot_weapon_authority,
    snapshot_has_future_weapon_behavior_fields, snapshot_has_inventory_weapon_fields, ControlsSnapshot,
    DoorSnapshot, GameSnapshot, GameSnapshotError, HealthSnapshot, ItemDefinitionSnapshot,
    PlayerControllerSnapshot, PlayerInputBindingsSnapshot, SnapshotDoorState, SnapshotItemKind,
    SnapshotWeaponAttackMode, SwitchSnapshot, WeaponSnapshot,
};
use loading_bay::snapshot::{EnemySnapshot, LoadingBayInterlockSnapshot, SnapshotEnemyState};
use loading_bay::snapshot::{
    EncounterSnapshot, EnemyDropSnapshot, PickupSnapshot, ScheduledSnapshot, ScheduledSnapshotKind,
    SnapshotEncounterState, SnapshotEnemyDropState, SnapshotPickupCollectionCause, SnapshotPickupState,
};
use loading_bay::snapshot::{ExtractionBeaconSnapshot, SnapshotExtractionBeaconState};
use loading_bay::snapshot_links::{
    check_encounters, check_enemy_drops, check_enemy_health, check_extraction_beacons, check_schedules,
};
use loading_bay::snapshot_restore::{
    check_controls, check_doors, check_enemies, check_interlocks, check_switches,
    EntityCapabilities,
};

fn empty_snapshot(schema_version: u32) -> GameSnapshot {
    GameSnapshot {
        schema_version,
        tick: 40,
        item_definitions: vec![],
        voxel_collision: None,
        doors: vec![],
        switches: vec![],
        extraction_beacons: vec![],
        controls: vec![],
        enemies: vec![],
        enemy_combat: vec![],
        enemy_drops: vec![],
        health: vec![],
        hazards: vec![],
        encounters: vec![],
        navigations: vec![],
        player_controllers: vec![],
        inventories: vec![],
        pickups: vec![],
        weapons: vec![],
        progression: None,
        scheduled: vec![],
    }
}

fn controller(entity: u64) -> PlayerControllerSnapshot {
    PlayerControllerSnapshot {
        entity,
        move_speed_units_per_second: 0,
        move_step_seconds: 0,
        look_degrees_per_unit: 0,
        initial_yaw_degrees: 0,
        initial_pitch_degrees: 0,
        yaw_degrees: 0,
        pitch_degrees: 0,
        bindings: PlayerInputBindingsSnapshot {
            move_forward: "KeyW".to_string(),
            move_backward: "KeyS".to_string(),
            move_left: "KeyA".to_string(),
            move_right: "KeyD".to_string(),
            mouse_look: "MouseMove".to_string(),
            primary_fire: "MouseLeft".to_string(),
            select_weapon: vec![],
        },
    }
}

fn legacy_weapon(entity: u64) -> WeaponSnapshot {
    WeaponSnapshot {
        entity,
        damage: 25,
        max_distance: 0x4120_0000,
        cooldown_ticks: 8,
        ammo_capacity: 50,
        muzzle_offset: [0, 0, 0],
        ammo_remaining: 12,
        ready_at_tick: 44,
    }
}

#[test]
fn legacy_weapon_becomes_inventory_authority() {
    let mut snapshot = empty_snapshot(12);
    snapshot.player_controllers.push(controller(5));
    snapshot.weapons.push(legacy_weapon(5));
    migrate_legacy_snapshot_weapon_authority(&mut snapshot).expect("migrates");
    assert!(snapshot.weapons.is_empty());
    let ids: Vec<&str> = snapshot.item_definitions.iter().map(|d| d.id.as_str()).collect();
    assert_eq!(ids, vec!["ammo/migrated-player-5", "weapon/migrated-player-5"]);
    assert_eq!(snapshot.item_definitions[0].max_quantity, 50);
    let inventory = &snapshot.inventories[0];
    assert_eq!(inventory.owner, 5);
    assert_eq!(inventory.capacity_slots, 2);
    assert_eq!(inventory.equipped_weapon.as_deref(), Some("weapon/migrated-player-5"));
    assert_eq!(inventory.weapon_slots, vec!["weapon/migrated-player-5".to_string()]);
    assert_eq!(inventory.stacks.len(), 2);
    assert_eq!(inventory.stacks[1].quantity, 12);
    assert_eq!(inventory.weapon_cooldowns[0].ready_at_tick, 44);
    assert_eq!(
        snapshot.player_controllers[0].bindings.select_weapon,
        vec!["Digit1".to_string()]
    );
    match &snapshot.item_definitions[1].kind {
        SnapshotItemKind::Weapon { damage, cooldown_ticks, presentation, attack_mode, .. } => {
            assert_eq!(*damage, Some(25));
            assert_eq!(*cooldown_ticks, Some(8));
            assert_eq!(presentation.as_deref(), Some("weapon/migrated-player-5"));
            assert_eq!(*attack_mode, Some(SnapshotWeaponAttackMode::Hitscan));
        }
        other => panic!("unexpected kind {other:?}"),
    }
}

#[test]
fn legacy_weapon_needs_a_player_controller() {
    let mut snapshot = empty_snapshot(12);
    snapshot.weapons.push(legacy_weapon(5));
    assert_eq!(
        migrate_legacy_snapshot_weapon_authority(&mut snapshot),
        Err(GameSnapshotError::MissingWeaponCapability { entity: 5 })
    );
}

#[test]
fn legacy_weapon_kind_is_hitscan() {
    let kind = legacy_snapshot_weapon_kind("rifle", "bullets".to_string(), &legacy_weapon(3));
    match kind {
        SnapshotItemKind::Weapon { ammunition, attack_mode, ammunition_cost, .. } => {
            assert_eq!(ammunition, "bullets");
            assert_eq!(attack_mode, Some(SnapshotWeaponAttackMode::Hitscan));
            assert_eq!(ammunition_cost, Some(1));
        }
        other => panic!("unexpected kind {other:?}"),
    }
}

#[test]
fn snapshot_schema_gate() {
    let mut unsupported = empty_snapshot(9);
    assert_eq!(
        check_snapshot_versions(&mut unsupported, false, false),
        Err(GameSnapshotError::UnsupportedSchema { actual: 9 })
    );
    let mut future = empty_snapshot(19);
    assert_eq!(
        check_snapshot_versions(&mut future, false, false),
        Err(GameSnapshotError::UnsupportedSchema { actual: 19 })
    );
    let mut pickups = empty_snapshot(11);
    assert_eq!(
        check_snapshot_versions(&mut pickups, true, false),
        Err(GameSnapshotError::FuturePickupStateInLegacySnapshot)
    );
    let mut armor = empty_snapshot(13);
    armor.health.push(HealthSnapshot {
        entity: 1,
        current: 10,
        max: 10,
        hitbox_half_extents: [0, 0, 0],
        max_armor: 5,
        armor_absorption_percent: 0,
        armor: 0,
        armor_item: None,
        state: None,
    });
    assert_eq!(
        check_snapshot_versions(&mut armor, false, false),
        Err(GameSnapshotError::FutureVitalityStateInLegacySnapshot)
    );
    let mut stray_weapons = empty_snapshot(18);
    stray_weapons.weapons.push(legacy_weapon(5));
    assert_eq!(
        check_snapshot_versions(&mut stray_weapons, false, false),
        Err(GameSnapshotError::FutureWeaponStateInLegacySnapshot)
    );
    let mut legacy = empty_snapshot(12);
    legacy.player_controllers.push(controller(5));
    legacy.weapons.push(legacy_weapon(5));
    assert_eq!(check_snapshot_versions(&mut legacy, false, false), Ok(()));
    assert_eq!(legacy.inventories.len(), 1);
    let mut current = empty_snapshot(18);
    assert_eq!(check_snapshot_versions(&mut current, true, true), Ok(()));
}

#[test]
fn weapon_field_detection() {
    let mut snapshot = empty_snapshot(18);
    assert!(!snapshot_has_inventory_weapon_fields(&snapshot));
    snapshot.item_definitions.push(ItemDefinitionSnapshot {
        id: "shotgun".to_string(),
        max_quantity: 1,
        kind: SnapshotItemKind::Weapon {
            ammunition: "shells".to_string(),
            attack_mode: Some(SnapshotWeaponAttackMode::Spread),
            pellet_count: Some(7),
            spread_degrees: Some(0x4120_0000),
            damage: None,
            max_distance: None,
            cooldown_ticks: None,
            ammunition_cost: None,
            muzzle_offset: None,
            presentation: None,
        },
    });
    assert!(snapshot_has_inventory_weapon_fields(&snapshot));
    assert!(snapshot_has_future_weapon_behavior_fields(&snapshot));
}

fn capabilities(entity: u64, complete: bool) -> EntityCapabilities {
    EntityCapabilities {
        entity,
        transform: true,
        collision: complete,
        renderable: true,
        bounds: false,
        kinematic: false,
        active: true,
        tombstoned: false,
        visible: true,
    }
}

fn door(entity: u64) -> DoorSnapshot {
    DoorSnapshot {
        entity,
        state: SnapshotDoorState::Closed,
        closed_translation: [0, 0, 0],
        open_translation: [0, 0, 0],
        auto_close_after_ticks: None,
    }
}

#[test]
fn door_network_restoration_checks() {
    let entities = vec![capabilities(1, true), capabilities(2, false), capabilities(3, true)];
    assert_eq!(check_doors(&vec![door(1), door(3)], &entities), Ok(()));
    assert_eq!(
        check_doors(&vec![door(1), door(1)], &entities),
        Err(GameSnapshotError::DuplicateDoor { entity: 1 })
    );
    assert_eq!(
        check_doors(&vec![door(9)], &entities),
        Err(GameSnapshotError::UnknownDoorEntity { entity: 9 })
    );
    assert_eq!(
        check_doors(&vec![door(2)], &entities),
        Err(GameSnapshotError::MissingDoorCapability { entity: 2 })
    );
    let switches = vec![SwitchSnapshot { entity: 2, activation_count: 0 }];
    assert_eq!(check_switches(&switches, &entities), Ok(()));
    assert_eq!(
        check_switches(&vec![SwitchSnapshot { entity: 8, activation_count: 0 }], &entities),
        Err(GameSnapshotError::UnknownSwitchEntity { entity: 8 })
    );
    let doors = vec![door(1), door(3)];
    assert_eq!(
        check_controls(&vec![ControlsSnapshot { switch: 2, targets: vec![1, 3] }], &switches, &doors),
        Ok(())
    );
    assert_eq!(
        check_controls(&vec![ControlsSnapshot { switch: 2, targets: vec![1, 4] }], &switches, &doors),
        Err(GameSnapshotError::UnknownControlTarget { switch: 2, target: 4 })
    );
    assert_eq!(
        check_controls(&vec![ControlsSnapshot { switch: 5, targets: vec![] }], &switches, &doors),
        Err(GameSnapshotError::UnknownSwitchEntity { entity: 5 })
    );
}

#[test]
fn enemies_and_interlocks_are_restored_only_when_consistent() {
    let entities = vec![capabilities(1, true), capabilities(2, false), capabilities(3, true)];
    let enemy = |entity| EnemySnapshot { entity, state: SnapshotEnemyState::Alive };
    assert_eq!(check_enemies(&vec![enemy(1), enemy(3)], &entities), Ok(()));
    assert_eq!(
        check_enemies(&vec![enemy(2)], &entities),
        Err(GameSnapshotError::MissingEnemyCapability { entity: 2 })
    );
    assert_eq!(
        check_enemies(&vec![enemy(3), enemy(3)], &entities),
        Err(GameSnapshotError::DuplicateEnemy { entity: 3 })
    );
    let switches = vec![SwitchSnapshot { entity: 2, activation_count: 1 }];
    let doors = vec![door(1), door(3)];
    let interlock = |switch, close_door, open_door| LoadingBayInterlockSnapshot {
        switch,
        close_door,
        open_door,
    };
    assert_eq!(check_interlocks(&vec![interlock(2, 1, 3)], &switches, &doors), Ok(()));
    assert_eq!(
        check_interlocks(&vec![interlock(2, 1, 1)], &switches, &doors),
        Err(GameSnapshotError::InvalidProgressionState)
    );
    assert_eq!(
        check_interlocks(&vec![interlock(2, 1, 3), interlock(2, 3, 1)], &switches, &doors),
        Err(GameSnapshotError::InvalidProgressionState)
    );
    assert_eq!(
        check_interlocks(&vec![interlock(4, 1, 3)], &switches, &doors),
        Err(GameSnapshotError::InvalidProgressionState)
    );
}

fn enemy(entity: u64, state: SnapshotEnemyState) -> EnemySnapshot {
    EnemySnapshot { entity, state }
}

fn pickup(entity: u64, state: SnapshotPickupState) -> PickupSnapshot {
    PickupSnapshot { entity, item: "ammo".to_string(), quantity: 1, starter_ammunition: None, state }
}

fn drop(enemy: u64, pickup: u64, state: SnapshotEnemyDropState) -> EnemyDropSnapshot {
    EnemyDropSnapshot { enemy, pickup, state }
}

#[test]
fn enemy_drops_follow_their_enemy_and_pickup() {
    let enemies = vec![enemy(1, SnapshotEnemyState::Alive), enemy(2, SnapshotEnemyState::Defeated)];
    let collected = SnapshotPickupState::Collected {
        actor: 9,
        collected_at_tick: 3,
        cause: SnapshotPickupCollectionCause::Overlap { trigger_revision: 1 },
    };
    let pickups = vec![pickup(10, SnapshotPickupState::Dormant), pickup(11, collected)];
    let drops = vec![
        drop(1, 10, SnapshotEnemyDropState::Armed),
        drop(2, 11, SnapshotEnemyDropState::Materialized),
    ];
    assert_eq!(check_enemy_drops(&drops, &enemies, &pickups), Ok(()));

    let twice = vec![drop(1, 10, SnapshotEnemyDropState::Armed), drop(1, 11, SnapshotEnemyDropState::Materialized)];
    assert_eq!(check_enemy_drops(&twice, &enemies, &pickups), Err(GameSnapshotError::DuplicateEnemyDrop { enemy: 1 }));
    let shared = vec![drop(1, 10, SnapshotEnemyDropState::Armed), drop(2, 10, SnapshotEnemyDropState::Materialized)];
    assert_eq!(
        check_enemy_drops(&shared, &enemies, &pickups),
        Err(GameSnapshotError::DuplicateEnemyDropPickup { pickup: 10 })
    );
    let disagreeing = vec![drop(2, 10, SnapshotEnemyDropState::Armed)];
    assert_eq!(
        check_enemy_drops(&disagreeing, &enemies, &pickups),
        Err(GameSnapshotError::InvalidEnemyDropState { enemy: 2, pickup: 10 })
    );
    let unknown = vec![drop(7, 10, SnapshotEnemyDropState::Armed)];
    assert_eq!(
        check_enemy_drops(&unknown, &enemies, &pickups),
        Err(GameSnapshotError::InvalidEnemyDropState { enemy: 7, pickup: 10 })
    );

    let stranded = vec![
        pickup(30, SnapshotPickupState::Dormant),
        pickup(20, SnapshotPickupState::Dormant),
        pickup(10, SnapshotPickupState::Dormant),
    ];
    let only_first = vec![drop(1, 10, SnapshotEnemyDropState::Armed)];
    assert_eq!(
        check_enemy_drops(&only_first, &enemies, &stranded),
        Err(GameSnapshotError::DormantPickupMissingEnemyDrop { pickup: 20 })
    );
}

fn encounter(entity: u64, members: Vec<u64>, exit: u64, radius: Option<u32>) -> EncounterSnapshot {
    EncounterSnapshot { entity, state: SnapshotEncounterState::Active, members, exit, activation_radius: radius }
}

#[test]
fn encounters_link_enemies_to_an_exit_door() {
    let entities = vec![capabilities(40, true), capabilities(41, true), capabilities(42, true)];
    let doors = vec![door(5)];
    let enemies = vec![enemy(1, SnapshotEnemyState::Alive), enemy(2, SnapshotEnemyState::Alive)];
    let good = vec![encounter(40, vec![1], 5, Some(0x4120_0000)), encounter(41, vec![2], 5, None)];
    assert_eq!(check_encounters(&good, &vec![true, true], &entities, &doors, &enemies), Ok(()));
    assert_eq!(
        check_encounters(&good, &vec![false, true], &entities, &doors, &enemies),
        Err(GameSnapshotError::InvalidEncounterActivation { encounter: 40 })
    );
    let mut dormant = encounter(41, vec![2], 5, None);
    dormant.state = SnapshotEncounterState::Dormant;
    assert_eq!(
        check_encounters(&vec![dormant], &vec![true], &entities, &doors, &enemies),
        Err(GameSnapshotError::InvalidEncounterActivation { encounter: 41 })
    );
    let repeated = vec![encounter(40, vec![1], 5, None), encounter(40, vec![2], 5, None)];
    assert_eq!(
        check_encounters(&repeated, &vec![true, true], &entities, &doors, &enemies),
        Err(GameSnapshotError::DuplicateEncounter { entity: 40 })
    );
    assert_eq!(
        check_encounters(&vec![encounter(99, vec![], 5, None)], &vec![true], &entities, &doors, &enemies),
        Err(GameSnapshotError::UnknownEncounterEntity { entity: 99 })
    );
    assert_eq!(
        check_encounters(&vec![encounter(40, vec![1], 6, None)], &vec![true], &entities, &doors, &enemies),
        Err(GameSnapshotError::UnknownEncounterExit { encounter: 40, exit: 6 })
    );
    assert_eq!(
        check_encounters(&vec![encounter(40, vec![1, 1], 5, None)], &vec![true], &entities, &doors, &enemies),
        Err(GameSnapshotError::DuplicateEncounterMember { encounter: 40, member: 1 })
    );
    assert_eq!(
        check_encounters(&vec![encounter(40, vec![3], 5, None)], &vec![true], &entities, &doors, &enemies),
        Err(GameSnapshotError::UnknownEncounterMember { encounter: 40, member: 3 })
    );
    let shared = vec![
        encounter(40, vec![1], 5, None),
        encounter(41, vec![2], 5, None),
        encounter(42, vec![2, 1], 5, None),
    ];
    assert_eq!(
        check_encounters(&shared, &vec![true, true, true], &entities, &doors, &enemies),
        Err(GameSnapshotError::EnemyInMultipleEncounters { enemy: 2, first: 41, second: 42 })
    );
}

#[test]
fn scheduled_closings_name_distinct_restored_doors() {
    let doors = vec![door(5), door(6)];
    let close = |door: u64, due_tick: u64| ScheduledSnapshot { due_tick, kind: ScheduledSnapshotKind::CloseDoor { door } };
    assert_eq!(check_schedules(&vec![close(5, 10), close(6, 10)], &doors), Ok(()));
    assert_eq!(
        check_schedules(&vec![close(5, 10), close(7, 10)], &doors),
        Err(GameSnapshotError::UnknownDoorEntity { entity: 7 })
    );
    assert_eq!(
        check_schedules(&vec![close(5, 10), close(5, 12)], &doors),
        Err(GameSnapshotError::DuplicateSchedule { door: 5 })
    );
}

fn health(entity: u64, current: u32) -> HealthSnapshot {
    HealthSnapshot {
        entity,
        current,
        max: 100,
        hitbox_half_extents: [0x3f00_0000; 3],
        max_armor: 0,
        armor_absorption_percent: 0,
        armor: 0,
        armor_item: None,
        state: None,
    }
}

#[test]
fn enemy_health_agrees_with_enemy_state() {
    let enemies = vec![
        enemy(9, SnapshotEnemyState::Alive),
        enemy(4, SnapshotEnemyState::Defeated),
        enemy(6, SnapshotEnemyState::Alive),
    ];
    assert_eq!(check_enemy_health(&enemies, &vec![health(9, 10), health(4, 0)]), Ok(()));
    assert_eq!(
        check_enemy_health(&enemies, &vec![health(9, 0), health(4, 5), health(6, 1)]),
        Err(GameSnapshotError::EnemyHealthStateMismatch { entity: 4 })
    );
    assert_eq!(
        check_enemy_health(&enemies, &vec![health(9, 0), health(6, 0)]),
        Err(GameSnapshotError::EnemyHealthStateMismatch { entity: 6 })
    );
}

fn beacon(entity: u64, state: SnapshotExtractionBeaconState) -> ExtractionBeaconSnapshot {
    ExtractionBeaconSnapshot { entity, activation_radius: 0x4000_0000, state }
}

#[test]
fn extraction_beacons_are_restored_with_their_activation() {
    let mut actor_without_transform = capabilities(8, true);
    actor_without_transform.transform = false;
    let entities = vec![capabilities(50, true), capabilities(7, true), actor_without_transform];
    let active = |actor: u64, tick: u64| SnapshotExtractionBeaconState::Active { actor, activated_at_tick: tick };
    let standby = vec![beacon(50, SnapshotExtractionBeaconState::Standby)];
    assert_eq!(check_extraction_beacons(&standby, &vec![true], &entities, 10), Ok(()));
    assert_eq!(
        check_extraction_beacons(&standby, &vec![false], &entities, 10),
        Err(GameSnapshotError::InvalidExtractionBeaconConfig { entity: 50 })
    );
    assert_eq!(check_extraction_beacons(&vec![beacon(50, active(7, 10))], &vec![true], &entities, 10), Ok(()));
    assert_eq!(
        check_extraction_beacons(&vec![beacon(50, active(7, 11))], &vec![true], &entities, 10),
        Err(GameSnapshotError::ExtractionBeaconActivationFromFuture {
            entity: 50,
            activated_at_tick: 11,
            snapshot_tick: 10
        })
    );
    assert_eq!(
        check_extraction_beacons(&vec![beacon(50, active(8, 1))], &vec![true], &entities, 10),
        Err(GameSnapshotError::UnknownExtractionBeaconActor { beacon: 50, actor: 8 })
    );
    assert_eq!(
        check_extraction_beacons(&vec![beacon(50, active(9, 1))], &vec![true], &entities, 10),
        Err(GameSnapshotError::UnknownExtractionBeaconActor { beacon: 50, actor: 9 })
    );
    assert_eq!(
        check_extraction_beacons(&vec![beacon(51, SnapshotExtractionBeaconState::Standby)], &vec![true], &entities, 10),
        Err(GameSnapshotError::UnknownExtractionBeaconEntity { entity: 51 })
    );
    let twice = vec![beacon(50, SnapshotExtractionBeaconState::Standby), beacon(50, SnapshotExtractionBeaconState::Standby)];
    assert_eq!(
        check_extraction_beacons(&twice, &vec![true, true], &entities, 10),
        Err(GameSnapshotError::DuplicateExtractionBeacon { entity: 50 })
    );
}
