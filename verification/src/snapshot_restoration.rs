//! Restoring a game snapshot: the version gate, then the checks on its
//! components in the order the runtime restores them. The runtime's entity
//! state, its floating-point verdicts (hitboxes, radii) and the hazard
//! configuration rules and limit are the engine's; what these checks read
//! of them is given as observations.
use vstd::prelude::*;

use crate::snapshot::{
    EnemyCombatSnapshot, EnemySnapshot, NavigationSnapshot, PickupSnapshot, SnapshotPickupState, PlayerControllerSnapshot, SnapshotEnemyCombatPosture,
    SnapshotEnemyState,
};
use crate::snapshot::{
    check_snapshot_versions, lemma_version_gate_keeps_unrelated_state, version_gate_outcome, GameSnapshot, GameSnapshotError, HazardSnapshot,
    HealthSnapshot, ItemDefinitionSnapshot, SnapshotItemKind, SnapshotVitalityState,
};
use crate::snapshot_links::{
    check_encounters, check_enemy_drops, check_enemy_health, check_extraction_beacons,
    check_schedules, drops_outcome, enemy_index, find_enemy, find_health, first_beacon_violation, health_index, first_encounter_violation,
    first_schedule_violation, least_health_mismatch,
};
use crate::snapshot_restore::{
    as_result, capability_index, check_controls, check_doors, check_enemies, check_interlocks,
    check_switches, find_capabilities, first_control_violation, first_door_violation,
    first_enemy_violation, first_switch_violation, interlock_valid, EntityCapabilities,
};
use crate::stored_project::text_equal;
use crate::vitality::{MAX_ARMOR, MAX_HEALTH};

verus! {

/// What restoration reads of the engine: the capabilities of the restored
/// entities; per extraction beacon, whether its radius makes a valid
/// configuration; per encounter, whether its radius is in range; per health
/// entry, whether its hitbox is finite, positive and within the limit and
/// whether its armor item, if it names one, is a well-formed item definition
/// identity; per hazard, whether its damage and cooldown make a valid configuration; the
/// hazard cooldown limit; and whether pickup and hazard trigger definitions
/// are present.
pub struct RestorationObservations {
    pub entities: Vec<EntityCapabilities>,
    pub beacon_radius_valid: Vec<bool>,
    pub encounter_radius_in_range: Vec<bool>,
    pub health_hitbox_valid: Vec<bool>,
    pub armor_item_id_valid: Vec<bool>,
    pub hazard_config_valid: Vec<bool>,
    pub max_hazard_cooldown_ticks: u64,
    pub navigation_config_valid: Vec<bool>,
    pub enemy_combat_config_valid: Vec<bool>,
    pub controller_config_valid: Vec<bool>,
    pub max_trigger_definitions: usize,
    pub pickup_triggers: bool,
    pub hazard_triggers: bool,
}

/// The observations cover every beacon, encounter, health entry and hazard.
pub open spec fn observations_fit(snapshot: GameSnapshot, observed: RestorationObservations) -> bool {
    &&& observed.beacon_radius_valid@.len() == snapshot.extraction_beacons@.len()
    &&& observed.encounter_radius_in_range@.len() == snapshot.encounters@.len()
    &&& observed.health_hitbox_valid@.len() == snapshot.health@.len()
    &&& observed.armor_item_id_valid@.len() == snapshot.health@.len()
    &&& observed.hazard_config_valid@.len() == snapshot.hazards@.len()
    &&& observed.navigation_config_valid@.len() == snapshot.navigations@.len()
    &&& observed.enemy_combat_config_valid@.len() == snapshot.enemy_combat@.len()
    &&& observed.controller_config_valid@.len() == snapshot.player_controllers@.len()
}

/// The first item definition of identity `id`.
pub open spec fn item_index(items: Seq<ItemDefinitionSnapshot>, id: Seq<char>) -> Option<int> {
    if exists|i: int| 0 <= i < items.len() && (#[trigger] items[i]).id@ == id {
        Some(
            choose|i: int|
                0 <= i < items.len() && (#[trigger] items[i]).id@ == id && forall|j: int|
                    0 <= j < i ==> (#[trigger] items[j]).id@ != id,
        )
    } else {
        None
    }
}

/// Armor is worn with an armor item, and an armor item only with armor.
pub open spec fn armor_item_valid(health: HealthSnapshot, items: Seq<ItemDefinitionSnapshot>) -> bool {
    match health.armor_item {
        None => health.armor == 0,
        Some(item) => health.armor > 0 && match item_index(items, item@) {
            Some(d) => items[d].kind is Armor,
            None => false,
        },
    }
}

/// The vitality state a health entry restores to.
pub open spec fn restored_alive(health: HealthSnapshot) -> bool {
    match health.state {
        Some(SnapshotVitalityState::Alive) => true,
        Some(SnapshotVitalityState::Dead) => false,
        None => health.current != 0,
    }
}

/// A health entry's configuration and values are consistent.
pub open spec fn health_consistent(
    health: HealthSnapshot,
    hitbox_valid: bool,
    items: Seq<ItemDefinitionSnapshot>,
) -> bool {
    &&& 1 <= health.max <= MAX_HEALTH
    &&& hitbox_valid
    &&& health.max_armor <= MAX_ARMOR
    &&& if health.max_armor == 0 {
        health.armor_absorption_percent == 0
    } else {
        1 <= health.armor_absorption_percent <= 100
    }
    &&& health.current <= health.max
    &&& health.armor <= health.max_armor
    &&& armor_item_valid(health, items)
    &&& restored_alive(health) == (health.current > 0)
}

pub open spec fn health_violation(
    health: Seq<HealthSnapshot>,
    entities: Seq<EntityCapabilities>,
    items: Seq<ItemDefinitionSnapshot>,
    hitbox_valid: Seq<bool>,
    item_id_valid: Seq<bool>,
    i: int,
) -> Option<GameSnapshotError> {
    let entity = health[i].entity;
    if exists|j: int| 0 <= j < i && (#[trigger] health[j]).entity == entity {
        Some(GameSnapshotError::DuplicateHealth { entity })
    } else {
        match capability_index(entities, entity) {
            None => Some(GameSnapshotError::UnknownHealthEntity { entity }),
            Some(c) => if !(entities[c].transform && entities[c].collision) {
                Some(GameSnapshotError::MissingHealthCapability { entity })
            } else if health[i].armor_item is Some && !item_id_valid[i] {
                Some(GameSnapshotError::InvalidItemDefinitionId { value: health[i].armor_item->0 })
            } else if !health_consistent(health[i], hitbox_valid[i], items) {
                Some(GameSnapshotError::InvalidHealthConfig { entity })
            } else {
                None
            },
        }
    }
}

pub open spec fn first_health_violation(
    health: Seq<HealthSnapshot>,
    entities: Seq<EntityCapabilities>,
    items: Seq<ItemDefinitionSnapshot>,
    hitbox_valid: Seq<bool>,
    item_id_valid: Seq<bool>,
    i: int,
) -> Option<GameSnapshotError>
    decreases health.len() - i,
{
    if i < 0 || i >= health.len() {
        None
    } else {
        match health_violation(health, entities, items, hitbox_valid, item_id_valid, i) {
            Some(error) => Some(error),
            None => first_health_violation(health, entities, items, hitbox_valid, item_id_valid, i + 1),
        }
    }
}

pub open spec fn hazard_violation(
    hazards: Seq<HazardSnapshot>,
    entities: Seq<EntityCapabilities>,
    config_valid: Seq<bool>,
    max_cooldown: u64,
    tick: u64,
    i: int,
) -> Option<GameSnapshotError> {
    let hazard = hazards[i];
    let entity = hazard.entity;
    if exists|j: int| 0 <= j < i && (#[trigger] hazards[j]).entity == entity {
        Some(GameSnapshotError::DuplicateHazard { entity })
    } else {
        match capability_index(entities, entity) {
            None => Some(GameSnapshotError::UnknownHazardEntity { entity }),
            Some(c) => if !(entities[c].transform && entities[c].bounds && entities[c].renderable) {
                Some(GameSnapshotError::MissingHazardCapability { entity })
            } else if !config_valid[i] || hazard.cooldown_ticks > max_cooldown || hazard.ready_at_tick
                > (if tick + hazard.cooldown_ticks > u64::MAX {
                u64::MAX as int
            } else {
                tick + hazard.cooldown_ticks
            }) {
                Some(GameSnapshotError::InvalidHazardConfig { entity })
            } else {
                None
            },
        }
    }
}

pub open spec fn first_hazard_violation(
    hazards: Seq<HazardSnapshot>,
    entities: Seq<EntityCapabilities>,
    config_valid: Seq<bool>,
    max_cooldown: u64,
    tick: u64,
    i: int,
) -> Option<GameSnapshotError>
    decreases hazards.len() - i,
{
    if i < 0 || i >= hazards.len() {
        None
    } else {
        match hazard_violation(hazards, entities, config_valid, max_cooldown, tick, i) {
            Some(error) => Some(error),
            None => first_hazard_violation(hazards, entities, config_valid, max_cooldown, tick, i + 1),
        }
    }
}

fn health_seen(health: &Vec<HealthSnapshot>, end: usize, entity: u64) -> (seen: bool)
    requires
        end <= health@.len(),
    ensures
        seen == exists|j: int| 0 <= j < end && (#[trigger] health@[j]).entity == entity,
{
    let mut index: usize = 0;
    while index < end
        invariant
            end <= health@.len(),
            index <= end,
            forall|j: int| 0 <= j < index ==> (#[trigger] health@[j]).entity != entity,
        decreases end - index,
    {
        if health[index].entity == entity {
            return true;
        }
        index = index + 1;
    }
    false
}

fn hazard_seen(hazards: &Vec<HazardSnapshot>, end: usize, entity: u64) -> (seen: bool)
    requires
        end <= hazards@.len(),
    ensures
        seen == exists|j: int| 0 <= j < end && (#[trigger] hazards@[j]).entity == entity,
{
    let mut index: usize = 0;
    while index < end
        invariant
            end <= hazards@.len(),
            index <= end,
            forall|j: int| 0 <= j < index ==> (#[trigger] hazards@[j]).entity != entity,
        decreases end - index,
    {
        if hazards[index].entity == entity {
            return true;
        }
        index = index + 1;
    }
    false
}

fn find_item(items: &Vec<ItemDefinitionSnapshot>, id: &str) -> (found: Option<usize>)
    ensures
        match found {
            Some(i) => i < items@.len() && item_index(items@, id@) == Some(i as int),
            None => item_index(items@, id@) is None,
        },
{
    let mut index: usize = 0;
    while index < items.len()
        invariant
            index <= items@.len(),
            forall|j: int| 0 <= j < index ==> (#[trigger] items@[j]).id@ != id@,
        decreases items@.len() - index,
    {
        if text_equal(items[index].id.as_str(), id) {
            proof {
                let k = item_index(items@, id@)->Some_0;
                if k < index as int {
                    assert(items@[k].id@ != id@);
                }
                if (index as int) < k {
                    assert(items@[index as int].id@ != id@);
                }
            }
            return Some(index);
        }
        index = index + 1;
    }
    None
}

fn health_is_consistent(health: &HealthSnapshot, hitbox_valid: bool, items: &Vec<ItemDefinitionSnapshot>) -> (
    consistent: bool)
    ensures
        consistent == health_consistent(*health, hitbox_valid, items@),
{
    let limits = 1 <= health.max && health.max <= MAX_HEALTH && hitbox_valid && health.max_armor
        <= MAX_ARMOR && if health.max_armor == 0 {
        health.armor_absorption_percent == 0
    } else {
        1 <= health.armor_absorption_percent && health.armor_absorption_percent <= 100
    };
    let armor_item_ok = match &health.armor_item {
        None => health.armor == 0,
        Some(item) => health.armor > 0 && match find_item(items, item.as_str()) {
            Some(d) => matches!(items[d].kind, SnapshotItemKind::Armor { .. }),
            None => false,
        },
    };
    let alive = match health.state {
        Some(SnapshotVitalityState::Alive) => true,
        Some(SnapshotVitalityState::Dead) => false,
        None => health.current != 0,
    };
    limits && health.current <= health.max && health.armor <= health.max_armor && armor_item_ok
        && alive == (health.current > 0)
}

/// Checks a snapshot's health entries: each names a distinct restored
/// entity with a transform and a collision shape; an armor item it names is
/// a well-formed identity (`item_id_valid`); its limits hold (health
/// within `1..=MAX_HEALTH`, the hitbox per `hitbox_valid`, armor within
/// `MAX_ARMOR` with an absorption percentage exactly when armor is
/// supported); current health and armor are within them; an armor item is
/// worn exactly with armor and names an armor definition; and the state
/// agrees with whether health remains.
pub fn check_health(
    health: &Vec<HealthSnapshot>,
    entities: &Vec<EntityCapabilities>,
    items: &Vec<ItemDefinitionSnapshot>,
    hitbox_valid: &Vec<bool>,
    item_id_valid: &Vec<bool>,
) -> (result: Result<(), GameSnapshotError>)
    requires
        hitbox_valid@.len() == health@.len(),
        item_id_valid@.len() == health@.len(),
    ensures
        result == as_result(first_health_violation(health@, entities@, items@, hitbox_valid@, item_id_valid@, 0)),
{
    let mut index: usize = 0;
    while index < health.len()
        invariant
            hitbox_valid@.len() == health@.len(),
            item_id_valid@.len() == health@.len(),
            index <= health@.len(),
            first_health_violation(health@, entities@, items@, hitbox_valid@, item_id_valid@, 0)
                == first_health_violation(health@, entities@, items@, hitbox_valid@, item_id_valid@, index as int),
        decreases health@.len() - index,
    {
        let entry = &health[index];
        let entity = entry.entity;
        let ghost here = health_violation(health@, entities@, items@, hitbox_valid@, item_id_valid@, index as int);
        if health_seen(health, index, entity) {
            return Err(GameSnapshotError::DuplicateHealth { entity });
        }
        let c = match find_capabilities(entities, entity) {
            Some(c) => c,
            None => {
                return Err(GameSnapshotError::UnknownHealthEntity { entity });
            },
        };
        if !(entities[c].transform && entities[c].collision) {
            return Err(GameSnapshotError::MissingHealthCapability { entity });
        }
        if let Some(item) = &entry.armor_item {
            if !item_id_valid[index] {
                return Err(GameSnapshotError::InvalidItemDefinitionId { value: item.clone() });
            }
        }
        if !health_is_consistent(entry, hitbox_valid[index], items) {
            return Err(GameSnapshotError::InvalidHealthConfig { entity });
        }
        assert(here is None);
        index = index + 1;
    }
    Ok(())
}

/// Checks a snapshot's hazards, taken at tick `tick`: each names a distinct
/// restored entity with a transform, bounds and a renderable; its
/// configuration is valid (`config_valid`, the engine's verdict), its
/// cooldown within `max_cooldown`, and it is ready no later than one
/// cooldown after `tick` (saturating).
pub fn check_hazards(
    hazards: &Vec<HazardSnapshot>,
    entities: &Vec<EntityCapabilities>,
    config_valid: &Vec<bool>,
    max_cooldown: u64,
    tick: u64,
) -> (result: Result<(), GameSnapshotError>)
    requires
        config_valid@.len() == hazards@.len(),
    ensures
        result == as_result(first_hazard_violation(hazards@, entities@, config_valid@, max_cooldown, tick, 0)),
{
    let mut index: usize = 0;
    while index < hazards.len()
        invariant
            config_valid@.len() == hazards@.len(),
            index <= hazards@.len(),
            first_hazard_violation(hazards@, entities@, config_valid@, max_cooldown, tick, 0)
                == first_hazard_violation(hazards@, entities@, config_valid@, max_cooldown, tick, index as int),
        decreases hazards@.len() - index,
    {
        let hazard = &hazards[index];
        let entity = hazard.entity;
        let ghost here = hazard_violation(hazards@, entities@, config_valid@, max_cooldown, tick, index as int);
        if hazard_seen(hazards, index, entity) {
            return Err(GameSnapshotError::DuplicateHazard { entity });
        }
        let c = match find_capabilities(entities, entity) {
            Some(c) => c,
            None => {
                return Err(GameSnapshotError::UnknownHazardEntity { entity });
            },
        };
        if !(entities[c].transform && entities[c].bounds && entities[c].renderable) {
            return Err(GameSnapshotError::MissingHazardCapability { entity });
        }
        if !config_valid[index] || hazard.cooldown_ticks > max_cooldown || hazard.ready_at_tick
            > tick.saturating_add(hazard.cooldown_ticks) {
            return Err(GameSnapshotError::InvalidHazardConfig { entity });
        }
        assert(here is None);
        index = index + 1;
    }
    Ok(())
}

pub open spec fn navigation_violation(
    navigations: Seq<NavigationSnapshot>,
    enemies: Seq<EnemySnapshot>,
    entities: Seq<EntityCapabilities>,
    config_valid: Seq<bool>,
    collision_scene: bool,
    i: int,
) -> Option<GameSnapshotError> {
    let entity = navigations[i].entity;
    if exists|j: int| 0 <= j < i && (#[trigger] navigations[j]).entity == entity {
        Some(GameSnapshotError::DuplicateNavigation { entity })
    } else {
        match capability_index(entities, entity) {
            None => Some(GameSnapshotError::UnknownNavigationEntity { entity }),
            Some(c) => if enemy_index(enemies, entity) is None || !(entities[c].transform && entities[c].collision
                && entities[c].kinematic) {
                Some(GameSnapshotError::MissingNavigationCapability { entity })
            } else if !collision_scene {
                Some(GameSnapshotError::NavigationMissingCollisionScene { entity })
            } else if !config_valid[i] {
                Some(GameSnapshotError::InvalidNavigationConfig { entity })
            } else {
                None
            },
        }
    }
}

pub open spec fn first_navigation_violation(
    navigations: Seq<NavigationSnapshot>,
    enemies: Seq<EnemySnapshot>,
    entities: Seq<EntityCapabilities>,
    config_valid: Seq<bool>,
    collision_scene: bool,
    i: int,
) -> Option<GameSnapshotError>
    decreases navigations.len() - i,
{
    if i < 0 || i >= navigations.len() {
        None
    } else {
        match navigation_violation(navigations, enemies, entities, config_valid, collision_scene, i) {
            Some(error) => Some(error),
            None => first_navigation_violation(navigations, enemies, entities, config_valid, collision_scene, i + 1),
        }
    }
}

/// A combat posture agrees with whether a last known target position is
/// held, and with the enemy's state.
pub open spec fn posture_consistent(
    posture: SnapshotEnemyCombatPosture,
    position_known: bool,
    enemy: SnapshotEnemyState,
) -> bool {
    &&& match posture {
        SnapshotEnemyCombatPosture::Sleeping | SnapshotEnemyCombatPosture::Dead => !position_known,
        SnapshotEnemyCombatPosture::Pursuing | SnapshotEnemyCombatPosture::Attacking => position_known,
        SnapshotEnemyCombatPosture::Alert => true,
    }
    &&& (enemy == SnapshotEnemyState::Defeated) == (posture == SnapshotEnemyCombatPosture::Dead)
}

pub open spec fn enemy_combat_violation(
    combat: Seq<EnemyCombatSnapshot>,
    enemies: Seq<EnemySnapshot>,
    health: Seq<HealthSnapshot>,
    navigations: Seq<NavigationSnapshot>,
    entities: Seq<EntityCapabilities>,
    config_valid: Seq<bool>,
    tick: u64,
    i: int,
) -> Option<GameSnapshotError> {
    let entry = combat[i];
    let entity = entry.entity;
    if exists|j: int| 0 <= j < i && (#[trigger] combat[j]).entity == entity {
        Some(GameSnapshotError::DuplicateEnemyCombat { entity })
    } else if capability_index(entities, entity) is None {
        Some(GameSnapshotError::UnknownEnemyCombatEntity { entity })
    } else {
        match enemy_index(enemies, entity) {
            None => Some(GameSnapshotError::MissingEnemyCombatCapability { entity }),
            Some(e) => if health_index(health, entity) is None || !(exists|n: int|
                0 <= n < navigations.len() && (#[trigger] navigations[n]).entity == entity) {
                Some(GameSnapshotError::MissingEnemyCombatCapability { entity })
            } else if !config_valid[i] || !posture_consistent(
                entry.posture,
                entry.last_known_target_position is Some,
                enemies[e].state,
            ) || entry.ready_at_tick > (if tick + entry.cooldown_ticks > u64::MAX {
                u64::MAX as int
            } else {
                tick + entry.cooldown_ticks
            }) {
                Some(GameSnapshotError::InvalidEnemyCombatState { entity })
            } else {
                None
            },
        }
    }
}

pub open spec fn first_enemy_combat_violation(
    combat: Seq<EnemyCombatSnapshot>,
    enemies: Seq<EnemySnapshot>,
    health: Seq<HealthSnapshot>,
    navigations: Seq<NavigationSnapshot>,
    entities: Seq<EntityCapabilities>,
    config_valid: Seq<bool>,
    tick: u64,
    i: int,
) -> Option<GameSnapshotError>
    decreases combat.len() - i,
{
    if i < 0 || i >= combat.len() {
        None
    } else {
        match enemy_combat_violation(combat, enemies, health, navigations, entities, config_valid, tick, i) {
            Some(error) => Some(error),
            None => first_enemy_combat_violation(
                combat,
                enemies,
                health,
                navigations,
                entities,
                config_valid,
                tick,
                i + 1,
            ),
        }
    }
}

pub open spec fn controller_violation(
    controllers: Seq<PlayerControllerSnapshot>,
    entities: Seq<EntityCapabilities>,
    config_valid: Seq<bool>,
    collision_scene: bool,
    i: int,
) -> Option<GameSnapshotError> {
    let entity = controllers[i].entity;
    if exists|j: int| 0 <= j < i && (#[trigger] controllers[j]).entity == entity {
        Some(GameSnapshotError::DuplicatePlayerController { entity })
    } else {
        match capability_index(entities, entity) {
            None => Some(GameSnapshotError::UnknownPlayerControllerEntity { entity }),
            Some(c) => if !(entities[c].transform && entities[c].collision && entities[c].kinematic
                && entities[c].renderable) {
                Some(GameSnapshotError::MissingPlayerControllerCapability { entity })
            } else if !collision_scene {
                Some(GameSnapshotError::PlayerControllerMissingCollisionScene { entity })
            } else if !config_valid[i] {
                Some(GameSnapshotError::InvalidPlayerControllerConfig { entity })
            } else {
                None
            },
        }
    }
}

pub open spec fn first_controller_violation(
    controllers: Seq<PlayerControllerSnapshot>,
    entities: Seq<EntityCapabilities>,
    config_valid: Seq<bool>,
    collision_scene: bool,
    i: int,
) -> Option<GameSnapshotError>
    decreases controllers.len() - i,
{
    if i < 0 || i >= controllers.len() {
        None
    } else {
        match controller_violation(controllers, entities, config_valid, collision_scene, i) {
            Some(error) => Some(error),
            None => first_controller_violation(controllers, entities, config_valid, collision_scene, i + 1),
        }
    }
}

fn navigation_seen(navigations: &Vec<NavigationSnapshot>, end: usize, entity: u64) -> (seen: bool)
    requires
        end <= navigations@.len(),
    ensures
        seen == exists|j: int| 0 <= j < end && (#[trigger] navigations@[j]).entity == entity,
{
    let mut index: usize = 0;
    while index < end
        invariant
            end <= navigations@.len(),
            index <= end,
            forall|j: int| 0 <= j < index ==> (#[trigger] navigations@[j]).entity != entity,
        decreases end - index,
    {
        if navigations[index].entity == entity {
            return true;
        }
        index = index + 1;
    }
    false
}

fn combat_seen(combat: &Vec<EnemyCombatSnapshot>, end: usize, entity: u64) -> (seen: bool)
    requires
        end <= combat@.len(),
    ensures
        seen == exists|j: int| 0 <= j < end && (#[trigger] combat@[j]).entity == entity,
{
    let mut index: usize = 0;
    while index < end
        invariant
            end <= combat@.len(),
            index <= end,
            forall|j: int| 0 <= j < index ==> (#[trigger] combat@[j]).entity != entity,
        decreases end - index,
    {
        if combat[index].entity == entity {
            return true;
        }
        index = index + 1;
    }
    false
}

fn controller_seen(controllers: &Vec<PlayerControllerSnapshot>, end: usize, entity: u64) -> (seen: bool)
    requires
        end <= controllers@.len(),
    ensures
        seen == exists|j: int| 0 <= j < end && (#[trigger] controllers@[j]).entity == entity,
{
    let mut index: usize = 0;
    while index < end
        invariant
            end <= controllers@.len(),
            index <= end,
            forall|j: int| 0 <= j < index ==> (#[trigger] controllers@[j]).entity != entity,
        decreases end - index,
    {
        if controllers[index].entity == entity {
            return true;
        }
        index = index + 1;
    }
    false
}

/// Checks a snapshot's navigation states: each names a distinct restored
/// enemy with a transform, a collision shape and a kinematic body; the
/// snapshot has a collision scene; and its configuration is valid
/// (`config_valid`, the engine's verdict).
pub fn check_navigations(
    navigations: &Vec<NavigationSnapshot>,
    enemies: &Vec<EnemySnapshot>,
    entities: &Vec<EntityCapabilities>,
    config_valid: &Vec<bool>,
    collision_scene: bool,
) -> (result: Result<(), GameSnapshotError>)
    requires
        config_valid@.len() == navigations@.len(),
    ensures
        result == as_result(
            first_navigation_violation(navigations@, enemies@, entities@, config_valid@, collision_scene, 0),
        ),
{
    let mut index: usize = 0;
    while index < navigations.len()
        invariant
            config_valid@.len() == navigations@.len(),
            index <= navigations@.len(),
            first_navigation_violation(navigations@, enemies@, entities@, config_valid@, collision_scene, 0)
                == first_navigation_violation(
                navigations@,
                enemies@,
                entities@,
                config_valid@,
                collision_scene,
                index as int,
            ),
        decreases navigations@.len() - index,
    {
        let entity = navigations[index].entity;
        let ghost here = navigation_violation(
            navigations@,
            enemies@,
            entities@,
            config_valid@,
            collision_scene,
            index as int,
        );
        if navigation_seen(navigations, index, entity) {
            return Err(GameSnapshotError::DuplicateNavigation { entity });
        }
        let c = match find_capabilities(entities, entity) {
            Some(c) => c,
            None => {
                return Err(GameSnapshotError::UnknownNavigationEntity { entity });
            },
        };
        if find_enemy(enemies, entity).is_none() || !(entities[c].transform && entities[c].collision
            && entities[c].kinematic) {
            return Err(GameSnapshotError::MissingNavigationCapability { entity });
        }
        if !collision_scene {
            return Err(GameSnapshotError::NavigationMissingCollisionScene { entity });
        }
        if !config_valid[index] {
            return Err(GameSnapshotError::InvalidNavigationConfig { entity });
        }
        assert(here is None);
        index = index + 1;
    }
    Ok(())
}

/// Checks a snapshot's enemy combat states, taken at tick `tick`: each
/// names a distinct restored entity that is an enemy with health and
/// navigation; its configuration is valid (`config_valid`, the engine's
/// verdict); its posture agrees with whether a target position is known and
/// with the enemy's state; and its attack is ready no later than one
/// cooldown after `tick` (saturating).
pub fn check_enemy_combat(
    combat: &Vec<EnemyCombatSnapshot>,
    enemies: &Vec<EnemySnapshot>,
    health: &Vec<HealthSnapshot>,
    navigations: &Vec<NavigationSnapshot>,
    entities: &Vec<EntityCapabilities>,
    config_valid: &Vec<bool>,
    tick: u64,
) -> (result: Result<(), GameSnapshotError>)
    requires
        config_valid@.len() == combat@.len(),
    ensures
        result == as_result(
            first_enemy_combat_violation(
                combat@,
                enemies@,
                health@,
                navigations@,
                entities@,
                config_valid@,
                tick,
                0,
            ),
        ),
{
    let mut index: usize = 0;
    while index < combat.len()
        invariant
            config_valid@.len() == combat@.len(),
            index <= combat@.len(),
            first_enemy_combat_violation(
                combat@,
                enemies@,
                health@,
                navigations@,
                entities@,
                config_valid@,
                tick,
                0,
            ) == first_enemy_combat_violation(
                combat@,
                enemies@,
                health@,
                navigations@,
                entities@,
                config_valid@,
                tick,
                index as int,
            ),
        decreases combat@.len() - index,
    {
        let entry = &combat[index];
        let entity = entry.entity;
        let ghost here = enemy_combat_violation(
            combat@,
            enemies@,
            health@,
            navigations@,
            entities@,
            config_valid@,
            tick,
            index as int,
        );
        if combat_seen(combat, index, entity) {
            return Err(GameSnapshotError::DuplicateEnemyCombat { entity });
        }
        if find_capabilities(entities, entity).is_none() {
            return Err(GameSnapshotError::UnknownEnemyCombatEntity { entity });
        }
        let e = match find_enemy(enemies, entity) {
            Some(e) => e,
            None => {
                return Err(GameSnapshotError::MissingEnemyCombatCapability { entity });
            },
        };
        if find_health(health, entity).is_none() || !navigation_seen(navigations, navigations.len(), entity) {
            return Err(GameSnapshotError::MissingEnemyCombatCapability { entity });
        }
        let position_ok = match entry.posture {
            SnapshotEnemyCombatPosture::Sleeping | SnapshotEnemyCombatPosture::Dead => entry.last_known_target_position.is_none(),
            SnapshotEnemyCombatPosture::Pursuing | SnapshotEnemyCombatPosture::Attacking => entry.last_known_target_position.is_some(),
            SnapshotEnemyCombatPosture::Alert => true,
        };
        let defeated = match enemies[e].state {
            SnapshotEnemyState::Defeated => true,
            SnapshotEnemyState::Alive => false,
        };
        let dead = match entry.posture {
            SnapshotEnemyCombatPosture::Dead => true,
            _ => false,
        };
        if !config_valid[index] || !position_ok || defeated != dead || entry.ready_at_tick > tick.saturating_add(
            entry.cooldown_ticks,
        ) {
            return Err(GameSnapshotError::InvalidEnemyCombatState { entity });
        }
        assert(here is None);
        index = index + 1;
    }
    Ok(())
}

/// Checks a snapshot's player controllers: each names a distinct restored
/// entity with a transform, a collision shape, a kinematic body and a
/// renderable; the snapshot has a collision scene; and its configuration is
/// valid (`config_valid`, the engine's verdict).
pub fn check_player_controllers(
    controllers: &Vec<PlayerControllerSnapshot>,
    entities: &Vec<EntityCapabilities>,
    config_valid: &Vec<bool>,
    collision_scene: bool,
) -> (result: Result<(), GameSnapshotError>)
    requires
        config_valid@.len() == controllers@.len(),
    ensures
        result == as_result(first_controller_violation(controllers@, entities@, config_valid@, collision_scene, 0)),
{
    let mut index: usize = 0;
    while index < controllers.len()
        invariant
            config_valid@.len() == controllers@.len(),
            index <= controllers@.len(),
            first_controller_violation(controllers@, entities@, config_valid@, collision_scene, 0)
                == first_controller_violation(controllers@, entities@, config_valid@, collision_scene, index as int),
        decreases controllers@.len() - index,
    {
        let entity = controllers[index].entity;
        let ghost here = controller_violation(controllers@, entities@, config_valid@, collision_scene, index as int);
        if controller_seen(controllers, index, entity) {
            return Err(GameSnapshotError::DuplicatePlayerController { entity });
        }
        let c = match find_capabilities(entities, entity) {
            Some(c) => c,
            None => {
                return Err(GameSnapshotError::UnknownPlayerControllerEntity { entity });
            },
        };
        if !(entities[c].transform && entities[c].collision && entities[c].kinematic && entities[c].renderable) {
            return Err(GameSnapshotError::MissingPlayerControllerCapability { entity });
        }
        if !collision_scene {
            return Err(GameSnapshotError::PlayerControllerMissingCollisionScene { entity });
        }
        if !config_valid[index] {
            return Err(GameSnapshotError::InvalidPlayerControllerConfig { entity });
        }
        assert(here is None);
        index = index + 1;
    }
    Ok(())
}

/// A pickup's starter ammunition, if any, is the ammunition its weapon
/// uses, in a positive quantity within that ammunition's stack limit.
pub open spec fn starter_valid(pickup: PickupSnapshot, items: Seq<ItemDefinitionSnapshot>, d: int) -> bool {
    match pickup.starter_ammunition {
        None => true,
        Some(starter) => match items[d].kind {
            SnapshotItemKind::Weapon { ammunition, .. } => {
                &&& starter.item@ == ammunition@
                &&& starter.quantity > 0
                &&& item_index(items, starter.item@) matches Some(a)
                &&& items[a].kind is Ammunition
                &&& starter.quantity <= items[a].max_quantity
            },
            _ => false,
        },
    }
}

/// A pickup's state agrees with its entity.
pub open spec fn pickup_state_valid(pickup: PickupSnapshot, entities: Seq<EntityCapabilities>, c: int) -> bool {
    let capabilities = entities[c];
    match pickup.state {
        SnapshotPickupState::Dormant => capabilities.active && capabilities.transform && capabilities.bounds
            && capabilities.renderable && !capabilities.visible,
        SnapshotPickupState::Available => capabilities.active && capabilities.transform && capabilities.bounds
            && capabilities.renderable,
        SnapshotPickupState::Collected { actor, .. } => capabilities.tombstoned && capability_index(entities, actor)
            is Some,
    }
}

#[verifier::opaque]
pub open spec fn pickup_violation(
    pickups: Seq<PickupSnapshot>,
    entities: Seq<EntityCapabilities>,
    items: Seq<ItemDefinitionSnapshot>,
    tick: u64,
    i: int,
) -> Option<GameSnapshotError> {
    let pickup = pickups[i];
    let entity = pickup.entity;
    if exists|j: int| 0 <= j < i && (#[trigger] pickups[j]).entity == entity {
        Some(GameSnapshotError::DuplicatePickup { entity })
    } else {
        match capability_index(entities, entity) {
            None => Some(GameSnapshotError::UnknownPickupEntity { entity }),
            Some(c) => match item_index(items, pickup.item@) {
                None => Some(GameSnapshotError::InvalidPickup { entity }),
                Some(d) => if pickup.quantity == 0 || pickup.quantity > items[d].max_quantity || !starter_valid(
                    pickup,
                    items,
                    d,
                ) || !pickup_state_valid(pickup, entities, c) {
                    Some(GameSnapshotError::InvalidPickup { entity })
                } else {
                    match pickup.state {
                        SnapshotPickupState::Collected { collected_at_tick, .. } => if collected_at_tick > tick {
                            Some(
                                GameSnapshotError::PickupCollectionFromFuture {
                                    entity,
                                    collected_at_tick,
                                    snapshot_tick: tick,
                                },
                            )
                        } else {
                            None
                        },
                        _ => None,
                    }
                },
            },
        }
    }
}

pub open spec fn first_pickup_violation(
    pickups: Seq<PickupSnapshot>,
    entities: Seq<EntityCapabilities>,
    items: Seq<ItemDefinitionSnapshot>,
    tick: u64,
    i: int,
) -> Option<GameSnapshotError>
    decreases pickups.len() - i,
{
    if i < 0 || i >= pickups.len() {
        None
    } else {
        match pickup_violation(pickups, entities, items, tick, i) {
            Some(error) => Some(error),
            None => first_pickup_violation(pickups, entities, items, tick, i + 1),
        }
    }
}

/// The refusal owed to a snapshot's pickups: too many for the trigger
/// system, or the first pickup refused.
pub open spec fn pickups_outcome(
    pickups: Seq<PickupSnapshot>,
    entities: Seq<EntityCapabilities>,
    items: Seq<ItemDefinitionSnapshot>,
    tick: u64,
    limit: usize,
) -> Option<GameSnapshotError> {
    if pickups.len() > limit {
        Some(GameSnapshotError::TooManyPickups { count: pickups.len() as usize, limit })
    } else {
        first_pickup_violation(pickups, entities, items, tick, 0)
    }
}

fn pickup_seen(pickups: &Vec<PickupSnapshot>, end: usize, entity: u64) -> (seen: bool)
    requires
        end <= pickups@.len(),
    ensures
        seen == exists|j: int| 0 <= j < end && (#[trigger] pickups@[j]).entity == entity,
{
    let mut index: usize = 0;
    while index < end
        invariant
            end <= pickups@.len(),
            index <= end,
            forall|j: int| 0 <= j < index ==> (#[trigger] pickups@[j]).entity != entity,
        decreases end - index,
    {
        if pickups[index].entity == entity {
            return true;
        }
        index = index + 1;
    }
    false
}

fn starter_is_valid(pickup: &PickupSnapshot, items: &Vec<ItemDefinitionSnapshot>, d: usize) -> (valid: bool)
    requires
        d < items@.len(),
    ensures
        valid == starter_valid(*pickup, items@, d as int),
{
    match &pickup.starter_ammunition {
        None => true,
        Some(starter) => match &items[d].kind {
            SnapshotItemKind::Weapon { ammunition, .. } => {
                if !text_equal(starter.item.as_str(), ammunition.as_str()) || starter.quantity == 0 {
                    return false;
                }
                match find_item(items, starter.item.as_str()) {
                    None => false,
                    Some(a) => {
                        let is_ammunition = match items[a].kind {
                            SnapshotItemKind::Ammunition => true,
                            _ => false,
                        };
                        is_ammunition && starter.quantity <= items[a].max_quantity
                    },
                }
            },
            _ => false,
        },
    }
}

fn pickup_state_is_valid(pickup: &PickupSnapshot, entities: &Vec<EntityCapabilities>, c: usize) -> (valid: bool)
    requires
        c < entities@.len(),
    ensures
        valid == pickup_state_valid(*pickup, entities@, c as int),
{
    let capabilities = entities[c];
    match &pickup.state {
        SnapshotPickupState::Dormant => capabilities.active && capabilities.transform && capabilities.bounds
            && capabilities.renderable && !capabilities.visible,
        SnapshotPickupState::Available => capabilities.active && capabilities.transform && capabilities.bounds
            && capabilities.renderable,
        SnapshotPickupState::Collected { actor, .. } => capabilities.tombstoned && find_capabilities(
            entities,
            *actor,
        ).is_some(),
    }
}

fn check_pickup(
    pickups: &Vec<PickupSnapshot>,
    entities: &Vec<EntityCapabilities>,
    items: &Vec<ItemDefinitionSnapshot>,
    tick: u64,
    index: usize,
) -> (result: Result<(), GameSnapshotError>)
    requires
        index < pickups@.len(),
    ensures
        result == as_result(pickup_violation(pickups@, entities@, items@, tick, index as int)),
{
    reveal(pickup_violation);
    let pickup = &pickups[index];
    let entity = pickup.entity;
    if pickup_seen(pickups, index, entity) {
        return Err(GameSnapshotError::DuplicatePickup { entity });
    }
    let c = match find_capabilities(entities, entity) {
        Some(c) => c,
        None => {
            return Err(GameSnapshotError::UnknownPickupEntity { entity });
        },
    };
    let d = match find_item(items, pickup.item.as_str()) {
        Some(d) => d,
        None => {
            return Err(GameSnapshotError::InvalidPickup { entity });
        },
    };
    if pickup.quantity == 0 || pickup.quantity > items[d].max_quantity || !starter_is_valid(pickup, items, d)
        || !pickup_state_is_valid(pickup, entities, c) {
        return Err(GameSnapshotError::InvalidPickup { entity });
    }
    if let SnapshotPickupState::Collected { collected_at_tick, .. } = &pickup.state {
        if *collected_at_tick > tick {
            return Err(
                GameSnapshotError::PickupCollectionFromFuture {
                    entity,
                    collected_at_tick: *collected_at_tick,
                    snapshot_tick: tick,
                },
            );
        }
    }
    Ok(())
}

/// Checks a snapshot's pickups, taken at tick `tick`: no more than
/// `limit` (the trigger system's bound); each names a distinct restored
/// entity and a defined item, in a positive quantity within its stack
/// limit; starter ammunition is the weapon's ammunition within that
/// ammunition's limit; its state agrees with its entity (dormant pickups
/// active, placed and hidden, available ones active, placed and rendered,
/// collected ones tombstoned by a known actor); and no collection lies
/// after `tick`.
pub fn check_pickups(
    pickups: &Vec<PickupSnapshot>,
    entities: &Vec<EntityCapabilities>,
    items: &Vec<ItemDefinitionSnapshot>,
    tick: u64,
    limit: usize,
) -> (result: Result<(), GameSnapshotError>)
    ensures
        result == as_result(pickups_outcome(pickups@, entities@, items@, tick, limit)),
{
    if pickups.len() > limit {
        return Err(GameSnapshotError::TooManyPickups { count: pickups.len(), limit });
    }
    let mut index: usize = 0;
    while index < pickups.len()
        invariant
            pickups@.len() <= limit,
            index <= pickups@.len(),
            first_pickup_violation(pickups@, entities@, items@, tick, 0) == first_pickup_violation(
                pickups@,
                entities@,
                items@,
                tick,
                index as int,
            ),
        decreases pickups@.len() - index,
    {
        match check_pickup(pickups, entities, items, tick, index) {
            Ok(()) => {},
            Err(error) => {
                proof {
                    assert(pickup_violation(pickups@, entities@, items@, tick, index as int) == Some(error));
                }
                return Err(error);
            },
        }
        index = index + 1;
    }
    Ok(())
}

pub open spec fn interlocks_outcome(snapshot: GameSnapshot) -> Option<GameSnapshotError> {
    match snapshot.progression {
        None => None,
        Some(progression) => if forall|i: int|
            0 <= i < progression.loading_bay_interlocks@.len() ==> #[trigger] interlock_valid(
                progression.loading_bay_interlocks@,
                snapshot.switches@,
                snapshot.doors@,
                i,
            ) {
            None
        } else {
            Some(GameSnapshotError::InvalidProgressionState)
        },
    }
}

pub open spec fn health_mismatch_outcome(snapshot: GameSnapshot) -> Option<GameSnapshotError> {
    match least_health_mismatch(snapshot.enemies@, snapshot.health@) {
        Some(entity) => Some(GameSnapshotError::EnemyHealthStateMismatch { entity }),
        None => None,
    }
}

/// The first refusal of two checks made in turn.
pub open spec fn either_refusal(first: Option<GameSnapshotError>, then: Option<GameSnapshotError>) -> Option<
    GameSnapshotError,
> {
    match first {
        Some(error) => Some(error),
        None => then,
    }
}

/// The first refusal among the world components, in the order the runtime
/// restores them: doors, switches, extraction beacons, controls,
/// loading-bay interlocks and enemies.
pub open spec fn world_outcome(snapshot: GameSnapshot, observed: RestorationObservations) -> Option<
    GameSnapshotError,
> {
    let entities = observed.entities@;
    either_refusal(
        first_door_violation(snapshot.doors@, entities, 0),
        either_refusal(
            first_switch_violation(snapshot.switches@, entities, 0),
            either_refusal(
                first_beacon_violation(
                    snapshot.extraction_beacons@,
                    observed.beacon_radius_valid@,
                    entities,
                    snapshot.tick,
                    0,
                ),
                either_refusal(
                    first_control_violation(snapshot.controls@, snapshot.switches@, snapshot.doors@, 0),
                    either_refusal(
                        interlocks_outcome(snapshot),
                        first_enemy_violation(snapshot.enemies@, entities, 0),
                    ),
                ),
            ),
        ),
    )
}

/// The first refusal among the vitality, navigation, combat, controller and
/// encounter components, in the order the runtime restores them: health,
/// its agreement with enemy states, hazards, navigation, enemy combat,
/// player controllers, pickups, enemy drops, encounters and scheduled door
/// closings.
pub open spec fn vitality_outcome(snapshot: GameSnapshot, observed: RestorationObservations) -> Option<
    GameSnapshotError,
> {
    let entities = observed.entities@;
    either_refusal(
        first_health_violation(
            snapshot.health@,
            entities,
            snapshot.item_definitions@,
            observed.health_hitbox_valid@,
            observed.armor_item_id_valid@,
            0,
        ),
        either_refusal(
            health_mismatch_outcome(snapshot),
            either_refusal(
                first_hazard_violation(
                    snapshot.hazards@,
                    entities,
                    observed.hazard_config_valid@,
                    observed.max_hazard_cooldown_ticks,
                    snapshot.tick,
                    0,
                ),
                either_refusal(
                    first_navigation_violation(
                        snapshot.navigations@,
                        snapshot.enemies@,
                        entities,
                        observed.navigation_config_valid@,
                        snapshot.voxel_collision is Some,
                        0,
                    ),
                    either_refusal(
                    first_enemy_combat_violation(
                        snapshot.enemy_combat@,
                        snapshot.enemies@,
                        snapshot.health@,
                        snapshot.navigations@,
                        entities,
                        observed.enemy_combat_config_valid@,
                        snapshot.tick,
                        0,
                    ),
                    either_refusal(
                    first_controller_violation(
                        snapshot.player_controllers@,
                        entities,
                        observed.controller_config_valid@,
                        snapshot.voxel_collision is Some,
                        0,
                    ),
                    either_refusal(
                    pickups_outcome(
                        snapshot.pickups@,
                        entities,
                        snapshot.item_definitions@,
                        snapshot.tick,
                        observed.max_trigger_definitions,
                    ),
                either_refusal(
                    drops_outcome(snapshot.enemy_drops@, snapshot.enemies@, snapshot.pickups@),
                    either_refusal(
                        first_encounter_violation(
                            snapshot.encounters@,
                            observed.encounter_radius_in_range@,
                            entities,
                            snapshot.doors@,
                            snapshot.enemies@,
                            0,
                        ),
                        first_schedule_violation(snapshot.scheduled@, snapshot.doors@, 0),
                    ),
                ),
                    ),
                    ),
                    ),
                ),
            ),
        ),
    )
}

/// The first refusal among the component checks: the world components,
/// then vitality and encounters.
pub open spec fn components_outcome(snapshot: GameSnapshot, observed: RestorationObservations) -> Option<
    GameSnapshotError,
> {
    either_refusal(world_outcome(snapshot, observed), vitality_outcome(snapshot, observed))
}

fn check_world(snapshot: &GameSnapshot, observed: &RestorationObservations) -> (result: Result<
    (),
    GameSnapshotError,
>)
    requires
        observations_fit(*snapshot, *observed),
    ensures
        result == as_result(world_outcome(*snapshot, *observed)),
{
    check_doors(&snapshot.doors, &observed.entities)?;
    check_switches(&snapshot.switches, &observed.entities)?;
    check_extraction_beacons(
        &snapshot.extraction_beacons,
        &observed.beacon_radius_valid,
        &observed.entities,
        snapshot.tick,
    )?;
    check_controls(&snapshot.controls, &snapshot.switches, &snapshot.doors)?;
    match &snapshot.progression {
        Some(progression) => {
            check_interlocks(&progression.loading_bay_interlocks, &snapshot.switches, &snapshot.doors)?;
        },
        None => {},
    }
    check_enemies(&snapshot.enemies, &observed.entities)
}

fn check_vitality(snapshot: &GameSnapshot, observed: &RestorationObservations) -> (result: Result<
    (),
    GameSnapshotError,
>)
    requires
        observations_fit(*snapshot, *observed),
    ensures
        result == as_result(vitality_outcome(*snapshot, *observed)),
{
    check_health(
        &snapshot.health,
        &observed.entities,
        &snapshot.item_definitions,
        &observed.health_hitbox_valid,
        &observed.armor_item_id_valid,
    )?;
    check_enemy_health(&snapshot.enemies, &snapshot.health)?;
    check_hazards(
        &snapshot.hazards,
        &observed.entities,
        &observed.hazard_config_valid,
        observed.max_hazard_cooldown_ticks,
        snapshot.tick,
    )?;
    let collision_scene = snapshot.voxel_collision.is_some();
    check_navigations(
        &snapshot.navigations,
        &snapshot.enemies,
        &observed.entities,
        &observed.navigation_config_valid,
        collision_scene,
    )?;
    check_enemy_combat(
        &snapshot.enemy_combat,
        &snapshot.enemies,
        &snapshot.health,
        &snapshot.navigations,
        &observed.entities,
        &observed.enemy_combat_config_valid,
        snapshot.tick,
    )?;
    check_player_controllers(
        &snapshot.player_controllers,
        &observed.entities,
        &observed.controller_config_valid,
        collision_scene,
    )?;
    check_pickups(
        &snapshot.pickups,
        &observed.entities,
        &snapshot.item_definitions,
        snapshot.tick,
        observed.max_trigger_definitions,
    )?;
    check_enemy_drops(&snapshot.enemy_drops, &snapshot.enemies, &snapshot.pickups)?;
    check_encounters(
        &snapshot.encounters,
        &observed.encounter_radius_in_range,
        &observed.entities,
        &snapshot.doors,
        &snapshot.enemies,
    )?;
    check_schedules(&snapshot.scheduled, &snapshot.doors)
}

fn check_components(snapshot: &GameSnapshot, observed: &RestorationObservations) -> (result: Result<
    (),
    GameSnapshotError,
>)
    requires
        observations_fit(*snapshot, *observed),
    ensures
        result == as_result(components_outcome(*snapshot, *observed)),
{
    check_world(snapshot, observed)?;
    check_vitality(snapshot, observed)
}

/// Restores a snapshot's state as far as the library decides it: the
/// version gate (migrating a legacy weapon authority when the schema
/// predates inventory weapons), then the component checks on the gated
/// snapshot.
pub fn check_snapshot_restoration(snapshot: &mut GameSnapshot, observed: &RestorationObservations) -> (
    result: Result<(), GameSnapshotError>)
    requires
        observations_fit(*old(snapshot), *observed),
    ensures
        exists|gate: Result<(), GameSnapshotError>|
            #[trigger] version_gate_outcome(
                *old(snapshot),
                *final(snapshot),
                observed.pickup_triggers,
                observed.hazard_triggers,
                gate,
            ) && match gate {
                Err(error) => result == Err::<(), GameSnapshotError>(error),
                Ok(_) => result == as_result(components_outcome(*final(snapshot), *observed)),
            },
{
    let ghost before = *snapshot;
    let gate = check_snapshot_versions(snapshot, observed.pickup_triggers, observed.hazard_triggers);
    assert(version_gate_outcome(before, *snapshot, observed.pickup_triggers, observed.hazard_triggers, gate));
    match gate {
        Err(error) => Err(error),
        Ok(()) => {
            assert(observations_fit(*snapshot, *observed)) by {
                lemma_version_gate_keeps_unrelated_state(before, *snapshot, observed.pickup_triggers, observed.hazard_triggers, gate);
            }
            check_components(snapshot, observed)
        },
    }
}

} // verus!
