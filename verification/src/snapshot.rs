//! Save-game snapshot shapes and the migration of legacy weapon authority.
//!
//! Floating-point values are carried as IEEE-754 bit patterns (`f32` as
//! `u32`, `f64` as `u64`). Engine-owned parts of a save (entity state and
//! trigger volumes) are held by the engine side and are not modelled here.
use vstd::prelude::*;

use crate::text::decimal;

verus! {

pub const GAME_SNAPSHOT_SCHEMA_VERSION: u32 = 18;

pub const INVENTORY_WEAPON_SNAPSHOT_SCHEMA_VERSION: u32 = 13;

pub const VITALITY_SNAPSHOT_SCHEMA_VERSION: u32 = 14;

pub const PROGRESSION_SNAPSHOT_SCHEMA_VERSION: u32 = 16;

pub const ENEMY_COMBAT_SNAPSHOT_SCHEMA_VERSION: u32 = 17;

#[derive(Debug, Clone, PartialEq, Eq)]
pub struct GameSnapshot {
    pub schema_version: u32,
    pub tick: u64,
    pub item_definitions: Vec<ItemDefinitionSnapshot>,
    pub voxel_collision: Option<VoxelCollisionSnapshot>,
    pub doors: Vec<DoorSnapshot>,
    pub switches: Vec<SwitchSnapshot>,
    pub extraction_beacons: Vec<ExtractionBeaconSnapshot>,
    pub controls: Vec<ControlsSnapshot>,
    pub enemies: Vec<EnemySnapshot>,
    pub enemy_combat: Vec<EnemyCombatSnapshot>,
    pub enemy_drops: Vec<EnemyDropSnapshot>,
    pub health: Vec<HealthSnapshot>,
    pub hazards: Vec<HazardSnapshot>,
    pub encounters: Vec<EncounterSnapshot>,
    pub navigations: Vec<NavigationSnapshot>,
    pub player_controllers: Vec<PlayerControllerSnapshot>,
    pub inventories: Vec<InventorySnapshot>,
    pub pickups: Vec<PickupSnapshot>,
    pub weapons: Vec<WeaponSnapshot>,
    pub progression: Option<ProgressionSnapshot>,
    pub scheduled: Vec<ScheduledSnapshot>,
}

#[derive(Debug, Clone, PartialEq, Eq)]
pub struct VoxelCollisionSnapshot {
    pub voxel_size: u64,
    pub chunk_size: u32,
    pub source_revision: u64,
    pub authority_hash: u64,
    pub material_voxels: Vec<MaterialVoxelSnapshot>,
    pub generated_room: Option<GeneratedRoomSnapshot>,
}

#[derive(Debug, Clone, PartialEq, Eq)]
pub struct ItemDefinitionSnapshot {
    pub id: String,
    pub max_quantity: u32,
    pub kind: SnapshotItemKind,
}

#[derive(Debug, Clone, PartialEq, Eq)]
pub enum SnapshotItemKind {
    Weapon {
        ammunition: String,
        attack_mode: Option<SnapshotWeaponAttackMode>,
        pellet_count: Option<u8>,
        spread_degrees: Option<u32>,
        damage: Option<u32>,
        max_distance: Option<u32>,
        cooldown_ticks: Option<u64>,
        ammunition_cost: Option<u32>,
        muzzle_offset: Option<[u32; 3]>,
        presentation: Option<String>,
    },
    Ammunition,
    AccessKey,
    HealthSupply { restore_health: u32 },
    Armor { protection: u32 },
}

#[derive(Debug, Clone, Copy, PartialEq, Eq, Structural)]
pub enum SnapshotWeaponAttackMode {
    Hitscan,
    Spread,
    Automatic,
}

#[derive(Debug, Clone, PartialEq, Eq)]
pub struct InventorySnapshot {
    pub owner: u64,
    pub capacity_slots: usize,
    pub stacks: Vec<InventoryStackSnapshot>,
    pub equipped_weapon: Option<String>,
    pub weapon_slots: Vec<String>,
    pub weapon_cooldowns: Vec<WeaponCooldownSnapshot>,
}

#[derive(Debug, Clone, PartialEq, Eq)]
pub struct WeaponCooldownSnapshot {
    pub item: String,
    pub ready_at_tick: u64,
}

#[derive(Debug, Clone, PartialEq, Eq)]
pub struct InventoryStackSnapshot {
    pub item: String,
    pub quantity: u32,
}

#[derive(Debug, Clone, PartialEq, Eq)]
pub struct PickupSnapshot {
    pub entity: u64,
    pub item: String,
    pub quantity: u32,
    pub starter_ammunition: Option<InventoryStackSnapshot>,
    pub state: SnapshotPickupState,
}

#[derive(Debug, Clone, PartialEq, Eq, Structural)]
pub enum SnapshotPickupState {
    Dormant,
    Available,
    Collected { actor: u64, collected_at_tick: u64, cause: SnapshotPickupCollectionCause },
}

#[derive(Debug, Clone, PartialEq, Eq, Structural)]
pub enum SnapshotPickupCollectionCause {
    Overlap { trigger_revision: u64 },
    Interaction { connection_generation: u64, command_sequence: u64 },
}

#[derive(Debug, Clone, Copy, PartialEq, Eq)]
pub struct MaterialVoxelSnapshot {
    pub address: [i64; 3],
    pub material_slot: u16,
}

#[derive(Debug, Clone, PartialEq, Eq, Structural)]
pub struct GeneratedRoomSnapshot {
    pub generator_version: u32,
    pub seed: u64,
    pub width: u32,
    pub height: u32,
    pub length: u32,
    pub output_hash: u64,
}

#[derive(Debug, Clone, PartialEq, Eq)]
pub struct DoorSnapshot {
    pub entity: u64,
    pub state: SnapshotDoorState,
    pub closed_translation: [u32; 3],
    pub open_translation: [u32; 3],
    pub auto_close_after_ticks: Option<u64>,
}

#[derive(Debug, Clone, Copy, PartialEq, Eq, Structural)]
pub enum SnapshotDoorState {
    Closed,
    Open,
}

#[derive(Debug, Clone, PartialEq, Eq, Structural)]
pub struct SwitchSnapshot {
    pub entity: u64,
    pub activation_count: u64,
}

#[derive(Debug, Clone, PartialEq, Eq)]
pub struct ExtractionBeaconSnapshot {
    pub entity: u64,
    pub activation_radius: u32,
    pub state: SnapshotExtractionBeaconState,
}

#[derive(Debug, Clone, Copy, PartialEq, Eq, Structural)]
pub enum SnapshotExtractionBeaconState {
    Standby,
    Active { actor: u64, activated_at_tick: u64 },
}

#[derive(Debug, Clone, PartialEq, Eq)]
pub struct ControlsSnapshot {
    pub switch: u64,
    pub targets: Vec<u64>,
}

#[derive(Debug, Clone, PartialEq, Eq, Structural)]
pub struct EnemySnapshot {
    pub entity: u64,
    pub state: SnapshotEnemyState,
}

#[derive(Debug, Clone, Copy, PartialEq, Eq, Structural)]
pub enum SnapshotEnemyState {
    Alive,
    Defeated,
}

#[derive(Debug, Clone, PartialEq, Eq)]
pub struct EnemyCombatSnapshot {
    pub entity: u64,
    pub sight_range: u32,
    pub hearing_range: u32,
    pub attack_kind: SnapshotEnemyAttackKind,
    pub damage: u32,
    pub range: u32,
    pub cooldown_ticks: u64,
    pub origin_offset: [u32; 3],
    pub presentation: String,
    pub posture: SnapshotEnemyCombatPosture,
    pub ready_at_tick: u64,
    pub last_known_target_position: Option<[u32; 3]>,
}

#[derive(Debug, Clone, Copy, PartialEq, Eq, Structural)]
pub enum SnapshotEnemyAttackKind {
    Melee,
    RangedHitscan,
}

#[derive(Debug, Clone, Copy, PartialEq, Eq, Structural)]
pub enum SnapshotEnemyCombatPosture {
    Sleeping,
    Alert,
    Pursuing,
    Attacking,
    Dead,
}

#[derive(Debug, Clone, Copy, PartialEq, Eq, Structural)]
pub struct EnemyDropSnapshot {
    pub enemy: u64,
    pub pickup: u64,
    pub state: SnapshotEnemyDropState,
}

#[derive(Debug, Clone, Copy, PartialEq, Eq, Structural)]
pub enum SnapshotEnemyDropState {
    Armed,
    Materialized,
}

#[derive(Debug, Clone, PartialEq, Eq)]
pub struct HealthSnapshot {
    pub entity: u64,
    pub current: u32,
    pub max: u32,
    pub hitbox_half_extents: [u32; 3],
    pub max_armor: u32,
    pub armor_absorption_percent: u8,
    pub armor: u32,
    pub armor_item: Option<String>,
    pub state: Option<SnapshotVitalityState>,
}

#[derive(Debug, Clone, Copy, PartialEq, Eq, Structural)]
pub enum SnapshotVitalityState {
    Alive,
    Dead,
}

#[derive(Debug, Clone, PartialEq, Eq, Structural)]
pub struct HazardSnapshot {
    pub entity: u64,
    pub damage: u32,
    pub cooldown_ticks: u64,
    pub ready_at_tick: u64,
}

#[derive(Debug, Clone, PartialEq, Eq)]
pub struct EncounterSnapshot {
    pub entity: u64,
    pub state: SnapshotEncounterState,
    pub members: Vec<u64>,
    pub exit: u64,
    pub activation_radius: Option<u32>,
}

#[derive(Debug, Clone, Copy, PartialEq, Eq, Structural)]
pub enum SnapshotEncounterState {
    Dormant,
    Active,
    Cleared,
}

#[derive(Debug, Clone, PartialEq, Eq)]
pub struct NavigationSnapshot {
    pub entity: u64,
    pub state: SnapshotNavigationState,
    pub goal: [u32; 3],
    pub speed_units_per_second: u32,
    pub max_visited: usize,
}

#[derive(Debug, Clone, Copy, PartialEq, Eq, Structural)]
pub enum SnapshotNavigationState {
    Following,
    Arrived,
    Blocked,
    Unreachable,
}

#[derive(Debug, Clone, PartialEq, Eq)]
pub struct PlayerControllerSnapshot {
    pub entity: u64,
    pub move_speed_units_per_second: u32,
    pub move_step_seconds: u32,
    pub look_degrees_per_unit: u32,
    pub initial_yaw_degrees: u32,
    pub initial_pitch_degrees: u32,
    pub yaw_degrees: u32,
    pub pitch_degrees: u32,
    pub bindings: PlayerInputBindingsSnapshot,
}

#[derive(Debug, Clone, PartialEq, Eq)]
pub struct PlayerInputBindingsSnapshot {
    pub move_forward: String,
    pub move_backward: String,
    pub move_left: String,
    pub move_right: String,
    pub mouse_look: String,
    pub primary_fire: String,
    pub select_weapon: Vec<String>,
}

#[derive(Debug, Clone, PartialEq, Eq)]
pub struct WeaponSnapshot {
    pub entity: u64,
    pub damage: u32,
    pub max_distance: u32,
    pub cooldown_ticks: u64,
    pub ammo_capacity: u32,
    pub muzzle_offset: [u32; 3],
    pub ammo_remaining: u32,
    pub ready_at_tick: u64,
}

#[derive(Debug, Clone, PartialEq, Eq, Structural)]
pub struct ScheduledSnapshot {
    pub due_tick: u64,
    pub kind: ScheduledSnapshotKind,
}

#[derive(Debug, Clone, PartialEq, Eq, Structural)]
pub enum ScheduledSnapshotKind {
    CloseDoor { door: u64 },
}

/// Progression state; the secret-region trigger volumes stay with the
/// engine.
#[derive(Debug, Clone, PartialEq, Eq)]
pub struct ProgressionSnapshot {
    pub door_access: Vec<DoorAccessSnapshot>,
    pub loading_bay_interlocks: Vec<LoadingBayInterlockSnapshot>,
    pub secret_regions: Vec<SecretRegionSnapshot>,
    pub level_exits: Vec<LevelExitSnapshot>,
}

#[derive(Debug, Clone, PartialEq, Eq)]
pub struct DoorAccessSnapshot {
    pub door: u64,
    pub required_key: String,
    pub key_policy: SnapshotRequiredKeyPolicy,
    pub activation_radius: u32,
    pub denied_presentation: String,
}

#[derive(Debug, Clone, Copy, PartialEq, Eq, Structural)]
pub enum SnapshotRequiredKeyPolicy {
    Retain,
    Consume,
}

#[derive(Debug, Clone, Copy, PartialEq, Eq, Structural)]
pub struct LoadingBayInterlockSnapshot {
    pub switch: u64,
    pub close_door: u64,
    pub open_door: u64,
}

#[derive(Debug, Clone, PartialEq, Eq)]
pub struct SecretRegionSnapshot {
    pub entity: u64,
    pub presentation: String,
    pub state: SnapshotSecretRegionState,
}

#[derive(Debug, Clone, Copy, PartialEq, Eq, Structural)]
pub enum SnapshotSecretRegionState {
    Undiscovered,
    Discovered { actor: u64, discovered_at_tick: u64 },
}

#[derive(Debug, Clone, PartialEq, Eq)]
pub struct LevelExitSnapshot {
    pub entity: u64,
    pub activation_radius: u32,
    pub presentation: String,
    pub state: SnapshotLevelExitState,
}

#[derive(Debug, Clone, Copy, PartialEq, Eq, Structural)]
pub enum SnapshotLevelExitState {
    Available,
    Completed { actor: u64, completed_at_tick: u64 },
}

#[derive(Debug, Clone, PartialEq, Eq)]
pub enum GameSnapshotError {
    UnsupportedSchema { actual: u32 },
    AmbiguousVoxelSnapshot,
    GeneratedRoomRevisionMismatch { actual: u64 },
    UnsupportedGeneratedRoomVersion { actual: u32 },
    GeneratedRoomHashMismatch { expected: u64, actual: u64 },
    VoxelAuthorityHashMismatch { expected: u64, actual: u64 },
    DuplicateDoor { entity: u64 },
    DuplicateSwitch { entity: u64 },
    DuplicateExtractionBeacon { entity: u64 },
    DuplicateEnemy { entity: u64 },
    DuplicateEnemyCombat { entity: u64 },
    DuplicateHealth { entity: u64 },
    DuplicateEncounter { entity: u64 },
    DuplicateNavigation { entity: u64 },
    DuplicatePlayerController { entity: u64 },
    DuplicateWeapon { entity: u64 },
    InvalidItemDefinitionId { value: String },
    FutureInventoryStateInLegacySnapshot,
    DuplicateInventory { owner: u64 },
    UnknownInventoryEntity { owner: u64 },
    DuplicatePickup { entity: u64 },
    TooManyPickups { count: usize, limit: usize },
    UnknownPickupEntity { entity: u64 },
    InvalidPickup { entity: u64 },
    PickupCollectionFromFuture { entity: u64, collected_at_tick: u64, snapshot_tick: u64 },
    InvalidPickupTriggerDefinitions,
    InvalidHazardTriggerDefinitions,
    FuturePickupStateInLegacySnapshot,
    FutureWeaponStateInLegacySnapshot,
    FutureVitalityStateInLegacySnapshot,
    FutureProgressionStateInLegacySnapshot,
    FutureEnemyCombatStateInLegacySnapshot,
    FutureEnemyArchetypeStateInLegacySnapshot,
    InvalidProgressionState,
    InvalidSecretTriggerDefinitions,
    InvalidHazardConfig { entity: u64 },
    DuplicateHazard { entity: u64 },
    UnknownHazardEntity { entity: u64 },
    MissingHazardCapability { entity: u64 },
    InvalidWeaponCooldown { owner: u64, item: String },
    UnknownDoorEntity { entity: u64 },
    UnknownSwitchEntity { entity: u64 },
    UnknownExtractionBeaconEntity { entity: u64 },
    UnknownExtractionBeaconActor { beacon: u64, actor: u64 },
    UnknownEnemyEntity { entity: u64 },
    UnknownEnemyCombatEntity { entity: u64 },
    UnknownHealthEntity { entity: u64 },
    UnknownEncounterEntity { entity: u64 },
    UnknownNavigationEntity { entity: u64 },
    UnknownPlayerControllerEntity { entity: u64 },
    UnknownWeaponEntity { entity: u64 },
    UnknownControlTarget { switch: u64, target: u64 },
    UnknownEncounterMember { encounter: u64, member: u64 },
    UnknownEncounterExit { encounter: u64, exit: u64 },
    MissingDoorCapability { entity: u64 },
    MissingExtractionBeaconCapability { entity: u64 },
    MissingEnemyCapability { entity: u64 },
    MissingEnemyCombatCapability { entity: u64 },
    MissingHealthCapability { entity: u64 },
    MissingNavigationCapability { entity: u64 },
    MissingPlayerControllerCapability { entity: u64 },
    MissingWeaponCapability { entity: u64 },
    NavigationMissingCollisionScene { entity: u64 },
    PlayerControllerMissingCollisionScene { entity: u64 },
    InvalidNavigationConfig { entity: u64 },
    InvalidPlayerControllerConfig { entity: u64 },
    InvalidHealthConfig { entity: u64 },
    InvalidWeaponConfig { entity: u64 },
    InvalidExtractionBeaconConfig { entity: u64 },
    ExtractionBeaconActivationFromFuture { entity: u64, activated_at_tick: u64, snapshot_tick: u64 },
    EnemyHealthStateMismatch { entity: u64 },
    InvalidEnemyCombatState { entity: u64 },
    DuplicateEnemyDrop { enemy: u64 },
    DuplicateEnemyDropPickup { pickup: u64 },
    InvalidEnemyDropState { enemy: u64, pickup: u64 },
    DormantPickupMissingEnemyDrop { pickup: u64 },
    InvalidEncounterActivation { encounter: u64 },
    DuplicateEncounterMember { encounter: u64, member: u64 },
    EnemyInMultipleEncounters { enemy: u64, first: u64, second: u64 },
    DuplicateSchedule { door: u64 },
}

// ---------------------------------------------------------------------------
// Mathematical views of the snapshot parts that the weapon migration touches.
// ---------------------------------------------------------------------------

pub struct ItemKindView {
    pub weapon: bool,
    pub ammunition: Seq<char>,
    pub attack_mode: Option<SnapshotWeaponAttackMode>,
    pub pellet_count: Option<u8>,
    pub spread_degrees: Option<u32>,
    pub damage: Option<u32>,
    pub max_distance: Option<u32>,
    pub cooldown_ticks: Option<u64>,
    pub ammunition_cost: Option<u32>,
    pub muzzle_offset: Option<[u32; 3]>,
    pub presentation: Option<Seq<char>>,
    /// The kind itself, for the kinds that carry no text.
    pub plain: SnapshotItemKind,
}

pub open spec fn optional_text(value: Option<String>) -> Option<Seq<char>> {
    match value {
        Some(text) => Some(text@),
        None => None,
    }
}

impl View for SnapshotItemKind {
    type V = ItemKindView;

    open spec fn view(&self) -> ItemKindView {
        match self {
            SnapshotItemKind::Weapon {
                ammunition,
                attack_mode,
                pellet_count,
                spread_degrees,
                damage,
                max_distance,
                cooldown_ticks,
                ammunition_cost,
                muzzle_offset,
                presentation,
            } => ItemKindView {
                weapon: true,
                ammunition: ammunition@,
                attack_mode: *attack_mode,
                pellet_count: *pellet_count,
                spread_degrees: *spread_degrees,
                damage: *damage,
                max_distance: *max_distance,
                cooldown_ticks: *cooldown_ticks,
                ammunition_cost: *ammunition_cost,
                muzzle_offset: *muzzle_offset,
                presentation: optional_text(*presentation),
                plain: SnapshotItemKind::Ammunition,
            },
            _ => ItemKindView {
                weapon: false,
                ammunition: Seq::empty(),
                attack_mode: None,
                pellet_count: None,
                spread_degrees: None,
                damage: None,
                max_distance: None,
                cooldown_ticks: None,
                ammunition_cost: None,
                muzzle_offset: None,
                presentation: None,
                plain: *self,
            },
        }
    }
}

pub struct ItemDefinitionView {
    pub id: Seq<char>,
    pub max_quantity: u32,
    pub kind: ItemKindView,
}

impl View for ItemDefinitionSnapshot {
    type V = ItemDefinitionView;

    open spec fn view(&self) -> ItemDefinitionView {
        ItemDefinitionView { id: self.id@, max_quantity: self.max_quantity, kind: self.kind@ }
    }
}

pub struct StackView {
    pub item: Seq<char>,
    pub quantity: u32,
}

pub struct CooldownView {
    pub item: Seq<char>,
    pub ready_at_tick: u64,
}

pub struct InventoryView {
    pub owner: u64,
    pub capacity_slots: usize,
    pub stacks: Seq<StackView>,
    pub equipped_weapon: Option<Seq<char>>,
    pub weapon_slots: Seq<Seq<char>>,
    pub weapon_cooldowns: Seq<CooldownView>,
}

pub open spec fn texts(values: Seq<String>) -> Seq<Seq<char>> {
    Seq::new(values.len(), |i: int| values[i]@)
}

impl View for InventorySnapshot {
    type V = InventoryView;

    open spec fn view(&self) -> InventoryView {
        InventoryView {
            owner: self.owner,
            capacity_slots: self.capacity_slots,
            stacks: Seq::new(
                self.stacks@.len(),
                |i: int| StackView { item: self.stacks@[i].item@, quantity: self.stacks@[i].quantity },
            ),
            equipped_weapon: optional_text(self.equipped_weapon),
            weapon_slots: texts(self.weapon_slots@),
            weapon_cooldowns: Seq::new(
                self.weapon_cooldowns@.len(),
                |i: int|
                    CooldownView {
                        item: self.weapon_cooldowns@[i].item@,
                        ready_at_tick: self.weapon_cooldowns@[i].ready_at_tick,
                    },
            ),
        }
    }
}

pub struct ControllerView {
    pub entity: u64,
    pub angles: [u32; 7],
    pub fixed_bindings: Seq<Seq<char>>,
    pub select_weapon: Seq<Seq<char>>,
}

impl View for PlayerControllerSnapshot {
    type V = ControllerView;

    open spec fn view(&self) -> ControllerView {
        ControllerView {
            entity: self.entity,
            angles: [
                self.move_speed_units_per_second,
                self.move_step_seconds,
                self.look_degrees_per_unit,
                self.initial_yaw_degrees,
                self.initial_pitch_degrees,
                self.yaw_degrees,
                self.pitch_degrees,
            ],
            fixed_bindings: seq![
                self.bindings.move_forward@,
                self.bindings.move_backward@,
                self.bindings.move_left@,
                self.bindings.move_right@,
                self.bindings.mouse_look@,
                self.bindings.primary_fire@,
            ],
            select_weapon: texts(self.bindings.select_weapon@),
        }
    }
}

pub open spec fn definition_views(values: Seq<ItemDefinitionSnapshot>) -> Seq<ItemDefinitionView> {
    Seq::new(values.len(), |i: int| values[i]@)
}

pub open spec fn inventory_views(values: Seq<InventorySnapshot>) -> Seq<InventoryView> {
    Seq::new(values.len(), |i: int| values[i]@)
}

pub open spec fn controller_views(values: Seq<PlayerControllerSnapshot>) -> Seq<ControllerView> {
    Seq::new(values.len(), |i: int| values[i]@)
}

// ---------------------------------------------------------------------------
// Which snapshots carry fields that later schemas introduced.
// ---------------------------------------------------------------------------

pub open spec fn has_future_weapon_behavior(kind: SnapshotItemKind) -> bool {
    match kind {
        SnapshotItemKind::Weapon { attack_mode, pellet_count, spread_degrees, .. } => (attack_mode
            == Some(SnapshotWeaponAttackMode::Spread) || attack_mode == Some(
            SnapshotWeaponAttackMode::Automatic,
        )) || pellet_count is Some || spread_degrees is Some,
        _ => false,
    }
}

/// Whether a weapon definition uses a spread or automatic attack, or carries
/// spread fields.
pub fn snapshot_has_future_weapon_behavior_fields(snapshot: &GameSnapshot) -> (found: bool)
    ensures
        found == exists|i: int|
            0 <= i < snapshot.item_definitions@.len() && has_future_weapon_behavior(
                #[trigger] snapshot.item_definitions@[i].kind,
            ),
{
    let definitions = &snapshot.item_definitions;
    let mut index: usize = 0;
    while index < definitions.len()
        invariant
            definitions == &snapshot.item_definitions,
            0 <= index <= definitions@.len(),
            forall|j: int| 0 <= j < index ==> !has_future_weapon_behavior(
                #[trigger] definitions@[j].kind,
            ),
        decreases definitions@.len() - index,
    {
        let found = match &definitions[index].kind {
            SnapshotItemKind::Weapon { attack_mode, pellet_count, spread_degrees, .. } => {
                let mode = match attack_mode {
                    Some(SnapshotWeaponAttackMode::Spread) => true,
                    Some(SnapshotWeaponAttackMode::Automatic) => true,
                    _ => false,
                };
                mode || pellet_count.is_some() || spread_degrees.is_some()
            },
            _ => false,
        };
        if found {
            assert(has_future_weapon_behavior(definitions@[index as int].kind));
            return true;
        }
        index = index + 1;
    }
    false
}

pub open spec fn has_inventory_weapon_field(kind: SnapshotItemKind) -> bool {
    match kind {
        SnapshotItemKind::Weapon {
            attack_mode,
            damage,
            max_distance,
            cooldown_ticks,
            ammunition_cost,
            muzzle_offset,
            presentation,
            ..
        } => attack_mode is Some || damage is Some || max_distance is Some || cooldown_ticks is Some
            || ammunition_cost is Some || muzzle_offset is Some || presentation is Some,
        _ => false,
    }
}

pub open spec fn spec_has_inventory_weapon_fields(snapshot: GameSnapshot) -> bool {
    ||| exists|i: int|
        0 <= i < snapshot.item_definitions@.len() && has_inventory_weapon_field(
            #[trigger] snapshot.item_definitions@[i].kind,
        )
    ||| exists|i: int|
        0 <= i < snapshot.inventories@.len() && ((#[trigger] snapshot.inventories@[i]).weapon_slots@.len()
            > 0 || snapshot.inventories@[i].weapon_cooldowns@.len() > 0)
    ||| exists|i: int|
        0 <= i < snapshot.player_controllers@.len()
            && (#[trigger] snapshot.player_controllers@[i]).bindings.select_weapon@.len() > 0
    ||| exists|i: int|
        0 <= i < snapshot.pickups@.len()
            && (#[trigger] snapshot.pickups@[i]).starter_ammunition is Some
}

/// Whether the snapshot carries any field of the inventory-weapon schema.
pub fn snapshot_has_inventory_weapon_fields(snapshot: &GameSnapshot) -> (found: bool)
    ensures
        found == spec_has_inventory_weapon_fields(*snapshot),
{
    let definitions = &snapshot.item_definitions;
    let mut index: usize = 0;
    while index < definitions.len()
        invariant
            definitions == &snapshot.item_definitions,
            0 <= index <= definitions@.len(),
            forall|j: int| 0 <= j < index ==> !has_inventory_weapon_field(
                #[trigger] definitions@[j].kind,
            ),
        decreases definitions@.len() - index,
    {
        let found = match &definitions[index].kind {
            SnapshotItemKind::Weapon {
                attack_mode,
                damage,
                max_distance,
                cooldown_ticks,
                ammunition_cost,
                muzzle_offset,
                presentation,
                ..
            } => attack_mode.is_some() || damage.is_some() || max_distance.is_some()
                || cooldown_ticks.is_some() || ammunition_cost.is_some() || muzzle_offset.is_some()
                || presentation.is_some(),
            _ => false,
        };
        if found {
            assert(has_inventory_weapon_field(definitions@[index as int].kind));
            return true;
        }
        index = index + 1;
    }
    let inventories = &snapshot.inventories;
    let mut index: usize = 0;
    while index < inventories.len()
        invariant
            inventories == &snapshot.inventories,
            0 <= index <= inventories@.len(),
            forall|j: int| 0 <= j < index ==> !((#[trigger] inventories@[j]).weapon_slots@.len() > 0
                || inventories@[j].weapon_cooldowns@.len() > 0),
        decreases inventories@.len() - index,
    {
        if inventories[index].weapon_slots.len() > 0 || inventories[index].weapon_cooldowns.len() > 0 {
            return true;
        }
        index = index + 1;
    }
    let controllers = &snapshot.player_controllers;
    let mut index: usize = 0;
    while index < controllers.len()
        invariant
            controllers == &snapshot.player_controllers,
            0 <= index <= controllers@.len(),
            forall|j: int| 0 <= j < index ==> !((#[trigger] controllers@[j]).bindings.select_weapon@.len() > 0),
        decreases controllers@.len() - index,
    {
        if controllers[index].bindings.select_weapon.len() > 0 {
            return true;
        }
        index = index + 1;
    }
    let pickups = &snapshot.pickups;
    let mut index: usize = 0;
    while index < pickups.len()
        invariant
            pickups == &snapshot.pickups,
            0 <= index <= pickups@.len(),
            forall|j: int| 0 <= j < index ==> !((#[trigger] pickups@[j]).starter_ammunition is Some),
        decreases pickups@.len() - index,
    {
        if pickups[index].starter_ammunition.is_some() {
            return true;
        }
        index = index + 1;
    }
    false
}

// ---------------------------------------------------------------------------
// Migration of legacy per-player weapon components to inventory weapons.
// ---------------------------------------------------------------------------

pub open spec fn migrated_weapon_id(entity: u64) -> Seq<char> {
    "weapon/migrated-player-"@ + decimal(entity as nat)
}

pub open spec fn migrated_ammunition_id(entity: u64) -> Seq<char> {
    "ammo/migrated-player-"@ + decimal(entity as nat)
}

pub open spec fn ammunition_kind() -> ItemKindView {
    SnapshotItemKind::Ammunition.view()
}

/// The hitscan weapon definition a legacy weapon component stands for.
pub open spec fn legacy_weapon_kind(
    presentation: Seq<char>,
    ammunition: Seq<char>,
    weapon: WeaponSnapshot,
) -> ItemKindView {
    ItemKindView {
        weapon: true,
        ammunition,
        attack_mode: Some(SnapshotWeaponAttackMode::Hitscan),
        pellet_count: None,
        spread_degrees: None,
        damage: Some(weapon.damage),
        max_distance: Some(weapon.max_distance),
        cooldown_ticks: Some(weapon.cooldown_ticks),
        ammunition_cost: Some(1),
        muzzle_offset: Some(weapon.muzzle_offset),
        presentation: Some(presentation),
        plain: SnapshotItemKind::Ammunition,
    }
}

#[verifier::ext_equal]
pub struct MigrationState {
    pub definitions: Seq<ItemDefinitionView>,
    pub inventories: Seq<InventoryView>,
}

pub open spec fn first_inventory_from(inventories: Seq<InventoryView>, owner: u64, start: int) -> Option<
    int,
>
    decreases inventories.len() - start,
{
    if start < 0 || start >= inventories.len() {
        None
    } else if inventories[start].owner == owner {
        Some(start)
    } else {
        first_inventory_from(inventories, owner, start + 1)
    }
}

pub open spec fn first_definition_from(
    definitions: Seq<ItemDefinitionView>,
    id: Seq<char>,
    start: int,
) -> Option<int>
    decreases definitions.len() - start,
{
    if start < 0 || start >= definitions.len() {
        None
    } else if definitions[start].id == id {
        Some(start)
    } else {
        first_definition_from(definitions, id, start + 1)
    }
}

pub open spec fn has_controller(controllers: Seq<PlayerControllerSnapshot>, entity: u64) -> bool {
    exists|i: int| 0 <= i < controllers.len() && (#[trigger] controllers[i]).entity == entity
}

/// One legacy weapon component, migrated: a player without an inventory gets
/// a migrated weapon and ammunition definition and a two-slot inventory; a
/// player with one has its equipped weapon definition rewritten.
pub open spec fn migrate_legacy_weapon(
    state: MigrationState,
    controllers: Seq<PlayerControllerSnapshot>,
    weapon: WeaponSnapshot,
) -> Result<MigrationState, GameSnapshotError> {
    let entity = weapon.entity;
    let invalid = GameSnapshotError::InvalidWeaponConfig { entity };
    if !has_controller(controllers, entity) {
        Err(GameSnapshotError::MissingWeaponCapability { entity })
    } else {
        match first_inventory_from(state.inventories, entity, 0) {
            None => {
                let weapon_id = migrated_weapon_id(entity);
                let ammunition_id = migrated_ammunition_id(entity);
                let stacks = if weapon.ammo_remaining > 0 {
                    seq![
                        StackView { item: weapon_id, quantity: 1 },
                        StackView { item: ammunition_id, quantity: weapon.ammo_remaining },
                    ]
                } else {
                    seq![StackView { item: weapon_id, quantity: 1 }]
                };
                Ok(
                    MigrationState {
                        definitions: state.definitions.push(
                            ItemDefinitionView {
                                id: ammunition_id,
                                max_quantity: weapon.ammo_capacity,
                                kind: ammunition_kind(),
                            },
                        ).push(
                            ItemDefinitionView {
                                id: weapon_id,
                                max_quantity: 1,
                                kind: legacy_weapon_kind(weapon_id, ammunition_id, weapon),
                            },
                        ),
                        inventories: state.inventories.push(
                            InventoryView {
                                owner: entity,
                                capacity_slots: 2,
                                stacks,
                                equipped_weapon: Some(weapon_id),
                                weapon_slots: seq![weapon_id],
                                weapon_cooldowns: seq![
                                    CooldownView { item: weapon_id, ready_at_tick: weapon.ready_at_tick },
                                ],
                            },
                        ),
                    },
                )
            },
            Some(i) => match state.inventories[i].equipped_weapon {
                None => Err(invalid),
                Some(equipped) => match first_definition_from(state.definitions, equipped, 0) {
                    None => Err(invalid),
                    Some(d) => {
                        let definition = state.definitions[d];
                        if definition.kind.weapon {
                            Ok(
                                MigrationState {
                                    definitions: state.definitions.update(
                                        d,
                                        ItemDefinitionView {
                                            kind: legacy_weapon_kind(
                                                equipped,
                                                definition.kind.ammunition,
                                                weapon,
                                            ),
                                            ..definition
                                        },
                                    ),
                                    inventories: state.inventories,
                                },
                            )
                        } else {
                            Err(invalid)
                        }
                    },
                },
            },
        }
    }
}

/// Every legacy weapon component migrated in order; the first failure stops.
pub open spec fn migrate_legacy_weapons(
    state: MigrationState,
    controllers: Seq<PlayerControllerSnapshot>,
    weapons: Seq<WeaponSnapshot>,
) -> Result<MigrationState, GameSnapshotError>
    decreases weapons.len(),
{
    if weapons.len() == 0 {
        Ok(state)
    } else {
        match migrate_legacy_weapons(state, controllers, weapons.drop_last()) {
            Err(error) => Err(error),
            Ok(next) => migrate_legacy_weapon(next, controllers, weapons.last()),
        }
    }
}

/// The `f32` bit pattern of `20.0`.
pub const DEFAULT_WEAPON_RANGE_BITS: u32 = 0x41A0_0000;

/// A weapon definition with every current field filled in: hitscan, no
/// spread, and the defaults 40 damage, 20.0 range, 6 ticks of cooldown, one
/// round per shot, a zero muzzle offset and the definition's own identity as
/// presentation.
pub open spec fn normalized_definition(definition: ItemDefinitionView) -> ItemDefinitionView {
    let kind = definition.kind;
    if kind.weapon {
        ItemDefinitionView {
            kind: ItemKindView {
                attack_mode: Some(SnapshotWeaponAttackMode::Hitscan),
                pellet_count: None,
                spread_degrees: None,
                damage: Some(if kind.damage is Some { kind.damage->Some_0 } else { 40 }),
                max_distance: Some(
                    if kind.max_distance is Some {
                        kind.max_distance->Some_0
                    } else {
                        DEFAULT_WEAPON_RANGE_BITS
                    },
                ),
                cooldown_ticks: Some(
                    if kind.cooldown_ticks is Some {
                        kind.cooldown_ticks->Some_0
                    } else {
                        6
                    },
                ),
                ammunition_cost: Some(
                    if kind.ammunition_cost is Some {
                        kind.ammunition_cost->Some_0
                    } else {
                        1
                    },
                ),
                muzzle_offset: Some(
                    if kind.muzzle_offset is Some {
                        kind.muzzle_offset->Some_0
                    } else {
                        [0u32, 0u32, 0u32]
                    },
                ),
                presentation: Some(
                    if kind.presentation is Some {
                        kind.presentation->Some_0
                    } else {
                        definition.id
                    },
                ),
                ..kind
            },
            ..definition
        }
    } else {
        definition
    }
}

pub open spec fn weapon_ids(definitions: Seq<ItemDefinitionView>) -> Seq<Seq<char>>
    decreases definitions.len(),
{
    if definitions.len() == 0 {
        Seq::empty()
    } else {
        let rest = weapon_ids(definitions.drop_last());
        if definitions.last().kind.weapon {
            rest.push(definitions.last().id)
        } else {
            rest
        }
    }
}

pub open spec fn first_weapon_of_from(weapons: Seq<WeaponSnapshot>, owner: u64, start: int) -> Option<
    int,
>
    decreases weapons.len() - start,
{
    if start < 0 || start >= weapons.len() {
        None
    } else if weapons[start].entity == owner {
        Some(start)
    } else {
        first_weapon_of_from(weapons, owner, start + 1)
    }
}

/// The cooldown a migrated slot starts with: the owner's (first) legacy
/// weapon cooldown for the equipped weapon, otherwise ready at tick zero.
pub open spec fn legacy_ready_at(
    weapons: Seq<WeaponSnapshot>,
    owner: u64,
    equipped: Option<Seq<char>>,
    item: Seq<char>,
) -> u64 {
    match first_weapon_of_from(weapons, owner, 0) {
        Some(w) => if equipped == Some(item) {
            weapons[w].ready_at_tick
        } else {
            0
        },
        None => 0,
    }
}

/// An inventory without weapon slots gets every weapon definition as its
/// slots; one without cooldowns gets a cooldown per slot.
pub open spec fn migrated_inventory(
    inventory: InventoryView,
    ids: Seq<Seq<char>>,
    weapons: Seq<WeaponSnapshot>,
) -> InventoryView {
    let slots = if inventory.weapon_slots.len() == 0 {
        ids
    } else {
        inventory.weapon_slots
    };
    let cooldowns = if inventory.weapon_cooldowns.len() == 0 {
        Seq::new(
            slots.len(),
            |k: int|
                CooldownView {
                    item: slots[k],
                    ready_at_tick: legacy_ready_at(
                        weapons,
                        inventory.owner,
                        inventory.equipped_weapon,
                        slots[k],
                    ),
                },
        )
    } else {
        inventory.weapon_cooldowns
    };
    InventoryView { weapon_slots: slots, weapon_cooldowns: cooldowns, ..inventory }
}

/// `Digit1`, `Digit2`, ... one per weapon slot.
pub open spec fn digit_bindings(count: nat) -> Seq<Seq<char>> {
    Seq::new(count, |k: int| "Digit"@ + decimal((k + 1) as nat))
}

pub open spec fn first_controller_from(controllers: Seq<ControllerView>, entity: u64, start: int) -> Option<
    int,
>
    decreases controllers.len() - start,
{
    if start < 0 || start >= controllers.len() {
        None
    } else if controllers[start].entity == entity {
        Some(start)
    } else {
        first_controller_from(controllers, entity, start + 1)
    }
}

pub open spec fn last_inventory_before(inventories: Seq<InventoryView>, owner: u64, end: int) -> Option<
    int,
>
    decreases end,
{
    if end <= 0 || end > inventories.len() {
        None
    } else if inventories[end - 1].owner == owner {
        Some(end - 1)
    } else {
        last_inventory_before(inventories, owner, end - 1)
    }
}

/// A player's weapon selection bindings follow the slots of its (last)
/// inventory; only the first controller of an entity is rebound.
pub open spec fn migrated_controller(
    controllers: Seq<ControllerView>,
    j: int,
    inventories: Seq<InventoryView>,
    end: int,
) -> ControllerView {
    let controller = controllers[j];
    match last_inventory_before(inventories, controller.entity, end) {
        Some(i) => if first_controller_from(controllers, controller.entity, 0) == Some(j) {
            ControllerView {
                select_weapon: digit_bindings(inventories[i].weapon_slots.len()),
                ..controller
            }
        } else {
            controller
        },
        None => controller,
    }
}

fn clone_optional_text(value: &Option<String>) -> (copy: Option<String>)
    ensures
        copy == *value,
{
    match value {
        Some(text) => Some(text.clone()),
        None => None,
    }
}

/// The hitscan weapon kind that a legacy weapon component stands for.
pub fn legacy_snapshot_weapon_kind(
    presentation: &str,
    ammunition: String,
    weapon: &WeaponSnapshot,
) -> (kind: SnapshotItemKind)
    ensures
        kind@ == legacy_weapon_kind(presentation@, ammunition@, *weapon),
{
    SnapshotItemKind::Weapon {
        ammunition,
        attack_mode: Some(SnapshotWeaponAttackMode::Hitscan),
        pellet_count: None,
        spread_degrees: None,
        damage: Some(weapon.damage),
        max_distance: Some(weapon.max_distance),
        cooldown_ticks: Some(weapon.cooldown_ticks),
        ammunition_cost: Some(1),
        muzzle_offset: Some(weapon.muzzle_offset),
        presentation: Some(String::from_str(presentation)),
    }
}

fn controller_exists(controllers: &Vec<PlayerControllerSnapshot>, entity: u64) -> (found: bool)
    ensures
        found == has_controller(controllers@, entity),
{
    let mut index: usize = 0;
    while index < controllers.len()
        invariant
            0 <= index <= controllers@.len(),
            forall|j: int| 0 <= j < index ==> (#[trigger] controllers@[j]).entity != entity,
        decreases controllers@.len() - index,
    {
        if controllers[index].entity == entity {
            assert(controllers@[index as int].entity == entity);
            return true;
        }
        index = index + 1;
    }
    false
}

fn find_inventory(inventories: &Vec<InventorySnapshot>, owner: u64) -> (found: Option<usize>)
    ensures
        found is Some ==> found->Some_0 < inventories@.len() && first_inventory_from(
            inventory_views(inventories@),
            owner,
            0,
        ) == Some(found->Some_0 as int),
        found is None ==> first_inventory_from(inventory_views(inventories@), owner, 0) is None,
{
    let ghost views = inventory_views(inventories@);
    let mut index: usize = 0;
    while index < inventories.len()
        invariant
            views == inventory_views(inventories@),
            0 <= index <= inventories@.len(),
            first_inventory_from(views, owner, 0) == first_inventory_from(views, owner, index as int),
        decreases inventories@.len() - index,
    {
        if inventories[index].owner == owner {
            return Some(index);
        }
        index = index + 1;
    }
    None
}

fn find_definition(definitions: &Vec<ItemDefinitionSnapshot>, id: &str) -> (found: Option<usize>)
    ensures
        found is Some ==> found->Some_0 < definitions@.len() && first_definition_from(
            definition_views(definitions@),
            id@,
            0,
        ) == Some(found->Some_0 as int),
        found is None ==> first_definition_from(definition_views(definitions@), id@, 0) is None,
{
    let ghost views = definition_views(definitions@);
    let mut index: usize = 0;
    while index < definitions.len()
        invariant
            views == definition_views(definitions@),
            0 <= index <= definitions@.len(),
            first_definition_from(views, id@, 0) == first_definition_from(views, id@, index as int),
        decreases definitions@.len() - index,
    {
        if crate::stored_project::text_equal(definitions[index].id.as_str(), id) {
            return Some(index);
        }
        index = index + 1;
    }
    None
}

/// Migrates one legacy weapon component into the definitions and inventories.
fn migrate_one_legacy_weapon(
    definitions: &mut Vec<ItemDefinitionSnapshot>,
    inventories: &mut Vec<InventorySnapshot>,
    controllers: &Vec<PlayerControllerSnapshot>,
    weapon: &WeaponSnapshot,
) -> (result: Result<(), GameSnapshotError>)
    ensures
        match migrate_legacy_weapon(
            MigrationState {
                definitions: definition_views(old(definitions)@),
                inventories: inventory_views(old(inventories)@),
            },
            controllers@,
            *weapon,
        ) {
            Err(error) => result == Err::<(), GameSnapshotError>(error),
            Ok(state) => result is Ok && definition_views(final(definitions)@) == state.definitions
                && inventory_views(final(inventories)@) == state.inventories,
        },
{
    let entity = weapon.entity;
    if !controller_exists(controllers, entity) {
        return Err(GameSnapshotError::MissingWeaponCapability { entity });
    }
    match find_inventory(inventories, entity) {
        None => {
            let number = crate::text::decimal_text(entity);
            let weapon_id = crate::text::join2("weapon/migrated-player-", number.as_str());
            let ammunition_id = crate::text::join2("ammo/migrated-player-", number.as_str());
            let ghost old_definitions = definitions@;
            let ghost old_inventories = inventories@;
            definitions.push(
                ItemDefinitionSnapshot {
                    id: ammunition_id.clone(),
                    max_quantity: weapon.ammo_capacity,
                    kind: SnapshotItemKind::Ammunition,
                },
            );
            definitions.push(
                ItemDefinitionSnapshot {
                    id: weapon_id.clone(),
                    max_quantity: 1,
                    kind: legacy_snapshot_weapon_kind(
                        weapon_id.as_str(),
                        ammunition_id.clone(),
                        weapon,
                    ),
                },
            );
            let mut stacks: Vec<InventoryStackSnapshot> = Vec::new();
            stacks.push(InventoryStackSnapshot { item: weapon_id.clone(), quantity: 1 });
            if weapon.ammo_remaining > 0 {
                stacks.push(
                    InventoryStackSnapshot { item: ammunition_id, quantity: weapon.ammo_remaining },
                );
            }
            let mut slots: Vec<String> = Vec::new();
            slots.push(weapon_id.clone());
            let mut cooldowns: Vec<WeaponCooldownSnapshot> = Vec::new();
            cooldowns.push(
                WeaponCooldownSnapshot {
                    item: weapon_id.clone(),
                    ready_at_tick: weapon.ready_at_tick,
                },
            );
            let inventory = InventorySnapshot {
                owner: entity,
                capacity_slots: 2,
                stacks,
                equipped_weapon: Some(weapon_id),
                weapon_slots: slots,
                weapon_cooldowns: cooldowns,
            };
            inventories.push(inventory);
            proof {
                let expected = migrate_legacy_weapon(
                    MigrationState {
                        definitions: definition_views(old_definitions),
                        inventories: inventory_views(old_inventories),
                    },
                    controllers@,
                    *weapon,
                )->Ok_0;
                assert(definition_views(definitions@) =~= expected.definitions);
                assert(inventory@.stacks =~= expected.inventories.last().stacks);
                assert(inventory@.weapon_slots =~= expected.inventories.last().weapon_slots);
                assert(inventory@.weapon_cooldowns =~= expected.inventories.last().weapon_cooldowns);
                assert(inventory_views(inventories@) =~= expected.inventories);
            }
            Ok(())
        },
        Some(index) => {
            assert(inventory_views(inventories@)[index as int] == inventories@[index as int]@);
            let equipped = match &inventories[index].equipped_weapon {
                Some(equipped) => equipped.clone(),
                None => {
                    return Err(GameSnapshotError::InvalidWeaponConfig { entity });
                },
            };
            let at = match find_definition(definitions, equipped.as_str()) {
                Some(at) => at,
                None => {
                    return Err(GameSnapshotError::InvalidWeaponConfig { entity });
                },
            };
            assert(definition_views(definitions@)[at as int] == definitions@[at as int]@);
            let ammunition = match &definitions[at].kind {
                SnapshotItemKind::Weapon { ammunition, .. } => ammunition.clone(),
                _ => {
                    assert(!definitions@[at as int].kind@.weapon);
                    return Err(GameSnapshotError::InvalidWeaponConfig { entity });
                },
            };
            let id = definitions[at].id.clone();
            let max_quantity = definitions[at].max_quantity;
            let ghost old_definitions = definitions@;
            let kind = legacy_snapshot_weapon_kind(equipped.as_str(), ammunition, weapon);
            definitions.set(at, ItemDefinitionSnapshot { id, max_quantity, kind });
            proof {
                let expected = migrate_legacy_weapon(
                    MigrationState {
                        definitions: definition_views(old_definitions),
                        inventories: inventory_views(inventories@),
                    },
                    controllers@,
                    *weapon,
                )->Ok_0;
                assert(definition_views(definitions@) =~= expected.definitions);
            }
            Ok(())
        },
    }
}

fn normalized_kind(definition: &ItemDefinitionSnapshot) -> (kind: SnapshotItemKind)
    ensures
        (ItemDefinitionSnapshot { kind, ..*definition })@ == normalized_definition(definition@),
{
    match &definition.kind {
        SnapshotItemKind::Weapon {
            ammunition,
            damage,
            max_distance,
            cooldown_ticks,
            ammunition_cost,
            muzzle_offset,
            presentation,
            ..
        } => SnapshotItemKind::Weapon {
            ammunition: ammunition.clone(),
            attack_mode: Some(SnapshotWeaponAttackMode::Hitscan),
            pellet_count: None,
            spread_degrees: None,
            damage: Some(
                match damage {
                    Some(value) => *value,
                    None => 40,
                },
            ),
            max_distance: Some(
                match max_distance {
                    Some(value) => *value,
                    None => DEFAULT_WEAPON_RANGE_BITS,
                },
            ),
            cooldown_ticks: Some(
                match cooldown_ticks {
                    Some(value) => *value,
                    None => 6,
                },
            ),
            ammunition_cost: Some(
                match ammunition_cost {
                    Some(value) => *value,
                    None => 1,
                },
            ),
            muzzle_offset: Some(
                match muzzle_offset {
                    Some(value) => *value,
                    None => [0u32, 0u32, 0u32],
                },
            ),
            presentation: Some(
                match presentation {
                    Some(value) => value.clone(),
                    None => definition.id.clone(),
                },
            ),
        },
        SnapshotItemKind::Ammunition => SnapshotItemKind::Ammunition,
        SnapshotItemKind::AccessKey => SnapshotItemKind::AccessKey,
        SnapshotItemKind::HealthSupply { restore_health } => SnapshotItemKind::HealthSupply {
            restore_health: *restore_health,
        },
        SnapshotItemKind::Armor { protection } => SnapshotItemKind::Armor {
            protection: *protection,
        },
    }
}

/// Fills in every current weapon field of every weapon definition.
fn normalize_weapon_definitions(definitions: &mut Vec<ItemDefinitionSnapshot>)
    ensures
        definition_views(final(definitions)@) == Seq::new(
            old(definitions)@.len(),
            |i: int| normalized_definition(definition_views(old(definitions)@)[i]),
        ),
{
    let ghost original = definitions@;
    let mut index: usize = 0;
    while index < definitions.len()
        invariant
            definitions@.len() == original.len(),
            0 <= index <= definitions@.len(),
            forall|i: int|
                0 <= i < index ==> (#[trigger] definitions@[i])@ == normalized_definition(
                    original[i]@,
                ),
            forall|i: int| index <= i < definitions@.len() ==> #[trigger] definitions@[i] == original[i],
        decreases definitions@.len() - index,
    {
        let kind = normalized_kind(&definitions[index]);
        let id = definitions[index].id.clone();
        let max_quantity = definitions[index].max_quantity;
        definitions.set(index, ItemDefinitionSnapshot { id, max_quantity, kind });
        index = index + 1;
    }
    assert(definition_views(definitions@) =~= Seq::new(
        original.len(),
        |i: int| normalized_definition(definition_views(original)[i]),
    ));
}

/// The identities of the weapon definitions, in order.
fn collect_weapon_ids(definitions: &Vec<ItemDefinitionSnapshot>) -> (ids: Vec<String>)
    ensures
        texts(ids@) == weapon_ids(definition_views(definitions@)),
{
    let ghost views = definition_views(definitions@);
    let mut ids: Vec<String> = Vec::new();
    let mut index: usize = 0;
    while index < definitions.len()
        invariant
            views == definition_views(definitions@),
            0 <= index <= definitions@.len(),
            texts(ids@) == weapon_ids(views.take(index as int)),
        decreases definitions@.len() - index,
    {
        proof {
            assert(views.take(index as int + 1).drop_last() =~= views.take(index as int));
            assert(views.take(index as int + 1).last() == definitions@[index as int]@);
        }
        let weapon = match &definitions[index].kind {
            SnapshotItemKind::Weapon { .. } => true,
            _ => false,
        };
        if weapon {
            ids.push(definitions[index].id.clone());
        }
        index = index + 1;
        assert(texts(ids@) =~= weapon_ids(views.take(index as int)));
    }
    assert(views.take(index as int) =~= views);
    ids
}

fn first_legacy_weapon(weapons: &Vec<WeaponSnapshot>, owner: u64) -> (found: Option<usize>)
    ensures
        found is Some ==> found->Some_0 < weapons@.len() && first_weapon_of_from(weapons@, owner, 0)
            == Some(found->Some_0 as int),
        found is None ==> first_weapon_of_from(weapons@, owner, 0) is None,
{
    let mut index: usize = 0;
    while index < weapons.len()
        invariant
            0 <= index <= weapons@.len(),
            first_weapon_of_from(weapons@, owner, 0) == first_weapon_of_from(weapons@, owner, index as int),
        decreases weapons@.len() - index,
    {
        if weapons[index].entity == owner {
            return Some(index);
        }
        index = index + 1;
    }
    None
}

fn clone_texts(values: &Vec<String>) -> (copy: Vec<String>)
    ensures
        copy@ == values@,
{
    let mut copy: Vec<String> = Vec::new();
    let mut index: usize = 0;
    while index < values.len()
        invariant
            0 <= index <= values@.len(),
            copy@ == values@.take(index as int),
        decreases values@.len() - index,
    {
        copy.push(values[index].clone());
        index = index + 1;
        assert(copy@ =~= values@.take(index as int));
    }
    assert(values@.take(index as int) =~= values@);
    copy
}

/// Gives an inventory its weapon slots and cooldowns when it has none.
fn migrate_inventory(inventory: &mut InventorySnapshot, ids: &Vec<String>, weapons: &Vec<WeaponSnapshot>)
    ensures
        final(inventory)@ == migrated_inventory(old(inventory)@, texts(ids@), weapons@),
{
    if inventory.weapon_slots.len() == 0 {
        inventory.weapon_slots = clone_texts(ids);
    }
    if inventory.weapon_cooldowns.len() == 0 {
        let legacy = first_legacy_weapon(weapons, inventory.owner);
        let mut cooldowns: Vec<WeaponCooldownSnapshot> = Vec::new();
        let mut slot: usize = 0;
        while slot < inventory.weapon_slots.len()
            invariant
                0 <= slot <= inventory.weapon_slots@.len(),
                cooldowns@.len() == slot,
                legacy is Some ==> legacy->Some_0 < weapons@.len() && first_weapon_of_from(
                    weapons@,
                    inventory.owner,
                    0,
                ) == Some(legacy->Some_0 as int),
                legacy is None ==> first_weapon_of_from(weapons@, inventory.owner, 0) is None,
                forall|k: int|
                    0 <= k < slot ==> (#[trigger] cooldowns@[k]).item@
                        == inventory.weapon_slots@[k]@ && cooldowns@[k].ready_at_tick
                        == legacy_ready_at(
                        weapons@,
                        inventory.owner,
                        optional_text(inventory.equipped_weapon),
                        inventory.weapon_slots@[k]@,
                    ),
            decreases inventory.weapon_slots@.len() - slot,
        {
            let item = inventory.weapon_slots[slot].clone();
            let equipped = match &inventory.equipped_weapon {
                Some(equipped) => crate::stored_project::text_equal(equipped.as_str(), item.as_str()),
                None => false,
            };
            let ready_at_tick = match legacy {
                Some(at) => if equipped {
                    weapons[at].ready_at_tick
                } else {
                    0
                },
                None => 0,
            };
            cooldowns.push(WeaponCooldownSnapshot { item, ready_at_tick });
            slot = slot + 1;
        }
        inventory.weapon_cooldowns = cooldowns;
    }
    assert(final(inventory)@.weapon_slots =~= migrated_inventory(old(inventory)@, texts(ids@), weapons@).weapon_slots);
    assert(final(inventory)@.weapon_cooldowns =~= migrated_inventory(old(inventory)@, texts(ids@), weapons@).weapon_cooldowns);
}

fn digit_names(count: usize) -> (names: Vec<String>)
    ensures
        texts(names@) == digit_bindings(count as nat),
{
    let mut names: Vec<String> = Vec::new();
    let mut index: usize = 0;
    while index < count
        invariant
            0 <= index <= count,
            names@.len() == index,
            texts(names@) == digit_bindings(index as nat),
        decreases count - index,
    {
        let number = crate::text::decimal_text((index + 1) as u64);
        let name = crate::text::join2("Digit", number.as_str());
        let ghost before = names@;
        names.push(name);
        proof {
            assert(((index + 1) as u64) as nat == (index + 1) as nat);
            assert(name@ == "Digit"@ + decimal((index + 1) as nat));
            assert(names@.last() == name);
            assert forall|k: int| 0 <= k < index implies names@[k] == before[k] by {}
        }
        proof {
            let count_now = (index + 1) as nat;
            assert forall|k: int| 0 <= k < count_now implies #[trigger] texts(names@)[k]
                == digit_bindings(count_now)[k] by {
                if k < index {
                    assert(texts(before)[k] == digit_bindings(index as nat)[k]);
                }
            }
        }
        index = index + 1;
        assert(texts(names@) =~= digit_bindings(index as nat));
    }
    names
}

fn find_controller(controllers: &Vec<PlayerControllerSnapshot>, entity: u64) -> (found: Option<usize>)
    ensures
        found is Some ==> found->Some_0 < controllers@.len() && first_controller_from(
            controller_views(controllers@),
            entity,
            0,
        ) == Some(found->Some_0 as int),
        found is None ==> first_controller_from(controller_views(controllers@), entity, 0) is None,
{
    let ghost views = controller_views(controllers@);
    let mut index: usize = 0;
    while index < controllers.len()
        invariant
            views == controller_views(controllers@),
            0 <= index <= controllers@.len(),
            first_controller_from(views, entity, 0) == first_controller_from(views, entity, index as int),
        decreases controllers@.len() - index,
    {
        if controllers[index].entity == entity {
            return Some(index);
        }
        index = index + 1;
    }
    None
}

fn placeholder_controller() -> (controller: PlayerControllerSnapshot)
    ensures
        controller.entity == 0,
        controller.move_speed_units_per_second == 0,
        controller.move_step_seconds == 0,
        controller.look_degrees_per_unit == 0,
        controller.initial_yaw_degrees == 0,
        controller.initial_pitch_degrees == 0,
        controller.yaw_degrees == 0,
        controller.pitch_degrees == 0,
        controller.bindings.move_forward@.len() == 0,
        controller.bindings.move_backward@.len() == 0,
        controller.bindings.move_left@.len() == 0,
        controller.bindings.move_right@.len() == 0,
        controller.bindings.mouse_look@.len() == 0,
        controller.bindings.primary_fire@.len() == 0,
        controller.bindings.select_weapon@.len() == 0,
{
    PlayerControllerSnapshot {
        entity: 0,
        move_speed_units_per_second: 0,
        move_step_seconds: 0,
        look_degrees_per_unit: 0,
        initial_yaw_degrees: 0,
        initial_pitch_degrees: 0,
        yaw_degrees: 0,
        pitch_degrees: 0,
        bindings: PlayerInputBindingsSnapshot {
            move_forward: String::new(),
            move_backward: String::new(),
            move_left: String::new(),
            move_right: String::new(),
            mouse_look: String::new(),
            primary_fire: String::new(),
            select_weapon: Vec::new(),
        },
    }
}

/// Binds `Digit1..` weapon selection to the first controller of each
/// inventory owner, following the inventory's weapon slots.
fn rebind_weapon_selection(
    controllers: &mut Vec<PlayerControllerSnapshot>,
    inventories: &Vec<InventorySnapshot>,
)
    ensures
        controller_views(final(controllers)@) == Seq::new(
            old(controllers)@.len(),
            |j: int|
                migrated_controller(
                    controller_views(old(controllers)@),
                    j,
                    inventory_views(inventories@),
                    inventories@.len() as int,
                ),
        ),
{
    let ghost original = controller_views(controllers@);
    let ghost invs = inventory_views(inventories@);
    assert(controller_views(controllers@) =~= Seq::new(
        original.len(),
        |j: int| migrated_controller(original, j, invs, 0),
    ));
    let mut index: usize = 0;
    while index < inventories.len()
        invariant
            invs == inventory_views(inventories@),
            original.len() == controllers@.len(),
            forall|j: int| 0 <= j < original.len() ==> (#[trigger] original[j]).entity == controllers@[j].entity,
            0 <= index <= inventories@.len(),
            controller_views(controllers@) == Seq::new(
                original.len(),
                |j: int| migrated_controller(original, j, invs, index as int),
            ),
        decreases inventories@.len() - index,
    {
        let owner = inventories[index].owner;
        let ghost before = controllers@;
        proof {
            assert(controller_views(before) =~= Seq::new(
                before.len(),
                |j: int| controller_views(before)[j],
            ));
            assert forall|k: int| 0 <= k < before.len() implies controller_views(before)[k].entity
                == original[k].entity by {}
            lemma_first_controller_same(original, controller_views(before), owner, 0);
        }
        match find_controller(controllers, owner) {
            None => {
                proof {
                    assert(invs[index as int].owner == owner);
                    assert forall|j: int| 0 <= j < original.len() implies migrated_controller(
                        original,
                        j,
                        invs,
                        index as int + 1,
                    ) == migrated_controller(original, j, invs, index as int) by {
                        if original[j].entity == owner {
                            assert(first_controller_from(original, owner, 0) is None);
                            lemma_first_controller_exists(original, owner, j);
                        }
                    }
                    assert(controller_views(controllers@) =~= Seq::new(
                        original.len(),
                        |j: int| migrated_controller(original, j, invs, index as int + 1),
                    ));
                }
            },
            Some(at) => {
                let names = digit_names(inventories[index].weapon_slots.len());
                let mut taken = placeholder_controller();
                controllers.set_and_swap(at, &mut taken);
                taken.bindings.select_weapon = names;
                controllers.set_and_swap(at, &mut taken);
                proof {
                    lemma_first_controller_found(controller_views(before), owner, 0);
                    assert(invs[index as int].owner == owner);
                    assert(original[at as int].entity == owner);
                    assert(invs[index as int].weapon_slots.len() == inventories@[index as int].weapon_slots@.len());
                    assert forall|j: int| 0 <= j < original.len() implies #[trigger] controller_views(
                        controllers@,
                    )[j] == migrated_controller(original, j, invs, index as int + 1) by {
                        if j != at {
                            assert(controllers@[j] == before[j]);
                        }
                    }
                    assert(controller_views(controllers@) =~= Seq::new(
                        original.len(),
                        |j: int| migrated_controller(original, j, invs, index as int + 1),
                    ));
                }
            },
        }
        index = index + 1;
    }
}

proof fn lemma_first_controller_same(
    left: Seq<ControllerView>,
    right: Seq<ControllerView>,
    entity: u64,
    start: int,
)
    requires
        left.len() == right.len(),
        forall|k: int| 0 <= k < left.len() ==> (#[trigger] left[k]).entity == right[k].entity,
    ensures
        first_controller_from(left, entity, start) == first_controller_from(right, entity, start),
    decreases left.len() - start,
{
    if 0 <= start < left.len() {
        lemma_first_controller_same(left, right, entity, start + 1);
    }
}

proof fn lemma_first_controller_found(
    controllers: Seq<ControllerView>,
    entity: u64,
    start: int,
)
    requires
        first_controller_from(controllers, entity, start) is Some,
    ensures
        ({
            let k = first_controller_from(controllers, entity, start)->Some_0;
            0 <= k < controllers.len() && controllers[k].entity == entity
        }),
    decreases controllers.len() - start,
{
    if 0 <= start < controllers.len() && controllers[start].entity != entity {
        lemma_first_controller_found(controllers, entity, start + 1);
    }
}

proof fn lemma_first_controller_exists(controllers: Seq<ControllerView>, entity: u64, j: int)
    requires
        0 <= j < controllers.len(),
        controllers[j].entity == entity,
    ensures
        first_controller_from(controllers, entity, 0) is Some,
{
    lemma_first_controller_reaches(controllers, entity, 0, j);
}

proof fn lemma_first_controller_reaches(
    controllers: Seq<ControllerView>,
    entity: u64,
    start: int,
    j: int,
)
    requires
        0 <= start <= j < controllers.len(),
        controllers[j].entity == entity,
    ensures
        first_controller_from(controllers, entity, start) is Some,
    decreases j - start,
{
    if controllers[start].entity != entity {
        lemma_first_controller_reaches(controllers, entity, start + 1, j);
    }
}

pub open spec fn migration_start(snapshot: GameSnapshot) -> MigrationState {
    MigrationState {
        definitions: definition_views(snapshot.item_definitions@),
        inventories: inventory_views(snapshot.inventories@),
    }
}

/// The parts of a snapshot that weapon migration leaves alone.
pub open spec fn keeps_unrelated_state(before: GameSnapshot, after: GameSnapshot) -> bool {
    &&& after.schema_version == before.schema_version
    &&& after.tick == before.tick
    &&& after.voxel_collision == before.voxel_collision
    &&& after.doors == before.doors
    &&& after.switches == before.switches
    &&& after.extraction_beacons == before.extraction_beacons
    &&& after.controls == before.controls
    &&& after.enemies == before.enemies
    &&& after.enemy_combat == before.enemy_combat
    &&& after.enemy_drops == before.enemy_drops
    &&& after.health == before.health
    &&& after.hazards == before.hazards
    &&& after.encounters == before.encounters
    &&& after.navigations == before.navigations
    &&& after.pickups == before.pickups
    &&& after.progression == before.progression
    &&& after.scheduled == before.scheduled
}

proof fn lemma_migration_error_persists(
    state: MigrationState,
    controllers: Seq<PlayerControllerSnapshot>,
    weapons: Seq<WeaponSnapshot>,
    k: int,
    error: GameSnapshotError,
)
    requires
        0 <= k <= weapons.len(),
        migrate_legacy_weapons(state, controllers, weapons.take(k)) == Err::<
            MigrationState,
            GameSnapshotError,
        >(error),
    ensures
        migrate_legacy_weapons(state, controllers, weapons) == Err::<
            MigrationState,
            GameSnapshotError,
        >(error),
    decreases weapons.len() - k,
{
    if k < weapons.len() {
        assert(weapons.take(k + 1).drop_last() =~= weapons.take(k));
        lemma_migration_error_persists(state, controllers, weapons, k + 1, error);
    } else {
        assert(weapons.take(k) =~= weapons);
    }
}

/// What migrating a legacy snapshot's weapon authority yields: unrelated
/// state is kept; the legacy weapons become item definitions, inventory
/// slots and controller selections, or the first migration error.
pub open spec fn migration_outcome(
    before: GameSnapshot,
    after: GameSnapshot,
    result: Result<(), GameSnapshotError>,
) -> bool {
    &&& keeps_unrelated_state(before, after)
    &&& match migrate_legacy_weapons(
        migration_start(before),
        before.player_controllers@,
        before.weapons@,
    ) {
        Err(error) => result == Err::<(), GameSnapshotError>(error),
        Ok(state) => {
            let definitions = Seq::new(
                state.definitions.len(),
                |i: int| normalized_definition(state.definitions[i]),
            );
            let inventories = Seq::new(
                state.inventories.len(),
                |i: int|
                    migrated_inventory(
                        state.inventories[i],
                        weapon_ids(definitions),
                        before.weapons@,
                    ),
            );
            &&& result is Ok
            &&& after.weapons@.len() == 0
            &&& definition_views(after.item_definitions@) == definitions
            &&& inventory_views(after.inventories@) == inventories
            &&& controller_views(after.player_controllers@) == Seq::new(
                before.player_controllers@.len(),
                |j: int|
                    migrated_controller(
                        controller_views(before.player_controllers@),
                        j,
                        inventories,
                        inventories.len() as int,
                    ),
            )
        },
    }
}

/// Moves legacy per-player weapon components into inventory weapons: each
/// legacy component becomes (or rewrites) the player's equipped weapon
/// definition; then every weapon definition gets all current fields, every
/// inventory gets weapon slots and cooldowns, and every player is bound to
/// `Digit1..` weapon selection.
pub fn migrate_legacy_snapshot_weapon_authority(snapshot: &mut GameSnapshot) -> (result: Result<
    (),
    GameSnapshotError,
>)
    ensures
        migration_outcome(*old(snapshot), *final(snapshot), result),
{
    let ghost start = migration_start(*snapshot);
    let mut legacy: Vec<WeaponSnapshot> = Vec::new();
    std::mem::swap(&mut legacy, &mut snapshot.weapons);
    let ghost weapons = legacy@;
    let mut index: usize = 0;
    assert(weapons.take(0) =~= Seq::<WeaponSnapshot>::empty());
    while index < legacy.len()
        invariant
            weapons == legacy@,
            weapons == old(snapshot).weapons@,
            start == migration_start(*old(snapshot)),
            snapshot.player_controllers == old(snapshot).player_controllers,
            snapshot.weapons@.len() == 0,
            keeps_unrelated_state(*old(snapshot), *snapshot),
            0 <= index <= legacy@.len(),
            migrate_legacy_weapons(start, snapshot.player_controllers@, weapons.take(index as int))
                == Ok::<MigrationState, GameSnapshotError>(migration_start(*snapshot)),
        decreases legacy@.len() - index,
    {
        let ghost before = migration_start(*snapshot);
        proof {
            assert(weapons.take(index as int + 1).drop_last() =~= weapons.take(index as int));
            assert(weapons.take(index as int + 1).last() == weapons[index as int]);
        }
        match migrate_one_legacy_weapon(
            &mut snapshot.item_definitions,
            &mut snapshot.inventories,
            &snapshot.player_controllers,
            &legacy[index],
        ) {
            Err(error) => {
                proof {
                    lemma_migration_error_persists(
                        start,
                        snapshot.player_controllers@,
                        weapons,
                        index as int + 1,
                        error,
                    );
                }
                return Err(error);
            },
            Ok(()) => {},
        }
        index = index + 1;
    }
    assert(weapons.take(index as int) =~= weapons);
    let ghost state = migration_start(*snapshot);
    normalize_weapon_definitions(&mut snapshot.item_definitions);
    let ids = collect_weapon_ids(&snapshot.item_definitions);
    let ghost definitions = definition_views(snapshot.item_definitions@);
    let ghost expected = Seq::new(
        state.inventories.len(),
        |i: int| migrated_inventory(state.inventories[i], weapon_ids(definitions), weapons),
    );
    let mut at: usize = 0;
    while at < snapshot.inventories.len()
        invariant
            weapons == legacy@,
            texts(ids@) == weapon_ids(definitions),
            definitions == definition_views(snapshot.item_definitions@),
            snapshot.player_controllers == old(snapshot).player_controllers,
            snapshot.weapons@.len() == 0,
            keeps_unrelated_state(*old(snapshot), *snapshot),
            snapshot.inventories@.len() == state.inventories.len(),
            expected.len() == state.inventories.len(),
            forall|i: int|
                0 <= i < expected.len() ==> #[trigger] expected[i] == migrated_inventory(
                    state.inventories[i],
                    texts(ids@),
                    weapons,
                ),
            0 <= at <= snapshot.inventories@.len(),
            forall|i: int| 0 <= i < at ==> (#[trigger] snapshot.inventories@[i])@ == expected[i],
            forall|i: int|
                at <= i < snapshot.inventories@.len() ==> (#[trigger] snapshot.inventories@[i])@
                    == state.inventories[i],
        decreases snapshot.inventories@.len() - at,
    {
        let mut inventory = InventorySnapshot {
            owner: 0,
            capacity_slots: 0,
            stacks: Vec::new(),
            equipped_weapon: None,
            weapon_slots: Vec::new(),
            weapon_cooldowns: Vec::new(),
        };
        snapshot.inventories.set_and_swap(at, &mut inventory);
        migrate_inventory(&mut inventory, &ids, &legacy);
        snapshot.inventories.set_and_swap(at, &mut inventory);
        at = at + 1;
    }
    assert(inventory_views(snapshot.inventories@) =~= expected);
    rebind_weapon_selection(&mut snapshot.player_controllers, &snapshot.inventories);
    Ok(())
}

// ---------------------------------------------------------------------------
// Which schema versions a snapshot may carry which state under.
// ---------------------------------------------------------------------------

pub open spec fn has_armor_state(health: HealthSnapshot) -> bool {
    health.max_armor != 0 || health.armor_absorption_percent != 0 || health.armor != 0
        || health.armor_item is Some || health.state is Some
}

pub open spec fn has_archetype_state(encounter: EncounterSnapshot) -> bool {
    encounter.activation_radius is Some || encounter.state == SnapshotEncounterState::Dormant
}

/// The refusal owed to a snapshot before any legacy migration: its schema
/// must be supported, and it must carry no state that its schema predates.
/// The pickup and hazard trigger definitions are engine state; only their
/// presence matters here.
pub open spec fn schema_gate(
    snapshot: GameSnapshot,
    pickup_triggers: bool,
    hazard_triggers: bool,
) -> Option<GameSnapshotError> {
    let version = snapshot.schema_version;
    if !(10 <= version && version <= GAME_SNAPSHOT_SCHEMA_VERSION) {
        Some(GameSnapshotError::UnsupportedSchema { actual: version })
    } else if version < 11 && (snapshot.item_definitions@.len() > 0
        || snapshot.inventories@.len() > 0) {
        Some(GameSnapshotError::FutureInventoryStateInLegacySnapshot)
    } else if version < 12 && (snapshot.pickups@.len() > 0 || pickup_triggers) {
        Some(GameSnapshotError::FuturePickupStateInLegacySnapshot)
    } else if version < VITALITY_SNAPSHOT_SCHEMA_VERSION && ((exists|i: int|
        0 <= i < snapshot.health@.len() && has_armor_state(#[trigger] snapshot.health@[i]))
        || snapshot.hazards@.len() > 0 || hazard_triggers) {
        Some(GameSnapshotError::FutureVitalityStateInLegacySnapshot)
    } else if version < INVENTORY_WEAPON_SNAPSHOT_SCHEMA_VERSION
        && spec_has_inventory_weapon_fields(snapshot) {
        Some(GameSnapshotError::FutureWeaponStateInLegacySnapshot)
    } else if version >= INVENTORY_WEAPON_SNAPSHOT_SCHEMA_VERSION && snapshot.weapons@.len() > 0 {
        Some(GameSnapshotError::FutureWeaponStateInLegacySnapshot)
    } else {
        None
    }
}

/// The refusal owed, after any legacy migration, to state that a snapshot of
/// schema `version` cannot carry.
pub open spec fn later_gate(snapshot: GameSnapshot, version: u32) -> Result<(), GameSnapshotError> {
    if version < PROGRESSION_SNAPSHOT_SCHEMA_VERSION && exists|i: int|
        0 <= i < snapshot.item_definitions@.len() && has_future_weapon_behavior(
            #[trigger] snapshot.item_definitions@[i].kind,
        ) {
        Err(GameSnapshotError::FutureWeaponStateInLegacySnapshot)
    } else if version < PROGRESSION_SNAPSHOT_SCHEMA_VERSION && snapshot.progression is Some {
        Err(GameSnapshotError::FutureProgressionStateInLegacySnapshot)
    } else if version < ENEMY_COMBAT_SNAPSHOT_SCHEMA_VERSION && snapshot.enemy_combat@.len() > 0 {
        Err(GameSnapshotError::FutureEnemyCombatStateInLegacySnapshot)
    } else if version < GAME_SNAPSHOT_SCHEMA_VERSION && (snapshot.enemy_drops@.len() > 0 || (exists|
        i: int,
    | 0 <= i < snapshot.encounters@.len() && has_archetype_state(#[trigger] snapshot.encounters@[i]))
        || (exists|i: int|
        0 <= i < snapshot.pickups@.len() && (#[trigger] snapshot.pickups@[i]).state
            == SnapshotPickupState::Dormant)) {
        Err(GameSnapshotError::FutureEnemyArchetypeStateInLegacySnapshot)
    } else {
        Ok(())
    }
}

fn any_armor_state(health: &Vec<HealthSnapshot>) -> (found: bool)
    ensures
        found == exists|i: int| 0 <= i < health@.len() && has_armor_state(#[trigger] health@[i]),
{
    let mut index: usize = 0;
    while index < health.len()
        invariant
            index <= health@.len(),
            forall|j: int| 0 <= j < index ==> !has_armor_state(#[trigger] health@[j]),
        decreases health@.len() - index,
    {
        let entry = &health[index];
        if entry.max_armor != 0 || entry.armor_absorption_percent != 0 || entry.armor != 0
            || entry.armor_item.is_some() || entry.state.is_some() {
            assert(has_armor_state(health@[index as int]));
            return true;
        }
        index = index + 1;
    }
    false
}

fn any_archetype_state(encounters: &Vec<EncounterSnapshot>) -> (found: bool)
    ensures
        found == exists|i: int|
            0 <= i < encounters@.len() && has_archetype_state(#[trigger] encounters@[i]),
{
    let mut index: usize = 0;
    while index < encounters.len()
        invariant
            index <= encounters@.len(),
            forall|j: int| 0 <= j < index ==> !has_archetype_state(#[trigger] encounters@[j]),
        decreases encounters@.len() - index,
    {
        let entry = &encounters[index];
        let dormant = match entry.state {
            SnapshotEncounterState::Dormant => true,
            _ => false,
        };
        if entry.activation_radius.is_some() || dormant {
            assert(has_archetype_state(encounters@[index as int]));
            return true;
        }
        index = index + 1;
    }
    false
}

fn any_dormant_pickup(pickups: &Vec<PickupSnapshot>) -> (found: bool)
    ensures
        found == exists|i: int|
            0 <= i < pickups@.len() && (#[trigger] pickups@[i]).state == SnapshotPickupState::Dormant,
{
    let mut index: usize = 0;
    while index < pickups.len()
        invariant
            index <= pickups@.len(),
            forall|j: int|
                0 <= j < index ==> (#[trigger] pickups@[j]).state != SnapshotPickupState::Dormant,
        decreases pickups@.len() - index,
    {
        let dormant = match pickups[index].state {
            SnapshotPickupState::Dormant => true,
            _ => false,
        };
        if dormant {
            return true;
        }
        index = index + 1;
    }
    false
}

fn check_later_state(snapshot: &GameSnapshot, version: u32) -> (result: Result<(), GameSnapshotError>)
    ensures
        result == later_gate(*snapshot, version),
{
    if version < PROGRESSION_SNAPSHOT_SCHEMA_VERSION && snapshot_has_future_weapon_behavior_fields(
        snapshot,
    ) {
        return Err(GameSnapshotError::FutureWeaponStateInLegacySnapshot);
    }
    if version < PROGRESSION_SNAPSHOT_SCHEMA_VERSION && snapshot.progression.is_some() {
        return Err(GameSnapshotError::FutureProgressionStateInLegacySnapshot);
    }
    if version < ENEMY_COMBAT_SNAPSHOT_SCHEMA_VERSION && snapshot.enemy_combat.len() > 0 {
        return Err(GameSnapshotError::FutureEnemyCombatStateInLegacySnapshot);
    }
    if version < GAME_SNAPSHOT_SCHEMA_VERSION && (snapshot.enemy_drops.len() > 0
        || any_archetype_state(&snapshot.encounters) || any_dormant_pickup(&snapshot.pickups)) {
        return Err(GameSnapshotError::FutureEnemyArchetypeStateInLegacySnapshot);
    }
    Ok(())
}

/// What the version gate yields: a refusal of a legacy snapshot that holds
/// state its schema predates, with the snapshot unchanged; otherwise, for a
/// schema before inventory weapons, the legacy weapon migration followed by
/// the later-state gate; for a later schema, the later-state gate alone.
pub open spec fn version_gate_outcome(
    before: GameSnapshot,
    after: GameSnapshot,
    pickup_triggers: bool,
    hazard_triggers: bool,
    result: Result<(), GameSnapshotError>,
) -> bool {
    match schema_gate(before, pickup_triggers, hazard_triggers) {
        Some(error) => result == Err::<(), GameSnapshotError>(error) && after == before,
        None => if before.schema_version < INVENTORY_WEAPON_SNAPSHOT_SCHEMA_VERSION {
            exists|migrated: Result<(), GameSnapshotError>|
                migration_outcome(before, after, migrated) && match migrated {
                    Err(error) => result == Err::<(), GameSnapshotError>(error),
                    Ok(_) => result == later_gate(after, before.schema_version),
                }
        } else {
            after == before && result == later_gate(before, before.schema_version)
        },
    }
}

/// The version gate touches only weapon authority: whatever it answers, the
/// snapshot's tick, world state, vitality, encounters, navigation, pickups,
/// progression and schedules are as they were, and a gate passed keeps
/// every player controller.
pub proof fn lemma_version_gate_keeps_unrelated_state(
    before: GameSnapshot,
    after: GameSnapshot,
    pickup_triggers: bool,
    hazard_triggers: bool,
    result: Result<(), GameSnapshotError>,
)
    requires
        version_gate_outcome(before, after, pickup_triggers, hazard_triggers, result),
    ensures
        keeps_unrelated_state(before, after),
        result is Ok ==> after.player_controllers@.len() == before.player_controllers@.len(),
{
    if schema_gate(before, pickup_triggers, hazard_triggers) is None
        && before.schema_version < INVENTORY_WEAPON_SNAPSHOT_SCHEMA_VERSION {
        let migrated = choose|migrated: Result<(), GameSnapshotError>|
            migration_outcome(before, after, migrated) && match migrated {
                Err(error) => result == Err::<(), GameSnapshotError>(error),
                Ok(_) => result == later_gate(after, before.schema_version),
            };
        assert(migration_outcome(before, after, migrated));
        if result is Ok {
            assert(controller_views(after.player_controllers@).len() == after.player_controllers@.len());
        }
    }
}

/// The version gate of snapshot restoration: an unsupported schema, or
/// state that the snapshot's schema predates, is refused; a snapshot from
/// before inventory weapons has its legacy weapon authority migrated first.
pub fn check_snapshot_versions(
    snapshot: &mut GameSnapshot,
    pickup_triggers: bool,
    hazard_triggers: bool,
) -> (result: Result<(), GameSnapshotError>)
    ensures
        version_gate_outcome(*old(snapshot), *final(snapshot), pickup_triggers, hazard_triggers, result),
{
    let version = snapshot.schema_version;
    if !(10 <= version && version <= GAME_SNAPSHOT_SCHEMA_VERSION) {
        return Err(GameSnapshotError::UnsupportedSchema { actual: version });
    }
    if version < 11 && (snapshot.item_definitions.len() > 0 || snapshot.inventories.len() > 0) {
        return Err(GameSnapshotError::FutureInventoryStateInLegacySnapshot);
    }
    if version < 12 && (snapshot.pickups.len() > 0 || pickup_triggers) {
        return Err(GameSnapshotError::FuturePickupStateInLegacySnapshot);
    }
    if version < VITALITY_SNAPSHOT_SCHEMA_VERSION && (any_armor_state(&snapshot.health)
        || snapshot.hazards.len() > 0 || hazard_triggers) {
        return Err(GameSnapshotError::FutureVitalityStateInLegacySnapshot);
    }
    if version < INVENTORY_WEAPON_SNAPSHOT_SCHEMA_VERSION {
        if snapshot_has_inventory_weapon_fields(snapshot) {
            return Err(GameSnapshotError::FutureWeaponStateInLegacySnapshot);
        }
        let ghost before = *snapshot;
        let migrated = migrate_legacy_snapshot_weapon_authority(snapshot);
        assert(migration_outcome(before, *snapshot, migrated));
        if let Err(error) = migrated {
            return Err(error);
        }
    } else if snapshot.weapons.len() > 0 {
        return Err(GameSnapshotError::FutureWeaponStateInLegacySnapshot);
    }
    check_later_state(snapshot, version)
}

/// The version gate only constrains legacy snapshots: a snapshot of the
/// current schema without legacy weapon components passes it unchanged,
/// whatever state it carries.
pub proof fn lemma_current_schema_passes_gate(
    snapshot: GameSnapshot,
    pickup_triggers: bool,
    hazard_triggers: bool,
)
    requires
        snapshot.schema_version == GAME_SNAPSHOT_SCHEMA_VERSION,
        snapshot.weapons@.len() == 0,
    ensures
        schema_gate(snapshot, pickup_triggers, hazard_triggers) is None,
        later_gate(snapshot, snapshot.schema_version) is Ok,
{
}

/// Normalizing a definition only fills what is absent: identity, quantity,
/// kind and ammunition stay; a weapon becomes a hitscan weapon without
/// spread, keeps every damage, range, cooldown, cost, muzzle offset and
/// presentation it has, and takes the defaults (40 damage, a range of 20.0,
/// 6 ticks, one round, a zero offset, its own identity) only for those it
/// lacks; any other definition is unchanged. Normalizing twice changes
/// nothing more.
pub proof fn lemma_normalization_fills_only_absent_fields(definition: ItemDefinitionView)
    ensures
        ({
            let kind = definition.kind;
            let normalized = normalized_definition(definition);
            let filled = normalized.kind;
            &&& normalized.id == definition.id
            &&& normalized.max_quantity == definition.max_quantity
            &&& filled.weapon == kind.weapon
            &&& filled.ammunition == kind.ammunition
            &&& filled.plain == kind.plain
            &&& !kind.weapon ==> normalized == definition
            &&& kind.weapon ==> {
                &&& filled.attack_mode == Some(SnapshotWeaponAttackMode::Hitscan)
                &&& filled.pellet_count is None
                &&& filled.spread_degrees is None
                &&& kind.damage is Some ==> filled.damage == kind.damage
                &&& kind.damage is None ==> filled.damage == Some(40u32)
                &&& kind.max_distance is Some ==> filled.max_distance == kind.max_distance
                &&& kind.max_distance is None ==> filled.max_distance == Some(0x41A0_0000u32)
                &&& kind.cooldown_ticks is Some ==> filled.cooldown_ticks == kind.cooldown_ticks
                &&& kind.cooldown_ticks is None ==> filled.cooldown_ticks == Some(6u64)
                &&& kind.ammunition_cost is Some ==> filled.ammunition_cost == kind.ammunition_cost
                &&& kind.ammunition_cost is None ==> filled.ammunition_cost == Some(1u32)
                &&& kind.muzzle_offset is Some ==> filled.muzzle_offset == kind.muzzle_offset
                &&& kind.muzzle_offset is None ==> filled.muzzle_offset == Some([0u32, 0u32, 0u32])
                &&& kind.presentation is Some ==> filled.presentation == kind.presentation
                &&& kind.presentation is None ==> filled.presentation == Some(definition.id)
            }
            &&& normalized_definition(normalized) == normalized
        }),
{
}

/// A migrated legacy weapon keeps what the legacy component carried: after
/// normalization its definition has the component's damage, range, cooldown
/// and muzzle offset, one round per shot, and the presentation it was given.
pub proof fn lemma_migrated_weapon_keeps_legacy_values(
    definition: ItemDefinitionView,
    presentation: Seq<char>,
    ammunition: Seq<char>,
    weapon: WeaponSnapshot,
)
    requires
        definition.kind == legacy_weapon_kind(presentation, ammunition, weapon),
    ensures
        ({
            let filled = normalized_definition(definition).kind;
            &&& filled.weapon
            &&& filled.ammunition == ammunition
            &&& filled.damage == Some(weapon.damage)
            &&& filled.max_distance == Some(weapon.max_distance)
            &&& filled.cooldown_ticks == Some(weapon.cooldown_ticks)
            &&& filled.ammunition_cost == Some(1u32)
            &&& filled.muzzle_offset == Some(weapon.muzzle_offset)
            &&& filled.presentation == Some(presentation)
        }),
{
    lemma_normalization_fills_only_absent_fields(definition);
}

} // verus!
