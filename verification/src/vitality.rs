//! Health, armor and death bookkeeping for gameplay entities.
//!
//! Damage is absorbed by armor first (up to the configured percentage of the
//! incoming amount), then by health. A component whose health reaches zero
//! dies; a dead component never takes further damage.
use std::collections::{BTreeMap, BTreeSet};
use vstd::prelude::*;

verus! {

broadcast use vstd::std_specs::btree::group_btree_axioms;

pub const MAX_HEALTH: u32 = 1_000_000;

pub const MAX_ARMOR: u32 = 1_000_000;

pub const MAX_DAMAGE: u32 = 1_000_000;

#[derive(Debug, Clone, Copy, PartialEq, Eq, Structural)]
pub enum VitalityState {
    Alive,
    Dead,
}

#[derive(Debug, Clone, Copy, PartialEq, Eq, Structural)]
pub enum DamageDisposition {
    Applied,
    AlreadyDead,
}

#[derive(Debug, Clone, Copy, PartialEq, Eq, Structural)]
pub enum EnemyState {
    Alive,
    Defeated,
}

/// Static health configuration of a component. The hitbox half extents are
/// carried as the IEEE-754 bit patterns of their `f32` values.
#[derive(Debug, Clone, Copy, PartialEq, Eq)]
pub struct HealthConfig {
    pub max: u32,
    pub hitbox_half_extents: [u32; 3],
    pub max_armor: u32,
    pub armor_absorption_percent: u8,
}

impl HealthConfig {
    pub fn unarmored(max: u32, hitbox_half_extents: [u32; 3]) -> (config: Self)
        ensures
            config.max == max,
            config.hitbox_half_extents == hitbox_half_extents,
            config.max_armor == 0,
            config.armor_absorption_percent == 0,
    {
        HealthConfig { max, hitbox_half_extents, max_armor: 0, armor_absorption_percent: 0 }
    }

    /// The integer limits of a configuration: health within `1..=MAX_HEALTH`,
    /// armor within `MAX_ARMOR`, and an absorption percentage that is zero
    /// exactly when the configuration carries no armor.
    pub open spec fn integer_limits_hold(self) -> bool {
        &&& 1 <= self.max <= MAX_HEALTH
        &&& self.max_armor <= MAX_ARMOR
        &&& if self.max_armor == 0 {
            self.armor_absorption_percent == 0
        } else {
            1 <= self.armor_absorption_percent <= 100
        }
    }

    pub fn has_valid_integer_limits(&self) -> (valid: bool)
        ensures
            valid == self.integer_limits_hold(),
    {
        1 <= self.max && self.max <= MAX_HEALTH && self.max_armor <= MAX_ARMOR && if self.max_armor
            == 0 {
            self.armor_absorption_percent == 0
        } else {
            1 <= self.armor_absorption_percent && self.armor_absorption_percent <= 100
        }
    }
}

#[derive(Debug, Clone, PartialEq, Eq)]
pub struct HealthComponent {
    pub config: HealthConfig,
    pub current: u32,
    pub armor: u32,
    pub armor_item: Option<String>,
    pub state: VitalityState,
}

impl HealthComponent {
    /// What admission guarantees of a live component.
    pub open spec fn well_formed(self) -> bool {
        &&& self.config.armor_absorption_percent <= 100
        &&& self.current <= self.config.max
        &&& self.armor <= self.config.max_armor
    }
}

#[derive(Debug, Clone, PartialEq, Eq)]
pub enum DamageSource {
    Weapon { attacker: u64, weapon: String },
    Hazard { hazard: u64 },
    Direct { actor: u64 },
}

impl DamageSource {
    pub open spec fn spec_entity(&self) -> u64 {
        match self {
            DamageSource::Weapon { attacker, .. } => *attacker,
            DamageSource::Hazard { hazard } => *hazard,
            DamageSource::Direct { actor } => *actor,
        }
    }

    pub fn entity(&self) -> (entity: u64)
        ensures
            entity == self.spec_entity(),
    {
        match self {
            DamageSource::Weapon { attacker, .. } => *attacker,
            DamageSource::Hazard { hazard } => *hazard,
            DamageSource::Direct { actor } => *actor,
        }
    }
}

fn clone_source(source: &DamageSource) -> (copy: DamageSource)
    ensures
        copy == *source,
{
    match source {
        DamageSource::Weapon { attacker, weapon } => DamageSource::Weapon {
            attacker: *attacker,
            weapon: weapon.clone(),
        },
        DamageSource::Hazard { hazard } => DamageSource::Hazard { hazard: *hazard },
        DamageSource::Direct { actor } => DamageSource::Direct { actor: *actor },
    }
}

fn clone_optional_text(value: &Option<String>) -> (copy: Option<String>)
    ensures
        copy == *value,
{
    match value {
        Some(text) => Some(text.clone()),
        None => None,
    }
}

#[derive(Debug, Clone, PartialEq, Eq)]
pub enum VitalityFact {
    DamageApplied {
        source: DamageSource,
        target: u64,
        incoming: u32,
        armor_absorbed: u32,
        health_damage: u32,
        health_before: u32,
        health_after: u32,
        armor_before: u32,
        armor_after: u32,
    },
    Died { source: DamageSource, entity: u64 },
    ArmorGranted { entity: u64, item: String, amount: u32, before: u32, after: u32 },
    HealthRestored { entity: u64, item: String, amount: u32, before: u32, after: u32 },
}

/// Entity-state commands that a death asks the entity store to apply.
#[derive(Debug, Clone, Copy, PartialEq, Eq, Structural)]
pub enum EntityCommand {
    /// Stop the entity's kinematic motion (velocity zero).
    StopKinematic { entity: u64 },
    SetCollisionEnabled { entity: u64, enabled: bool },
    SetVisible { entity: u64, visible: bool },
}

#[derive(Debug, Clone, Copy, PartialEq, Eq, Structural)]
pub enum VitalityEvent {
    EnemyDefeated { enemy: u64, actor: u64 },
    PlayerDied { player: u64, source: u64 },
}

/// The inventory consumption that armor and health supplies ask of the
/// inventory service: consume one unit of `item` at `sequence`.
#[derive(Debug, Clone, PartialEq, Eq)]
pub struct InventoryConsumption {
    pub owner: u64,
    pub sequence: u64,
    pub item: String,
    pub quantity: u32,
}

#[derive(Debug, Clone, PartialEq)]
pub struct DamageCommand {
    pub source: DamageSource,
    pub target: u64,
    pub amount: u32,
}

#[derive(Debug, Clone, PartialEq)]
pub struct VitalityReceipt {
    pub disposition: DamageDisposition,
    pub facts: Vec<VitalityFact>,
    pub inventory: Vec<InventoryConsumption>,
    pub event: Option<VitalityEvent>,
    pub entity_commands: Vec<EntityCommand>,
}

#[derive(Debug, Clone, PartialEq, Eq)]
pub enum VitalityRejection {
    UnknownSource { source: u64 },
    UnknownVitality { entity: u64 },
    InvalidDamage { amount: u32 },
    PlayerDead { player: u64 },
    HealthFull { player: u64 },
    ArmorFull { player: u64 },
    ArmorUnsupported { player: u64 },
    ArmorItemConflict { player: u64, active: String, offered: String },
    MissingItemDefinition { item: String },
    IncompatibleItem { item: String },
    InventorySequenceOverflow { player: u64 },
    ItemNotOwned { player: u64, item: String },
}

/// The effect an item definition has when consumed.
#[derive(Debug, Clone, Copy, PartialEq, Eq, Structural)]
pub enum ItemEffect {
    Weapon,
    Ammunition,
    AccessKey,
    HealthSupply { restore_health: u32 },
    Armor { protection: u32 },
}

#[derive(Debug, Clone, PartialEq, Eq)]
pub struct ItemEffectDefinition {
    pub id: String,
    pub effect: ItemEffect,
}

/// The part of a game session that vitality reads and writes.
pub struct VitalitySession {
    /// Entities that exist in the entity store.
    pub entities: BTreeSet<u64>,
    /// Entities that carry a kinematic body.
    pub kinematic_entities: BTreeSet<u64>,
    pub health: BTreeMap<u64, HealthComponent>,
    pub enemies: BTreeMap<u64, EnemyState>,
    pub player_controllers: BTreeSet<u64>,
    /// The last applied inventory command sequence of each inventory owner.
    pub inventory_sequences: BTreeMap<u64, Option<u64>>,
    pub item_definitions: Vec<ItemEffectDefinition>,
}

impl VitalitySession {
    pub open spec fn well_formed(&self) -> bool {
        &&& forall|id: u64| #[trigger]
            self.health@.contains_key(id) ==> self.health@[id].well_formed()
                && self.entities@.contains(id)
    }
}

/// Armor absorbs at most `percent` percent of the incoming damage, and at
/// most the armor that remains.
pub open spec fn armor_absorption(armor: u32, percent: u8, amount: u32) -> int {
    let maximum = (amount as int) * (percent as int) / 100;
    if (armor as int) < maximum {
        armor as int
    } else {
        maximum
    }
}

/// What is left for health after armor.
pub open spec fn health_damage(current: u32, armor: u32, percent: u8, amount: u32) -> int {
    let remaining = amount - armor_absorption(armor, percent, amount);
    if (current as int) < remaining {
        current as int
    } else {
        remaining
    }
}

/// The component after it takes `amount` damage.
pub open spec fn damaged_component(before: HealthComponent, amount: u32) -> HealthComponent {
    let absorbed = armor_absorption(before.armor, before.config.armor_absorption_percent, amount);
    let lost = health_damage(
        before.current,
        before.armor,
        before.config.armor_absorption_percent,
        amount,
    );
    let health_after = (before.current - lost) as u32;
    let armor_after = (before.armor - absorbed) as u32;
    HealthComponent {
        config: before.config,
        current: health_after,
        armor: armor_after,
        armor_item: if armor_after == 0 {
            None
        } else {
            before.armor_item
        },
        state: if health_after == 0 {
            VitalityState::Dead
        } else {
            before.state
        },
    }
}

/// The entity commands a death issues: a kinematic body stops, and an enemy
/// stops colliding and disappears.
pub open spec fn death_commands(kinematic: bool, enemy: bool, target: u64) -> Seq<EntityCommand> {
    let stop = if kinematic {
        seq![EntityCommand::StopKinematic { entity: target }]
    } else {
        Seq::empty()
    };
    let hide = if enemy {
        seq![
            EntityCommand::SetCollisionEnabled { entity: target, enabled: false },
            EntityCommand::SetVisible { entity: target, visible: false },
        ]
    } else {
        Seq::empty()
    };
    stop + hide
}

/// Adding to a bounded quantity: saturate, then clamp to the bound.
pub open spec fn restored_amount(before: u32, gain: u32, bound: u32) -> u32 {
    let sum = if before + gain > u32::MAX {
        u32::MAX as int
    } else {
        before + gain
    };
    if sum < bound {
        sum as u32
    } else {
        bound
    }
}

pub open spec fn find_item_effect(definitions: Seq<ItemEffectDefinition>, item: Seq<char>) -> Option<
    ItemEffect,
> {
    if exists|i: int| 0 <= i < definitions.len() && (#[trigger] definitions[i]).id@ == item {
        let i = choose|i: int|
            0 <= i < definitions.len() && (#[trigger] definitions[i]).id@ == item && forall|
                j: int,
            |
                0 <= j < i ==> (#[trigger] definitions[j]).id@ != item;
        Some(definitions[i].effect)
    } else {
        None
    }
}

/// The next inventory command sequence of an owner: one past the last applied
/// one, or `1` for a fresh inventory; `None` when that overflows.
pub open spec fn next_sequence(sequences: Map<u64, Option<u64>>, owner: u64) -> Option<u64> {
    let last = if sequences.contains_key(owner) {
        sequences[owner]
    } else {
        None
    };
    match last {
        None => Some(1),
        Some(value) => if value < u64::MAX {
            Some((value + 1) as u64)
        } else {
            None
        },
    }
}

fn lookup_item_effect(definitions: &Vec<ItemEffectDefinition>, item: &String) -> (found: Option<
    ItemEffect,
>)
    ensures
        found == find_item_effect(definitions@, item@),
{
    let mut index: usize = 0;
    while index < definitions.len()
        invariant
            0 <= index <= definitions@.len(),
            forall|j: int| 0 <= j < index ==> (#[trigger] definitions@[j]).id@ != item@,
        decreases definitions@.len() - index,
    {
        if definitions[index].id == *item {
            let ghost i = index as int;
            proof {
                assert(definitions@[i].id@ == item@);
                let k = choose|k: int|
                    0 <= k < definitions@.len() && (#[trigger] definitions@[k]).id@ == item@
                        && forall|j: int| 0 <= j < k ==> (#[trigger] definitions@[j]).id@ != item@;
                if k < i {
                    assert(definitions@[k].id@ != item@);
                }
                if k > i {
                    assert(definitions@[i].id@ != item@);
                }
            }
            return Some(definitions[index].effect);
        }
        index = index + 1;
    }
    None
}

fn next_inventory_sequence(session: &VitalitySession, player: u64) -> (next: Result<
    u64,
    VitalityRejection,
>)
    ensures
        match next_sequence(session.inventory_sequences@, player) {
            Some(value) => next == Ok::<u64, VitalityRejection>(value),
            None => next == Err::<u64, VitalityRejection>(
                VitalityRejection::InventorySequenceOverflow { player },
            ),
        },
{
    let last = match session.inventory_sequences.get(&player) {
        Some(value) => *value,
        None => None,
    };
    match last {
        None => Ok(1),
        Some(value) => if value < u64::MAX {
            Ok(value + 1)
        } else {
            Err(VitalityRejection::InventorySequenceOverflow { player })
        },
    }
}

pub struct DamageService;

impl DamageService {
    /// Applies `command` to the session's vitality state.
    ///
    /// The source must exist, the amount must be within `1..=MAX_DAMAGE` and
    /// the target must carry a health component. A dead target is left
    /// unchanged. Otherwise armor absorbs its share, health the rest; a
    /// component brought to zero health dies, and a dying enemy is defeated.
    /// The receipt's entity commands are what the entity store must apply for
    /// the death to take effect.
    pub fn apply(session: &mut VitalitySession, command: DamageCommand) -> (result: Result<
        VitalityReceipt,
        VitalityRejection,
    >)
        requires
            old(session).well_formed(),
        ensures
            final(session).well_formed(),
            final(session).entities@ == old(session).entities@,
            final(session).kinematic_entities@ == old(session).kinematic_entities@,
            final(session).player_controllers@ == old(session).player_controllers@,
            final(session).inventory_sequences@ == old(session).inventory_sequences@,
            final(session).item_definitions@ == old(session).item_definitions@,
            !old(session).entities@.contains(command.source.spec_entity()) ==> result
                == Err::<VitalityReceipt, VitalityRejection>(
                VitalityRejection::UnknownSource { source: command.source.spec_entity() },
            ),
            old(session).entities@.contains(command.source.spec_entity()) && (command.amount == 0
                || command.amount > MAX_DAMAGE) ==> result == Err::<
                VitalityReceipt,
                VitalityRejection,
            >(VitalityRejection::InvalidDamage { amount: command.amount }),
            old(session).entities@.contains(command.source.spec_entity()) && 1 <= command.amount
                <= MAX_DAMAGE && !old(session).health@.contains_key(command.target) ==> result
                == Err::<VitalityReceipt, VitalityRejection>(
                VitalityRejection::UnknownVitality { entity: command.target },
            ),
            result is Err ==> final(session).health@ == old(session).health@
                && final(session).enemies@ == old(session).enemies@,
            old(session).entities@.contains(command.source.spec_entity()) && 1 <= command.amount
                <= MAX_DAMAGE && old(session).health@.contains_key(command.target) ==> {
                let before = old(session).health@[command.target];
                let after = damaged_component(before, command.amount);
                let died = after.current == 0;
                let enemy = old(session).enemies@.contains_key(command.target);
                &&& result is Ok
                &&& before.state == VitalityState::Dead ==> {
                    &&& result->Ok_0.disposition == DamageDisposition::AlreadyDead
                    &&& result->Ok_0.facts@.len() == 0
                    &&& result->Ok_0.inventory@.len() == 0
                    &&& result->Ok_0.entity_commands@.len() == 0
                    &&& result->Ok_0.event is None
                    &&& final(session).health@ == old(session).health@
                    &&& final(session).enemies@ == old(session).enemies@
                }
                &&& before.state == VitalityState::Alive ==> {
                    &&& result->Ok_0.disposition == DamageDisposition::Applied
                    &&& final(session).health@ == old(session).health@.insert(
                        command.target,
                        after,
                    )
                    &&& result->Ok_0.facts@[0] == VitalityFact::DamageApplied {
                        source: command.source,
                        target: command.target,
                        incoming: command.amount,
                        armor_absorbed: (before.armor - after.armor) as u32,
                        health_damage: (before.current - after.current) as u32,
                        health_before: before.current,
                        health_after: after.current,
                        armor_before: before.armor,
                        armor_after: after.armor,
                    }
                    &&& died ==> result->Ok_0.facts@ == seq![
                        result->Ok_0.facts@[0],
                        VitalityFact::Died { source: command.source, entity: command.target },
                    ]
                    &&& !died ==> result->Ok_0.facts@.len() == 1
                    &&& result->Ok_0.inventory@.len() == 0
                    &&& result->Ok_0.entity_commands@ == if died {
                        death_commands(
                            old(session).kinematic_entities@.contains(command.target),
                            enemy,
                            command.target,
                        )
                    } else {
                        Seq::empty()
                    }
                    &&& final(session).enemies@ == if died && enemy {
                        old(session).enemies@.insert(command.target, EnemyState::Defeated)
                    } else {
                        old(session).enemies@
                    }
                    &&& result->Ok_0.event == if died && enemy {
                        Some(
                            VitalityEvent::EnemyDefeated {
                                enemy: command.target,
                                actor: command.source.spec_entity(),
                            },
                        )
                    } else if died && old(session).player_controllers@.contains(command.target) {
                        Some(
                            VitalityEvent::PlayerDied {
                                player: command.target,
                                source: command.source.spec_entity(),
                            },
                        )
                    } else {
                        None
                    }
                }
            },
    {
        let source = command.source.entity();
        if !session.entities.contains(&source) {
            return Err(VitalityRejection::UnknownSource { source });
        }
        if command.amount == 0 || command.amount > MAX_DAMAGE {
            return Err(VitalityRejection::InvalidDamage { amount: command.amount });
        }
        let target = command.target;
        let (config, current, armor, armor_item, state) = match session.health.get(&target) {
            Some(component) => (
                component.config,
                component.current,
                component.armor,
                clone_optional_text(&component.armor_item),
                component.state,
            ),
            None => {
                return Err(VitalityRejection::UnknownVitality { entity: target });
            },
        };
        let ghost before = old(session).health@[target];
        assert(before.well_formed());
        if state == VitalityState::Dead {
            return Ok(
                VitalityReceipt {
                    disposition: DamageDisposition::AlreadyDead,
                    facts: Vec::new(),
                    inventory: Vec::new(),
                    event: None,
                    entity_commands: Vec::new(),
                },
            );
        }
        let percent = config.armor_absorption_percent;
        assert((command.amount as int) * (percent as int) <= 1_000_000 * 100) by (nonlinear_arith)
            requires
                command.amount <= 1_000_000,
                percent <= 100,
        ;
        assert((command.amount as int) * (percent as int) / 100 <= command.amount) by (
        nonlinear_arith)
            requires
                percent <= 100,
        ;
        let maximum_absorption = ((command.amount as u64) * (percent as u64) / 100) as u32;
        let armor_absorbed = if armor < maximum_absorption {
            armor
        } else {
            maximum_absorption
        };
        let remaining = command.amount - armor_absorbed;
        let lost = if current < remaining {
            current
        } else {
            remaining
        };
        let health_after = current - lost;
        let armor_after = armor - armor_absorbed;
        let died = health_after == 0;
        let updated = HealthComponent {
            config,
            current: health_after,
            armor: armor_after,
            armor_item: if armor_after == 0 {
                None
            } else {
                armor_item
            },
            state: if died {
                VitalityState::Dead
            } else {
                state
            },
        };
        assert(updated == damaged_component(before, command.amount));
        let mut entity_commands: Vec<EntityCommand> = Vec::new();
        let mut event: Option<VitalityEvent> = None;
        if died {
            let kinematic = session.kinematic_entities.contains(&target);
            let enemy = session.enemies.contains_key(&target);
            if kinematic {
                entity_commands.push(EntityCommand::StopKinematic { entity: target });
            }
            if enemy {
                entity_commands.push(
                    EntityCommand::SetCollisionEnabled { entity: target, enabled: false },
                );
                entity_commands.push(EntityCommand::SetVisible { entity: target, visible: false });
            }
            assert(entity_commands@ =~= death_commands(kinematic, enemy, target));
            if enemy {
                session.enemies.insert(target, EnemyState::Defeated);
                event = Some(VitalityEvent::EnemyDefeated { enemy: target, actor: source });
            } else if session.player_controllers.contains(&target) {
                event = Some(VitalityEvent::PlayerDied { player: target, source });
            }
        }
        session.health.insert(target, updated);
        let mut facts: Vec<VitalityFact> = Vec::new();
        facts.push(
            VitalityFact::DamageApplied {
                source: clone_source(&command.source),
                target,
                incoming: command.amount,
                armor_absorbed,
                health_damage: lost,
                health_before: current,
                health_after,
                armor_before: armor,
                armor_after,
            },
        );
        if died {
            facts.push(VitalityFact::Died { source: command.source, entity: target });
        }
        Ok(
            VitalityReceipt {
                disposition: DamageDisposition::Applied,
                facts,
                inventory: Vec::new(),
                event,
                entity_commands,
            },
        )
    }

    /// Grants the armor of `item` to a living player whose configuration
    /// supports armor and whose armor is below its maximum; the item must be
    /// an armor definition and, when armor is already worn, the same item.
    /// Armor rises by the item's protection, saturating, capped at the
    /// maximum. One unit of the item is consumed from the player's inventory,
    /// which must hold it (`held` is the quantity it holds); the consumption
    /// takes the player's next inventory sequence, which the session records.
    pub fn grant_armor(session: &mut VitalitySession, player: u64, item: String, held: u32) -> (result:
        Result<VitalityReceipt, VitalityRejection>)
        requires
            old(session).well_formed(),
        ensures
            final(session).well_formed(),
            final(session).entities@ == old(session).entities@,
            final(session).kinematic_entities@ == old(session).kinematic_entities@,
            final(session).player_controllers@ == old(session).player_controllers@,
            final(session).enemies@ == old(session).enemies@,
            final(session).item_definitions@ == old(session).item_definitions@,
            result is Err ==> final(session).health@ == old(session).health@,
            result is Err ==> final(session).inventory_sequences@ == old(session).inventory_sequences@,
            !old(session).health@.contains_key(player) ==> result == Err::<
                VitalityReceipt,
                VitalityRejection,
            >(VitalityRejection::UnknownVitality { entity: player }),
            old(session).health@.contains_key(player) ==> {
                let before = old(session).health@[player];
                let effect = find_item_effect(old(session).item_definitions@, item@);
                if before.state == VitalityState::Dead {
                    result == Err::<VitalityReceipt, VitalityRejection>(
                        VitalityRejection::PlayerDead { player },
                    )
                } else if before.config.max_armor == 0 {
                    result == Err::<VitalityReceipt, VitalityRejection>(
                        VitalityRejection::ArmorUnsupported { player },
                    )
                } else if before.armor >= before.config.max_armor {
                    result == Err::<VitalityReceipt, VitalityRejection>(
                        VitalityRejection::ArmorFull { player },
                    )
                } else if before.armor_item is Some && before.armor_item->Some_0@ != item@ {
                    result == Err::<VitalityReceipt, VitalityRejection>(
                        VitalityRejection::ArmorItemConflict {
                            player,
                            active: before.armor_item->Some_0,
                            offered: item,
                        },
                    )
                } else if effect is None {
                    result == Err::<VitalityReceipt, VitalityRejection>(
                        VitalityRejection::MissingItemDefinition { item },
                    )
                } else if !(effect->Some_0 is Armor) {
                    result == Err::<VitalityReceipt, VitalityRejection>(
                        VitalityRejection::IncompatibleItem { item },
                    )
                } else if next_sequence(old(session).inventory_sequences@, player) is None {
                    result == Err::<VitalityReceipt, VitalityRejection>(
                        VitalityRejection::InventorySequenceOverflow { player },
                    )
                } else if held == 0 {
                    result == Err::<VitalityReceipt, VitalityRejection>(
                        VitalityRejection::ItemNotOwned { player, item },
                    )
                } else {
                    let after = restored_amount(
                        before.armor,
                        effect->Some_0->Armor_protection,
                        before.config.max_armor,
                    );
                    &&& result is Ok
                    &&& final(session).inventory_sequences@ == old(session).inventory_sequences@.insert(
                        player,
                        Some(next_sequence(old(session).inventory_sequences@, player)->Some_0),
                    )
                    &&& final(session).health@ == old(session).health@.insert(
                        player,
                        HealthComponent { armor: after, armor_item: Some(item), ..before },
                    )
                    &&& result->Ok_0.disposition == DamageDisposition::Applied
                    &&& result->Ok_0.facts@ == seq![
                        VitalityFact::ArmorGranted {
                            entity: player,
                            item,
                            amount: (after - before.armor) as u32,
                            before: before.armor,
                            after,
                        },
                    ]
                    &&& result->Ok_0.inventory@ == seq![
                        InventoryConsumption {
                            owner: player,
                            sequence: next_sequence(
                                old(session).inventory_sequences@,
                                player,
                            )->Some_0,
                            item,
                            quantity: 1,
                        },
                    ]
                    &&& result->Ok_0.event is None
                    &&& result->Ok_0.entity_commands@.len() == 0
                }
            },
    {
        let (config, current, armor, armor_item, state) = match session.health.get(&player) {
            Some(component) => (
                component.config,
                component.current,
                component.armor,
                clone_optional_text(&component.armor_item),
                component.state,
            ),
            None => {
                return Err(VitalityRejection::UnknownVitality { entity: player });
            },
        };
        let ghost before = old(session).health@[player];
        if state == VitalityState::Dead {
            return Err(VitalityRejection::PlayerDead { player });
        }
        if config.max_armor == 0 {
            return Err(VitalityRejection::ArmorUnsupported { player });
        }
        if armor >= config.max_armor {
            return Err(VitalityRejection::ArmorFull { player });
        }
        if let Some(active) = armor_item {
            if active != item {
                return Err(
                    VitalityRejection::ArmorItemConflict { player, active, offered: item },
                );
            }
        }
        let protection = match lookup_item_effect(&session.item_definitions, &item) {
            None => {
                return Err(VitalityRejection::MissingItemDefinition { item });
            },
            Some(ItemEffect::Armor { protection }) => protection,
            Some(_) => {
                return Err(VitalityRejection::IncompatibleItem { item });
            },
        };
        let sequence = match next_inventory_sequence(session, player) {
            Ok(value) => value,
            Err(rejection) => {
                return Err(rejection);
            },
        };
        if held == 0 {
            return Err(VitalityRejection::ItemNotOwned { player, item });
        }
        session.inventory_sequences.insert(player, Some(sequence));
        let sum = armor.saturating_add(protection);
        let after = if sum < config.max_armor {
            sum
        } else {
            config.max_armor
        };
        assert(after == restored_amount(armor, protection, config.max_armor));
        let updated = HealthComponent {
            config,
            current,
            armor: after,
            armor_item: Some(item.clone()),
            state,
        };
        session.health.insert(player, updated);
        let mut facts: Vec<VitalityFact> = Vec::new();
        facts.push(
            VitalityFact::ArmorGranted {
                entity: player,
                item: item.clone(),
                amount: after - armor,
                before: armor,
                after,
            },
        );
        let mut inventory: Vec<InventoryConsumption> = Vec::new();
        inventory.push(InventoryConsumption { owner: player, sequence, item, quantity: 1 });
        Ok(
            VitalityReceipt {
                disposition: DamageDisposition::Applied,
                facts,
                inventory,
                event: None,
                entity_commands: Vec::new(),
            },
        )
    }

    /// Restores health from a health-supply `item` to a living player whose
    /// health is below its maximum. Health rises by the item's restore amount,
    /// saturating, capped at the maximum. One unit of the item is consumed
    /// from the player's inventory (which applies the consumption and refuses
    /// it when the item is not held); the consumption takes the player's next
    /// inventory sequence, which the session records.
    pub fn use_health_supply(session: &mut VitalitySession, player: u64, item: String) -> (result:
        Result<VitalityReceipt, VitalityRejection>)
        requires
            old(session).well_formed(),
        ensures
            final(session).well_formed(),
            final(session).entities@ == old(session).entities@,
            final(session).kinematic_entities@ == old(session).kinematic_entities@,
            final(session).player_controllers@ == old(session).player_controllers@,
            final(session).enemies@ == old(session).enemies@,
            final(session).item_definitions@ == old(session).item_definitions@,
            result is Err ==> final(session).health@ == old(session).health@,
            result is Err ==> final(session).inventory_sequences@ == old(session).inventory_sequences@,
            !old(session).health@.contains_key(player) ==> result == Err::<
                VitalityReceipt,
                VitalityRejection,
            >(VitalityRejection::UnknownVitality { entity: player }),
            old(session).health@.contains_key(player) ==> {
                let before = old(session).health@[player];
                let effect = find_item_effect(old(session).item_definitions@, item@);
                if before.state == VitalityState::Dead {
                    result == Err::<VitalityReceipt, VitalityRejection>(
                        VitalityRejection::PlayerDead { player },
                    )
                } else if before.current == before.config.max {
                    result == Err::<VitalityReceipt, VitalityRejection>(
                        VitalityRejection::HealthFull { player },
                    )
                } else if effect is None {
                    result == Err::<VitalityReceipt, VitalityRejection>(
                        VitalityRejection::MissingItemDefinition { item },
                    )
                } else if !(effect->Some_0 is HealthSupply) {
                    result == Err::<VitalityReceipt, VitalityRejection>(
                        VitalityRejection::IncompatibleItem { item },
                    )
                } else if next_sequence(old(session).inventory_sequences@, player) is None {
                    result == Err::<VitalityReceipt, VitalityRejection>(
                        VitalityRejection::InventorySequenceOverflow { player },
                    )
                } else {
                    let after = restored_amount(
                        before.current,
                        effect->Some_0->HealthSupply_restore_health,
                        before.config.max,
                    );
                    &&& result is Ok
                    &&& final(session).inventory_sequences@ == old(session).inventory_sequences@.insert(
                        player,
                        Some(next_sequence(old(session).inventory_sequences@, player)->Some_0),
                    )
                    &&& final(session).health@ == old(session).health@.insert(
                        player,
                        HealthComponent { current: after, ..before },
                    )
                    &&& result->Ok_0.disposition == DamageDisposition::Applied
                    &&& result->Ok_0.facts@ == seq![
                        VitalityFact::HealthRestored {
                            entity: player,
                            item,
                            amount: (after - before.current) as u32,
                            before: before.current,
                            after,
                        },
                    ]
                    &&& result->Ok_0.inventory@ == seq![
                        InventoryConsumption {
                            owner: player,
                            sequence: next_sequence(
                                old(session).inventory_sequences@,
                                player,
                            )->Some_0,
                            item,
                            quantity: 1,
                        },
                    ]
                    &&& result->Ok_0.event is None
                    &&& result->Ok_0.entity_commands@.len() == 0
                }
            },
    {
        let (config, current, armor, armor_item, state) = match session.health.get(&player) {
            Some(component) => (
                component.config,
                component.current,
                component.armor,
                clone_optional_text(&component.armor_item),
                component.state,
            ),
            None => {
                return Err(VitalityRejection::UnknownVitality { entity: player });
            },
        };
        let ghost before = old(session).health@[player];
        if state == VitalityState::Dead {
            return Err(VitalityRejection::PlayerDead { player });
        }
        if current == config.max {
            return Err(VitalityRejection::HealthFull { player });
        }
        let restore = match lookup_item_effect(&session.item_definitions, &item) {
            None => {
                return Err(VitalityRejection::MissingItemDefinition { item });
            },
            Some(ItemEffect::HealthSupply { restore_health }) => restore_health,
            Some(_) => {
                return Err(VitalityRejection::IncompatibleItem { item });
            },
        };
        let sequence = match next_inventory_sequence(session, player) {
            Ok(value) => value,
            Err(rejection) => {
                return Err(rejection);
            },
        };
        session.inventory_sequences.insert(player, Some(sequence));
        let sum = current.saturating_add(restore);
        let after = if sum < config.max {
            sum
        } else {
            config.max
        };
        assert(after == restored_amount(current, restore, config.max));
        let updated = HealthComponent { config, current: after, armor, armor_item, state };
        session.health.insert(player, updated);
        let mut facts: Vec<VitalityFact> = Vec::new();
        facts.push(
            VitalityFact::HealthRestored {
                entity: player,
                item: item.clone(),
                amount: after - current,
                before: current,
                after,
            },
        );
        let mut inventory: Vec<InventoryConsumption> = Vec::new();
        inventory.push(InventoryConsumption { owner: player, sequence, item, quantity: 1 });
        Ok(
            VitalityReceipt {
                disposition: DamageDisposition::Applied,
                facts,
                inventory,
                event: None,
                entity_commands: Vec::new(),
            },
        )
    }

    /// Whether the entity carries a dead health component.
    pub fn is_dead(session: &VitalitySession, entity: u64) -> (dead: bool)
        ensures
            dead == (session.health@.contains_key(entity) && session.health@[entity].state
                == VitalityState::Dead),
    {
        match session.health.get(&entity) {
            Some(health) => health.state == VitalityState::Dead,
            None => false,
        }
    }
}

/// Damage is conserved: armor and health together take the whole incoming
/// amount unless health runs out first; neither armor nor health grows, and
/// armor absorbs at most its configured share.
pub proof fn lemma_damage_is_conserved(before: HealthComponent, amount: u32)
    requires
        before.well_formed(),
        1 <= amount <= MAX_DAMAGE,
    ensures
        ({
            let after = damaged_component(before, amount);
            let absorbed = before.armor - after.armor;
            let lost = before.current - after.current;
            &&& 0 <= absorbed <= before.armor
            &&& 0 <= lost <= before.current
            &&& absorbed * 100 <= amount * before.config.armor_absorption_percent
            &&& absorbed + lost <= amount
            &&& after.current > 0 ==> absorbed + lost == amount
            &&& (after.state == VitalityState::Dead) <==> (after.current == 0 || before.state
                == VitalityState::Dead)
        }),
{
    let percent = before.config.armor_absorption_percent;
    assert((amount as int) * (percent as int) / 100 <= amount) by (nonlinear_arith)
        requires
            percent <= 100,
    ;
    assert(((amount as int) * (percent as int) / 100) * 100 <= (amount as int) * (percent as int))
        by (nonlinear_arith);
}

/// Armor absorbs exactly its share of a hit: the configured percentage of
/// the incoming amount (rounded down), or all the armor that remains when
/// that is less; health takes the rest, down to zero. So worn armor with a
/// positive share always absorbs something. The armor item is dropped
/// exactly when no armor is left.
pub proof fn lemma_armor_absorbs_its_share(before: HealthComponent, amount: u32)
    requires
        before.well_formed(),
        1 <= amount <= MAX_DAMAGE,
    ensures
        ({
            let after = damaged_component(before, amount);
            let share = (amount as int) * (before.config.armor_absorption_percent as int) / 100;
            let absorbed = before.armor - after.armor;
            let lost = before.current - after.current;
            &&& before.armor <= share ==> absorbed == before.armor
            &&& share <= before.armor ==> absorbed == share
            &&& before.armor > 0 && share > 0 ==> absorbed > 0
            &&& lost == if before.current <= amount - absorbed {
                before.current as int
            } else {
                amount - absorbed
            }
            &&& after.config == before.config
            &&& after.armor == 0 ==> after.armor_item is None
            &&& after.armor > 0 ==> after.armor_item == before.armor_item
        }),
{
    let percent = before.config.armor_absorption_percent;
    assert((amount as int) * (percent as int) / 100 <= amount) by (nonlinear_arith)
        requires
            percent <= 100,
    ;
}

} // verus!
