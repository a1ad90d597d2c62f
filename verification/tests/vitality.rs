use std::collections::{BTreeMap, BTreeSet};

use loading_bay::vitality::{
    DamageCommand, DamageDisposition, DamageService, DamageSource, EnemyState, EntityCommand,
    HealthComponent, HealthConfig, ItemEffect, ItemEffectDefinition, VitalityEvent, VitalityFact,
    VitalityRejection, VitalitySession, VitalityState,
};

fn session() -> VitalitySession {
    let mut entities = BTreeSet::new();
    entities.insert(1);
    entities.insert(2);
    let mut health = BTreeMap::new();
    health.insert(
        1,
        HealthComponent {
            config: HealthConfig {
                max: 100,
                hitbox_half_extents: [0, 0, 0],
                max_armor: 50,
                armor_absorption_percent: 50,
            },
            current: 60,
            armor: 10,
            armor_item: None,
            state: VitalityState::Alive,
        },
    );
    health.insert(
        2,
        HealthComponent {
            config: HealthConfig {
                max: 100,
                hitbox_half_extents: [0, 0, 0],
                max_armor: 50,
                armor_absorption_percent: 50,
            },
            current: 100,
            armor: 50,
            armor_item: Some("armor-vest".to_string()),
            state: VitalityState::Alive,
        },
    );
    let mut enemies = BTreeMap::new();
    enemies.insert(2, EnemyState::Alive);
    let mut kinematic_entities = BTreeSet::new();
    kinematic_entities.insert(2);
    let mut player_controllers = BTreeSet::new();
    player_controllers.insert(1);
    let mut inventory_sequences = BTreeMap::new();
    inventory_sequences.insert(1, Some(4));
    VitalitySession {
        entities,
        kinematic_entities,
        health,
        enemies,
        player_controllers,
        inventory_sequences,
        item_definitions: vec![
            ItemEffectDefinition {
                id: "armor-vest".to_string(),
                effect: ItemEffect::Armor { protection: 25 },
            },
            ItemEffectDefinition {
                id: "medkit".to_string(),
                effect: ItemEffect::HealthSupply { restore_health: 25 },
            },
            ItemEffectDefinition { id: "shells".to_string(), effect: ItemEffect::Ammunition },
        ],
    }
}

fn weapon_hit(amount: u32) -> DamageCommand {
    DamageCommand {
        source: DamageSource::Weapon { attacker: 1, weapon: "pistol".to_string() },
        target: 2,
        amount,
    }
}

#[test]
fn armor_absorbs_its_share_of_damage() {
    let mut session = session();
    let receipt = DamageService::apply(&mut session, weapon_hit(40)).expect("applied");
    assert_eq!(receipt.disposition, DamageDisposition::Applied);
    match &receipt.facts[0] {
        VitalityFact::DamageApplied {
            armor_absorbed, health_damage, health_after, armor_after, ..
        } => {
            assert_eq!(*armor_absorbed, 20);
            assert_eq!(*health_damage, 20);
            assert_eq!(*health_after, 80);
            assert_eq!(*armor_after, 30);
        }
        other => panic!("unexpected fact {other:?}"),
    }
    let target = &session.health[&2];
    assert_eq!(target.current, 80);
    assert_eq!(target.armor, 30);
    assert!(receipt.event.is_none());
}

#[test]
fn absorbed_and_lost_add_up_to_the_damage_dealt() {
    let mut session = session();
    let receipt = DamageService::apply(&mut session, weapon_hit(33)).expect("applied");
    match &receipt.facts[0] {
        VitalityFact::DamageApplied { incoming, armor_absorbed, health_damage, .. } => {
            assert_eq!(*incoming, 33);
            assert_eq!(*armor_absorbed + *health_damage, 33);
            assert_eq!(*armor_absorbed, 16);
        }
        other => panic!("unexpected fact {other:?}"),
    }
}

#[test]
fn lethal_damage_defeats_an_enemy() {
    let mut session = session();
    let receipt = DamageService::apply(&mut session, weapon_hit(1_000)).expect("applied");
    assert!(DamageService::is_dead(&session, 2));
    assert_eq!(receipt.event, Some(VitalityEvent::EnemyDefeated { enemy: 2, actor: 1 }));
    assert_eq!(session.enemies[&2], EnemyState::Defeated);
    assert!(receipt.entity_commands.contains(&EntityCommand::StopKinematic { entity: 2 }));
    assert!(receipt.entity_commands.contains(&EntityCommand::SetVisible { entity: 2, visible: false }));
    let again = DamageService::apply(&mut session, weapon_hit(5)).expect("recorded");
    assert_eq!(again.disposition, DamageDisposition::AlreadyDead);
    assert!(again.facts.is_empty());
}

#[test]
fn damage_is_refused_for_unknown_sources_and_invalid_amounts() {
    let mut session = session();
    let unknown = DamageCommand { source: DamageSource::Direct { actor: 99 }, target: 2, amount: 5 };
    assert_eq!(
        DamageService::apply(&mut session, unknown),
        Err(VitalityRejection::UnknownSource { source: 99 })
    );
    assert_eq!(
        DamageService::apply(&mut session, weapon_hit(0)),
        Err(VitalityRejection::InvalidDamage { amount: 0 })
    );
    let no_health = DamageCommand { source: DamageSource::Direct { actor: 2 }, target: 1_000, amount: 5 };
    assert_eq!(
        DamageService::apply(&mut session, no_health),
        Err(VitalityRejection::UnknownVitality { entity: 1_000 })
    );
}

#[test]
fn armor_is_granted_up_to_the_limit() {
    let mut session = session();
    let receipt = DamageService::grant_armor(&mut session, 1, "armor-vest".to_string(), 2).unwrap();
    assert_eq!(
        receipt.facts,
        vec![VitalityFact::ArmorGranted {
            entity: 1,
            item: "armor-vest".to_string(),
            amount: 25,
            before: 10,
            after: 35,
        }]
    );
    assert_eq!(receipt.inventory[0].sequence, 5);
    assert_eq!(receipt.inventory[0].quantity, 1);
    assert_eq!(session.health[&1].armor_item.as_deref(), Some("armor-vest"));
    assert_eq!(session.inventory_sequences[&1], Some(5));
    let receipt = DamageService::grant_armor(&mut session, 1, "armor-vest".to_string(), 2).unwrap();
    match &receipt.facts[0] {
        VitalityFact::ArmorGranted { after, amount, .. } => {
            assert_eq!(*after, 50);
            assert_eq!(*amount, 15);
        }
        other => panic!("unexpected fact {other:?}"),
    }
    assert_eq!(
        DamageService::grant_armor(&mut session, 1, "armor-vest".to_string(), 2),
        Err(VitalityRejection::ArmorFull { player: 1 })
    );
}

#[test]
fn armor_grants_refuse_other_items() {
    let mut session = session();
    let before = session.health[&1].clone();
    assert_eq!(
        DamageService::grant_armor(&mut session, 1, "armor-vest".to_string(), 0),
        Err(VitalityRejection::ItemNotOwned { player: 1, item: "armor-vest".to_string() })
    );
    assert_eq!(session.health[&1], before);
    assert_eq!(session.inventory_sequences[&1], Some(4));
    assert_eq!(
        DamageService::grant_armor(&mut session, 1, "shells".to_string(), 1),
        Err(VitalityRejection::IncompatibleItem { item: "shells".to_string() })
    );
    assert_eq!(
        DamageService::grant_armor(&mut session, 1, "helmet".to_string(), 1),
        Err(VitalityRejection::MissingItemDefinition { item: "helmet".to_string() })
    );
}

#[test]
fn health_supplies_restore_up_to_the_maximum() {
    let mut session = session();
    let receipt = DamageService::use_health_supply(&mut session, 1, "medkit".to_string()).unwrap();
    match &receipt.facts[0] {
        VitalityFact::HealthRestored { before, after, amount, .. } => {
            assert_eq!(*before, 60);
            assert_eq!(*after, 85);
            assert_eq!(*amount, 25);
        }
        other => panic!("unexpected fact {other:?}"),
    }
    let second = DamageService::use_health_supply(&mut session, 1, "medkit".to_string()).unwrap();
    assert_eq!(second.inventory[0].sequence, receipt.inventory[0].sequence + 1);
    assert_eq!(session.health[&1].current, 100);
    assert_eq!(
        DamageService::use_health_supply(&mut session, 1, "medkit".to_string()),
        Err(VitalityRejection::HealthFull { player: 1 })
    );
}

#[test]
fn unarmored_configs_have_no_armor() {
    let config = HealthConfig::unarmored(100, [1, 2, 3]);
    assert_eq!(config.max_armor, 0);
    assert_eq!(config.armor_absorption_percent, 0);
    assert!(config.has_valid_integer_limits());
    assert!(!HealthConfig::unarmored(0, [1, 2, 3]).has_valid_integer_limits());
}
