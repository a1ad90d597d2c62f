//! The pickup rules of a scene entity: a pickup names a declared item
//! definition in a quantity that definition allows; only a weapon pickup may
//! bring starter ammunition, of its own ammunition item and within that
//! item's limit; and a pickup entity is placed, bounded and rendered, is
//! neither solid nor kinematic, and owns no other gameplay behaviour. The
//! syntax of item identities is checked where item identities are defined,
//! which is not part of this library.
use vstd::prelude::*;

use crate::stored_project::diagnostic_code;
use crate::stored_project::hierarchy::{entity_path, entity_path_text, failure_is};
use crate::stored_project::{
    failure, text_equal, StoredEntityDefinition, StoredItemDefinition, StoredItemKind,
    StoredProjectError,
};
use crate::text::{decimal, decimal_text};

verus! {

/// The first item definition of identity `id`.
pub open spec fn definition_index(definitions: Seq<StoredItemDefinition>, id: Seq<char>) -> Option<int> {
    if exists|i: int| 0 <= i < definitions.len() && (#[trigger] definitions[i]).id@ == id {
        Some(
            choose|i: int|
                0 <= i < definitions.len() && (#[trigger] definitions[i]).id@ == id && forall|j: int|
                    0 <= j < i ==> (#[trigger] definitions[j]).id@ != id,
        )
    } else {
        None
    }
}

/// The placement refusal owed to a pickup entity, if any.
pub open spec fn pickup_placement_failure(entity: StoredEntityDefinition, scene_index: nat, entity_index: nat) -> Option<
    (Seq<char>, Seq<char>, Seq<char>),
> {
    let path = entity_path(scene_index, entity_index, "pickup"@);
    if entity.translation is None || entity.bounds is None || entity.renderable is None {
        Some(
            (
                diagnostic_code::INVALID_COMPONENT@,
                path,
                "pickup entities require an authored translation, bounds, and renderable"@,
            ),
        )
    } else if entity.collision is Some || entity.kinematic is Some {
        Some(
            (
                diagnostic_code::INVALID_COMPONENT@,
                path,
                "pickup trigger bounds must remain non-solid and non-kinematic"@,
            ),
        )
    } else if entity.door is Some || entity.switch is Some || entity.enemy || entity.health is Some
        || entity.encounter is Some || entity.extraction_beacon is Some || entity.navigation is Some
        || entity.player_controller is Some || entity.inventory is Some || entity.weapon is Some {
        Some(
            (
                diagnostic_code::INVALID_COMPONENT@,
                path,
                "pickup cannot also own another gameplay behavior"@,
            ),
        )
    } else {
        None
    }
}

/// The refusal owed to the pickup of the `entity_index`-th entity of the
/// `scene_index`-th scene, if it has one, with its checks in order.
pub open spec fn pickup_failure(
    entity: StoredEntityDefinition,
    definitions: Seq<StoredItemDefinition>,
    scene_index: nat,
    entity_index: nat,
) -> Option<(Seq<char>, Seq<char>, Seq<char>)> {
    match entity.pickup {
        None => None,
        Some(pickup) => match definition_index(definitions, pickup.item@) {
            None => Some(
                (
                    diagnostic_code::MISSING_ITEM_DEFINITION@,
                    entity_path(scene_index, entity_index, "pickup.item"@),
                    "pickup references missing item `"@ + pickup.item@ + "`"@,
                ),
            ),
            Some(d) => {
                let definition = definitions[d];
                if pickup.quantity == 0 || pickup.quantity > definition.max_quantity {
                    Some(
                        (
                            diagnostic_code::INVALID_COMPONENT@,
                            entity_path(scene_index, entity_index, "pickup.quantity"@),
                            "pickup quantity must be between 1 and "@ + decimal(
                                definition.max_quantity as nat,
                            ),
                        ),
                    )
                } else {
                    match pickup.starter_ammunition {
                        None => pickup_placement_failure(entity, scene_index, entity_index),
                        Some(starter) => match definition.kind {
                            StoredItemKind::Weapon { ammunition, .. } => if starter.item@
                                != ammunition@ {
                                Some(
                                    (
                                        diagnostic_code::INVALID_COMPONENT@,
                                        entity_path(
                                            scene_index,
                                            entity_index,
                                            "pickup.starterAmmunition.item"@,
                                        ),
                                        "starter ammunition must match the picked-up weapon definition"@,
                                    ),
                                )
                            } else {
                                match definition_index(definitions, starter.item@) {
                                    None => Some(
                                        (
                                            diagnostic_code::MISSING_ITEM_DEFINITION@,
                                            entity_path(
                                                scene_index,
                                                entity_index,
                                                "pickup.starterAmmunition.item"@,
                                            ),
                                            "starter ammunition references missing item `"@
                                                + starter.item@ + "`"@,
                                        ),
                                    ),
                                    Some(a) => if starter.quantity == 0 || starter.quantity
                                        > definitions[a].max_quantity {
                                        Some(
                                            (
                                                diagnostic_code::INVALID_COMPONENT@,
                                                entity_path(
                                                    scene_index,
                                                    entity_index,
                                                    "pickup.starterAmmunition.quantity"@,
                                                ),
                                                "starter ammunition quantity is outside its definition limit"@,
                                            ),
                                        )
                                    } else {
                                        pickup_placement_failure(entity, scene_index, entity_index)
                                    },
                                }
                            },
                            _ => Some(
                                (
                                    diagnostic_code::INVALID_COMPONENT@,
                                    entity_path(scene_index, entity_index, "pickup.starterAmmunition"@),
                                    "only a weapon pickup can declare starter ammunition"@,
                                ),
                            ),
                        },
                    }
                }
            },
        },
    }
}

pub(crate) fn find_definition(definitions: &Vec<StoredItemDefinition>, id: &str) -> (found: Option<usize>)
    ensures
        match found {
            Some(i) => i < definitions@.len() && definition_index(definitions@, id@) == Some(i as int),
            None => definition_index(definitions@, id@) is None,
        },
{
    let mut index: usize = 0;
    while index < definitions.len()
        invariant
            index <= definitions@.len(),
            forall|j: int| 0 <= j < index ==> (#[trigger] definitions@[j]).id@ != id@,
        decreases definitions@.len() - index,
    {
        if text_equal(definitions[index].id.as_str(), id) {
            proof {
                let k = definition_index(definitions@, id@)->Some_0;
                if k < index as int {
                    assert(definitions@[k].id@ != id@);
                }
                if (index as int) < k {
                    assert(definitions@[index as int].id@ != id@);
                }
            }
            return Some(index);
        }
        index = index + 1;
    }
    None
}

fn refuse(code: &str, scene_index: usize, entity_index: usize, field: &str, message: String) -> (error:
    StoredProjectError)
    ensures
        failure_is(error, code@, entity_path(scene_index as nat, entity_index as nat, field@), message@),
{
    failure(code, entity_path_text(scene_index, entity_index, field), message)
}

fn check_pickup_placement(entity: &StoredEntityDefinition, scene_index: usize, entity_index: usize) -> (
    result: Result<(), StoredProjectError>)
    ensures
        match pickup_placement_failure(*entity, scene_index as nat, entity_index as nat) {
            None => result is Ok,
            Some((code, path, message)) => result matches Err(error) && failure_is(error, code, path, message),
        },
{
    proof {
        reveal_strlit("pickup");
    }
    if entity.translation.is_none() || entity.bounds.is_none() || entity.renderable.is_none() {
        proof {
            reveal_strlit("pickup entities require an authored translation, bounds, and renderable");
        }
        return Err(
            refuse(
                diagnostic_code::INVALID_COMPONENT,
                scene_index,
                entity_index,
                "pickup",
                String::from_str("pickup entities require an authored translation, bounds, and renderable"),
            ),
        );
    }
    if entity.collision.is_some() || entity.kinematic.is_some() {
        proof {
            reveal_strlit("pickup trigger bounds must remain non-solid and non-kinematic");
        }
        return Err(
            refuse(
                diagnostic_code::INVALID_COMPONENT,
                scene_index,
                entity_index,
                "pickup",
                String::from_str("pickup trigger bounds must remain non-solid and non-kinematic"),
            ),
        );
    }
    if entity.door.is_some() || entity.switch.is_some() || entity.enemy || entity.health.is_some()
        || entity.encounter.is_some() || entity.extraction_beacon.is_some()
        || entity.navigation.is_some() || entity.player_controller.is_some()
        || entity.inventory.is_some() || entity.weapon.is_some() {
        proof {
            reveal_strlit("pickup cannot also own another gameplay behavior");
        }
        return Err(
            refuse(
                diagnostic_code::INVALID_COMPONENT,
                scene_index,
                entity_index,
                "pickup",
                String::from_str("pickup cannot also own another gameplay behavior"),
            ),
        );
    }
    Ok(())
}

/// Checks the pickup of the `entity_index`-th entity of the `scene_index`-th
/// scene against the project's item definitions, its checks in order: the
/// item is declared, the quantity is within that item's limit, starter
/// ammunition only on a weapon, of its ammunition item, declared and within
/// its limit; then the pickup's placement.
pub fn validate_entity_pickup(
    entity: &StoredEntityDefinition,
    definitions: &Vec<StoredItemDefinition>,
    scene_index: usize,
    entity_index: usize,
) -> (result: Result<(), StoredProjectError>)
    ensures
        match pickup_failure(*entity, definitions@, scene_index as nat, entity_index as nat) {
            None => result is Ok,
            Some((code, path, message)) => result matches Err(error) && failure_is(error, code, path, message),
        },
{
    let pickup = match &entity.pickup {
        None => {
            return Ok(());
        },
        Some(pickup) => pickup,
    };
    let d = match find_definition(definitions, pickup.item.as_str()) {
        None => {
            let mut message = String::from_str("pickup references missing item `");
            message.append(pickup.item.as_str());
            message.append("`");
            proof {
                reveal_strlit("pickup.item");
                reveal_strlit("pickup references missing item `");
                reveal_strlit("`");
            }
            return Err(refuse(diagnostic_code::MISSING_ITEM_DEFINITION, scene_index, entity_index, "pickup.item", message));
        },
        Some(d) => d,
    };
    let definition = &definitions[d];
    if pickup.quantity == 0 || pickup.quantity > definition.max_quantity {
        let mut message = String::from_str("pickup quantity must be between 1 and ");
        message.append(decimal_text(definition.max_quantity as u64).as_str());
        proof {
            reveal_strlit("pickup.quantity");
            reveal_strlit("pickup quantity must be between 1 and ");
        }
        return Err(refuse(diagnostic_code::INVALID_COMPONENT, scene_index, entity_index, "pickup.quantity", message));
    }
    match &pickup.starter_ammunition {
        None => {},
        Some(starter) => {
            match &definition.kind {
                StoredItemKind::Weapon { ammunition, .. } => {
                    if !text_equal(starter.item.as_str(), ammunition.as_str()) {
                        proof {
                            reveal_strlit("pickup.starterAmmunition.item");
                            reveal_strlit("starter ammunition must match the picked-up weapon definition");
                        }
                        return Err(
                            refuse(
                                diagnostic_code::INVALID_COMPONENT,
                                scene_index,
                                entity_index,
                                "pickup.starterAmmunition.item",
                                String::from_str("starter ammunition must match the picked-up weapon definition"),
                            ),
                        );
                    }
                    let a = match find_definition(definitions, starter.item.as_str()) {
                        None => {
                            let mut message = String::from_str("starter ammunition references missing item `");
                            message.append(starter.item.as_str());
                            message.append("`");
                            proof {
                                reveal_strlit("pickup.starterAmmunition.item");
                                reveal_strlit("starter ammunition references missing item `");
                                reveal_strlit("`");
                            }
                            return Err(
                                refuse(
                                    diagnostic_code::MISSING_ITEM_DEFINITION,
                                    scene_index,
                                    entity_index,
                                    "pickup.starterAmmunition.item",
                                    message,
                                ),
                            );
                        },
                        Some(a) => a,
                    };
                    if starter.quantity == 0 || starter.quantity > definitions[a].max_quantity {
                        proof {
                            reveal_strlit("pickup.starterAmmunition.quantity");
                            reveal_strlit("starter ammunition quantity is outside its definition limit");
                        }
                        return Err(
                            refuse(
                                diagnostic_code::INVALID_COMPONENT,
                                scene_index,
                                entity_index,
                                "pickup.starterAmmunition.quantity",
                                String::from_str("starter ammunition quantity is outside its definition limit"),
                            ),
                        );
                    }
                },
                _ => {
                    proof {
                        reveal_strlit("pickup.starterAmmunition");
                        reveal_strlit("only a weapon pickup can declare starter ammunition");
                    }
                    return Err(
                        refuse(
                            diagnostic_code::INVALID_COMPONENT,
                            scene_index,
                            entity_index,
                            "pickup.starterAmmunition",
                            String::from_str("only a weapon pickup can declare starter ammunition"),
                        ),
                    );
                },
            }
        },
    }
    check_pickup_placement(entity, scene_index, entity_index)
}

} // verus!
