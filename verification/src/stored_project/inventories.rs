//! The inventory rules of a scene entity: a capacity within the slot limit,
//! no more starting stacks than slots, each stack of a declared item, one
//! stack per item, within that item's limit; an initially equipped weapon
//! that is a declared weapon the inventory owns; weapon slots that name
//! distinct declared weapons; and an equipped weapon that occupies a slot.
//! The slot limit is the game's inventory limit, given as a parameter, and
//! the syntax of item identities is checked where item identities are
//! defined; neither is part of this library.
use vstd::prelude::*;

use crate::stored_project::diagnostic_code;
use crate::stored_project::hierarchy::{entity_path, entity_path_text, failure_is};
use crate::stored_project::pickups::definition_index;
use crate::stored_project::{
    failure, text_equal, StoredEntityDefinition, StoredInventoryStack, StoredItemDefinition,
    StoredItemKind, StoredProjectError,
};
use crate::text::{decimal, decimal_text};

verus! {

pub type Failure = (Seq<char>, Seq<char>, Seq<char>);

pub open spec fn indexed_field(list: Seq<char>, k: nat, field: Seq<char>) -> Seq<char> {
    list + "["@ + decimal(k) + "]"@ + field
}

pub open spec fn is_weapon(kind: StoredItemKind) -> bool {
    kind is Weapon
}

pub open spec fn stack_failure(
    stacks: Seq<StoredInventoryStack>,
    definitions: Seq<StoredItemDefinition>,
    scene_index: nat,
    entity_index: nat,
    k: int,
) -> Option<Failure> {
    let stack = stacks[k];
    let path = |field: Seq<char>|
        entity_path(scene_index, entity_index, indexed_field("inventory.startingStacks"@, k as nat, field));
    match definition_index(definitions, stack.item@) {
        None => Some(
            (
                diagnostic_code::MISSING_ITEM_DEFINITION@,
                path(".item"@),
                "starting stack references missing item `"@ + stack.item@ + "`"@,
            ),
        ),
        Some(d) => if exists|j: int| 0 <= j < k && (#[trigger] stacks[j]).item@ == stack.item@ {
            Some(
                (
                    diagnostic_code::DUPLICATE_INVENTORY_STACK@,
                    path(".item"@),
                    "an inventory can contain at most one stack per item definition"@,
                ),
            )
        } else if stack.quantity == 0 || stack.quantity > definitions[d].max_quantity {
            Some(
                (
                    diagnostic_code::INVALID_COMPONENT@,
                    path(".quantity"@),
                    "starting quantity must be between 1 and "@ + decimal(
                        definitions[d].max_quantity as nat,
                    ),
                ),
            )
        } else {
            None
        },
    }
}

pub open spec fn first_stack_failure(
    stacks: Seq<StoredInventoryStack>,
    definitions: Seq<StoredItemDefinition>,
    scene_index: nat,
    entity_index: nat,
    k: int,
) -> Option<Failure>
    decreases stacks.len() - k,
{
    if k < 0 || k >= stacks.len() {
        None
    } else {
        match stack_failure(stacks, definitions, scene_index, entity_index, k) {
            Some(failure) => Some(failure),
            None => first_stack_failure(stacks, definitions, scene_index, entity_index, k + 1),
        }
    }
}

pub open spec fn slot_failure(
    slots: Seq<String>,
    definitions: Seq<StoredItemDefinition>,
    scene_index: nat,
    entity_index: nat,
    k: int,
) -> Option<Failure> {
    let slot = slots[k];
    let path = entity_path(scene_index, entity_index, indexed_field("inventory.weaponSlots"@, k as nat, ""@));
    if exists|j: int| 0 <= j < k && (#[trigger] slots[j])@ == slot@ {
        Some((diagnostic_code::INVALID_COMPONENT@, path, "weapon slots must not repeat an item identity"@))
    } else {
        match definition_index(definitions, slot@) {
            None => Some(
                (
                    diagnostic_code::MISSING_ITEM_DEFINITION@,
                    path,
                    "weapon slot references missing item `"@ + slot@ + "`"@,
                ),
            ),
            Some(d) => if !is_weapon(definitions[d].kind) {
                Some(
                    (
                        diagnostic_code::INVALID_COMPONENT@,
                        path,
                        "weapon slots must reference weapon item definitions"@,
                    ),
                )
            } else {
                None
            },
        }
    }
}

pub open spec fn first_slot_failure(
    slots: Seq<String>,
    definitions: Seq<StoredItemDefinition>,
    scene_index: nat,
    entity_index: nat,
    k: int,
) -> Option<Failure>
    decreases slots.len() - k,
{
    if k < 0 || k >= slots.len() {
        None
    } else {
        match slot_failure(slots, definitions, scene_index, entity_index, k) {
            Some(failure) => Some(failure),
            None => first_slot_failure(slots, definitions, scene_index, entity_index, k + 1),
        }
    }
}

/// The checks after the equipped weapon's: the weapon slots, then that the
/// equipped weapon occupies one.
pub open spec fn slots_outcome(
    slots: Seq<String>,
    equipped: Option<String>,
    definitions: Seq<StoredItemDefinition>,
    scene_index: nat,
    entity_index: nat,
) -> Option<Failure> {
    match first_slot_failure(slots, definitions, scene_index, entity_index, 0) {
        Some(failure) => Some(failure),
        None => match equipped {
            Some(weapon) => if !exists|s: int| 0 <= s < slots.len() && (#[trigger] slots[s])@ == weapon@ {
                Some(
                    (
                        diagnostic_code::INVALID_COMPONENT@,
                        entity_path(scene_index, entity_index, "inventory.initiallyEquippedWeapon"@),
                        "equipped weapon must occupy an authored weapon slot"@,
                    ),
                )
            } else {
                None
            },
            None => None,
        },
    }
}

/// The refusal owed to the inventory of the `entity_index`-th entity of the
/// `scene_index`-th scene, if it has one, with its checks in order;
/// `slot_limit` is the game's inventory slot limit.
pub open spec fn inventory_failure(
    entity: StoredEntityDefinition,
    definitions: Seq<StoredItemDefinition>,
    slot_limit: usize,
    scene_index: nat,
    entity_index: nat,
) -> Option<Failure> {
    match entity.inventory {
        None => None,
        Some(inventory) => if inventory.capacity_slots == 0 || inventory.capacity_slots > slot_limit {
            Some(
                (
                    diagnostic_code::INVALID_COMPONENT@,
                    entity_path(scene_index, entity_index, "inventory.capacitySlots"@),
                    "inventory capacity must be within the bounded slot limit"@,
                ),
            )
        } else if inventory.starting_stacks@.len() > inventory.capacity_slots {
            Some(
                (
                    diagnostic_code::INVALID_COMPONENT@,
                    entity_path(scene_index, entity_index, "inventory.startingStacks"@),
                    "starting stacks exceed inventory capacity"@,
                ),
            )
        } else {
            let stacks = inventory.starting_stacks@;
            match first_stack_failure(stacks, definitions, scene_index, entity_index, 0) {
                Some(failure) => Some(failure),
                None => match inventory.initially_equipped_weapon {
                    Some(weapon) => match definition_index(definitions, weapon@) {
                        None => Some(
                            (
                                diagnostic_code::MISSING_ITEM_DEFINITION@,
                                entity_path(scene_index, entity_index, "inventory.initiallyEquippedWeapon"@),
                                "equipped weapon references missing item `"@ + weapon@ + "`"@,
                            ),
                        ),
                        Some(d) => if !is_weapon(definitions[d].kind) || !exists|k: int|
                            0 <= k < stacks.len() && (#[trigger] stacks[k]).item@ == weapon@ {
                            Some(
                                (
                                    diagnostic_code::INVALID_COMPONENT@,
                                    entity_path(scene_index, entity_index, "inventory.initiallyEquippedWeapon"@),
                                    "equipped weapon must be an owned weapon item"@,
                                ),
                            )
                        } else {
                            slots_outcome(
                                inventory.weapon_slots@,
                                inventory.initially_equipped_weapon,
                                definitions,
                                scene_index,
                                entity_index,
                            )
                        },
                    },
                    None => slots_outcome(
                        inventory.weapon_slots@,
                        inventory.initially_equipped_weapon,
                        definitions,
                        scene_index,
                        entity_index,
                    ),
                },
            }
        },
    }
}

fn indexed_path_text(scene_index: usize, entity_index: usize, list: &str, k: usize, field: &str) -> (path:
    String)
    ensures
        path@ == entity_path(scene_index as nat, entity_index as nat, indexed_field(list@, k as nat, field@)),
{
    let mut name = String::from_str(list);
    name.append("[");
    name.append(decimal_text(k as u64).as_str());
    name.append("]");
    name.append(field);
    proof {
        reveal_strlit("[");
        reveal_strlit("]");
        assert(name@ =~= indexed_field(list@, k as nat, field@));
    }
    entity_path_text(scene_index, entity_index, name.as_str())
}

fn stack_item_seen(stacks: &Vec<StoredInventoryStack>, end: usize, item: &str) -> (seen: bool)
    requires
        end <= stacks@.len(),
    ensures
        seen == exists|j: int| 0 <= j < end && (#[trigger] stacks@[j]).item@ == item@,
{
    let mut index: usize = 0;
    while index < end
        invariant
            end <= stacks@.len(),
            index <= end,
            forall|j: int| 0 <= j < index ==> (#[trigger] stacks@[j]).item@ != item@,
        decreases end - index,
    {
        if text_equal(stacks[index].item.as_str(), item) {
            return true;
        }
        index = index + 1;
    }
    false
}

fn slot_seen(slots: &Vec<String>, end: usize, item: &str) -> (seen: bool)
    requires
        end <= slots@.len(),
    ensures
        seen == exists|j: int| 0 <= j < end && (#[trigger] slots@[j])@ == item@,
{
    let mut index: usize = 0;
    while index < end
        invariant
            end <= slots@.len(),
            index <= end,
            forall|j: int| 0 <= j < index ==> (#[trigger] slots@[j])@ != item@,
        decreases end - index,
    {
        if text_equal(slots[index].as_str(), item) {
            return true;
        }
        index = index + 1;
    }
    false
}

fn refused(code: &str, path: String, message: String) -> (result: Result<(), StoredProjectError>)
    ensures
        result matches Err(error) && failure_is(error, code@, path@, message@),
{
    Err(failure(code, path, message))
}

fn check_stacks(
    stacks: &Vec<StoredInventoryStack>,
    definitions: &Vec<StoredItemDefinition>,
    scene_index: usize,
    entity_index: usize,
) -> (result: Result<(), StoredProjectError>)
    ensures
        match first_stack_failure(stacks@, definitions@, scene_index as nat, entity_index as nat, 0) {
            None => result is Ok,
            Some((code, path, message)) => result matches Err(error) && failure_is(error, code, path, message),
        },
{
    let mut k: usize = 0;
    while k < stacks.len()
        invariant
            k <= stacks@.len(),
            first_stack_failure(stacks@, definitions@, scene_index as nat, entity_index as nat, 0)
                == first_stack_failure(stacks@, definitions@, scene_index as nat, entity_index as nat, k as int),
        decreases stacks@.len() - k,
    {
        let stack = &stacks[k];
        let ghost here = stack_failure(stacks@, definitions@, scene_index as nat, entity_index as nat, k as int);
        let d = match crate::stored_project::pickups::find_definition(definitions, stack.item.as_str()) {
            None => {
                let mut message = String::from_str("starting stack references missing item `");
                message.append(stack.item.as_str());
                message.append("`");
                proof {
                    reveal_strlit(".item");
                    reveal_strlit("inventory.startingStacks");
                    reveal_strlit("starting stack references missing item `");
                    reveal_strlit("`");
                }
                return refused(
                    diagnostic_code::MISSING_ITEM_DEFINITION,
                    indexed_path_text(scene_index, entity_index, "inventory.startingStacks", k, ".item"),
                    message,
                );
            },
            Some(d) => d,
        };
        if stack_item_seen(stacks, k, stack.item.as_str()) {
            proof {
                reveal_strlit(".item");
                reveal_strlit("inventory.startingStacks");
                reveal_strlit("an inventory can contain at most one stack per item definition");
            }
            return refused(
                diagnostic_code::DUPLICATE_INVENTORY_STACK,
                indexed_path_text(scene_index, entity_index, "inventory.startingStacks", k, ".item"),
                String::from_str("an inventory can contain at most one stack per item definition"),
            );
        }
        if stack.quantity == 0 || stack.quantity > definitions[d].max_quantity {
            let mut message = String::from_str("starting quantity must be between 1 and ");
            message.append(decimal_text(definitions[d].max_quantity as u64).as_str());
            proof {
                reveal_strlit(".quantity");
                reveal_strlit("inventory.startingStacks");
                reveal_strlit("starting quantity must be between 1 and ");
            }
            return refused(
                diagnostic_code::INVALID_COMPONENT,
                indexed_path_text(scene_index, entity_index, "inventory.startingStacks", k, ".quantity"),
                message,
            );
        }
        assert(here is None);
        k = k + 1;
    }
    Ok(())
}

fn check_slots(
    slots: &Vec<String>,
    definitions: &Vec<StoredItemDefinition>,
    scene_index: usize,
    entity_index: usize,
) -> (result: Result<(), StoredProjectError>)
    ensures
        match first_slot_failure(slots@, definitions@, scene_index as nat, entity_index as nat, 0) {
            None => result is Ok,
            Some((code, path, message)) => result matches Err(error) && failure_is(error, code, path, message),
        },
{
    let mut k: usize = 0;
    while k < slots.len()
        invariant
            k <= slots@.len(),
            first_slot_failure(slots@, definitions@, scene_index as nat, entity_index as nat, 0)
                == first_slot_failure(slots@, definitions@, scene_index as nat, entity_index as nat, k as int),
        decreases slots@.len() - k,
    {
        let slot = &slots[k];
        let ghost here = slot_failure(slots@, definitions@, scene_index as nat, entity_index as nat, k as int);
        proof {
            reveal_strlit("inventory.weaponSlots");
            reveal_strlit("");
        }
        if slot_seen(slots, k, slot.as_str()) {
            proof {
                reveal_strlit("weapon slots must not repeat an item identity");
            }
            return refused(
                diagnostic_code::INVALID_COMPONENT,
                indexed_path_text(scene_index, entity_index, "inventory.weaponSlots", k, ""),
                String::from_str("weapon slots must not repeat an item identity"),
            );
        }
        let d = match crate::stored_project::pickups::find_definition(definitions, slot.as_str()) {
            None => {
                let mut message = String::from_str("weapon slot references missing item `");
                message.append(slot.as_str());
                message.append("`");
                proof {
                    reveal_strlit("weapon slot references missing item `");
                    reveal_strlit("`");
                }
                return refused(
                    diagnostic_code::MISSING_ITEM_DEFINITION,
                    indexed_path_text(scene_index, entity_index, "inventory.weaponSlots", k, ""),
                    message,
                );
            },
            Some(d) => d,
        };
        if !matches!(definitions[d].kind, StoredItemKind::Weapon { .. }) {
            proof {
                reveal_strlit("weapon slots must reference weapon item definitions");
            }
            return refused(
                diagnostic_code::INVALID_COMPONENT,
                indexed_path_text(scene_index, entity_index, "inventory.weaponSlots", k, ""),
                String::from_str("weapon slots must reference weapon item definitions"),
            );
        }
        assert(here is None);
        k = k + 1;
    }
    Ok(())
}

/// Checks the inventory of the `entity_index`-th entity of the
/// `scene_index`-th scene against the project's item definitions and the
/// game's inventory slot limit `slot_limit`, its checks in order.
pub fn validate_entity_inventory(
    entity: &StoredEntityDefinition,
    definitions: &Vec<StoredItemDefinition>,
    slot_limit: usize,
    scene_index: usize,
    entity_index: usize,
) -> (result: Result<(), StoredProjectError>)
    ensures
        match inventory_failure(*entity, definitions@, slot_limit, scene_index as nat, entity_index as nat) {
            None => result is Ok,
            Some((code, path, message)) => result matches Err(error) && failure_is(error, code, path, message),
        },
{
    let inventory = match &entity.inventory {
        None => {
            return Ok(());
        },
        Some(inventory) => inventory,
    };
    proof {
        reveal_strlit("inventory.initiallyEquippedWeapon");
    }
    if inventory.capacity_slots == 0 || inventory.capacity_slots > slot_limit {
        proof {
            reveal_strlit("inventory.capacitySlots");
            reveal_strlit("inventory capacity must be within the bounded slot limit");
        }
        return refused(
            diagnostic_code::INVALID_COMPONENT,
            entity_path_text(scene_index, entity_index, "inventory.capacitySlots"),
            String::from_str("inventory capacity must be within the bounded slot limit"),
        );
    }
    if inventory.starting_stacks.len() > inventory.capacity_slots {
        proof {
            reveal_strlit("inventory.startingStacks");
            reveal_strlit("starting stacks exceed inventory capacity");
        }
        return refused(
            diagnostic_code::INVALID_COMPONENT,
            entity_path_text(scene_index, entity_index, "inventory.startingStacks"),
            String::from_str("starting stacks exceed inventory capacity"),
        );
    }
    check_stacks(&inventory.starting_stacks, definitions, scene_index, entity_index)?;
    match &inventory.initially_equipped_weapon {
        None => {},
        Some(weapon) => {
            let d = match crate::stored_project::pickups::find_definition(definitions, weapon.as_str()) {
                None => {
                    let mut message = String::from_str("equipped weapon references missing item `");
                    message.append(weapon.as_str());
                    message.append("`");
                    proof {
                        reveal_strlit("equipped weapon references missing item `");
                        reveal_strlit("`");
                    }
                    return refused(
                        diagnostic_code::MISSING_ITEM_DEFINITION,
                        entity_path_text(scene_index, entity_index, "inventory.initiallyEquippedWeapon"),
                        message,
                    );
                },
                Some(d) => d,
            };
            let stacks = &inventory.starting_stacks;
            if !matches!(definitions[d].kind, StoredItemKind::Weapon { .. }) || !stack_item_seen(
                stacks,
                stacks.len(),
                weapon.as_str(),
            ) {
                proof {
                    reveal_strlit("equipped weapon must be an owned weapon item");
                }
                return refused(
                    diagnostic_code::INVALID_COMPONENT,
                    entity_path_text(scene_index, entity_index, "inventory.initiallyEquippedWeapon"),
                    String::from_str("equipped weapon must be an owned weapon item"),
                );
            }
        },
    }
    check_slots(&inventory.weapon_slots, definitions, scene_index, entity_index)?;
    match &inventory.initially_equipped_weapon {
        None => {},
        Some(weapon) => {
            let slots = &inventory.weapon_slots;
            if !slot_seen(slots, slots.len(), weapon.as_str()) {
                proof {
                    reveal_strlit("equipped weapon must occupy an authored weapon slot");
                }
                return refused(
                    diagnostic_code::INVALID_COMPONENT,
                    entity_path_text(scene_index, entity_index, "inventory.initiallyEquippedWeapon"),
                    String::from_str("equipped weapon must occupy an authored weapon slot"),
                );
            }
        },
    }
    Ok(())
}

} // verus!
