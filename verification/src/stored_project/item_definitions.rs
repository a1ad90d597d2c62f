//! The first rules on a document's item definitions: each definition's
//! stack limit is positive and within the game's item-quantity limit, is one
//! for weapons and access keys, and health supplies and armor have an effect;
//! and no identity is declared twice. The game's item-quantity limit is
//! given as a parameter, and the syntax of item identities is checked where
//! item identities are defined; neither is part of this library.
use vstd::prelude::*;

use crate::stored_project::diagnostic_code;
use crate::stored_project::hierarchy::failure_is;
use crate::stored_project::{failure, text_equal, StoredItemDefinition, StoredItemKind, StoredProjectError};
use crate::text::{decimal, decimal_text};

verus! {

/// The stack limit of a definition breaks its kind's limits.
pub open spec fn quantity_out_of_limits(definition: StoredItemDefinition, max_item_quantity: u32) -> bool {
    ||| definition.max_quantity == 0
    ||| definition.max_quantity > max_item_quantity
    ||| (definition.kind is Weapon || definition.kind is AccessKey) && definition.max_quantity != 1
    ||| definition.kind == (StoredItemKind::HealthSupply { restore_health: 0 })
    ||| definition.kind == (StoredItemKind::Armor { protection: 0 })
}

pub open spec fn definition_path(i: nat, field: Seq<char>) -> Seq<char> {
    "itemDefinitions["@ + decimal(i) + "]."@ + field
}

/// A definition before the `i`-th with the `i`-th's identity.
pub open spec fn earlier_definition(definitions: Seq<StoredItemDefinition>, i: int) -> Option<int> {
    if exists|j: int| 0 <= j < i && (#[trigger] definitions[j]).id@ == definitions[i].id@ {
        Some(choose|j: int| 0 <= j < i && (#[trigger] definitions[j]).id@ == definitions[i].id@)
    } else {
        None
    }
}

pub open spec fn definition_failure(
    definitions: Seq<StoredItemDefinition>,
    max_item_quantity: u32,
    i: int,
) -> Option<(Seq<char>, Seq<char>, Seq<char>)> {
    if quantity_out_of_limits(definitions[i], max_item_quantity) {
        Some(
            (
                diagnostic_code::INVALID_VALUE@,
                definition_path(i as nat, "maxQuantity"@),
                "item quantity and effect values must be within their concrete kind limits"@,
            ),
        )
    } else {
        match earlier_definition(definitions, i) {
            Some(first) => Some(
                (
                    diagnostic_code::DUPLICATE_ITEM_DEFINITION@,
                    definition_path(i as nat, "id"@),
                    "item definition `"@ + definitions[i].id@ + "` was already declared at "@
                        + definition_path(first as nat, "id"@),
                ),
            ),
            None => None,
        }
    }
}

pub open spec fn first_definition_failure(
    definitions: Seq<StoredItemDefinition>,
    max_item_quantity: u32,
    i: int,
) -> Option<(Seq<char>, Seq<char>, Seq<char>)>
    decreases definitions.len() - i,
{
    if i < 0 || i >= definitions.len() {
        None
    } else {
        match definition_failure(definitions, max_item_quantity, i) {
            Some(failure) => Some(failure),
            None => first_definition_failure(definitions, max_item_quantity, i + 1),
        }
    }
}

pub(crate) fn definition_path_text(i: usize, field: &str) -> (path: String)
    ensures
        path@ == definition_path(i as nat, field@),
{
    let mut path = String::from_str("itemDefinitions[");
    path.append(decimal_text(i as u64).as_str());
    path.append("].");
    path.append(field);
    path
}

/// Checks a document's item definitions in order: each stack limit within
/// its kind's limits (`max_item_quantity` is the game's limit), then no
/// identity declared twice (the refusal names the earlier declaration).
pub fn validate_item_definition_list(definitions: &Vec<StoredItemDefinition>, max_item_quantity: u32) -> (
    result: Result<(), StoredProjectError>)
    ensures
        match first_definition_failure(definitions@, max_item_quantity, 0) {
            None => result is Ok,
            Some((code, path, message)) => result matches Err(error) && failure_is(error, code, path, message),
        },
{
    let mut index: usize = 0;
    while index < definitions.len()
        invariant
            index <= definitions@.len(),
            first_definition_failure(definitions@, max_item_quantity, 0) == first_definition_failure(
                definitions@,
                max_item_quantity,
                index as int,
            ),
            forall|a: int, b: int|
                0 <= a < b < index ==> (#[trigger] definitions@[a]).id@ != (#[trigger] definitions@[b]).id@,
        decreases definitions@.len() - index,
    {
        let ghost i = index as int;
        let definition = &definitions[index];
        let single = match definition.kind {
            StoredItemKind::Weapon { .. } | StoredItemKind::AccessKey => true,
            _ => false,
        };
        let no_effect = match definition.kind {
            StoredItemKind::HealthSupply { restore_health } => restore_health == 0,
            StoredItemKind::Armor { protection } => protection == 0,
            _ => false,
        };
        if definition.max_quantity == 0 || definition.max_quantity > max_item_quantity || (single
            && definition.max_quantity != 1) || no_effect {
            proof {
                assert(quantity_out_of_limits(definitions@[i], max_item_quantity));
                reveal_strlit("maxQuantity");
                reveal_strlit("item quantity and effect values must be within their concrete kind limits");
            }
            return Err(
                failure(
                    diagnostic_code::INVALID_VALUE,
                    definition_path_text(index, "maxQuantity"),
                    String::from_str("item quantity and effect values must be within their concrete kind limits"),
                ),
            );
        }
        let mut j: usize = 0;
        while j < index
            invariant
                index < definitions@.len(),
                i == index as int,
                j <= index,
                *definition == definitions@[i],
                !quantity_out_of_limits(definitions@[i], max_item_quantity),
                first_definition_failure(definitions@, max_item_quantity, 0) == first_definition_failure(
                    definitions@,
                    max_item_quantity,
                    i,
                ),
                forall|a: int, b: int|
                    0 <= a < b < index ==> (#[trigger] definitions@[a]).id@ != (#[trigger] definitions@[b]).id@,
                forall|k: int| 0 <= k < j ==> (#[trigger] definitions@[k]).id@ != definitions@[i].id@,
            decreases index - j,
        {
            if text_equal(definitions[j].id.as_str(), definition.id.as_str()) {
                proof {
                    assert(earlier_definition(definitions@, i) is Some);
                    let chosen = earlier_definition(definitions@, i)->Some_0;
                    if chosen != j as int {
                        assert(definitions@[chosen].id@ == definitions@[j as int].id@);
                    }
                }
                let mut message = String::from_str("item definition `");
                message.append(definition.id.as_str());
                message.append("` was already declared at ");
                message.append(definition_path_text(j, "id").as_str());
                proof {
                    reveal_strlit("id");
                    reveal_strlit("item definition `");
                    reveal_strlit("` was already declared at ");
                }
                return Err(
                    failure(diagnostic_code::DUPLICATE_ITEM_DEFINITION, definition_path_text(index, "id"), message),
                );
            }
            j = j + 1;
        }
        assert(earlier_definition(definitions@, i) is None);
        index = index + 1;
    }
    Ok(())
}

} // verus!
