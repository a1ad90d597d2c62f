//! The rules on a scene's entities, in the order the game checks them:
//! entity by entity, its identity rules, then its inventory, then its
//! pickup; after every entity has passed, the parent rules. The transform,
//! bounds, light and renderable rules that the game checks between an
//! entity's identity and its inventory rest on floating-point values and
//! on asset payloads that this document model does not carry.
use vstd::prelude::*;

use crate::stored_project::hierarchy::{
    check_entity_identity, first_hierarchy_fault, hierarchy_failure, hierarchy_fault, identity_failure,
    identity_fault, lemma_accepted_parents_form_a_forest, lemma_hierarchy_fault_has_a_first,
    lemma_no_identity_fault_means_unique, reaches_root, unique_ids, validate_entity_parents,
};
use crate::stored_project::inventories::{inventory_failure, validate_entity_inventory};
use crate::stored_project::pickups::{pickup_failure, validate_entity_pickup};
use crate::stored_project::{StoredEntityDefinition, StoredItemDefinition, StoredProjectError};

verus! {

/// The refusal owed to the `k`-th entity of the `scene_index`-th scene by
/// its own rules: identity, then inventory, then pickup.
#[verifier::opaque]
pub open spec fn entity_rule_failure(
    entities: Seq<StoredEntityDefinition>,
    definitions: Seq<StoredItemDefinition>,
    slot_limit: usize,
    scene_index: nat,
    k: int,
) -> Option<(Seq<char>, Seq<char>, Seq<char>)> {
    if identity_fault(entities, k) {
        Some(identity_failure(entities, scene_index, k))
    } else {
        match inventory_failure(entities[k], definitions, slot_limit, scene_index, k as nat) {
            Some(failure) => Some(failure),
            None => pickup_failure(entities[k], definitions, scene_index, k as nat),
        }
    }
}

pub open spec fn first_entity_rule_failure(
    entities: Seq<StoredEntityDefinition>,
    definitions: Seq<StoredItemDefinition>,
    slot_limit: usize,
    scene_index: nat,
    k: int,
) -> Option<(Seq<char>, Seq<char>, Seq<char>)>
    decreases entities.len() - k,
{
    if k < 0 || k >= entities.len() {
        None
    } else {
        match entity_rule_failure(entities, definitions, slot_limit, scene_index, k) {
            Some(failure) => Some(failure),
            None => first_entity_rule_failure(entities, definitions, slot_limit, scene_index, k + 1),
        }
    }
}

/// The refusal owed to a scene's entities, or `None` when they pass: the
/// first entity refused by its own rules, else the first entity whose
/// parent chain breaks.
pub open spec fn scene_entities_outcome(
    entities: Seq<StoredEntityDefinition>,
    definitions: Seq<StoredItemDefinition>,
    slot_limit: usize,
    scene_index: nat,
) -> Option<(Seq<char>, Seq<char>, Seq<char>)> {
    match first_entity_rule_failure(entities, definitions, slot_limit, scene_index, 0) {
        Some(failure) => Some(failure),
        None => match first_hierarchy_fault(entities) {
            Some(i) => Some(hierarchy_failure(entities, scene_index, i)),
            None => None,
        },
    }
}

proof fn lemma_no_rule_failure_before(
    entities: Seq<StoredEntityDefinition>,
    definitions: Seq<StoredItemDefinition>,
    slot_limit: usize,
    scene_index: nat,
    k: int,
    i: int,
)
    requires
        0 <= k <= i < entities.len(),
        first_entity_rule_failure(entities, definitions, slot_limit, scene_index, k) is None,
    ensures
        entity_rule_failure(entities, definitions, slot_limit, scene_index, i) is None,
    decreases i - k,
{
    if k < i {
        lemma_no_rule_failure_before(entities, definitions, slot_limit, scene_index, k + 1, i);
    }
}

proof fn lemma_rule_pass_facts(
    entities: Seq<StoredEntityDefinition>,
    definitions: Seq<StoredItemDefinition>,
    slot_limit: usize,
    scene_index: nat,
    k: int,
)
    requires
        entity_rule_failure(entities, definitions, slot_limit, scene_index, k) is None,
    ensures
        !identity_fault(entities, k),
        inventory_failure(entities[k], definitions, slot_limit, scene_index, k as nat) is None,
        pickup_failure(entities[k], definitions, scene_index, k as nat) is None,
{
    reveal(entity_rule_failure);
}

fn check_entity_rules(
    entities: &Vec<StoredEntityDefinition>,
    definitions: &Vec<StoredItemDefinition>,
    slot_limit: usize,
    scene_index: usize,
    index: usize,
) -> (result: Result<(), StoredProjectError>)
    requires
        index < entities@.len(),
        forall|j: int| 0 <= j < index ==> !#[trigger] identity_fault(entities@, j),
    ensures
        match entity_rule_failure(entities@, definitions@, slot_limit, scene_index as nat, index as int) {
            None => result is Ok,
            Some((code, path, message)) => result matches Err(error) && crate::stored_project::hierarchy::failure_is(
                error,
                code,
                path,
                message,
            ),
        },
{
    reveal(entity_rule_failure);
    check_entity_identity(entities, scene_index, index)?;
    validate_entity_inventory(&entities[index], definitions, slot_limit, scene_index, index)?;
    validate_entity_pickup(&entities[index], definitions, scene_index, index)
}

/// Checks a scene's entities: each in turn by its identity, inventory and
/// pickup rules (against the project's item definitions and the game's
/// inventory slot limit `slot_limit`), then their parents; the first
/// refusal is returned.
pub fn validate_scene_entities(
    entities: &Vec<StoredEntityDefinition>,
    definitions: &Vec<StoredItemDefinition>,
    slot_limit: usize,
    scene_index: usize,
) -> (result: Result<(), StoredProjectError>)
    ensures
        match scene_entities_outcome(entities@, definitions@, slot_limit, scene_index as nat) {
            None => result is Ok,
            Some((code, path, message)) => result matches Err(error) && crate::stored_project::hierarchy::failure_is(
                error,
                code,
                path,
                message,
            ),
        },
{
    let ghost s = scene_index as nat;
    let mut index: usize = 0;
    while index < entities.len()
        invariant
            s == scene_index as nat,
            index <= entities@.len(),
            first_entity_rule_failure(entities@, definitions@, slot_limit, s, 0) == first_entity_rule_failure(
                entities@,
                definitions@,
                slot_limit,
                s,
                index as int,
            ),
            forall|j: int| 0 <= j < index ==> !#[trigger] identity_fault(entities@, j),
        decreases entities@.len() - index,
    {
        let checked = check_entity_rules(entities, definitions, slot_limit, scene_index, index);
        if checked.is_err() {
            proof {
                assert(entity_rule_failure(entities@, definitions@, slot_limit, s, index as int) is Some);
            }
            return checked;
        }
        proof {
            lemma_rule_pass_facts(entities@, definitions@, slot_limit, s, index as int);
        }
        index = index + 1;
    }
    proof {
        lemma_no_identity_fault_means_unique(entities@);
    }
    validate_entity_parents(entities, scene_index)
}

/// What a scene whose entities pass promises: distinct entity identities,
/// no inventory or pickup refused, and a parent chain above every entity
/// that ends at an entity without a parent.
pub proof fn lemma_accepted_scene_entities(
    entities: Seq<StoredEntityDefinition>,
    definitions: Seq<StoredItemDefinition>,
    slot_limit: usize,
    scene_index: nat,
)
    requires
        scene_entities_outcome(entities, definitions, slot_limit, scene_index) is None,
    ensures
        unique_ids(entities),
        forall|k: int|
            0 <= k < entities.len() ==> inventory_failure(
                #[trigger] entities[k],
                definitions,
                slot_limit,
                scene_index,
                k as nat,
            ) is None && pickup_failure(entities[k], definitions, scene_index, k as nat) is None,
        forall|k: int| 0 <= k < entities.len() ==> #[trigger] reaches_root(entities, k),
{
    assert forall|k: int| 0 <= k < entities.len() implies !identity_fault(entities, k) && inventory_failure(
        #[trigger] entities[k],
        definitions,
        slot_limit,
        scene_index,
        k as nat,
    ) is None && pickup_failure(entities[k], definitions, scene_index, k as nat) is None by {
        lemma_no_rule_failure_before(entities, definitions, slot_limit, scene_index, 0, k);
        lemma_rule_pass_facts(entities, definitions, slot_limit, scene_index, k);
    }
    assert forall|k: int| 0 <= k < entities.len() implies !#[trigger] identity_fault(entities, k) by {
        assert(entities[k] == entities[k]);
    }
    lemma_no_identity_fault_means_unique(entities);
    assert forall|k: int| 0 <= k < entities.len() implies !#[trigger] hierarchy_fault(entities, k) by {
        if hierarchy_fault(entities, k) {
            lemma_hierarchy_fault_has_a_first(entities, k);
        }
    }
    assert forall|k: int| 0 <= k < entities.len() implies #[trigger] reaches_root(entities, k) by {
        lemma_accepted_parents_form_a_forest(entities, k);
    }
}

} // verus!
