//! The identity and parent rules of a scene's entities: every entity is
//! named, no identity is declared twice, no entity is its own parent, every
//! parent exists in the scene, and no parent chain comes back on itself.
//! A parent chain that reaches an entity whose parent is missing is refused
//! as well. The pickup and inventory rules of entities are in the `pickups`
//! and `inventories` modules, and `scene_entities` composes them with these; the transform, bounds, light and renderable
//! rules rest on floating-point values and on asset payloads that this
//! document model does not carry, and are not part of this library.
use vstd::prelude::*;

use crate::stored_project::diagnostic_code;
use crate::stored_project::{failure, StoredEntityDefinition, StoredProjectError};
use crate::text::{decimal, decimal_text, is_blank, text_is_blank};

verus! {

/// `scenes[s].entities[e].<field>`
pub open spec fn entity_path(scene_index: nat, entity_index: nat, field: Seq<char>) -> Seq<char> {
    "scenes["@ + decimal(scene_index) + "].entities["@ + decimal(entity_index) + "]."@ + field
}

/// A failure as its code, path, and message.
pub open spec fn failure_is(error: StoredProjectError, code: Seq<char>, path: Seq<char>, message: Seq<char>) -> bool {
    &&& error.spec_diagnostic().code@ == code
    &&& error.spec_diagnostic().path@ == path
    &&& error.spec_diagnostic().message@ == message
}

pub open spec fn unique_ids(entities: Seq<StoredEntityDefinition>) -> bool {
    forall|a: int, b: int|
        0 <= a < entities.len() && 0 <= b < entities.len() && (#[trigger] entities[a]).id == (
        #[trigger] entities[b]).id ==> a == b
}

/// An entity before the `i`-th that has the `i`-th's identity.
pub open spec fn earlier_duplicate(entities: Seq<StoredEntityDefinition>, i: int) -> Option<int> {
    if exists|j: int| 0 <= j < i && entities[j].id == entities[i].id {
        Some(choose|j: int| 0 <= j < i && entities[j].id == entities[i].id)
    } else {
        None
    }
}

pub open spec fn identity_fault(entities: Seq<StoredEntityDefinition>, i: int) -> bool {
    ||| is_blank(entities[i].name@)
    ||| earlier_duplicate(entities, i) is Some
    ||| entities[i].parent == Some(entities[i].id)
}

/// What the `i`-th entity is refused for, its checks taken in order.
pub open spec fn identity_failure(entities: Seq<StoredEntityDefinition>, scene_index: nat, i: int) -> (
    Seq<char>,
    Seq<char>,
    Seq<char>,
) {
    if is_blank(entities[i].name@) {
        (
            diagnostic_code::INVALID_VALUE@,
            entity_path(scene_index, i as nat, "name"@),
            "entity name must not be empty"@,
        )
    } else if let Some(first) = earlier_duplicate(entities, i) {
        (
            diagnostic_code::DUPLICATE_ENTITY@,
            entity_path(scene_index, i as nat, "id"@),
            "entity "@ + decimal(entities[i].id as nat) + " was already declared at "@
                + entity_path(scene_index, first as nat, "id"@),
        )
    } else {
        (
            diagnostic_code::INVALID_RELATIONSHIP@,
            entity_path(scene_index, i as nat, "parent"@),
            "entity cannot be its own parent"@,
        )
    }
}

/// The index of the entity that has identity `id`, if one has.
pub open spec fn entity_with_id(entities: Seq<StoredEntityDefinition>, id: u64) -> Option<int> {
    if exists|k: int| 0 <= k < entities.len() && entities[k].id == id {
        Some(choose|k: int| 0 <= k < entities.len() && entities[k].id == id)
    } else {
        None
    }
}

/// The `j`-th entity names a parent that is not in the scene.
pub open spec fn parent_missing(entities: Seq<StoredEntityDefinition>, j: int) -> bool {
    match entities[j].parent {
        Some(parent) => entity_with_id(entities, parent) is None,
        None => false,
    }
}

pub open spec fn parent_index(entities: Seq<StoredEntityDefinition>, j: int) -> Option<int> {
    match entities[j].parent {
        Some(parent) => entity_with_id(entities, parent),
        None => None,
    }
}

/// The entity `k` parent steps above the `i`-th (the `i`-th itself at 0),
/// while the chain lasts.
pub open spec fn ancestor(entities: Seq<StoredEntityDefinition>, i: int, k: nat) -> Option<int>
    decreases k,
{
    if k == 0 {
        Some(i)
    } else {
        match ancestor(entities, i, (k - 1) as nat) {
            Some(j) => parent_index(entities, j),
            None => None,
        }
    }
}

/// The parent chain of the `i`-th entity comes back to an entity it passed.
pub open spec fn parent_cycle(entities: Seq<StoredEntityDefinition>, i: int) -> bool {
    exists|a: nat, b: nat|
        a < b && ancestor(entities, i, a) is Some && #[trigger] ancestor(entities, i, a)
            == #[trigger] ancestor(entities, i, b)
}

/// The parent chain of the `i`-th entity reaches an entity whose parent is
/// not in the scene.
pub open spec fn reaches_missing_parent(entities: Seq<StoredEntityDefinition>, i: int) -> bool {
    exists|k: nat|
        #[trigger] ancestor(entities, i, k) is Some && parent_missing(
            entities,
            ancestor(entities, i, k)->Some_0,
        )
}

/// The `i`-th entity's parent is missing, or its parent chain comes back on
/// itself or reaches an entity whose parent is missing.
pub open spec fn hierarchy_fault(entities: Seq<StoredEntityDefinition>, i: int) -> bool {
    parent_missing(entities, i) || parent_cycle(entities, i) || reaches_missing_parent(entities, i)
}

pub open spec fn hierarchy_failure(entities: Seq<StoredEntityDefinition>, scene_index: nat, i: int) -> (
    Seq<char>,
    Seq<char>,
    Seq<char>,
) {
    if parent_missing(entities, i) {
        (
            diagnostic_code::INVALID_RELATIONSHIP@,
            entity_path(scene_index, i as nat, "parent"@),
            "parent entity "@ + decimal(entities[i].parent->Some_0 as nat)
                + " does not exist in this scene"@,
        )
    } else if parent_cycle(entities, i) {
        (
            diagnostic_code::INVALID_RELATIONSHIP@,
            entity_path(scene_index, i as nat, "parent"@),
            "entity parent relationship contains a cycle"@,
        )
    } else {
        (
            diagnostic_code::INVALID_RELATIONSHIP@,
            entity_path(scene_index, i as nat, "parent"@),
            "entity parent chain leaves this scene"@,
        )
    }
}

/// The `i`-th entity is the first that breaks an identity rule.
pub open spec fn first_identity_fault_at(entities: Seq<StoredEntityDefinition>, i: int) -> bool {
    &&& 0 <= i < entities.len()
    &&& identity_fault(entities, i)
    &&& forall|j: int| 0 <= j < i ==> !#[trigger] identity_fault(entities, j)
}

pub open spec fn first_identity_fault(entities: Seq<StoredEntityDefinition>) -> Option<int> {
    if exists|i: int| #[trigger] first_identity_fault_at(entities, i) {
        Some(choose|i: int| #[trigger] first_identity_fault_at(entities, i))
    } else {
        None
    }
}

proof fn lemma_identity_fault_is_first(entities: Seq<StoredEntityDefinition>, i: int)
    requires
        first_identity_fault_at(entities, i),
    ensures
        first_identity_fault(entities) == Some(i),
{
    let c = choose|c: int| #[trigger] first_identity_fault_at(entities, c);
    if c < i {
        assert(!identity_fault(entities, c));
    }
    if i < c {
        assert(!identity_fault(entities, i));
    }
}

/// The `i`-th entity is the first whose parent is missing or whose parent
/// chain comes back on itself.
pub open spec fn first_hierarchy_fault_at(entities: Seq<StoredEntityDefinition>, i: int) -> bool {
    &&& 0 <= i < entities.len()
    &&& hierarchy_fault(entities, i)
    &&& forall|j: int| 0 <= j < i ==> !#[trigger] hierarchy_fault(entities, j)
}

pub open spec fn first_hierarchy_fault(entities: Seq<StoredEntityDefinition>) -> Option<int> {
    if exists|i: int| #[trigger] first_hierarchy_fault_at(entities, i) {
        Some(choose|i: int| #[trigger] first_hierarchy_fault_at(entities, i))
    } else {
        None
    }
}

proof fn lemma_hierarchy_fault_is_first(entities: Seq<StoredEntityDefinition>, i: int)
    requires
        first_hierarchy_fault_at(entities, i),
    ensures
        first_hierarchy_fault(entities) == Some(i),
{
    let c = choose|c: int| #[trigger] first_hierarchy_fault_at(entities, c);
    if c < i {
        assert(!hierarchy_fault(entities, c));
    }
    if i < c {
        assert(!hierarchy_fault(entities, i));
    }
}

proof fn lemma_entity_with_own_id(entities: Seq<StoredEntityDefinition>, k: int)
    requires
        unique_ids(entities),
        0 <= k < entities.len(),
    ensures
        entity_with_id(entities, entities[k].id) == Some(k),
{
    let id = entities[k].id;
    assert(exists|c: int| 0 <= c < entities.len() && entities[c].id == id);
    let c = choose|c: int| 0 <= c < entities.len() && entities[c].id == id;
    assert(entities[c].id == entities[k].id);
}

proof fn lemma_ancestor_ends(entities: Seq<StoredEntityDefinition>, i: int, a: nat, b: nat)
    requires
        a <= b,
        ancestor(entities, i, a) is None,
    ensures
        ancestor(entities, i, b) is None,
    decreases b - a,
{
    if a < b {
        lemma_ancestor_ends(entities, i, a, (b - 1) as nat);
    }
}

proof fn lemma_distinct_indices_fit(path: Seq<int>, n: int)
    requires
        0 <= n,
        path.no_duplicates(),
        forall|t: int| 0 <= t < path.len() ==> 0 <= #[trigger] path[t] < n,
    ensures
        path.len() <= n,
{
    path.unique_seq_to_set();
    vstd::set_lib::lemma_int_range(0, n);
    assert(path.to_set().subset_of(vstd::set_lib::set_int_range(0, n)));
    vstd::set_lib::lemma_len_subset(path.to_set(), vstd::set_lib::set_int_range(0, n));
}

pub(crate) fn entity_path_text(scene_index: usize, entity_index: usize, field: &str) -> (path: String)
    ensures
        path@ == entity_path(scene_index as nat, entity_index as nat, field@),
{
    let mut path = String::from_str("scenes[");
    path.append(decimal_text(scene_index as u64).as_str());
    path.append("].entities[");
    path.append(decimal_text(entity_index as u64).as_str());
    path.append("].");
    path.append(field);
    path
}

fn find_entity(entities: &Vec<StoredEntityDefinition>, id: u64, end: usize) -> (found: Option<usize>)
    requires
        end <= entities@.len(),
    ensures
        match found {
            Some(k) => k < end && entities@[k as int].id == id,
            None => forall|k: int| 0 <= k < end ==> (#[trigger] entities@[k]).id != id,
        },
{
    let mut index: usize = 0;
    while index < end
        invariant
            end <= entities@.len(),
            index <= end,
            forall|k: int| 0 <= k < index ==> (#[trigger] entities@[k]).id != id,
        decreases end - index,
    {
        if entities[index].id == id {
            return Some(index);
        }
        index = index + 1;
    }
    None
}

/// Checks that every entity is named, that no identity is declared twice
/// (the refusal names the earlier declaration), and that no entity is its
/// own parent; the first entity that breaks one is refused.
pub fn validate_entity_identities(entities: &Vec<StoredEntityDefinition>, scene_index: usize) -> (
    result: Result<(), StoredProjectError>)
    ensures
        result is Ok <==> forall|i: int| 0 <= i < entities@.len() ==> !identity_fault(entities@, i),
        result is Ok ==> unique_ids(entities@),
        match first_identity_fault(entities@) {
            None => result is Ok,
            Some(i) => result matches Err(error) && failure_is(
                error,
                identity_failure(entities@, scene_index as nat, i).0,
                identity_failure(entities@, scene_index as nat, i).1,
                identity_failure(entities@, scene_index as nat, i).2,
            ),
        },
{
    let mut index: usize = 0;
    while index < entities.len()
        invariant
            index <= entities@.len(),
            forall|j: int| 0 <= j < index ==> !identity_fault(entities@, j),
            forall|a: int, b: int|
                0 <= a < index && 0 <= b < index && (#[trigger] entities@[a]).id == (
                #[trigger] entities@[b]).id ==> a == b,
        decreases entities@.len() - index,
    {
        let entity = &entities[index];
        let ghost i = index as int;
        if text_is_blank(entity.name.as_str()) {
            let error = failure(
                diagnostic_code::INVALID_VALUE,
                entity_path_text(scene_index, index, "name"),
                String::from_str("entity name must not be empty"),
            );
            proof {
                assert(identity_fault(entities@, i));
                reveal_strlit("name");
                reveal_strlit("entity name must not be empty");
                lemma_identity_fault_is_first(entities@, i);
            }
            return Err(error);
        }
        match find_entity(entities, entity.id, index) {
            Some(first) => {
                proof {
                    assert(earlier_duplicate(entities@, i) is Some);
                    let chosen = earlier_duplicate(entities@, i)->Some_0;
                    assert(chosen == first as int);
                }
                let mut message = String::from_str("entity ");
                message.append(decimal_text(entity.id).as_str());
                message.append(" was already declared at ");
                message.append(entity_path_text(scene_index, first, "id").as_str());
                let error = failure(
                    diagnostic_code::DUPLICATE_ENTITY,
                    entity_path_text(scene_index, index, "id"),
                    message,
                );
                proof {
                    assert(identity_fault(entities@, i));
                    reveal_strlit("id");
                    reveal_strlit("entity ");
                    reveal_strlit(" was already declared at ");
                    lemma_identity_fault_is_first(entities@, i);
                }
                return Err(error);
            },
            None => {},
        }
        proof {
            assert(earlier_duplicate(entities@, i) is None);
        }
        if entity.parent == Some(entity.id) {
            let error = failure(
                diagnostic_code::INVALID_RELATIONSHIP,
                entity_path_text(scene_index, index, "parent"),
                String::from_str("entity cannot be its own parent"),
            );
            proof {
                assert(identity_fault(entities@, i));
                reveal_strlit("parent");
                reveal_strlit("entity cannot be its own parent");
                lemma_identity_fault_is_first(entities@, i);
            }
            return Err(error);
        }
        index = index + 1;
    }
    Ok(())
}

fn position_of_id(ids: &Vec<u64>, id: u64) -> (found: Option<usize>)
    ensures
        match found {
            Some(t) => t < ids@.len() && ids@[t as int] == id,
            None => forall|t: int| 0 <= t < ids@.len() ==> ids@[t] != id,
        },
{
    let mut index: usize = 0;
    while index < ids.len()
        invariant
            index <= ids@.len(),
            forall|t: int| 0 <= t < index ==> ids@[t] != id,
        decreases ids@.len() - index,
    {
        if ids[index] == id {
            return Some(index);
        }
        index = index + 1;
    }
    None
}

proof fn lemma_distinct_chain_has_no_cycle(
    entities: Seq<StoredEntityDefinition>,
    i: int,
    path: Seq<int>,
)
    requires
        path.no_duplicates(),
        forall|t: int| 0 <= t < path.len() ==> ancestor(entities, i, t as nat) == Some(#[trigger] path[t]),
        ancestor(entities, i, path.len()) is None,
    ensures
        !parent_cycle(entities, i),
{
    let steps = path.len();
    assert forall|a: nat, b: nat|
        a < b && ancestor(entities, i, a) is Some implies #[trigger] ancestor(entities, i, a)
        != #[trigger] ancestor(entities, i, b) by {
        if b >= steps {
            lemma_ancestor_ends(entities, i, steps as nat, b);
        } else {
            assert(ancestor(entities, i, a) == Some(path[a as int]));
            assert(ancestor(entities, i, b) == Some(path[b as int]));
        }
    }
}

/// Checks that every parent named in the scene is one of its entities and
/// that no parent chain comes back on itself; the first entity that breaks
/// one is refused. The entities' identities are already known to be
/// distinct, and each chain is walked by looking parents up by identity; a
/// walk that meets a parent outside the scene is refused too.
pub fn validate_entity_parents(entities: &Vec<StoredEntityDefinition>, scene_index: usize) -> (
    result: Result<(), StoredProjectError>)
    requires
        unique_ids(entities@),
    ensures
        result is Ok <==> forall|i: int| 0 <= i < entities@.len() ==> !hierarchy_fault(entities@, i),
        match first_hierarchy_fault(entities@) {
            None => result is Ok,
            Some(i) => result matches Err(error) && failure_is(
                error,
                hierarchy_failure(entities@, scene_index as nat, i).0,
                hierarchy_failure(entities@, scene_index as nat, i).1,
                hierarchy_failure(entities@, scene_index as nat, i).2,
            ),
        },
{
    let count = entities.len();
    let mut index: usize = 0;
    while index < count
        invariant
            count == entities@.len(),
            index <= count,
            unique_ids(entities@),
            forall|j: int| 0 <= j < index ==> !hierarchy_fault(entities@, j),
        decreases count - index,
    {
        let ghost i = index as int;
        let entity = &entities[index];
        if let Some(parent) = entity.parent {
            if find_entity(entities, parent, count).is_none() {
                let mut message = String::from_str("parent entity ");
                message.append(decimal_text(parent).as_str());
                message.append(" does not exist in this scene");
                let error = failure(
                    diagnostic_code::INVALID_RELATIONSHIP,
                    entity_path_text(scene_index, index, "parent"),
                    message,
                );
                proof {
                    assert(entity_with_id(entities@, parent) is None);
                    assert(parent_missing(entities@, i));
                    lemma_hierarchy_fault_is_first(entities@, i);
                    reveal_strlit("parent");
                    reveal_strlit("parent entity ");
                    reveal_strlit(" does not exist in this scene");
                }
                return Err(error);
            }
        }
        proof {
            if let Some(parent) = entity.parent {
                let k = choose|k: int| 0 <= k < entities@.len() && entities@[k].id == parent;
                assert(entities@[k].id == parent);
            }
            assert(!parent_missing(entities@, i));
        }
        let mut visited: Vec<u64> = Vec::new();
        visited.push(entity.id);
        let mut cursor: Option<u64> = entity.parent;
        let ghost mut path: Seq<int> = seq![i];
        assert(ancestor(entities@, i, 0) == Some(i));
        while cursor.is_some()
            invariant
                count == entities@.len(),
                i == index as int,
                0 <= i < count,
                unique_ids(entities@),
                forall|j: int| 0 <= j < i ==> !hierarchy_fault(entities@, j),
                !parent_missing(entities@, i),
                1 <= path.len() <= count,
                visited@.len() == path.len(),
                path.no_duplicates(),
                forall|t: int|
                    0 <= t < path.len() ==> ancestor(entities@, i, t as nat) == Some(
                        #[trigger] path[t],
                    ) && 0 <= path[t] < count && visited@[t] == entities@[path[t]].id,
                cursor == entities@[path.last()].parent,
            decreases count - visited@.len(),
        {
            let parent = cursor.unwrap();
            let ghost last = path.last();
            let ghost steps = path.len();
            assert(ancestor(entities@, i, (steps - 1) as nat) == Some(last));
            match position_of_id(&visited, parent) {
                Some(t) => {
                    let error = failure(
                        diagnostic_code::INVALID_RELATIONSHIP,
                        entity_path_text(scene_index, index, "parent"),
                        String::from_str("entity parent relationship contains a cycle"),
                    );
                    proof {
                        let earlier = path[t as int];
                        lemma_entity_with_own_id(entities@, earlier);
                        assert(parent_index(entities@, last) == Some(earlier));
                        assert(ancestor(entities@, i, steps as nat) == Some(earlier));
                        assert(ancestor(entities@, i, t as nat) == Some(earlier));
                        assert(parent_cycle(entities@, i));
                        lemma_hierarchy_fault_is_first(entities@, i);
                        reveal_strlit("parent");
                        reveal_strlit("entity parent relationship contains a cycle");
                    }
                    return Err(error);
                },
                None => {},
            }
            let next = match find_entity(entities, parent, count) {
                Some(next) => next,
                None => {
                    let error = failure(
                        diagnostic_code::INVALID_RELATIONSHIP,
                        entity_path_text(scene_index, index, "parent"),
                        String::from_str("entity parent chain leaves this scene"),
                    );
                    proof {
                        assert(entity_with_id(entities@, parent) is None);
                        assert(parent_missing(entities@, last));
                        assert(reaches_missing_parent(entities@, i));
                        assert(ancestor(entities@, i, steps as nat) is None);
                        lemma_distinct_chain_has_no_cycle(entities@, i, path);
                        lemma_hierarchy_fault_is_first(entities@, i);
                        reveal_strlit("parent");
                        reveal_strlit("entity parent chain leaves this scene");
                    }
                    return Err(error);
                },
            };
            proof {
                lemma_entity_with_own_id(entities@, next as int);
                assert(parent_index(entities@, last) == Some(next as int));
                assert(ancestor(entities@, i, steps as nat) == Some(next as int));
                assert forall|t: int| 0 <= t < path.len() implies path[t] != next as int by {
                    if path[t] == next as int {
                        assert(visited@[t] == parent);
                    }
                }
                path = path.push(next as int);
                lemma_distinct_indices_fit(path, count as int);
            }
            visited.push(parent);
            cursor = entities[next].parent;
        }
        proof {
            let steps = path.len();
            assert(ancestor(entities@, i, steps as nat) is None);
            lemma_distinct_chain_has_no_cycle(entities@, i, path);
            assert forall|k: nat| #[trigger] ancestor(entities@, i, k) is Some implies !parent_missing(
                entities@,
                ancestor(entities@, i, k)->Some_0,
            ) by {
                if k >= steps {
                    lemma_ancestor_ends(entities@, i, steps as nat, k);
                } else if k + 1 < steps {
                    assert(ancestor(entities@, i, k) == Some(path[k as int]));
                    assert(ancestor(entities@, i, (k + 1) as nat) == Some(path[k + 1 as int]));
                    assert(parent_index(entities@, path[k as int]) is Some);
                } else {
                    assert(ancestor(entities@, i, k) == Some(path[k as int]));
                }
            }
            assert(!reaches_missing_parent(entities@, i));
        }
        index = index + 1;
    }
    proof {
        assert forall|i: int| !first_hierarchy_fault_at(entities@, i) by {}
    }
    Ok(())
}

/// Checks the identity rules of a scene's entities and then their parents,
/// refusing the first entity that breaks one.
pub fn validate_entity_structure(entities: &Vec<StoredEntityDefinition>, scene_index: usize) -> (
    result: Result<(), StoredProjectError>)
    ensures
        match first_identity_fault(entities@) {
            Some(i) => result matches Err(error) && failure_is(
                error,
                identity_failure(entities@, scene_index as nat, i).0,
                identity_failure(entities@, scene_index as nat, i).1,
                identity_failure(entities@, scene_index as nat, i).2,
            ),
            None => match first_hierarchy_fault(entities@) {
                None => result is Ok,
                Some(i) => result matches Err(error) && failure_is(
                    error,
                    hierarchy_failure(entities@, scene_index as nat, i).0,
                    hierarchy_failure(entities@, scene_index as nat, i).1,
                    hierarchy_failure(entities@, scene_index as nat, i).2,
                ),
            },
        },
        result is Ok ==> unique_ids(entities@) && forall|i: int|
            0 <= i < entities@.len() ==> !identity_fault(entities@, i) && !hierarchy_fault(
                entities@,
                i,
            ),
{
    validate_entity_identities(entities, scene_index)?;
    validate_entity_parents(entities, scene_index)
}

/// The entity `k` steps above the `i`-th has no parent.
pub open spec fn root_at(entities: Seq<StoredEntityDefinition>, i: int, k: nat) -> bool {
    match ancestor(entities, i, k) {
        Some(root) => entities[root].parent is None,
        None => false,
    }
}

/// The chain of parents above the `i`-th entity ends, within as many steps
/// as there are entities, at an entity without a parent.
pub open spec fn reaches_root(entities: Seq<StoredEntityDefinition>, i: int) -> bool {
    exists|k: nat| k < entities.len() && #[trigger] root_at(entities, i, k)
}

proof fn lemma_ancestor_in_scene(entities: Seq<StoredEntityDefinition>, i: int, k: nat)
    requires
        0 <= i < entities.len(),
    ensures
        ancestor(entities, i, k) matches Some(j) ==> 0 <= j < entities.len(),
    decreases k,
{
    if k > 0 {
        lemma_ancestor_in_scene(entities, i, (k - 1) as nat);
    }
}

/// In a scene whose parents all exist and whose parent chains never come
/// back on themselves, the chain above every entity ends, within as many
/// steps as there are entities, at an entity without a parent: the
/// entities form a forest.
pub proof fn lemma_accepted_parents_form_a_forest(entities: Seq<StoredEntityDefinition>, i: int)
    requires
        0 <= i < entities.len(),
        forall|j: int| 0 <= j < entities.len() ==> !#[trigger] hierarchy_fault(entities, j),
    ensures
        reaches_root(entities, i),
{
    let n = entities.len();
    if !exists|k: nat|
        k < n && #[trigger] root_at(entities, i, k) {
        assert forall|k: nat| k <= n implies #[trigger] ancestor(entities, i, k) is Some by {
            lemma_ancestor_chain_lasts(entities, i, k);
        }
        let chain = Seq::new((n + 1) as nat, |t: int| ancestor(entities, i, t as nat)->Some_0);
        assert forall|t: int| 0 <= t < chain.len() implies 0 <= #[trigger] chain[t] < n by {
            lemma_ancestor_in_scene(entities, i, t as nat);
            assert(ancestor(entities, i, t as nat) is Some);
        }
        if chain.no_duplicates() {
            lemma_distinct_indices_fit(chain, n as int);
        }
        let (a, b) = choose|a: int, b: int|
            0 <= a < chain.len() && 0 <= b < chain.len() && a != b && chain[a] == chain[b];
        let (low, high) = if a < b { (a, b) } else { (b, a) };
        assert(ancestor(entities, i, low as nat) is Some);
        assert(ancestor(entities, i, high as nat) is Some);
        assert(ancestor(entities, i, low as nat) == ancestor(entities, i, high as nat));
        assert(parent_cycle(entities, i));
        assert(hierarchy_fault(entities, i));
    }
}

proof fn lemma_ancestor_chain_lasts(entities: Seq<StoredEntityDefinition>, i: int, k: nat)
    requires
        0 <= i < entities.len(),
        k <= entities.len(),
        forall|j: int| 0 <= j < entities.len() ==> !#[trigger] hierarchy_fault(entities, j),
        !exists|m: nat|
            m < entities.len() && #[trigger] root_at(entities, i, m),
    ensures
        ancestor(entities, i, k) is Some,
    decreases k,
{
    if k > 0 {
        let m = (k - 1) as nat;
        lemma_ancestor_chain_lasts(entities, i, m);
        lemma_ancestor_in_scene(entities, i, m);
        let j = ancestor(entities, i, m)->Some_0;
        assert(!hierarchy_fault(entities, j));
        assert(!root_at(entities, i, m));
        assert(entities[j].parent is Some);
        let parent = entities[j].parent->Some_0;
        assert(entity_with_id(entities, parent) is Some);
    }
}

pub(crate) proof fn lemma_identity_fault_has_a_first(entities: Seq<StoredEntityDefinition>, i: int)
    requires
        0 <= i < entities.len(),
        identity_fault(entities, i),
    ensures
        first_identity_fault(entities) is Some,
    decreases i,
{
    if forall|j: int| 0 <= j < i ==> !#[trigger] identity_fault(entities, j) {
        lemma_identity_fault_is_first(entities, i);
    } else {
        let j = choose|j: int| 0 <= j < i && #[trigger] identity_fault(entities, j);
        lemma_identity_fault_has_a_first(entities, j);
    }
}

pub(crate) proof fn lemma_hierarchy_fault_has_a_first(entities: Seq<StoredEntityDefinition>, i: int)
    requires
        0 <= i < entities.len(),
        hierarchy_fault(entities, i),
    ensures
        first_hierarchy_fault(entities) is Some,
    decreases i,
{
    if forall|j: int| 0 <= j < i ==> !#[trigger] hierarchy_fault(entities, j) {
        lemma_hierarchy_fault_is_first(entities, i);
    } else {
        let j = choose|j: int| 0 <= j < i && #[trigger] hierarchy_fault(entities, j);
        lemma_hierarchy_fault_has_a_first(entities, j);
    }
}

pub(crate) proof fn lemma_no_identity_fault_means_unique(entities: Seq<StoredEntityDefinition>)
    requires
        forall|i: int| 0 <= i < entities.len() ==> !#[trigger] identity_fault(entities, i),
    ensures
        unique_ids(entities),
{
    assert forall|a: int, b: int|
        0 <= a < entities.len() && 0 <= b < entities.len() && (#[trigger] entities[a]).id == (
        #[trigger] entities[b]).id implies a == b by {
        if a < b {
            assert(!identity_fault(entities, b));
            assert(earlier_duplicate(entities, b) is Some);
        }
        if b < a {
            assert(!identity_fault(entities, a));
            assert(earlier_duplicate(entities, a) is Some);
        }
    }
}


/// Checks the identity rules of the `index`-th entity, the entities before
/// it having passed them: it is named, its identity is not declared before
/// it, and it is not its own parent.
pub(crate) fn check_entity_identity(entities: &Vec<StoredEntityDefinition>, scene_index: usize, index: usize) -> (
    result: Result<(), StoredProjectError>)
    requires
        index < entities@.len(),
        forall|j: int| 0 <= j < index ==> !#[trigger] identity_fault(entities@, j),
    ensures
        if identity_fault(entities@, index as int) {
            result matches Err(error) && failure_is(
                error,
                identity_failure(entities@, scene_index as nat, index as int).0,
                identity_failure(entities@, scene_index as nat, index as int).1,
                identity_failure(entities@, scene_index as nat, index as int).2,
            )
        } else {
            result is Ok
        },
{
    let entity = &entities[index];
    let ghost i = index as int;
    if text_is_blank(entity.name.as_str()) {
        proof {
            reveal_strlit("name");
            reveal_strlit("entity name must not be empty");
        }
        return Err(
            failure(
                diagnostic_code::INVALID_VALUE,
                entity_path_text(scene_index, index, "name"),
                String::from_str("entity name must not be empty"),
            ),
        );
    }
    match find_entity(entities, entity.id, index) {
        Some(first) => {
            proof {
                assert(earlier_duplicate(entities@, i) is Some);
                let chosen = earlier_duplicate(entities@, i)->Some_0;
                if chosen != first as int {
                    let (low, high) = if chosen < first as int {
                        (chosen, first as int)
                    } else {
                        (first as int, chosen)
                    };
                    assert(entities@[low].id == entities@[high].id);
                    assert(!identity_fault(entities@, high));
                    assert(earlier_duplicate(entities@, high) is Some);
                }
            }
            let mut message = String::from_str("entity ");
            message.append(decimal_text(entity.id).as_str());
            message.append(" was already declared at ");
            message.append(entity_path_text(scene_index, first, "id").as_str());
            proof {
                reveal_strlit("id");
                reveal_strlit("entity ");
                reveal_strlit(" was already declared at ");
            }
            return Err(failure(diagnostic_code::DUPLICATE_ENTITY, entity_path_text(scene_index, index, "id"), message));
        },
        None => {},
    }
    proof {
        assert(earlier_duplicate(entities@, i) is None);
    }
    if entity.parent == Some(entity.id) {
        proof {
            reveal_strlit("parent");
            reveal_strlit("entity cannot be its own parent");
        }
        return Err(
            failure(
                diagnostic_code::INVALID_RELATIONSHIP,
                entity_path_text(scene_index, index, "parent"),
                String::from_str("entity cannot be its own parent"),
            ),
        );
    }
    Ok(())
}

} // verus!
