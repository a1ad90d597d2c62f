//! The entity components the adapter exposes to Studio inspectors: each voxel
//! object instance and each provider-derived weapon entity is a component of
//! its owner entity. References are ordered by owner and component type, and
//! must name owners of the entry-scene hierarchy, at most once per type and
//! within the per-owner and overall bounds.
use vstd::prelude::*;
use vstd::relations::{sorted_by, total_ordering};

use crate::stored_project::StoredProject;
use crate::studio_adapter::protocol::{
    AdapterRejection, AdapterRejectionView, StudioEntityComponentReference,
    StudioEntityInspectorContractIdentity, MAX_STUDIO_ENTITY_COMPONENTS_PER_OWNER,
    MAX_STUDIO_ENTITY_COMPONENT_REFERENCES, VOXEL_OBJECT_COMPONENT_TYPE_ID,
    VOXEL_OBJECT_INSPECTOR_CONTRACT_ID, VOXEL_OBJECT_INSPECTOR_CONTRACT_VERSION,
};
use crate::text::{decimal, decimal_text, join3};
use crate::weapon_authoring::{
    bindings_outcome, loading_bay_weapon_owner_entity_ids, WeaponBinding,
    LOADING_BAY_WEAPON_AUTHORING_CONTRACT_ID, LOADING_BAY_WEAPON_AUTHORING_CONTRACT_VERSION,
    LOADING_BAY_WEAPON_COMPONENT_TYPE_ID,
};

verus! {

// A component is keyed by its owner and the rank of its type identity in
// text order: the weapon type identity sorts before the voxel object one.
pub const WEAPON_COMPONENT_RANK: u8 = 0;

pub const VOXEL_OBJECT_COMPONENT_RANK: u8 = 1;

/// The order of `(owner, type)` keys: by owner, then by type.
pub open spec fn key_leq() -> spec_fn((u64, u8), (u64, u8)) -> bool {
    |a: (u64, u8), b: (u64, u8)| a.0 < b.0 || (a.0 == b.0 && a.1 <= b.1)
}

pub open spec fn type_id_of(rank: u8) -> &'static str {
    if rank == WEAPON_COMPONENT_RANK {
        LOADING_BAY_WEAPON_COMPONENT_TYPE_ID
    } else {
        VOXEL_OBJECT_COMPONENT_TYPE_ID
    }
}

pub open spec fn reference_for(key: (u64, u8)) -> StudioEntityComponentReference {
    StudioEntityComponentReference {
        owner_entity_id: key.0,
        component_type_id: type_id_of(key.1),
        inspector_contract: Some(
            if key.1 == WEAPON_COMPONENT_RANK {
                StudioEntityInspectorContractIdentity {
                    contract_id: LOADING_BAY_WEAPON_AUTHORING_CONTRACT_ID,
                    contract_version: LOADING_BAY_WEAPON_AUTHORING_CONTRACT_VERSION,
                }
            } else {
                StudioEntityInspectorContractIdentity {
                    contract_id: VOXEL_OBJECT_INSPECTOR_CONTRACT_ID,
                    contract_version: VOXEL_OBJECT_INSPECTOR_CONTRACT_VERSION,
                }
            },
        ),
    }
}

/// The keys of the components, voxel objects first, then weapons.
pub open spec fn component_keys(voxel_owners: Seq<u64>, weapon_owners: Seq<u64>) -> Seq<
    (u64, u8),
> {
    voxel_owners.map_values(|owner: u64| (owner, VOXEL_OBJECT_COMPONENT_RANK))
        + weapon_owners.map_values(|owner: u64| (owner, WEAPON_COMPONENT_RANK))
}

/// How many of the first `n` keys belong to `owner`.
pub open spec fn owner_count(keys: Seq<(u64, u8)>, owner: u64, n: int) -> nat
    decreases n,
{
    if n <= 0 {
        0
    } else {
        owner_count(keys, owner, n - 1) + if keys[n - 1].0 == owner {
            1nat
        } else {
            0nat
        }
    }
}

pub open spec fn component_rejection(message: Seq<char>) -> AdapterRejectionView {
    AdapterRejectionView { code: "project.entityComponents"@, path: None, message }
}

pub open spec fn too_many_references(count: nat) -> AdapterRejectionView {
    component_rejection(
        "project has "@ + decimal(count) + " component references, exceeding "@ + decimal(
            MAX_STUDIO_ENTITY_COMPONENT_REFERENCES as nat,
        ),
    )
}

pub open spec fn owner_absent(owner: u64) -> AdapterRejectionView {
    component_rejection(
        "component owner "@ + decimal(owner as nat)
            + " is absent from the canonical entry-scene hierarchy"@,
    )
}

pub open spec fn owner_repeats(key: (u64, u8)) -> AdapterRejectionView {
    component_rejection(
        "owner "@ + decimal(key.0 as nat) + " repeats component `"@ + type_id_of(key.1)@ + "`"@,
    )
}

pub open spec fn owner_exceeds(owner: u64) -> AdapterRejectionView {
    component_rejection(
        "owner "@ + decimal(owner as nat) + " exceeds "@ + decimal(
            MAX_STUDIO_ENTITY_COMPONENTS_PER_OWNER as nat,
        ) + " component references"@,
    )
}

/// The refusal owed at the `i`-th sorted key, once every earlier key passed:
/// its owner must be known, the key must not repeat, and its owner must not
/// exceed the per-owner bound.
pub open spec fn key_violation(keys: Seq<(u64, u8)>, known: Seq<u64>, i: int) -> Option<
    AdapterRejectionView,
> {
    if !known.contains(keys[i].0) {
        Some(owner_absent(keys[i].0))
    } else if exists|j: int| 0 <= j < i && keys[j] == keys[i] {
        Some(owner_repeats(keys[i]))
    } else if owner_count(keys, keys[i].0, i + 1) > MAX_STUDIO_ENTITY_COMPONENTS_PER_OWNER {
        Some(owner_exceeds(keys[i].0))
    } else {
        None
    }
}

/// The first refusal among the sorted keys from `i` on.
pub open spec fn first_violation(keys: Seq<(u64, u8)>, known: Seq<u64>, i: int) -> Option<
    AdapterRejectionView,
>
    decreases keys.len() - i,
{
    if i < 0 || i >= keys.len() {
        None
    } else {
        match key_violation(keys, known, i) {
            Some(violation) => Some(violation),
            None => first_violation(keys, known, i + 1),
        }
    }
}

/// The component references owed for these owners: the keys in order, each
/// checked in turn, and bounded overall.
pub open spec fn references_outcome(
    voxel_owners: Seq<u64>,
    weapon_owners: Seq<u64>,
    known: Seq<u64>,
) -> Result<Seq<StudioEntityComponentReference>, AdapterRejectionView> {
    let keys = component_keys(voxel_owners, weapon_owners).sort_by(key_leq());
    if keys.len() > MAX_STUDIO_ENTITY_COMPONENT_REFERENCES {
        Err(too_many_references(keys.len()))
    } else {
        match first_violation(keys, known, 0) {
            Some(violation) => Err(violation),
            None => Ok(keys.map_values(|key: (u64, u8)| reference_for(key))),
        }
    }
}

pub open spec fn references_view(
    result: Result<Vec<StudioEntityComponentReference>, AdapterRejection>,
) -> Result<Seq<StudioEntityComponentReference>, AdapterRejectionView> {
    match result {
        Ok(references) => Ok(references@),
        Err(error) => Err(error@),
    }
}

pub proof fn lemma_key_leq_total()
    ensures
        total_ordering(key_leq()),
{
}

/// `slice::sort` on component keys: ascending in the lexicographic order of
/// the tuples, with the same keys as before.
#[verifier::external_body]
fn sort_component_keys(keys: &mut Vec<(u64, u8)>)
    ensures
        sorted_by(final(keys)@, key_leq()),
        final(keys)@.to_multiset() == old(keys)@.to_multiset(),
{
    keys.sort();
}

fn contains_owner(owners: &Vec<u64>, owner: u64) -> (found: bool)
    ensures
        found == owners@.contains(owner),
{
    let mut index: usize = 0;
    while index < owners.len()
        invariant
            index <= owners@.len(),
            forall|j: int| 0 <= j < index ==> owners@[j] != owner,
        decreases owners@.len() - index,
    {
        if owners[index] == owner {
            return true;
        }
        index = index + 1;
    }
    false
}

fn reference_of(key: (u64, u8)) -> (reference: StudioEntityComponentReference)
    ensures
        reference == reference_for(key),
{
    if key.1 == WEAPON_COMPONENT_RANK {
        StudioEntityComponentReference {
            owner_entity_id: key.0,
            component_type_id: LOADING_BAY_WEAPON_COMPONENT_TYPE_ID,
            inspector_contract: Some(
                StudioEntityInspectorContractIdentity {
                    contract_id: LOADING_BAY_WEAPON_AUTHORING_CONTRACT_ID,
                    contract_version: LOADING_BAY_WEAPON_AUTHORING_CONTRACT_VERSION,
                },
            ),
        }
    } else {
        StudioEntityComponentReference {
            owner_entity_id: key.0,
            component_type_id: VOXEL_OBJECT_COMPONENT_TYPE_ID,
            inspector_contract: Some(
                StudioEntityInspectorContractIdentity {
                    contract_id: VOXEL_OBJECT_INSPECTOR_CONTRACT_ID,
                    contract_version: VOXEL_OBJECT_INSPECTOR_CONTRACT_VERSION,
                },
            ),
        }
    }
}

proof fn lemma_no_owner_before(keys: Seq<(u64, u8)>, owner: u64, n: int)
    requires
        0 <= n <= keys.len(),
        forall|j: int| 0 <= j < n ==> #[trigger] keys[j].0 != owner,
    ensures
        owner_count(keys, owner, n) == 0,
    decreases n,
{
    if n > 0 {
        lemma_no_owner_before(keys, owner, n - 1);
    }
}

proof fn lemma_first_violation_passes(keys: Seq<(u64, u8)>, known: Seq<u64>, i: int)
    requires
        0 <= i < keys.len(),
        key_violation(keys, known, i) is None,
    ensures
        first_violation(keys, known, i) == first_violation(keys, known, i + 1),
{
}

/// Builds, orders and checks the component references of these owners.
pub fn component_references(
    voxel_owners: &Vec<u64>,
    weapon_owners: &Vec<u64>,
    known_owners: &Vec<u64>,
) -> (result: Result<Vec<StudioEntityComponentReference>, AdapterRejection>)
    ensures
        references_view(result) == references_outcome(voxel_owners@, weapon_owners@, known_owners@),
{
    let ghost unsorted = component_keys(voxel_owners@, weapon_owners@);
    let mut keys: Vec<(u64, u8)> = Vec::new();
    let mut index: usize = 0;
    while index < voxel_owners.len()
        invariant
            index <= voxel_owners@.len(),
            keys@ == voxel_owners@.take(index as int).map_values(
                |owner: u64| (owner, VOXEL_OBJECT_COMPONENT_RANK),
            ),
        decreases voxel_owners@.len() - index,
    {
        keys.push((voxel_owners[index], VOXEL_OBJECT_COMPONENT_RANK));
        index = index + 1;
        assert(keys@ =~= voxel_owners@.take(index as int).map_values(
            |owner: u64| (owner, VOXEL_OBJECT_COMPONENT_RANK),
        ));
    }
    assert(voxel_owners@.take(index as int) =~= voxel_owners@);
    let mut index: usize = 0;
    while index < weapon_owners.len()
        invariant
            index <= weapon_owners@.len(),
            keys@ == voxel_owners@.map_values(|owner: u64| (owner, VOXEL_OBJECT_COMPONENT_RANK))
                + weapon_owners@.take(index as int).map_values(
                |owner: u64| (owner, WEAPON_COMPONENT_RANK),
            ),
        decreases weapon_owners@.len() - index,
    {
        keys.push((weapon_owners[index], WEAPON_COMPONENT_RANK));
        index = index + 1;
        assert(keys@ =~= voxel_owners@.map_values(
            |owner: u64| (owner, VOXEL_OBJECT_COMPONENT_RANK),
        ) + weapon_owners@.take(index as int).map_values(
            |owner: u64| (owner, WEAPON_COMPONENT_RANK),
        ));
    }
    assert(weapon_owners@.take(index as int) =~= weapon_owners@);
    assert(keys@ =~= unsorted);
    sort_component_keys(&mut keys);
    let ghost sorted = unsorted.sort_by(key_leq());
    proof {
        lemma_key_leq_total();
        unsorted.lemma_sort_by_ensures(key_leq());
        vstd::seq_lib::lemma_sorted_unique(keys@, sorted, key_leq());
    }
    assert(keys@ == sorted);
    if keys.len() > MAX_STUDIO_ENTITY_COMPONENT_REFERENCES {
        let message = join3(
            "project has ",
            decimal_text(keys.len() as u64).as_str(),
            " component references, exceeding ",
        );
        let mut message = message;
        message.append(decimal_text(MAX_STUDIO_ENTITY_COMPONENT_REFERENCES as u64).as_str());
        return Err(AdapterRejection::new("project.entityComponents", message.as_str()));
    }
    let mut references: Vec<StudioEntityComponentReference> = Vec::new();
    let mut run: usize = 0;
    let mut index: usize = 0;
    while index < keys.len()
        invariant
            keys@ == sorted,
            sorted == component_keys(voxel_owners@, weapon_owners@).sort_by(key_leq()),
            sorted_by(sorted, key_leq()),
            total_ordering(key_leq()),
            sorted.len() <= MAX_STUDIO_ENTITY_COMPONENT_REFERENCES,
            index <= sorted.len(),
            first_violation(sorted, known_owners@, 0) == first_violation(
                sorted,
                known_owners@,
                index as int,
            ),
            index > 0 ==> run == owner_count(sorted, sorted[index - 1].0, index as int),
            run <= MAX_STUDIO_ENTITY_COMPONENTS_PER_OWNER,
            references@ == sorted.take(index as int).map_values(
                |key: (u64, u8)| reference_for(key),
            ),
        decreases sorted.len() - index,
    {
        let key = keys[index];
        let ghost i = index as int;
        if !contains_owner(known_owners, key.0) {
            let mut message = join3(
                "component owner ",
                decimal_text(key.0).as_str(),
                " is absent from the canonical entry-scene hierarchy",
            );
            assert(key_violation(sorted, known_owners@, i) == Some(owner_absent(sorted[i].0)));
            assert(first_violation(sorted, known_owners@, i) == Some(owner_absent(sorted[i].0)));
            return Err(AdapterRejection::new("project.entityComponents", message.as_str()));
        }
        let repeats = index > 0 && keys[index - 1].0 == key.0 && keys[index - 1].1 == key.1;
        proof {
            if !repeats {
                assert forall|j: int| 0 <= j < i implies sorted[j] != sorted[i] by {
                    if sorted[j] == sorted[i] {
                        assert(key_leq()(sorted[j], sorted[i - 1]));
                        assert(key_leq()(sorted[i - 1], sorted[i]));
                    }
                }
            }
        }
        if repeats {
            let type_id = if key.1 == WEAPON_COMPONENT_RANK {
                LOADING_BAY_WEAPON_COMPONENT_TYPE_ID
            } else {
                VOXEL_OBJECT_COMPONENT_TYPE_ID
            };
            let mut message = join3("owner ", decimal_text(key.0).as_str(), " repeats component `");
            message.append(type_id);
            message.append("`");
            assert(sorted[i - 1] == sorted[i]);
            return Err(AdapterRejection::new("project.entityComponents", message.as_str()));
        }
        if index == 0 || keys[index - 1].0 != key.0 {
            proof {
                if i > 0 {
                    assert forall|j: int| 0 <= j < i implies #[trigger] sorted[j].0 != sorted[i].0 by {
                        assert(key_leq()(sorted[j], sorted[i - 1]));
                        assert(key_leq()(sorted[i - 1], sorted[i]));
                    }
                }
                lemma_no_owner_before(sorted, sorted[i].0, i);
            }
            run = 1;
        } else {
            run = run + 1;
        }
        assert(run == owner_count(sorted, sorted[i].0, i + 1));
        if run > MAX_STUDIO_ENTITY_COMPONENTS_PER_OWNER {
            let mut message = join3("owner ", decimal_text(key.0).as_str(), " exceeds ");
            message.append(decimal_text(MAX_STUDIO_ENTITY_COMPONENTS_PER_OWNER as u64).as_str());
            message.append(" component references");
            assert(!(exists|j: int| 0 <= j < i && sorted[j] == sorted[i]));
            assert(key_violation(sorted, known_owners@, i) == Some(owner_exceeds(sorted[i].0)));
            assert(first_violation(sorted, known_owners@, i) == Some(owner_exceeds(sorted[i].0)));
            return Err(AdapterRejection::new("project.entityComponents", message.as_str()));
        }
        proof {
            lemma_first_violation_passes(sorted, known_owners@, i);
        }
        references.push(reference_of(key));
        index = index + 1;
        assert(references@ =~= sorted.take(index as int).map_values(
            |key: (u64, u8)| reference_for(key),
        ));
    }
    assert(sorted.take(index as int) =~= sorted);
    Ok(references)
}

/// The component references of a project's voxel object instances (given by
/// their owners) and of its provider-derived weapon entities; the weapon
/// owners are those of the weapon authoring contract, and a failure to derive
/// them is reported as a component failure.
pub fn entity_component_references(
    voxel_owners: &Vec<u64>,
    project: &StoredProject,
    known_owners: &Vec<u64>,
) -> (result: Result<Vec<StudioEntityComponentReference>, AdapterRejection>)
    ensures
        exists|owners: Seq<u64>, outcome: Result<Seq<WeaponBinding>, Seq<char>>|
            bindings_outcome(*project, owners, outcome) && match outcome {
                Err(message) => references_view(result) == Err::<
                    Seq<StudioEntityComponentReference>,
                    AdapterRejectionView,
                >(component_rejection(message)),
                Ok(bindings) => references_view(result) == references_outcome(
                    voxel_owners@,
                    Seq::new(bindings.len(), |i: int| bindings[i].owner_entity_id),
                    known_owners@,
                ),
            },
{
    let weapon_owners = loading_bay_weapon_owner_entity_ids(project);
    match weapon_owners {
        Ok(weapon_owners) => component_references(voxel_owners, &weapon_owners, known_owners),
        Err(message) => Err(AdapterRejection::new("project.entityComponents", message.as_str())),
    }
}

proof fn lemma_no_violation_from(keys: Seq<(u64, u8)>, known: Seq<u64>, i: int, m: int)
    requires
        0 <= i <= m < keys.len(),
        first_violation(keys, known, i) is None,
    ensures
        key_violation(keys, known, m) is None,
    decreases m - i,
{
    if i < m {
        lemma_no_violation_from(keys, known, i + 1, m);
    }
}

/// Admitted component references are ordered by owner, name known owners
/// only, never repeat a component type for an owner, and stay within the
/// overall bound.
pub proof fn lemma_references_well_formed(
    voxel_owners: Seq<u64>,
    weapon_owners: Seq<u64>,
    known: Seq<u64>,
)
    ensures
        references_outcome(voxel_owners, weapon_owners, known) matches Ok(references) ==> {
            &&& references.len() <= MAX_STUDIO_ENTITY_COMPONENT_REFERENCES
            &&& forall|i: int|
                0 <= i < references.len() ==> known.contains(
                    (#[trigger] references[i]).owner_entity_id,
                )
            &&& forall|i: int, j: int|
                0 <= i < j < references.len() ==> (#[trigger] references[i]).owner_entity_id
                    <= (#[trigger] references[j]).owner_entity_id
            &&& forall|i: int, j: int|
                0 <= i < j < references.len() && (#[trigger] references[i]).owner_entity_id
                    == (#[trigger] references[j]).owner_entity_id ==> references[i].component_type_id@
                    != references[j].component_type_id@
        },
{
    let unsorted = component_keys(voxel_owners, weapon_owners);
    let keys = unsorted.sort_by(key_leq());
    lemma_key_leq_total();
    unsorted.lemma_sort_by_ensures(key_leq());
    if let Ok(references) = references_outcome(voxel_owners, weapon_owners, known) {
        assert(first_violation(keys, known, 0) is None);
        assert forall|i: int| 0 <= i < references.len() implies known.contains(
            (#[trigger] references[i]).owner_entity_id,
        ) by {
            lemma_no_violation_from(keys, known, 0, i);
        }
        assert forall|i: int, j: int|
            0 <= i < j < references.len() implies (#[trigger] references[i]).owner_entity_id
            <= (#[trigger] references[j]).owner_entity_id by {
            assert(key_leq()(keys[i], keys[j]));
        }
        assert(forall|k: int| 0 <= k < unsorted.len() ==> (#[trigger] unsorted[k]).1 <= 1);
        assert forall|k: int| 0 <= k < keys.len() implies (#[trigger] keys[k]).1 <= 1 by {
            keys.to_multiset_ensures();
            unsorted.to_multiset_ensures();
            assert(keys.contains(keys[k]));
            assert(unsorted.contains(keys[k]));
        }
        assert forall|i: int, j: int|
            0 <= i < j < references.len() && (#[trigger] references[i]).owner_entity_id
                == (#[trigger] references[j]).owner_entity_id implies references[i].component_type_id@
            != references[j].component_type_id@ by {
            lemma_no_violation_from(keys, known, 0, j);
            assert(keys[i] != keys[j]);
            reveal_strlit("rusty-engine-demo.loading-bay.weapon");
            reveal_strlit("rusty.voxel-object.instance");
            assert(LOADING_BAY_WEAPON_COMPONENT_TYPE_ID@[5] != VOXEL_OBJECT_COMPONENT_TYPE_ID@[5]);
        }
    }
}

} // verus!
