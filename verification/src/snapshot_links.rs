//! Restoring the links between a snapshot's components: enemy drops tie an
//! enemy to the pickup it leaves behind, encounters tie enemies to the door
//! that opens when they are cleared, and scheduled door closings name
//! restored doors; an active extraction beacon names the actor that
//! activated it, at a tick not after the snapshot's; an enemy with health is alive exactly while that health
//! is above zero. Each check refuses the first entry that breaks a rule.
use vstd::prelude::*;

use crate::snapshot::{
    DoorSnapshot, EncounterSnapshot, EnemyDropSnapshot, EnemySnapshot, ExtractionBeaconSnapshot,
    GameSnapshotError, HealthSnapshot, SnapshotExtractionBeaconState,
    PickupSnapshot, ScheduledSnapshot, ScheduledSnapshotKind, SnapshotEncounterState,
    SnapshotEnemyDropState, SnapshotEnemyState, SnapshotPickupState,
};
use crate::snapshot_restore::{as_result, capability_index, EntityCapabilities};

verus! {

/// The first restored enemy of entity `entity`.
pub open spec fn enemy_index(enemies: Seq<EnemySnapshot>, entity: u64) -> Option<int> {
    if exists|i: int| 0 <= i < enemies.len() && (#[trigger] enemies[i]).entity == entity {
        Some(
            choose|i: int|
                0 <= i < enemies.len() && (#[trigger] enemies[i]).entity == entity && forall|j: int|
                    0 <= j < i ==> (#[trigger] enemies[j]).entity != entity,
        )
    } else {
        None
    }
}

/// The first restored pickup of entity `entity`.
pub open spec fn pickup_index(pickups: Seq<PickupSnapshot>, entity: u64) -> Option<int> {
    if exists|i: int| 0 <= i < pickups.len() && (#[trigger] pickups[i]).entity == entity {
        Some(
            choose|i: int|
                0 <= i < pickups.len() && (#[trigger] pickups[i]).entity == entity && forall|j: int|
                    0 <= j < i ==> (#[trigger] pickups[j]).entity != entity,
        )
    } else {
        None
    }
}

/// An armed drop waits on a living enemy and a dormant pickup; a
/// materialized one follows a defeated enemy whose pickup is out.
pub open spec fn drop_state_agrees(
    state: SnapshotEnemyDropState,
    enemy: SnapshotEnemyState,
    pickup: SnapshotPickupState,
) -> bool {
    match state {
        SnapshotEnemyDropState::Armed => enemy == SnapshotEnemyState::Alive && pickup
            == SnapshotPickupState::Dormant,
        SnapshotEnemyDropState::Materialized => enemy == SnapshotEnemyState::Defeated && (
        pickup is Available || pickup is Collected),
    }
}

pub open spec fn drop_violation(
    drops: Seq<EnemyDropSnapshot>,
    enemies: Seq<EnemySnapshot>,
    pickups: Seq<PickupSnapshot>,
    i: int,
) -> Option<GameSnapshotError> {
    let drop = drops[i];
    if exists|j: int| 0 <= j < i && (#[trigger] drops[j]).enemy == drop.enemy {
        Some(GameSnapshotError::DuplicateEnemyDrop { enemy: drop.enemy })
    } else if exists|j: int| 0 <= j < i && (#[trigger] drops[j]).pickup == drop.pickup {
        Some(GameSnapshotError::DuplicateEnemyDropPickup { pickup: drop.pickup })
    } else {
        match (enemy_index(enemies, drop.enemy), pickup_index(pickups, drop.pickup)) {
            (Some(e), Some(p)) => if drop_state_agrees(drop.state, enemies[e].state, pickups[p].state) {
                None
            } else {
                Some(GameSnapshotError::InvalidEnemyDropState { enemy: drop.enemy, pickup: drop.pickup })
            },
            _ => Some(GameSnapshotError::InvalidEnemyDropState { enemy: drop.enemy, pickup: drop.pickup }),
        }
    }
}

pub open spec fn first_drop_violation(
    drops: Seq<EnemyDropSnapshot>,
    enemies: Seq<EnemySnapshot>,
    pickups: Seq<PickupSnapshot>,
    i: int,
) -> Option<GameSnapshotError>
    decreases drops.len() - i,
{
    if i < 0 || i >= drops.len() {
        None
    } else {
        match drop_violation(drops, enemies, pickups, i) {
            Some(error) => Some(error),
            None => first_drop_violation(drops, enemies, pickups, i + 1),
        }
    }
}

/// The `p`-th pickup is dormant and no drop will materialize it.
pub open spec fn stranded_at(pickups: Seq<PickupSnapshot>, drops: Seq<EnemyDropSnapshot>, p: int) -> bool {
    &&& pickups[p].state == SnapshotPickupState::Dormant
    &&& !exists|d: int| 0 <= d < drops.len() && (#[trigger] drops[d]).pickup == pickups[p].entity
}

/// A dormant pickup of entity `entity` that no drop will materialize.
pub open spec fn stranded_pickup(pickups: Seq<PickupSnapshot>, drops: Seq<EnemyDropSnapshot>, entity: u64) -> bool {
    exists|p: int| 0 <= p < pickups.len() && (#[trigger] pickups[p]).entity == entity && stranded_at(pickups, drops, p)
}

/// The refusal owed to a snapshot's enemy drops: the first drop that
/// repeats an enemy or a pickup, names one that is not restored, or whose
/// state disagrees with theirs; then the dormant pickup of least entity
/// that no drop names.
pub open spec fn drops_outcome(
    drops: Seq<EnemyDropSnapshot>,
    enemies: Seq<EnemySnapshot>,
    pickups: Seq<PickupSnapshot>,
) -> Option<GameSnapshotError> {
    match first_drop_violation(drops, enemies, pickups, 0) {
        Some(error) => Some(error),
        None => match least_stranded_pickup(pickups, drops) {
            Some(entity) => Some(GameSnapshotError::DormantPickupMissingEnemyDrop { pickup: entity }),
            None => None,
        },
    }
}

pub(crate) fn find_enemy(enemies: &Vec<EnemySnapshot>, entity: u64) -> (found: Option<usize>)
    ensures
        match found {
            Some(k) => k < enemies@.len() && enemy_index(enemies@, entity) == Some(k as int),
            None => enemy_index(enemies@, entity) is None,
        },
{
    let mut index: usize = 0;
    while index < enemies.len()
        invariant
            index <= enemies@.len(),
            forall|j: int| 0 <= j < index ==> (#[trigger] enemies@[j]).entity != entity,
        decreases enemies@.len() - index,
    {
        if enemies[index].entity == entity {
            proof {
                let k = enemy_index(enemies@, entity)->Some_0;
                if k < index as int {
                    assert(enemies@[k].entity != entity);
                }
                if (index as int) < k {
                    assert(enemies@[index as int].entity != entity);
                }
            }
            return Some(index);
        }
        index = index + 1;
    }
    None
}

fn find_pickup(pickups: &Vec<PickupSnapshot>, entity: u64) -> (found: Option<usize>)
    ensures
        match found {
            Some(k) => k < pickups@.len() && pickup_index(pickups@, entity) == Some(k as int),
            None => pickup_index(pickups@, entity) is None,
        },
{
    let mut index: usize = 0;
    while index < pickups.len()
        invariant
            index <= pickups@.len(),
            forall|j: int| 0 <= j < index ==> (#[trigger] pickups@[j]).entity != entity,
        decreases pickups@.len() - index,
    {
        if pickups[index].entity == entity {
            proof {
                let k = pickup_index(pickups@, entity)->Some_0;
                if k < index as int {
                    assert(pickups@[k].entity != entity);
                }
                if (index as int) < k {
                    assert(pickups@[index as int].entity != entity);
                }
            }
            return Some(index);
        }
        index = index + 1;
    }
    None
}

fn drop_enemy_seen(drops: &Vec<EnemyDropSnapshot>, end: usize, enemy: u64) -> (seen: bool)
    requires
        end <= drops@.len(),
    ensures
        seen == exists|j: int| 0 <= j < end && (#[trigger] drops@[j]).enemy == enemy,
{
    let mut index: usize = 0;
    while index < end
        invariant
            end <= drops@.len(),
            index <= end,
            forall|j: int| 0 <= j < index ==> (#[trigger] drops@[j]).enemy != enemy,
        decreases end - index,
    {
        if drops[index].enemy == enemy {
            return true;
        }
        index = index + 1;
    }
    false
}

fn drop_pickup_seen(drops: &Vec<EnemyDropSnapshot>, end: usize, pickup: u64) -> (seen: bool)
    requires
        end <= drops@.len(),
    ensures
        seen == exists|j: int| 0 <= j < end && (#[trigger] drops@[j]).pickup == pickup,
{
    let mut index: usize = 0;
    while index < end
        invariant
            end <= drops@.len(),
            index <= end,
            forall|j: int| 0 <= j < index ==> (#[trigger] drops@[j]).pickup != pickup,
        decreases end - index,
    {
        if drops[index].pickup == pickup {
            return true;
        }
        index = index + 1;
    }
    false
}

/// The least entity of a dormant pickup that no drop names, if any.
pub open spec fn least_stranded_pickup(pickups: Seq<PickupSnapshot>, drops: Seq<EnemyDropSnapshot>) -> Option<u64> {
    if exists|entity: u64| #[trigger] stranded_pickup(pickups, drops, entity) {
        Some(
            choose|entity: u64|
                #[trigger] stranded_pickup(pickups, drops, entity) && forall|other: u64|
                    #[trigger] stranded_pickup(pickups, drops, other) ==> entity <= other,
        )
    } else {
        None
    }
}

fn find_stranded_pickup(pickups: &Vec<PickupSnapshot>, drops: &Vec<EnemyDropSnapshot>) -> (found: Option<u64>)
    ensures
        found == least_stranded_pickup(pickups@, drops@),
{
    let mut stranded: Option<u64> = None;
    let mut p: usize = 0;
    while p < pickups.len()
        invariant
            p <= pickups@.len(),
            match stranded {
                Some(entity) => stranded_pickup(pickups@, drops@, entity) && forall|q: int|
                    0 <= q < p && #[trigger] stranded_at(pickups@, drops@, q) ==> entity
                        <= pickups@[q].entity,
                None => forall|q: int| 0 <= q < p ==> !#[trigger] stranded_at(pickups@, drops@, q),
            },
        decreases pickups@.len() - p,
    {
        let pickup = &pickups[p];
        if matches!(pickup.state, SnapshotPickupState::Dormant) && !drop_pickup_seen(
            drops,
            drops.len(),
            pickup.entity,
        ) {
            proof {
                assert(stranded_at(pickups@, drops@, p as int));
                assert(stranded_pickup(pickups@, drops@, pickup.entity));
            }
            let better = match stranded {
                Some(entity) => pickup.entity < entity,
                None => true,
            };
            if better {
                stranded = Some(pickup.entity);
            }
        } else {
            assert(!stranded_at(pickups@, drops@, p as int));
        }
        p = p + 1;
    }
    match stranded {
        Some(entity) => {
            proof {
                assert forall|other: u64| #[trigger] stranded_pickup(pickups@, drops@, other) implies entity
                    <= other by {
                    let q = choose|q: int|
                        0 <= q < pickups@.len() && (#[trigger] pickups@[q]).entity == other
                            && stranded_at(pickups@, drops@, q);
                    assert(stranded_at(pickups@, drops@, q));
                }
                let chosen = least_stranded_pickup(pickups@, drops@)->Some_0;
                assert(chosen <= entity);
                assert(entity <= chosen);
            }
            Some(entity)
        },
        None => {
            proof {
                assert forall|other: u64| !#[trigger] stranded_pickup(pickups@, drops@, other) by {
                    if stranded_pickup(pickups@, drops@, other) {
                        let q = choose|q: int|
                            0 <= q < pickups@.len() && (#[trigger] pickups@[q]).entity == other
                                && stranded_at(pickups@, drops@, q);
                        assert(stranded_at(pickups@, drops@, q));
                    }
                }
            }
            None
        },
    }
}

fn check_drop_entries(
    drops: &Vec<EnemyDropSnapshot>,
    enemies: &Vec<EnemySnapshot>,
    pickups: &Vec<PickupSnapshot>,
) -> (result: Result<(), GameSnapshotError>)
    ensures
        result == as_result(first_drop_violation(drops@, enemies@, pickups@, 0)),
{
    let mut index: usize = 0;
    while index < drops.len()
        invariant
            index <= drops@.len(),
            first_drop_violation(drops@, enemies@, pickups@, 0) == first_drop_violation(
                drops@,
                enemies@,
                pickups@,
                index as int,
            ),
        decreases drops@.len() - index,
    {
        let drop = drops[index];
        let ghost i = index as int;
        if drop_enemy_seen(drops, index, drop.enemy) {
            return Err(GameSnapshotError::DuplicateEnemyDrop { enemy: drop.enemy });
        }
        if drop_pickup_seen(drops, index, drop.pickup) {
            return Err(GameSnapshotError::DuplicateEnemyDropPickup { pickup: drop.pickup });
        }
        let invalid = GameSnapshotError::InvalidEnemyDropState { enemy: drop.enemy, pickup: drop.pickup };
        let e = match find_enemy(enemies, drop.enemy) {
            Some(e) => e,
            None => {
                return Err(invalid);
            },
        };
        let p = match find_pickup(pickups, drop.pickup) {
            Some(p) => p,
            None => {
                return Err(invalid);
            },
        };
        let agrees = match drop.state {
            SnapshotEnemyDropState::Armed => {
                matches!(enemies[e].state, SnapshotEnemyState::Alive) && matches!(pickups[p].state, SnapshotPickupState::Dormant)
            },
            SnapshotEnemyDropState::Materialized => {
                matches!(enemies[e].state, SnapshotEnemyState::Defeated) && (matches!(pickups[p].state, SnapshotPickupState::Available) || matches!(pickups[p].state, SnapshotPickupState::Collected { .. }))
            },
        };
        if !agrees {
            return Err(invalid);
        }
        assert(drop_violation(drops@, enemies@, pickups@, i) is None);
        index = index + 1;
    }
    Ok(())
}

/// Checks a snapshot's enemy drops against its restored enemies and
/// pickups, and that every dormant pickup is some drop's.
pub fn check_enemy_drops(
    drops: &Vec<EnemyDropSnapshot>,
    enemies: &Vec<EnemySnapshot>,
    pickups: &Vec<PickupSnapshot>,
) -> (result: Result<(), GameSnapshotError>)
    ensures
        result == as_result(drops_outcome(drops@, enemies@, pickups@)),
{
    check_drop_entries(drops, enemies, pickups)?;
    match find_stranded_pickup(pickups, drops) {
        Some(entity) => Err(GameSnapshotError::DormantPickupMissingEnemyDrop { pickup: entity }),
        None => Ok(()),
    }
}

pub open spec fn schedule_violation(
    scheduled: Seq<ScheduledSnapshot>,
    doors: Seq<DoorSnapshot>,
    i: int,
) -> Option<GameSnapshotError> {
    match scheduled[i].kind {
        ScheduledSnapshotKind::CloseDoor { door } => if !exists|d: int|
            0 <= d < doors.len() && (#[trigger] doors[d]).entity == door {
            Some(GameSnapshotError::UnknownDoorEntity { entity: door })
        } else if exists|j: int|
            0 <= j < i && (#[trigger] scheduled[j]).kind == (ScheduledSnapshotKind::CloseDoor { door }) {
            Some(GameSnapshotError::DuplicateSchedule { door })
        } else {
            None
        },
    }
}

pub open spec fn first_schedule_violation(
    scheduled: Seq<ScheduledSnapshot>,
    doors: Seq<DoorSnapshot>,
    i: int,
) -> Option<GameSnapshotError>
    decreases scheduled.len() - i,
{
    if i < 0 || i >= scheduled.len() {
        None
    } else {
        match schedule_violation(scheduled, doors, i) {
            Some(error) => Some(error),
            None => first_schedule_violation(scheduled, doors, i + 1),
        }
    }
}

fn door_restored(doors: &Vec<DoorSnapshot>, entity: u64) -> (found: bool)
    ensures
        found == exists|d: int| 0 <= d < doors@.len() && (#[trigger] doors@[d]).entity == entity,
{
    let mut index: usize = 0;
    while index < doors.len()
        invariant
            index <= doors@.len(),
            forall|j: int| 0 <= j < index ==> (#[trigger] doors@[j]).entity != entity,
        decreases doors@.len() - index,
    {
        if doors[index].entity == entity {
            return true;
        }
        index = index + 1;
    }
    false
}

/// Checks a snapshot's scheduled door closings: each names a restored door,
/// and no door is scheduled twice.
pub fn check_schedules(scheduled: &Vec<ScheduledSnapshot>, doors: &Vec<DoorSnapshot>) -> (result:
    Result<(), GameSnapshotError>)
    ensures
        result == as_result(first_schedule_violation(scheduled@, doors@, 0)),
{
    let mut index: usize = 0;
    while index < scheduled.len()
        invariant
            index <= scheduled@.len(),
            first_schedule_violation(scheduled@, doors@, 0) == first_schedule_violation(
                scheduled@,
                doors@,
                index as int,
            ),
        decreases scheduled@.len() - index,
    {
        let ghost i = index as int;
        match scheduled[index].kind {
            ScheduledSnapshotKind::CloseDoor { door } => {
                if !door_restored(doors, door) {
                    return Err(GameSnapshotError::UnknownDoorEntity { entity: door });
                }
                let mut j: usize = 0;
                while j < index
                    invariant
                        index < scheduled@.len(),
                        i == index as int,
                        j <= index,
                        first_schedule_violation(scheduled@, doors@, 0) == first_schedule_violation(
                            scheduled@,
                            doors@,
                            i,
                        ),
                        exists|d: int| 0 <= d < doors@.len() && (#[trigger] doors@[d]).entity == door,
                        scheduled@[i].kind == (ScheduledSnapshotKind::CloseDoor { door }),
                        forall|k: int|
                            0 <= k < j ==> (#[trigger] scheduled@[k]).kind != (
                            ScheduledSnapshotKind::CloseDoor { door }),
                    decreases index - j,
                {
                    match scheduled[j].kind {
                        ScheduledSnapshotKind::CloseDoor { door: other } => {
                            if other == door {
                                assert(scheduled@[j as int].kind == (ScheduledSnapshotKind::CloseDoor { door }));
                                return Err(GameSnapshotError::DuplicateSchedule { door });
                            }
                        },
                    }
                    j = j + 1;
                }
            },
        }
        assert(schedule_violation(scheduled@, doors@, i) is None);
        index = index + 1;
    }
    Ok(())
}

/// The encounter lists `member`.
pub open spec fn lists(encounter: EncounterSnapshot, member: u64) -> bool {
    exists|j: int| 0 <= j < encounter.members@.len() && encounter.members@[j] == member
}

/// The earliest encounter before the `i`-th that lists `member`.
#[verifier::opaque]
pub open spec fn earlier_encounter_of(encounters: Seq<EncounterSnapshot>, i: int, member: u64) -> Option<int> {
    if exists|t: int| 0 <= t < i && #[trigger] lists(encounters[t], member) {
        Some(
            choose|t: int|
                0 <= t < i && #[trigger] lists(encounters[t], member) && forall|u: int|
                    0 <= u < t ==> !#[trigger] lists(encounters[u], member),
        )
    } else {
        None
    }
}

#[verifier::opaque]
pub open spec fn member_violation(
    members: Seq<u64>,
    encounter: u64,
    encounters: Seq<EncounterSnapshot>,
    i: int,
    enemies: Seq<EnemySnapshot>,
    k: int,
) -> Option<GameSnapshotError> {
    let member = members[k];
    if exists|j: int| 0 <= j < k && members[j] == member {
        Some(GameSnapshotError::DuplicateEncounterMember { encounter, member })
    } else if enemy_index(enemies, member) is None {
        Some(GameSnapshotError::UnknownEncounterMember { encounter, member })
    } else {
        match earlier_encounter_of(encounters, i, member) {
            Some(t) => Some(
                GameSnapshotError::EnemyInMultipleEncounters {
                    enemy: member,
                    first: encounters[t].entity,
                    second: encounter,
                },
            ),
            None => None,
        }
    }
}

/// The first refusal among the members of the `i`-th encounter (of entity
/// `encounter`, listing `members`) from the `k`-th on.
pub open spec fn first_member_violation(
    members: Seq<u64>,
    encounter: u64,
    encounters: Seq<EncounterSnapshot>,
    i: int,
    enemies: Seq<EnemySnapshot>,
    k: int,
) -> Option<GameSnapshotError>
    decreases members.len() - k,
{
    if k < 0 || k >= members.len() {
        None
    } else {
        match member_violation(members, encounter, encounters, i, enemies, k) {
            Some(error) => Some(error),
            None => first_member_violation(members, encounter, encounters, i, enemies, k + 1),
        }
    }
}

/// The refusal owed to the `i`-th encounter. `radius_in_range[i]` says
/// whether its activation radius, when it has one, is finite, positive and
/// within the engine's limit.
pub open spec fn encounter_violation(
    encounters: Seq<EncounterSnapshot>,
    radius_in_range: Seq<bool>,
    entities: Seq<EntityCapabilities>,
    doors: Seq<DoorSnapshot>,
    enemies: Seq<EnemySnapshot>,
    i: int,
) -> Option<GameSnapshotError> {
    let encounter = encounters[i];
    let entity = encounter.entity;
    if exists|j: int| 0 <= j < i && (#[trigger] encounters[j]).entity == entity {
        Some(GameSnapshotError::DuplicateEncounter { entity })
    } else {
        match capability_index(entities, entity) {
            None => Some(GameSnapshotError::UnknownEncounterEntity { entity }),
            Some(c) => if (encounter.activation_radius is Some && (!radius_in_range[i]
                || !entities[c].transform)) || (encounter.state == SnapshotEncounterState::Dormant
                && encounter.activation_radius is None) {
                Some(GameSnapshotError::InvalidEncounterActivation { encounter: entity })
            } else if !exists|d: int| 0 <= d < doors.len() && (#[trigger] doors[d]).entity == encounter.exit {
                Some(GameSnapshotError::UnknownEncounterExit { encounter: entity, exit: encounter.exit })
            } else {
                first_member_violation(encounter.members@, entity, encounters, i, enemies, 0)
            },
        }
    }
}

pub open spec fn first_encounter_violation(
    encounters: Seq<EncounterSnapshot>,
    radius_in_range: Seq<bool>,
    entities: Seq<EntityCapabilities>,
    doors: Seq<DoorSnapshot>,
    enemies: Seq<EnemySnapshot>,
    i: int,
) -> Option<GameSnapshotError>
    decreases encounters.len() - i,
{
    if i < 0 || i >= encounters.len() {
        None
    } else {
        match encounter_violation(encounters, radius_in_range, entities, doors, enemies, i) {
            Some(error) => Some(error),
            None => first_encounter_violation(encounters, radius_in_range, entities, doors, enemies, i + 1),
        }
    }
}

fn member_listed(members: &Vec<u64>, end: usize, member: u64) -> (listed: bool)
    requires
        end <= members@.len(),
    ensures
        listed == exists|j: int| 0 <= j < end && members@[j] == member,
{
    let mut index: usize = 0;
    while index < end
        invariant
            end <= members@.len(),
            index <= end,
            forall|j: int| 0 <= j < index ==> members@[j] != member,
        decreases end - index,
    {
        if members[index] == member {
            return true;
        }
        index = index + 1;
    }
    false
}

fn earliest_listing(encounters: &Vec<EncounterSnapshot>, end: usize, member: u64) -> (found: Option<usize>)
    requires
        end <= encounters@.len(),
    ensures
        match found {
            Some(t) => t < end && earlier_encounter_of(encounters@, end as int, member) == Some(t as int),
            None => earlier_encounter_of(encounters@, end as int, member) is None,
        },
{
    reveal(earlier_encounter_of);
    let mut index: usize = 0;
    while index < end
        invariant
            end <= encounters@.len(),
            index <= end,
            forall|u: int| 0 <= u < index ==> !#[trigger] lists(encounters@[u], member),
        decreases end - index,
    {
        let members = &encounters[index].members;
        if member_listed(members, members.len(), member) {
            proof {
                reveal(earlier_encounter_of);
                let i = index as int;
                assert(lists(encounters@[i], member));
                let t = earlier_encounter_of(encounters@, end as int, member)->Some_0;
                if t < i {
                    assert(!lists(encounters@[t], member));
                }
                if i < t {
                    assert(!lists(encounters@[i], member));
                }
            }
            return Some(index);
        }
        index = index + 1;
    }
    None
}

fn encounter_seen(encounters: &Vec<EncounterSnapshot>, end: usize, entity: u64) -> (seen: bool)
    requires
        end <= encounters@.len(),
    ensures
        seen == exists|j: int| 0 <= j < end && (#[trigger] encounters@[j]).entity == entity,
{
    let mut index: usize = 0;
    while index < end
        invariant
            end <= encounters@.len(),
            index <= end,
            forall|j: int| 0 <= j < index ==> (#[trigger] encounters@[j]).entity != entity,
        decreases end - index,
    {
        if encounters[index].entity == entity {
            return true;
        }
        index = index + 1;
    }
    false
}

proof fn lemma_member_outcome(
    members: Seq<u64>,
    encounter: u64,
    encounters: Seq<EncounterSnapshot>,
    i: int,
    enemies: Seq<EnemySnapshot>,
    k: int,
)
    requires
        0 <= k < members.len(),
    ensures
        (exists|j: int| 0 <= j < k && members[j] == members[k]) ==> member_violation(
            members,
            encounter,
            encounters,
            i,
            enemies,
            k,
        ) == Some(GameSnapshotError::DuplicateEncounterMember { encounter, member: members[k] }),
        !(exists|j: int| 0 <= j < k && members[j] == members[k]) && enemy_index(enemies, members[k])
            is None ==> member_violation(members, encounter, encounters, i, enemies, k) == Some(
            GameSnapshotError::UnknownEncounterMember { encounter, member: members[k] },
        ),
        !(exists|j: int| 0 <= j < k && members[j] == members[k]) && enemy_index(enemies, members[k])
            is Some ==> member_violation(members, encounter, encounters, i, enemies, k) == match earlier_encounter_of(
            encounters,
            i,
            members[k],
        ) {
            Some(t) => Some(
                GameSnapshotError::EnemyInMultipleEncounters {
                    enemy: members[k],
                    first: encounters[t].entity,
                    second: encounter,
                },
            ),
            None => None,
        },
{
    reveal(member_violation);
}

fn check_members(encounters: &Vec<EncounterSnapshot>, enemies: &Vec<EnemySnapshot>, i: usize) -> (result:
    Result<(), GameSnapshotError>)
    requires
        i < encounters@.len(),
    ensures
        result == as_result(
            first_member_violation(
                encounters@[i as int].members@,
                encounters@[i as int].entity,
                encounters@,
                i as int,
                enemies@,
                0,
            ),
        ),
{
    let members = &encounters[i].members;
    let encounter = encounters[i].entity;
    let ghost listed = members@;
    let mut k: usize = 0;
    while k < members.len()
        invariant
            i < encounters@.len(),
            listed == members@,
            listed == encounters@[i as int].members@,
            encounter == encounters@[i as int].entity,
            k <= members@.len(),
            first_member_violation(listed, encounter, encounters@, i as int, enemies@, 0)
                == first_member_violation(listed, encounter, encounters@, i as int, enemies@, k as int),
        decreases members@.len() - k,
    {
        let member = members[k];
        proof {
            lemma_member_outcome(listed, encounter, encounters@, i as int, enemies@, k as int);
        }
        if member_listed(members, k, member) {
            return Err(GameSnapshotError::DuplicateEncounterMember { encounter, member });
        }
        if find_enemy(enemies, member).is_none() {
            return Err(GameSnapshotError::UnknownEncounterMember { encounter, member });
        }
        match earliest_listing(encounters, i, member) {
            Some(t) => {
                return Err(
                    GameSnapshotError::EnemyInMultipleEncounters {
                        enemy: member,
                        first: encounters[t].entity,
                        second: encounter,
                    },
                );
            },
            None => {},
        }
        k = k + 1;
    }
    Ok(())
}

/// Checks a snapshot's encounters: each names a distinct restored entity,
/// carries an activation radius in range (with a transform to measure it
/// from) or none, and a dormant one has a radius; its exit is a restored
/// door; and its members are distinct restored enemies that no earlier
/// encounter lists. `radius_in_range` holds, per encounter, the engine's
/// verdict on its floating-point radius.
pub fn check_encounters(
    encounters: &Vec<EncounterSnapshot>,
    radius_in_range: &Vec<bool>,
    entities: &Vec<EntityCapabilities>,
    doors: &Vec<DoorSnapshot>,
    enemies: &Vec<EnemySnapshot>,
) -> (result: Result<(), GameSnapshotError>)
    requires
        radius_in_range@.len() == encounters@.len(),
    ensures
        result == as_result(
            first_encounter_violation(encounters@, radius_in_range@, entities@, doors@, enemies@, 0),
        ),
{
    let mut index: usize = 0;
    while index < encounters.len()
        invariant
            radius_in_range@.len() == encounters@.len(),
            index <= encounters@.len(),
            first_encounter_violation(encounters@, radius_in_range@, entities@, doors@, enemies@, 0)
                == first_encounter_violation(
                encounters@,
                radius_in_range@,
                entities@,
                doors@,
                enemies@,
                index as int,
            ),
        decreases encounters@.len() - index,
    {
        let encounter = &encounters[index];
        let entity = encounter.entity;
        if encounter_seen(encounters, index, entity) {
            return Err(GameSnapshotError::DuplicateEncounter { entity });
        }
        let c = match crate::snapshot_restore::find_capabilities(entities, entity) {
            Some(c) => c,
            None => {
                return Err(GameSnapshotError::UnknownEncounterEntity { entity });
            },
        };
        let has_radius = encounter.activation_radius.is_some();
        if (has_radius && (!radius_in_range[index] || !entities[c].transform)) || (matches!(
            encounter.state,
            SnapshotEncounterState::Dormant
        ) && !has_radius) {
            return Err(GameSnapshotError::InvalidEncounterActivation { encounter: entity });
        }
        if !door_restored(doors, encounter.exit) {
            return Err(GameSnapshotError::UnknownEncounterExit { encounter: entity, exit: encounter.exit });
        }
        check_members(encounters, enemies, index)?;
        index = index + 1;
    }
    Ok(())
}

/// The first restored health of entity `entity`.
pub open spec fn health_index(health: Seq<HealthSnapshot>, entity: u64) -> Option<int> {
    if exists|i: int| 0 <= i < health.len() && (#[trigger] health[i]).entity == entity {
        Some(
            choose|i: int|
                0 <= i < health.len() && (#[trigger] health[i]).entity == entity && forall|j: int|
                    0 <= j < i ==> (#[trigger] health[j]).entity != entity,
        )
    } else {
        None
    }
}

/// The `e`-th enemy has health, and that health disagrees with its state:
/// a living enemy needs health above zero, a defeated one none left.
pub open spec fn health_disagrees_at(enemies: Seq<EnemySnapshot>, health: Seq<HealthSnapshot>, e: int) -> bool {
    match health_index(health, enemies[e].entity) {
        Some(h) => match enemies[e].state {
            SnapshotEnemyState::Alive => health[h].current == 0,
            SnapshotEnemyState::Defeated => health[h].current != 0,
        },
        None => false,
    }
}

pub open spec fn health_disagrees(enemies: Seq<EnemySnapshot>, health: Seq<HealthSnapshot>, entity: u64) -> bool {
    exists|e: int|
        0 <= e < enemies.len() && (#[trigger] enemies[e]).entity == entity && health_disagrees_at(
            enemies,
            health,
            e,
        )
}

/// The least enemy entity whose health disagrees with its state, if any.
pub open spec fn least_health_mismatch(enemies: Seq<EnemySnapshot>, health: Seq<HealthSnapshot>) -> Option<u64> {
    if exists|entity: u64| #[trigger] health_disagrees(enemies, health, entity) {
        Some(
            choose|entity: u64|
                #[trigger] health_disagrees(enemies, health, entity) && forall|other: u64|
                    #[trigger] health_disagrees(enemies, health, other) ==> entity <= other,
        )
    } else {
        None
    }
}

pub(crate) fn find_health(health: &Vec<HealthSnapshot>, entity: u64) -> (found: Option<usize>)
    ensures
        match found {
            Some(k) => k < health@.len() && health_index(health@, entity) == Some(k as int),
            None => health_index(health@, entity) is None,
        },
{
    let mut index: usize = 0;
    while index < health.len()
        invariant
            index <= health@.len(),
            forall|j: int| 0 <= j < index ==> (#[trigger] health@[j]).entity != entity,
        decreases health@.len() - index,
    {
        if health[index].entity == entity {
            proof {
                let k = health_index(health@, entity)->Some_0;
                if k < index as int {
                    assert(health@[k].entity != entity);
                }
                if (index as int) < k {
                    assert(health@[index as int].entity != entity);
                }
            }
            return Some(index);
        }
        index = index + 1;
    }
    None
}

/// Checks that every restored enemy with health is alive exactly while its
/// health is above zero; the enemy of least entity that is not is refused.
pub fn check_enemy_health(enemies: &Vec<EnemySnapshot>, health: &Vec<HealthSnapshot>) -> (result: Result<
    (),
    GameSnapshotError,
>)
    ensures
        result == match least_health_mismatch(enemies@, health@) {
            Some(entity) => Err(GameSnapshotError::EnemyHealthStateMismatch { entity }),
            None => Ok(()),
        },
{
    let mut mismatch: Option<u64> = None;
    let mut e: usize = 0;
    while e < enemies.len()
        invariant
            e <= enemies@.len(),
            match mismatch {
                Some(entity) => health_disagrees(enemies@, health@, entity) && forall|q: int|
                    0 <= q < e && #[trigger] health_disagrees_at(enemies@, health@, q) ==> entity
                        <= enemies@[q].entity,
                None => forall|q: int| 0 <= q < e ==> !#[trigger] health_disagrees_at(enemies@, health@, q),
            },
        decreases enemies@.len() - e,
    {
        let enemy = &enemies[e];
        let disagrees = match find_health(health, enemy.entity) {
            Some(h) => match enemy.state {
                SnapshotEnemyState::Alive => health[h].current == 0,
                SnapshotEnemyState::Defeated => health[h].current != 0,
            },
            None => false,
        };
        if disagrees {
            proof {
                assert(health_disagrees_at(enemies@, health@, e as int));
                assert(health_disagrees(enemies@, health@, enemy.entity));
            }
            let better = match mismatch {
                Some(entity) => enemy.entity < entity,
                None => true,
            };
            if better {
                mismatch = Some(enemy.entity);
            }
        } else {
            assert(!health_disagrees_at(enemies@, health@, e as int));
        }
        e = e + 1;
    }
    match mismatch {
        Some(entity) => {
            proof {
                assert forall|other: u64| #[trigger] health_disagrees(enemies@, health@, other) implies entity
                    <= other by {
                    let q = choose|q: int|
                        0 <= q < enemies@.len() && (#[trigger] enemies@[q]).entity == other
                            && health_disagrees_at(enemies@, health@, q);
                    assert(health_disagrees_at(enemies@, health@, q));
                }
                let chosen = least_health_mismatch(enemies@, health@)->Some_0;
                assert(chosen <= entity);
                assert(entity <= chosen);
            }
            Err(GameSnapshotError::EnemyHealthStateMismatch { entity })
        },
        None => {
            proof {
                assert forall|other: u64| !#[trigger] health_disagrees(enemies@, health@, other) by {
                    if health_disagrees(enemies@, health@, other) {
                        let q = choose|q: int|
                            0 <= q < enemies@.len() && (#[trigger] enemies@[q]).entity == other
                                && health_disagrees_at(enemies@, health@, q);
                        assert(health_disagrees_at(enemies@, health@, q));
                    }
                }
            }
            Ok(())
        },
    }
}

/// The refusal owed to the `i`-th extraction beacon. `radius_valid[i]`
/// says whether its floating-point activation radius makes a valid beacon
/// configuration, as the engine judges it.
pub open spec fn beacon_violation(
    beacons: Seq<ExtractionBeaconSnapshot>,
    radius_valid: Seq<bool>,
    entities: Seq<EntityCapabilities>,
    tick: u64,
    i: int,
) -> Option<GameSnapshotError> {
    let beacon = beacons[i];
    let entity = beacon.entity;
    if exists|j: int| 0 <= j < i && (#[trigger] beacons[j]).entity == entity {
        Some(GameSnapshotError::DuplicateExtractionBeacon { entity })
    } else {
        match capability_index(entities, entity) {
            None => Some(GameSnapshotError::UnknownExtractionBeaconEntity { entity }),
            Some(c) => if !(entities[c].transform && entities[c].renderable) {
                Some(GameSnapshotError::MissingExtractionBeaconCapability { entity })
            } else if !radius_valid[i] {
                Some(GameSnapshotError::InvalidExtractionBeaconConfig { entity })
            } else {
                match beacon.state {
                    SnapshotExtractionBeaconState::Standby => None,
                    SnapshotExtractionBeaconState::Active { actor, activated_at_tick } => {
                        match capability_index(entities, actor) {
                            Some(a) => if !entities[a].transform {
                                Some(GameSnapshotError::UnknownExtractionBeaconActor { beacon: entity, actor })
                            } else if activated_at_tick > tick {
                                Some(
                                    GameSnapshotError::ExtractionBeaconActivationFromFuture {
                                        entity,
                                        activated_at_tick,
                                        snapshot_tick: tick,
                                    },
                                )
                            } else {
                                None
                            },
                            None => Some(GameSnapshotError::UnknownExtractionBeaconActor { beacon: entity, actor }),
                        }
                    },
                }
            },
        }
    }
}

pub open spec fn first_beacon_violation(
    beacons: Seq<ExtractionBeaconSnapshot>,
    radius_valid: Seq<bool>,
    entities: Seq<EntityCapabilities>,
    tick: u64,
    i: int,
) -> Option<GameSnapshotError>
    decreases beacons.len() - i,
{
    if i < 0 || i >= beacons.len() {
        None
    } else {
        match beacon_violation(beacons, radius_valid, entities, tick, i) {
            Some(error) => Some(error),
            None => first_beacon_violation(beacons, radius_valid, entities, tick, i + 1),
        }
    }
}

fn beacon_seen(beacons: &Vec<ExtractionBeaconSnapshot>, end: usize, entity: u64) -> (seen: bool)
    requires
        end <= beacons@.len(),
    ensures
        seen == exists|j: int| 0 <= j < end && (#[trigger] beacons@[j]).entity == entity,
{
    let mut index: usize = 0;
    while index < end
        invariant
            end <= beacons@.len(),
            index <= end,
            forall|j: int| 0 <= j < index ==> (#[trigger] beacons@[j]).entity != entity,
        decreases end - index,
    {
        if beacons[index].entity == entity {
            return true;
        }
        index = index + 1;
    }
    false
}

/// Checks a snapshot's extraction beacons, taken at tick `tick`: each names
/// a distinct entity with a transform and a renderable and a valid radius
/// (`radius_valid`, the engine's verdict per beacon); an active one names a
/// restored actor with a transform, activated no later than `tick`.
pub fn check_extraction_beacons(
    beacons: &Vec<ExtractionBeaconSnapshot>,
    radius_valid: &Vec<bool>,
    entities: &Vec<EntityCapabilities>,
    tick: u64,
) -> (result: Result<(), GameSnapshotError>)
    requires
        radius_valid@.len() == beacons@.len(),
    ensures
        result == as_result(first_beacon_violation(beacons@, radius_valid@, entities@, tick, 0)),
{
    let mut index: usize = 0;
    while index < beacons.len()
        invariant
            radius_valid@.len() == beacons@.len(),
            index <= beacons@.len(),
            first_beacon_violation(beacons@, radius_valid@, entities@, tick, 0) == first_beacon_violation(
                beacons@,
                radius_valid@,
                entities@,
                tick,
                index as int,
            ),
        decreases beacons@.len() - index,
    {
        let beacon = &beacons[index];
        let entity = beacon.entity;
        let ghost here = beacon_violation(beacons@, radius_valid@, entities@, tick, index as int);
        if beacon_seen(beacons, index, entity) {
            return Err(GameSnapshotError::DuplicateExtractionBeacon { entity });
        }
        let c = match crate::snapshot_restore::find_capabilities(entities, entity) {
            Some(c) => c,
            None => {
                return Err(GameSnapshotError::UnknownExtractionBeaconEntity { entity });
            },
        };
        if !(entities[c].transform && entities[c].renderable) {
            return Err(GameSnapshotError::MissingExtractionBeaconCapability { entity });
        }
        if !radius_valid[index] {
            return Err(GameSnapshotError::InvalidExtractionBeaconConfig { entity });
        }
        match beacon.state {
            SnapshotExtractionBeaconState::Standby => {},
            SnapshotExtractionBeaconState::Active { actor, activated_at_tick } => {
                match crate::snapshot_restore::find_capabilities(entities, actor) {
                    Some(a) => {
                        if !entities[a].transform {
                            return Err(GameSnapshotError::UnknownExtractionBeaconActor { beacon: entity, actor });
                        }
                    },
                    None => {
                        return Err(GameSnapshotError::UnknownExtractionBeaconActor { beacon: entity, actor });
                    },
                }
                if activated_at_tick > tick {
                    return Err(
                        GameSnapshotError::ExtractionBeaconActivationFromFuture {
                            entity,
                            activated_at_tick,
                            snapshot_tick: tick,
                        },
                    );
                }
            },
        }
        assert(here is None);
        index = index + 1;
    }
    Ok(())
}

/// Restored enemy drops leave no pickup stranded: every dormant pickup is
/// the pickup of some drop.
pub proof fn lemma_accepted_drops_cover_dormant_pickups(
    drops: Seq<EnemyDropSnapshot>,
    enemies: Seq<EnemySnapshot>,
    pickups: Seq<PickupSnapshot>,
    p: int,
)
    requires
        drops_outcome(drops, enemies, pickups) is None,
        0 <= p < pickups.len(),
        pickups[p].state == SnapshotPickupState::Dormant,
    ensures
        exists|d: int| 0 <= d < drops.len() && (#[trigger] drops[d]).pickup == pickups[p].entity,
{
    if !exists|d: int| 0 <= d < drops.len() && (#[trigger] drops[d]).pickup == pickups[p].entity {
        assert(stranded_at(pickups, drops, p));
        assert(stranded_pickup(pickups, drops, pickups[p].entity));
    }
}

proof fn lemma_encounters_pass_from(
    encounters: Seq<EncounterSnapshot>,
    radius_in_range: Seq<bool>,
    entities: Seq<EntityCapabilities>,
    doors: Seq<DoorSnapshot>,
    enemies: Seq<EnemySnapshot>,
    k: int,
    i: int,
)
    requires
        0 <= k <= i < encounters.len(),
        first_encounter_violation(encounters, radius_in_range, entities, doors, enemies, k) is None,
    ensures
        encounter_violation(encounters, radius_in_range, entities, doors, enemies, i) is None,
    decreases i - k,
{
    if k < i {
        lemma_encounters_pass_from(encounters, radius_in_range, entities, doors, enemies, k + 1, i);
    }
}

proof fn lemma_members_pass_from(
    members: Seq<u64>,
    encounter: u64,
    encounters: Seq<EncounterSnapshot>,
    i: int,
    enemies: Seq<EnemySnapshot>,
    k: int,
    m: int,
)
    requires
        0 <= k <= m < members.len(),
        first_member_violation(members, encounter, encounters, i, enemies, k) is None,
    ensures
        member_violation(members, encounter, encounters, i, enemies, m) is None,
    decreases m - k,
{
    if k < m {
        lemma_members_pass_from(members, encounter, encounters, i, enemies, k + 1, m);
    }
}

/// In restored encounters no enemy belongs to two encounters.
pub proof fn lemma_accepted_encounters_share_no_enemy(
    encounters: Seq<EncounterSnapshot>,
    radius_in_range: Seq<bool>,
    entities: Seq<EntityCapabilities>,
    doors: Seq<DoorSnapshot>,
    enemies: Seq<EnemySnapshot>,
    i: int,
    j: int,
    member: u64,
)
    requires
        first_encounter_violation(encounters, radius_in_range, entities, doors, enemies, 0) is None,
        0 <= i < j < encounters.len(),
        lists(encounters[i], member),
    ensures
        !lists(encounters[j], member),
{
    lemma_encounters_pass_from(encounters, radius_in_range, entities, doors, enemies, 0, j);
    if lists(encounters[j], member) {
        let members = encounters[j].members@;
        let k = choose|k: int| 0 <= k < members.len() && members[k] == member;
        lemma_members_pass_from(members, encounters[j].entity, encounters, j, enemies, 0, k);
        reveal(member_violation);
        reveal(earlier_encounter_of);
        assert(exists|t: int| 0 <= t < j && #[trigger] lists(encounters[t], member)) by {
            assert(lists(encounters[i], member));
        }
        if !exists|q: int| 0 <= q < k && members[q] == member {
            assert(earlier_encounter_of(encounters, j, member) is Some);
        }
    }
}

} // verus!
