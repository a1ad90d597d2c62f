//! Restoring the door network of a game snapshot: every door, switch and
//! switch control must name distinct entities of the restored entity state
//! that carry what the component needs, and controls must name restored
//! switches and doors. The entity state itself is the engine's; what these
//! checks read of it is given as entity capabilities.
use vstd::prelude::*;

use crate::snapshot::{
    ControlsSnapshot, DoorSnapshot, EnemySnapshot, GameSnapshotError, LoadingBayInterlockSnapshot,
    SwitchSnapshot,
};

verus! {

/// What restoration reads of one entity of the restored entity state.
#[derive(Debug, Clone, Copy, PartialEq, Eq, Structural)]
pub struct EntityCapabilities {
    pub entity: u64,
    pub transform: bool,
    pub collision: bool,
    pub renderable: bool,
    pub bounds: bool,
    pub kinematic: bool,
    /// The entity is active (neither being spawned nor tombstoned).
    pub active: bool,
    pub tombstoned: bool,
    /// Its renderable, if it has one, is visible.
    pub visible: bool,
}

/// The first capabilities recorded for `entity`.
pub open spec fn capability_index(entities: Seq<EntityCapabilities>, entity: u64) -> Option<int> {
    if exists|i: int| 0 <= i < entities.len() && (#[trigger] entities[i]).entity == entity {
        Some(
            choose|i: int|
                0 <= i < entities.len() && (#[trigger] entities[i]).entity == entity && forall|j: int|
                    0 <= j < i ==> (#[trigger] entities[j]).entity != entity,
        )
    } else {
        None
    }
}

pub open spec fn door_violation(
    doors: Seq<DoorSnapshot>,
    entities: Seq<EntityCapabilities>,
    i: int,
) -> Option<GameSnapshotError> {
    let entity = doors[i].entity;
    if exists|j: int| 0 <= j < i && (#[trigger] doors[j]).entity == entity {
        Some(GameSnapshotError::DuplicateDoor { entity })
    } else {
        match capability_index(entities, entity) {
            None => Some(GameSnapshotError::UnknownDoorEntity { entity }),
            Some(k) => if !(entities[k].transform && entities[k].collision
                && entities[k].renderable) {
                Some(GameSnapshotError::MissingDoorCapability { entity })
            } else {
                None
            },
        }
    }
}

/// The first refusal among the doors from the `i`-th on.
pub open spec fn first_door_violation(
    doors: Seq<DoorSnapshot>,
    entities: Seq<EntityCapabilities>,
    i: int,
) -> Option<GameSnapshotError>
    decreases doors.len() - i,
{
    if i < 0 || i >= doors.len() {
        None
    } else {
        match door_violation(doors, entities, i) {
            Some(error) => Some(error),
            None => first_door_violation(doors, entities, i + 1),
        }
    }
}

pub open spec fn switch_violation(
    switches: Seq<SwitchSnapshot>,
    entities: Seq<EntityCapabilities>,
    i: int,
) -> Option<GameSnapshotError> {
    let entity = switches[i].entity;
    if exists|j: int| 0 <= j < i && (#[trigger] switches[j]).entity == entity {
        Some(GameSnapshotError::DuplicateSwitch { entity })
    } else if capability_index(entities, entity) is None {
        Some(GameSnapshotError::UnknownSwitchEntity { entity })
    } else {
        None
    }
}

pub open spec fn first_switch_violation(
    switches: Seq<SwitchSnapshot>,
    entities: Seq<EntityCapabilities>,
    i: int,
) -> Option<GameSnapshotError>
    decreases switches.len() - i,
{
    if i < 0 || i >= switches.len() {
        None
    } else {
        match switch_violation(switches, entities, i) {
            Some(error) => Some(error),
            None => first_switch_violation(switches, entities, i + 1),
        }
    }
}

/// The first target of a control that is not a restored door, from the
/// `t`-th on.
pub open spec fn first_unknown_target(targets: Seq<u64>, doors: Seq<DoorSnapshot>, t: int) -> Option<
    u64,
>
    decreases targets.len() - t,
{
    if t < 0 || t >= targets.len() {
        None
    } else if !(exists|d: int| 0 <= d < doors.len() && (#[trigger] doors[d]).entity == targets[t]) {
        Some(targets[t])
    } else {
        first_unknown_target(targets, doors, t + 1)
    }
}

pub open spec fn control_violation(
    control: ControlsSnapshot,
    switches: Seq<SwitchSnapshot>,
    doors: Seq<DoorSnapshot>,
) -> Option<GameSnapshotError> {
    if !(exists|s: int| 0 <= s < switches.len() && (#[trigger] switches[s]).entity == control.switch) {
        Some(GameSnapshotError::UnknownSwitchEntity { entity: control.switch })
    } else {
        match first_unknown_target(control.targets@, doors, 0) {
            Some(target) => Some(
                GameSnapshotError::UnknownControlTarget { switch: control.switch, target },
            ),
            None => None,
        }
    }
}

pub open spec fn first_control_violation(
    controls: Seq<ControlsSnapshot>,
    switches: Seq<SwitchSnapshot>,
    doors: Seq<DoorSnapshot>,
    i: int,
) -> Option<GameSnapshotError>
    decreases controls.len() - i,
{
    if i < 0 || i >= controls.len() {
        None
    } else {
        match control_violation(controls[i], switches, doors) {
            Some(error) => Some(error),
            None => first_control_violation(controls, switches, doors, i + 1),
        }
    }
}

pub open spec fn as_result(violation: Option<GameSnapshotError>) -> Result<(), GameSnapshotError> {
    match violation {
        Some(error) => Err(error),
        None => Ok(()),
    }
}

pub(crate) fn find_capabilities(entities: &Vec<EntityCapabilities>, entity: u64) -> (found: Option<usize>)
    ensures
        match found {
            Some(k) => k < entities@.len() && capability_index(entities@, entity) == Some(k as int),
            None => capability_index(entities@, entity) is None,
        },
{
    let mut index: usize = 0;
    while index < entities.len()
        invariant
            index <= entities@.len(),
            forall|j: int| 0 <= j < index ==> (#[trigger] entities@[j]).entity != entity,
        decreases entities@.len() - index,
    {
        if entities[index].entity == entity {
            proof {
                let i = index as int;
                let all = entities@;
                assert forall|k: int|
                    0 <= k < all.len() && (#[trigger] all[k]).entity == entity && (forall|j: int|
                        0 <= j < k ==> (#[trigger] all[j]).entity != entity) implies k == i by {
                    if k < i {
                        assert(all[k].entity != entity);
                    }
                    if k > i {
                        assert(all[i].entity != entity);
                    }
                }
            }
            return Some(index);
        }
        index = index + 1;
    }
    None
}

fn door_seen(doors: &Vec<DoorSnapshot>, end: usize, entity: u64) -> (seen: bool)
    requires
        end <= doors@.len(),
    ensures
        seen == exists|j: int| 0 <= j < end && (#[trigger] doors@[j]).entity == entity,
{
    let mut index: usize = 0;
    while index < end
        invariant
            end <= doors@.len(),
            index <= end,
            forall|j: int| 0 <= j < index ==> (#[trigger] doors@[j]).entity != entity,
        decreases end - index,
    {
        if doors[index].entity == entity {
            return true;
        }
        index = index + 1;
    }
    false
}

fn switch_seen(switches: &Vec<SwitchSnapshot>, end: usize, entity: u64) -> (seen: bool)
    requires
        end <= switches@.len(),
    ensures
        seen == exists|j: int| 0 <= j < end && (#[trigger] switches@[j]).entity == entity,
{
    let mut index: usize = 0;
    while index < end
        invariant
            end <= switches@.len(),
            index <= end,
            forall|j: int| 0 <= j < index ==> (#[trigger] switches@[j]).entity != entity,
        decreases end - index,
    {
        if switches[index].entity == entity {
            return true;
        }
        index = index + 1;
    }
    false
}

/// Every door names a distinct entity with a transform, a collision shape
/// and a renderable.
pub fn check_doors(doors: &Vec<DoorSnapshot>, entities: &Vec<EntityCapabilities>) -> (result:
    Result<(), GameSnapshotError>)
    ensures
        result == as_result(first_door_violation(doors@, entities@, 0)),
{
    let mut index: usize = 0;
    while index < doors.len()
        invariant
            index <= doors@.len(),
            first_door_violation(doors@, entities@, 0) == first_door_violation(
                doors@,
                entities@,
                index as int,
            ),
        decreases doors@.len() - index,
    {
        let entity = doors[index].entity;
        let ghost i = index as int;
        if door_seen(doors, index, entity) {
            assert(door_violation(doors@, entities@, i) == Some(
                GameSnapshotError::DuplicateDoor { entity },
            ));
            return Err(GameSnapshotError::DuplicateDoor { entity });
        }
        match find_capabilities(entities, entity) {
            None => {
                return Err(GameSnapshotError::UnknownDoorEntity { entity });
            },
            Some(k) => {
                let capabilities = entities[k];
                if !(capabilities.transform && capabilities.collision && capabilities.renderable) {
                    return Err(GameSnapshotError::MissingDoorCapability { entity });
                }
            },
        }
        assert(door_violation(doors@, entities@, i) is None);
        index = index + 1;
    }
    Ok(())
}

/// Every switch names a distinct entity of the restored state.
pub fn check_switches(switches: &Vec<SwitchSnapshot>, entities: &Vec<EntityCapabilities>) -> (
    result: Result<(), GameSnapshotError>)
    ensures
        result == as_result(first_switch_violation(switches@, entities@, 0)),
{
    let mut index: usize = 0;
    while index < switches.len()
        invariant
            index <= switches@.len(),
            first_switch_violation(switches@, entities@, 0) == first_switch_violation(
                switches@,
                entities@,
                index as int,
            ),
        decreases switches@.len() - index,
    {
        let entity = switches[index].entity;
        let ghost i = index as int;
        if switch_seen(switches, index, entity) {
            assert(switch_violation(switches@, entities@, i) == Some(
                GameSnapshotError::DuplicateSwitch { entity },
            ));
            return Err(GameSnapshotError::DuplicateSwitch { entity });
        }
        if find_capabilities(entities, entity).is_none() {
            return Err(GameSnapshotError::UnknownSwitchEntity { entity });
        }
        assert(switch_violation(switches@, entities@, i) is None);
        index = index + 1;
    }
    Ok(())
}

/// Every control names a restored switch, and each of its targets a
/// restored door.
pub fn check_controls(
    controls: &Vec<ControlsSnapshot>,
    switches: &Vec<SwitchSnapshot>,
    doors: &Vec<DoorSnapshot>,
) -> (result: Result<(), GameSnapshotError>)
    ensures
        result == as_result(first_control_violation(controls@, switches@, doors@, 0)),
{
    let mut index: usize = 0;
    while index < controls.len()
        invariant
            index <= controls@.len(),
            first_control_violation(controls@, switches@, doors@, 0) == first_control_violation(
                controls@,
                switches@,
                doors@,
                index as int,
            ),
        decreases controls@.len() - index,
    {
        let control = &controls[index];
        if !switch_seen(switches, switches.len(), control.switch) {
            return Err(GameSnapshotError::UnknownSwitchEntity { entity: control.switch });
        }
        let targets = &control.targets;
        let mut t: usize = 0;
        while t < targets.len()
            invariant
                index < controls@.len(),
                targets@ == controls@[index as int].targets@,
                control.switch == controls@[index as int].switch,
                exists|s: int| 0 <= s < switches@.len() && (#[trigger] switches@[s]).entity
                    == control.switch,
                first_control_violation(controls@, switches@, doors@, 0) == first_control_violation(
                    controls@,
                    switches@,
                    doors@,
                    index as int,
                ),
                t <= targets@.len(),
                first_unknown_target(targets@, doors@, 0) == first_unknown_target(
                    targets@,
                    doors@,
                    t as int,
                ),
            decreases targets@.len() - t,
        {
            let target = targets[t];
            if !door_seen(doors, doors.len(), target) {
                return Err(GameSnapshotError::UnknownControlTarget { switch: control.switch, target });
            }
            t = t + 1;
        }
        index = index + 1;
    }
    Ok(())
}

pub open spec fn enemy_violation(
    enemies: Seq<EnemySnapshot>,
    entities: Seq<EntityCapabilities>,
    i: int,
) -> Option<GameSnapshotError> {
    let entity = enemies[i].entity;
    if exists|j: int| 0 <= j < i && (#[trigger] enemies[j]).entity == entity {
        Some(GameSnapshotError::DuplicateEnemy { entity })
    } else {
        match capability_index(entities, entity) {
            None => Some(GameSnapshotError::UnknownEnemyEntity { entity }),
            Some(k) => if !(entities[k].collision && entities[k].renderable) {
                Some(GameSnapshotError::MissingEnemyCapability { entity })
            } else {
                None
            },
        }
    }
}

pub open spec fn first_enemy_violation(
    enemies: Seq<EnemySnapshot>,
    entities: Seq<EntityCapabilities>,
    i: int,
) -> Option<GameSnapshotError>
    decreases enemies.len() - i,
{
    if i < 0 || i >= enemies.len() {
        None
    } else {
        match enemy_violation(enemies, entities, i) {
            Some(error) => Some(error),
            None => first_enemy_violation(enemies, entities, i + 1),
        }
    }
}

fn enemy_seen(enemies: &Vec<EnemySnapshot>, end: usize, entity: u64) -> (seen: bool)
    requires
        end <= enemies@.len(),
    ensures
        seen == exists|j: int| 0 <= j < end && (#[trigger] enemies@[j]).entity == entity,
{
    let mut index: usize = 0;
    while index < end
        invariant
            end <= enemies@.len(),
            index <= end,
            forall|j: int| 0 <= j < index ==> (#[trigger] enemies@[j]).entity != entity,
        decreases end - index,
    {
        if enemies[index].entity == entity {
            return true;
        }
        index = index + 1;
    }
    false
}

/// Every enemy names a distinct entity with a collision shape and a
/// renderable.
pub fn check_enemies(enemies: &Vec<EnemySnapshot>, entities: &Vec<EntityCapabilities>) -> (result:
    Result<(), GameSnapshotError>)
    ensures
        result == as_result(first_enemy_violation(enemies@, entities@, 0)),
{
    let mut index: usize = 0;
    while index < enemies.len()
        invariant
            index <= enemies@.len(),
            first_enemy_violation(enemies@, entities@, 0) == first_enemy_violation(
                enemies@,
                entities@,
                index as int,
            ),
        decreases enemies@.len() - index,
    {
        let entity = enemies[index].entity;
        let ghost i = index as int;
        if enemy_seen(enemies, index, entity) {
            assert(enemy_violation(enemies@, entities@, i) == Some(
                GameSnapshotError::DuplicateEnemy { entity },
            ));
            return Err(GameSnapshotError::DuplicateEnemy { entity });
        }
        match find_capabilities(entities, entity) {
            None => {
                return Err(GameSnapshotError::UnknownEnemyEntity { entity });
            },
            Some(k) => {
                let capabilities = entities[k];
                if !(capabilities.collision && capabilities.renderable) {
                    return Err(GameSnapshotError::MissingEnemyCapability { entity });
                }
            },
        }
        assert(enemy_violation(enemies@, entities@, i) is None);
        index = index + 1;
    }
    Ok(())
}

/// A loading-bay interlock is valid when its switch and both doors are
/// restored, its doors differ, and no earlier interlock uses its switch.
pub open spec fn interlock_valid(
    interlocks: Seq<LoadingBayInterlockSnapshot>,
    switches: Seq<SwitchSnapshot>,
    doors: Seq<DoorSnapshot>,
    i: int,
) -> bool {
    let interlock = interlocks[i];
    &&& exists|s: int| 0 <= s < switches.len() && (#[trigger] switches[s]).entity == interlock.switch
    &&& interlock.close_door != interlock.open_door
    &&& exists|d: int| 0 <= d < doors.len() && (#[trigger] doors[d]).entity == interlock.close_door
    &&& exists|d: int| 0 <= d < doors.len() && (#[trigger] doors[d]).entity == interlock.open_door
    &&& !exists|j: int| 0 <= j < i && (#[trigger] interlocks[j]).switch == interlock.switch
}

/// The loading-bay interlocks of a restored progression: each must be valid,
/// else the progression state is refused.
pub fn check_interlocks(
    interlocks: &Vec<LoadingBayInterlockSnapshot>,
    switches: &Vec<SwitchSnapshot>,
    doors: &Vec<DoorSnapshot>,
) -> (result: Result<(), GameSnapshotError>)
    ensures
        result is Ok <==> forall|i: int|
            0 <= i < interlocks@.len() ==> #[trigger] interlock_valid(
                interlocks@,
                switches@,
                doors@,
                i,
            ),
        result is Err ==> result == Err::<(), GameSnapshotError>(
            GameSnapshotError::InvalidProgressionState,
        ),
{
    let mut index: usize = 0;
    while index < interlocks.len()
        invariant
            index <= interlocks@.len(),
            forall|i: int|
                0 <= i < index ==> #[trigger] interlock_valid(interlocks@, switches@, doors@, i),
        decreases interlocks@.len() - index,
    {
        let interlock = &interlocks[index];
        let mut repeated = false;
        let mut j: usize = 0;
        while j < index
            invariant
                index < interlocks@.len(),
                j <= index,
                *interlock == interlocks@[index as int],
                repeated == exists|k: int|
                    0 <= k < j && (#[trigger] interlocks@[k]).switch == interlock.switch,
            decreases index - j,
        {
            if interlocks[j].switch == interlock.switch {
                repeated = true;
            }
            j = j + 1;
        }
        if !switch_seen(switches, switches.len(), interlock.switch) || interlock.close_door
            == interlock.open_door || !door_seen(doors, doors.len(), interlock.close_door)
            || !door_seen(doors, doors.len(), interlock.open_door) || repeated {
            assert(!interlock_valid(interlocks@, switches@, doors@, index as int));
            return Err(GameSnapshotError::InvalidProgressionState);
        }
        assert(interlock_valid(interlocks@, switches@, doors@, index as int));
        index = index + 1;
    }
    Ok(())
}

} // verus!
