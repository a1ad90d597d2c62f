//! The rules on a document's weapon definitions, checked after every item
//! definition has passed its own rules: a weapon carries a valid attack
//! mode (spread weapons with a pellet count and a spread, others with
//! neither), a damage, a range, a cooldown, an ammunition cost, a muzzle
//! offset and a presentation, each within the game's weapon limits; and its
//! ammunition names an ammunition definition. The limits are the game's and
//! are given as parameters.
//!
//! Spreads, ranges and muzzle offsets are `f32` values held as their bit
//! patterns. For a limit that is a positive finite `f32`, "finite, positive
//! and at most the limit" holds of a value exactly when its bit pattern is
//! positive and at most the limit's (non-negative finite floats order as
//! their bit patterns; negative values, infinities and NaNs have patterns
//! above any positive finite one); and "finite with magnitude at most the
//! limit" holds exactly when the pattern without its sign bit is at most the
//! limit's.
use vstd::prelude::*;

use crate::stored_project::diagnostic_code;
use crate::stored_project::hierarchy::failure_is;
use crate::stored_project::item_definitions::{definition_path, definition_path_text};
use crate::stored_project::pickups::{definition_index, find_definition};
use crate::stored_project::{failure, StoredItemDefinition, StoredItemKind, StoredProjectError, StoredWeaponAttackMode};
use crate::text::utf8_len;

verus! {

/// The bit pattern of positive infinity; finite positive `f32` values lie
/// strictly between zero and it.
pub const F32_INFINITY_BITS: u32 = 0x7f80_0000;

/// The longest presentation name, in UTF-8 bytes.
pub const MAX_PRESENTATION_BYTES: usize = 96;

/// The game's limits on weapon definitions. Spread, range and muzzle offset
/// limits are `f32` bit patterns.
#[derive(Debug, Clone, Copy, PartialEq, Eq, Structural)]
pub struct WeaponLimits {
    pub max_pellets: u8,
    pub max_spread_degrees: u32,
    pub max_damage: u32,
    pub max_range: u32,
    pub max_cooldown_ticks: u64,
    pub max_muzzle_offset: u32,
    pub max_item_quantity: u32,
}

/// The floating-point limits are positive finite values.
pub open spec fn limits_are_finite(limits: WeaponLimits) -> bool {
    &&& 0 < limits.max_spread_degrees < F32_INFINITY_BITS
    &&& 0 < limits.max_range < F32_INFINITY_BITS
    &&& 0 < limits.max_muzzle_offset < F32_INFINITY_BITS
}

/// An `f32` (by its bits) that is finite, positive and at most `limit`.
pub open spec fn positive_within(bits: u32, limit: u32) -> bool {
    0 < bits <= limit
}

/// An `f32` (by its bits) that is finite with magnitude at most `limit`.
pub open spec fn magnitude_within(bits: u32, limit: u32) -> bool {
    bits & 0x7fff_ffffu32 <= limit
}

pub open spec fn attack_mode_valid(
    attack_mode: Option<StoredWeaponAttackMode>,
    pellet_count: Option<u8>,
    spread_degrees: Option<u32>,
    limits: WeaponLimits,
) -> bool {
    match attack_mode {
        Some(StoredWeaponAttackMode::Hitscan) | Some(StoredWeaponAttackMode::Automatic) => pellet_count is None
            && spread_degrees is None,
        Some(StoredWeaponAttackMode::Spread) => {
            &&& pellet_count matches Some(count) && 2 <= count <= limits.max_pellets
            &&& spread_degrees matches Some(spread) && positive_within(spread, limits.max_spread_degrees)
        },
        None => false,
    }
}

/// A weapon definition carries every current field, each within its limit.
pub open spec fn weapon_fields_valid(kind: StoredItemKind, limits: WeaponLimits) -> bool {
    match kind {
        StoredItemKind::Weapon {
            attack_mode,
            pellet_count,
            spread_degrees,
            damage,
            max_distance,
            cooldown_ticks,
            ammunition_cost,
            muzzle_offset,
            presentation,
            ..
        } => {
            &&& attack_mode_valid(attack_mode, pellet_count, spread_degrees, limits)
            &&& damage matches Some(value) && 1 <= value <= limits.max_damage
            &&& max_distance matches Some(value) && positive_within(value, limits.max_range)
            &&& cooldown_ticks matches Some(value) && value <= limits.max_cooldown_ticks
            &&& ammunition_cost matches Some(value) && 1 <= value <= limits.max_item_quantity
            &&& muzzle_offset matches Some(axes) && magnitude_within(axes[0], limits.max_muzzle_offset)
                && magnitude_within(axes[1], limits.max_muzzle_offset) && magnitude_within(
                axes[2],
                limits.max_muzzle_offset,
            )
            &&& presentation matches Some(name) && name@.len() > 0 && utf8_len(name@) <= MAX_PRESENTATION_BYTES
        },
        _ => true,
    }
}

/// The refusal owed to the `i`-th definition, if it is a weapon.
pub open spec fn weapon_failure(definitions: Seq<StoredItemDefinition>, limits: WeaponLimits, i: int) -> Option<
    (Seq<char>, Seq<char>, Seq<char>),
> {
    match definitions[i].kind {
        StoredItemKind::Weapon { ammunition, .. } => if !weapon_fields_valid(definitions[i].kind, limits) {
            Some(
                (
                    diagnostic_code::INVALID_VALUE@,
                    definition_path(i as nat, "kind"@),
                    "current weapon definitions require valid attackMode, damage, maxDistance, cooldownTicks, ammunitionCost, muzzleOffset, and presentation"@,
                ),
            )
        } else {
            match definition_index(definitions, ammunition@) {
                None => Some(
                    (
                        diagnostic_code::MISSING_ITEM_DEFINITION@,
                        definition_path(i as nat, "kind.ammunition"@),
                        "weapon references missing ammunition `"@ + ammunition@ + "`"@,
                    ),
                ),
                Some(d) => if definitions[d].kind is Ammunition {
                    None
                } else {
                    Some(
                        (
                            diagnostic_code::INVALID_VALUE@,
                            definition_path(i as nat, "kind.ammunition"@),
                            "weapon ammunition must reference an ammunition item definition"@,
                        ),
                    )
                },
            }
        },
        _ => None,
    }
}

pub open spec fn first_weapon_failure(definitions: Seq<StoredItemDefinition>, limits: WeaponLimits, i: int) -> Option<
    (Seq<char>, Seq<char>, Seq<char>),
>
    decreases definitions.len() - i,
{
    if i < 0 || i >= definitions.len() {
        None
    } else {
        match weapon_failure(definitions, limits, i) {
            Some(failure) => Some(failure),
            None => first_weapon_failure(definitions, limits, i + 1),
        }
    }
}

fn attack_mode_is_valid(
    attack_mode: Option<StoredWeaponAttackMode>,
    pellet_count: Option<u8>,
    spread_degrees: Option<u32>,
    limits: &WeaponLimits,
) -> (valid: bool)
    ensures
        valid == attack_mode_valid(attack_mode, pellet_count, spread_degrees, *limits),
{
    match attack_mode {
        Some(StoredWeaponAttackMode::Hitscan) | Some(StoredWeaponAttackMode::Automatic) => pellet_count.is_none()
            && spread_degrees.is_none(),
        Some(StoredWeaponAttackMode::Spread) => {
            let pellets_ok = match pellet_count {
                Some(count) => 2 <= count && count <= limits.max_pellets,
                None => false,
            };
            let spread_ok = match spread_degrees {
                Some(spread) => 0 < spread && spread <= limits.max_spread_degrees,
                None => false,
            };
            pellets_ok && spread_ok
        },
        None => false,
    }
}

fn weapon_fields_are_valid(kind: &StoredItemKind, limits: &WeaponLimits) -> (valid: bool)
    ensures
        valid == weapon_fields_valid(*kind, *limits),
{
    match kind {
        StoredItemKind::Weapon {
            attack_mode,
            pellet_count,
            spread_degrees,
            damage,
            max_distance,
            cooldown_ticks,
            ammunition_cost,
            muzzle_offset,
            presentation,
            ..
        } => {
            let mode_ok = attack_mode_is_valid(*attack_mode, *pellet_count, *spread_degrees, limits);
            let damage_ok = match damage {
                Some(value) => 1 <= *value && *value <= limits.max_damage,
                None => false,
            };
            let range_ok = match max_distance {
                Some(value) => 0 < *value && *value <= limits.max_range,
                None => false,
            };
            let cooldown_ok = match cooldown_ticks {
                Some(value) => *value <= limits.max_cooldown_ticks,
                None => false,
            };
            let cost_ok = match ammunition_cost {
                Some(value) => 1 <= *value && *value <= limits.max_item_quantity,
                None => false,
            };
            let muzzle_ok = match muzzle_offset {
                Some(axes) => axes[0] & 0x7fff_ffffu32 <= limits.max_muzzle_offset && axes[1] & 0x7fff_ffffu32
                    <= limits.max_muzzle_offset && axes[2] & 0x7fff_ffffu32 <= limits.max_muzzle_offset,
                None => false,
            };
            let presentation_ok = match presentation {
                Some(name) => {
                    let text = name.as_str();
                    text.unicode_len() > 0 && text.len() <= MAX_PRESENTATION_BYTES
                },
                None => false,
            };
            mode_ok && damage_ok && range_ok && cooldown_ok && cost_ok && muzzle_ok && presentation_ok
        },
        _ => true,
    }
}

/// Checks a document's weapon definitions in order, against the game's
/// weapon limits: each weapon carries all its current fields within the
/// limits, then its ammunition names a definition, which is ammunition.
pub fn validate_weapon_definitions(definitions: &Vec<StoredItemDefinition>, limits: &WeaponLimits) -> (result:
    Result<(), StoredProjectError>)
    ensures
        match first_weapon_failure(definitions@, *limits, 0) {
            None => result is Ok,
            Some((code, path, message)) => result matches Err(error) && failure_is(error, code, path, message),
        },
{
    let mut index: usize = 0;
    while index < definitions.len()
        invariant
            index <= definitions@.len(),
            first_weapon_failure(definitions@, *limits, 0) == first_weapon_failure(definitions@, *limits, index as int),
        decreases definitions@.len() - index,
    {
        let ghost i = index as int;
        let definition = &definitions[index];
        if let StoredItemKind::Weapon { ammunition, .. } = &definition.kind {
            if !weapon_fields_are_valid(&definition.kind, limits) {
                proof {
                    reveal_strlit("kind");
                    reveal_strlit(
                        "current weapon definitions require valid attackMode, damage, maxDistance, cooldownTicks, ammunitionCost, muzzleOffset, and presentation",
                    );
                }
                return Err(
                    failure(
                        diagnostic_code::INVALID_VALUE,
                        definition_path_text(index, "kind"),
                        String::from_str(
                            "current weapon definitions require valid attackMode, damage, maxDistance, cooldownTicks, ammunitionCost, muzzleOffset, and presentation",
                        ),
                    ),
                );
            }
            match find_definition(definitions, ammunition.as_str()) {
                None => {
                    let mut message = String::from_str("weapon references missing ammunition `");
                    message.append(ammunition.as_str());
                    message.append("`");
                    proof {
                        reveal_strlit("kind.ammunition");
                        reveal_strlit("weapon references missing ammunition `");
                        reveal_strlit("`");
                    }
                    return Err(
                        failure(
                            diagnostic_code::MISSING_ITEM_DEFINITION,
                            definition_path_text(index, "kind.ammunition"),
                            message,
                        ),
                    );
                },
                Some(d) => {
                    let is_ammunition = match definitions[d].kind {
                        StoredItemKind::Ammunition => true,
                        _ => false,
                    };
                    if !is_ammunition {
                        proof {
                            reveal_strlit("kind.ammunition");
                            reveal_strlit("weapon ammunition must reference an ammunition item definition");
                        }
                        return Err(
                            failure(
                                diagnostic_code::INVALID_VALUE,
                                definition_path_text(index, "kind.ammunition"),
                                String::from_str("weapon ammunition must reference an ammunition item definition"),
                            ),
                        );
                    }
                },
            }
        }
        assert(weapon_failure(definitions@, *limits, i) is None);
        index = index + 1;
    }
    Ok(())
}

/// The `i`-th definition carries all its current weapon fields within the
/// limits, and its ammunition names an ammunition definition.
pub open spec fn weapon_complete(definitions: Seq<StoredItemDefinition>, limits: WeaponLimits, i: int) -> bool {
    &&& weapon_fields_valid(definitions[i].kind, limits)
    &&& definition_index(definitions, definitions[i].kind->ammunition@) matches Some(d)
    &&& definitions[d].kind is Ammunition
}

/// What an accepted document's weapons promise: every weapon definition
/// carries all its current fields within the limits, and its ammunition
/// names an ammunition definition.
pub proof fn lemma_accepted_weapons_are_complete(definitions: Seq<StoredItemDefinition>, limits: WeaponLimits, i: int)
    requires
        first_weapon_failure(definitions, limits, 0) is None,
        0 <= i < definitions.len(),
        definitions[i].kind is Weapon,
    ensures
        weapon_complete(definitions, limits, i),
{
    lemma_no_failure_before(definitions, limits, 0, i);
}

proof fn lemma_no_failure_before(definitions: Seq<StoredItemDefinition>, limits: WeaponLimits, k: int, i: int)
    requires
        0 <= k <= i < definitions.len(),
        first_weapon_failure(definitions, limits, k) is None,
    ensures
        weapon_failure(definitions, limits, i) is None,
    decreases i - k,
{
    if k < i {
        lemma_no_failure_before(definitions, limits, k + 1, i);
    }
}

} // verus!
