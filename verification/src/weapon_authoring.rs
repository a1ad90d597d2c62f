//! Closed, downstream-owned Loading Bay weapon project authoring.
//!
//! The contract edits only the durable item definition selected through a
//! provider-derived weapon entity. Inventory binding is identity context, not
//! a second mutation surface.
//!
//! Provider-derived weapon entities are numbered after the largest entity
//! identity of the entry scene: inventories in ascending owner order, and
//! within an inventory its weapon slots in order.
use vstd::prelude::*;

use crate::stored_project::{
    contains_text, ProjectDiagnostic, StoredEntityDefinition, StoredInventory,
    StoredInventoryStack, StoredItemDefinition, StoredItemKind, StoredProject,
    StoredProjectError, StoredScene, StoredWeaponAttackMode,
};
use crate::text::{decimal, decimal_text, utf8_len};

verus! {

pub const LOADING_BAY_WEAPON_COMPONENT_TYPE_ID: &'static str =
    "rusty-engine-demo.loading-bay.weapon";

pub const LOADING_BAY_WEAPON_AUTHORING_CONTRACT_ID: &'static str =
    "rusty-engine-demo.loading-bay.weapon-authoring";

pub const LOADING_BAY_WEAPON_AUTHORING_CONTRACT_VERSION: u32 = 1;

pub const MAX_LOADING_BAY_WEAPON_AUTHORING_REQUEST_BYTES: usize = 16384;

pub const MAX_LOADING_BAY_WEAPON_AUTHORING_RESPONSE_BYTES: usize = 32768;

pub const MAX_REQUEST_ID_BYTES: usize = 256;

// ---------------------------------------------------------------------------
// Wire shapes. Floating-point values are IEEE-754 `f32` bit patterns.
// ---------------------------------------------------------------------------

#[derive(Debug, Clone, PartialEq, Eq)]
pub enum LoadingBayWeaponAuthoringRequest {
    ReadLoadingBayWeapon {
        contract_version: u32,
        request_id: String,
        expected_project_hash: String,
        owner_entity_id: u64,
    },
    ReplaceLoadingBayWeapon {
        contract_version: u32,
        request_id: String,
        expected_project_hash: String,
        owner_entity_id: u64,
        expected_component_revision: String,
        candidate: LoadingBayWeaponAuthoringCandidate,
    },
}

#[derive(Debug, Clone, PartialEq, Eq)]
pub enum LoadingBayWeaponAuthoringResponse {
    LoadingBayWeaponRead {
        contract_version: u32,
        request_id: String,
        weapon: LoadingBayWeaponAuthoringWeapon,
    },
    LoadingBayWeaponReplaced {
        contract_version: u32,
        request_id: String,
        receipt: LoadingBayWeaponAuthoringReceipt,
        weapon: LoadingBayWeaponAuthoringWeapon,
    },
    LoadingBayWeaponRejected {
        contract_version: u32,
        request_id: String,
        rejection: LoadingBayWeaponAuthoringRejection,
    },
}

#[derive(Debug, Clone, PartialEq, Eq)]
pub struct LoadingBayWeaponAuthoringCandidate {
    pub attack_mode: LoadingBayWeaponAuthoringAttackMode,
    pub damage: u32,
    pub max_distance: u32,
    pub cooldown_ticks: u64,
    pub ammunition_item_id: String,
    pub ammunition_cost: u32,
    pub muzzle_offset: [u32; 3],
    pub presentation: String,
}

#[derive(Debug, Clone, Copy, PartialEq, Eq)]
pub enum LoadingBayWeaponAuthoringAttackMode {
    Hitscan,
    Spread { pellet_count: u8, spread_degrees: u32 },
    Automatic,
}

#[derive(Debug, Clone, PartialEq, Eq)]
pub struct LoadingBayWeaponAuthoringWeapon {
    pub component_type_id: String,
    pub contract_id: String,
    pub contract_version: u32,
    pub owner_entity_id: u64,
    pub component_revision: String,
    pub item_definition_id: String,
    pub binding: LoadingBayWeaponAuthoringBinding,
    pub definition: LoadingBayWeaponAuthoringCandidate,
}

#[derive(Debug, Clone, PartialEq, Eq)]
pub struct LoadingBayWeaponAuthoringBinding {
    pub inventory_owner_entity_id: u64,
    pub slot_index: usize,
    pub starting_quantity: u32,
    pub initially_equipped: bool,
}

#[derive(Debug, Clone, PartialEq, Eq)]
pub struct LoadingBayWeaponAuthoringReceipt {
    pub owner_entity_id: u64,
    pub item_definition_id: String,
    pub project_hash_before: String,
    pub project_hash_after: String,
    pub component_revision_before: String,
    pub component_revision_after: String,
}

#[derive(Debug, Clone, PartialEq, Eq)]
pub struct LoadingBayWeaponAuthoringRejection {
    pub code: LoadingBayWeaponAuthoringRejectionCode,
    pub message: String,
    pub path: Option<String>,
}

#[derive(Debug, Clone, Copy, PartialEq, Eq, Structural)]
pub enum LoadingBayWeaponAuthoringRejectionCode {
    UnsupportedContractVersion,
    InvalidRequestId,
    InvalidProjectHash,
    StaleProject,
    ProjectRejected,
    WeaponNotFound,
    StaleComponent,
    CandidateRejected,
    ProjectStoreFailure,
}

#[derive(Debug, Clone, PartialEq, Eq)]
pub enum LoadingBayWeaponAuthoringCodecError {
    RequestTooLarge { actual: usize, limit: usize },
    MalformedRequest { path: String, message: String },
    ResponseTooLarge { actual: usize, limit: usize },
    ResponseEncode(String),
}

/// A request is decoded only when it is within the request byte bound.
pub fn check_request_size(actual: usize) -> (result: Result<(), LoadingBayWeaponAuthoringCodecError>)
    ensures
        actual <= MAX_LOADING_BAY_WEAPON_AUTHORING_REQUEST_BYTES <==> result is Ok,
        result is Err ==> result == Err::<(), LoadingBayWeaponAuthoringCodecError>(
            LoadingBayWeaponAuthoringCodecError::RequestTooLarge {
                actual,
                limit: MAX_LOADING_BAY_WEAPON_AUTHORING_REQUEST_BYTES,
            },
        ),
{
    if actual > MAX_LOADING_BAY_WEAPON_AUTHORING_REQUEST_BYTES {
        return Err(
            LoadingBayWeaponAuthoringCodecError::RequestTooLarge {
                actual,
                limit: MAX_LOADING_BAY_WEAPON_AUTHORING_REQUEST_BYTES,
            },
        );
    }
    Ok(())
}

/// An encoded response is released only when it is within the response byte
/// bound.
pub fn check_response_size(encoded: String) -> (result: Result<
    String,
    LoadingBayWeaponAuthoringCodecError,
>)
    ensures
        utf8_len(encoded@) <= MAX_LOADING_BAY_WEAPON_AUTHORING_RESPONSE_BYTES ==> result == Ok::<
            String,
            LoadingBayWeaponAuthoringCodecError,
        >(encoded),
        utf8_len(encoded@) > MAX_LOADING_BAY_WEAPON_AUTHORING_RESPONSE_BYTES ==> result == Err::<
            String,
            LoadingBayWeaponAuthoringCodecError,
        >(
            LoadingBayWeaponAuthoringCodecError::ResponseTooLarge {
                actual: utf8_len(encoded@),
                limit: MAX_LOADING_BAY_WEAPON_AUTHORING_RESPONSE_BYTES,
            },
        ),
{
    let actual = encoded.as_str().len();
    if actual > MAX_LOADING_BAY_WEAPON_AUTHORING_RESPONSE_BYTES {
        return Err(
            LoadingBayWeaponAuthoringCodecError::ResponseTooLarge {
                actual,
                limit: MAX_LOADING_BAY_WEAPON_AUTHORING_RESPONSE_BYTES,
            },
        );
    }
    Ok(encoded)
}

/// A serde path as a request path: the root `$`, or `$.` followed by it.
pub open spec fn request_path(path: Seq<char>) -> Seq<char> {
    if path.len() == 0 {
        seq!['$']
    } else {
        "$."@ + path
    }
}

pub fn json_path(path: &str) -> (rendered: String)
    ensures
        rendered@ == request_path(path@),
{
    if path.unicode_len() == 0 {
        proof {
            reveal_strlit("$");
        }
        String::from_str("$")
    } else {
        let mut rendered = String::from_str("$.");
        rendered.append(path);
        rendered
    }
}

// ---------------------------------------------------------------------------
// Rejections.
// ---------------------------------------------------------------------------

pub fn rejection(
    code: LoadingBayWeaponAuthoringRejectionCode,
    message: String,
    path: Option<String>,
) -> (rejection: LoadingBayWeaponAuthoringRejection)
    ensures
        rejection == (LoadingBayWeaponAuthoringRejection { code, message, path }),
{
    LoadingBayWeaponAuthoringRejection { code, message, path }
}

pub open spec fn weapon_not_found_message(owner_entity_id: u64) -> Seq<char> {
    "entry-scene entity "@ + decimal(owner_entity_id as nat)
        + " is not a provider-derived Loading Bay weapon"@
}

/// The rejection for an owner that is not a provider-derived weapon.
pub fn weapon_not_found(owner_entity_id: u64) -> (rejection: LoadingBayWeaponAuthoringRejection)
    ensures
        rejection.code == LoadingBayWeaponAuthoringRejectionCode::WeaponNotFound,
        rejection.message@ == weapon_not_found_message(owner_entity_id),
        rejection.path is Some && rejection.path->Some_0@ == "$.ownerEntityId"@,
{
    let message = crate::text::join3(
        "entry-scene entity ",
        decimal_text(owner_entity_id).as_str(),
        " is not a provider-derived Loading Bay weapon",
    );
    rejection(
        LoadingBayWeaponAuthoringRejectionCode::WeaponNotFound,
        message,
        Some(String::from_str("$.ownerEntityId")),
    )
}

/// A candidate project that the project rules refuse.
pub fn project_error(error: StoredProjectError) -> (rejection: LoadingBayWeaponAuthoringRejection)
    ensures
        rejection.code == LoadingBayWeaponAuthoringRejectionCode::CandidateRejected,
        rejection.message == error.spec_diagnostic().message,
        rejection.path == Some(error.spec_diagnostic().path),
{
    let diagnostic: &ProjectDiagnostic = error.diagnostic();
    rejection(
        LoadingBayWeaponAuthoringRejectionCode::CandidateRejected,
        diagnostic.message.clone(),
        Some(diagnostic.path.clone()),
    )
}

/// A stored project that the project rules refuse.
pub fn source_project_error(error: StoredProjectError) -> (rejection:
    LoadingBayWeaponAuthoringRejection)
    ensures
        rejection.code == LoadingBayWeaponAuthoringRejectionCode::ProjectRejected,
        rejection.message == error.spec_diagnostic().message,
        rejection.path == Some(error.spec_diagnostic().path),
{
    let diagnostic: &ProjectDiagnostic = error.diagnostic();
    rejection(
        LoadingBayWeaponAuthoringRejectionCode::ProjectRejected,
        diagnostic.message.clone(),
        Some(diagnostic.path.clone()),
    )
}

/// Checks the contract version, then the request identity (1 to 256 UTF-8
/// bytes).
pub fn require_common(contract_version: u32, request_id: &str) -> (result: Result<
    (),
    LoadingBayWeaponAuthoringRejection,
>)
    ensures
        contract_version != LOADING_BAY_WEAPON_AUTHORING_CONTRACT_VERSION ==> result is Err
            && result->Err_0.code
            == LoadingBayWeaponAuthoringRejectionCode::UnsupportedContractVersion
            && result->Err_0.message@ == "contract version "@ + decimal(contract_version as nat)
            + " is unsupported; expected 1"@ && result->Err_0.path is None,
        contract_version == LOADING_BAY_WEAPON_AUTHORING_CONTRACT_VERSION && (request_id@.len()
            == 0 || utf8_len(request_id@) > MAX_REQUEST_ID_BYTES) ==> result is Err
            && result->Err_0.code == LoadingBayWeaponAuthoringRejectionCode::InvalidRequestId
            && result->Err_0.message@ == "requestId must contain 1..=256 UTF-8 bytes"@
            && result->Err_0.path is Some && result->Err_0.path->Some_0@ == "$.requestId"@,
        contract_version == LOADING_BAY_WEAPON_AUTHORING_CONTRACT_VERSION && request_id@.len() > 0
            && utf8_len(request_id@) <= MAX_REQUEST_ID_BYTES ==> result is Ok,
{
    if contract_version != LOADING_BAY_WEAPON_AUTHORING_CONTRACT_VERSION {
        return Err(
            rejection(
                LoadingBayWeaponAuthoringRejectionCode::UnsupportedContractVersion,
                crate::text::join3(
                    "contract version ",
                    decimal_text(contract_version as u64).as_str(),
                    " is unsupported; expected 1",
                ),
                None,
            ),
        );
    }
    if request_id.is_empty() || request_id.len() > MAX_REQUEST_ID_BYTES {
        return Err(
            rejection(
                LoadingBayWeaponAuthoringRejectionCode::InvalidRequestId,
                String::from_str("requestId must contain 1..=256 UTF-8 bytes"),
                Some(String::from_str("$.requestId")),
            ),
        );
    }
    Ok(())
}

pub open spec fn spec_request_identity(request: LoadingBayWeaponAuthoringRequest) -> (u32, String) {
    match request {
        LoadingBayWeaponAuthoringRequest::ReadLoadingBayWeapon {
            contract_version,
            request_id,
            ..
        } => (contract_version, request_id),
        LoadingBayWeaponAuthoringRequest::ReplaceLoadingBayWeapon {
            contract_version,
            request_id,
            ..
        } => (contract_version, request_id),
    }
}

/// The contract version and request identity a request declares.
pub fn request_identity(request: &LoadingBayWeaponAuthoringRequest) -> (identity: (u32, String))
    ensures
        identity == spec_request_identity(*request),
{
    match request {
        LoadingBayWeaponAuthoringRequest::ReadLoadingBayWeapon {
            contract_version,
            request_id,
            ..
        } => (*contract_version, request_id.clone()),
        LoadingBayWeaponAuthoringRequest::ReplaceLoadingBayWeapon {
            contract_version,
            request_id,
            ..
        } => (*contract_version, request_id.clone()),
    }
}

impl LoadingBayWeaponAuthoringResponse {
    /// A rejection response at the current contract version.
    pub fn rejected(
        request_id: String,
        code: LoadingBayWeaponAuthoringRejectionCode,
        message: String,
        path: Option<String>,
    ) -> (response: Self)
        ensures
            response == (LoadingBayWeaponAuthoringResponse::LoadingBayWeaponRejected {
                contract_version: LOADING_BAY_WEAPON_AUTHORING_CONTRACT_VERSION,
                request_id,
                rejection: LoadingBayWeaponAuthoringRejection { code, message, path },
            }),
    {
        LoadingBayWeaponAuthoringResponse::LoadingBayWeaponRejected {
            contract_version: LOADING_BAY_WEAPON_AUTHORING_CONTRACT_VERSION,
            request_id,
            rejection: rejection(code, message, path),
        }
    }
}

/// The response to a request: what the checked handling produced, or its
/// rejection under the request's own identity.
pub fn respond(
    request_id: String,
    result: Result<LoadingBayWeaponAuthoringResponse, LoadingBayWeaponAuthoringRejection>,
) -> (response: LoadingBayWeaponAuthoringResponse)
    ensures
        match result {
            Ok(response_value) => response == response_value,
            Err(rejection) => response == (
            LoadingBayWeaponAuthoringResponse::LoadingBayWeaponRejected {
                contract_version: LOADING_BAY_WEAPON_AUTHORING_CONTRACT_VERSION,
                request_id,
                rejection,
            }),
        },
{
    match result {
        Ok(response) => response,
        Err(rejection) => LoadingBayWeaponAuthoringResponse::LoadingBayWeaponRejected {
            contract_version: LOADING_BAY_WEAPON_AUTHORING_CONTRACT_VERSION,
            request_id,
            rejection,
        },
    }
}

// ---------------------------------------------------------------------------
// Candidate <-> stored definition.
// ---------------------------------------------------------------------------

pub open spec fn spec_stored_kind(candidate: LoadingBayWeaponAuthoringCandidate) -> StoredItemKind {
    let (attack_mode, pellet_count, spread_degrees) = match candidate.attack_mode {
        LoadingBayWeaponAuthoringAttackMode::Hitscan => (
            StoredWeaponAttackMode::Hitscan,
            None,
            None,
        ),
        LoadingBayWeaponAuthoringAttackMode::Spread { pellet_count, spread_degrees } => (
            StoredWeaponAttackMode::Spread,
            Some(pellet_count),
            Some(spread_degrees),
        ),
        LoadingBayWeaponAuthoringAttackMode::Automatic => (
            StoredWeaponAttackMode::Automatic,
            None,
            None,
        ),
    };
    StoredItemKind::Weapon {
        ammunition: candidate.ammunition_item_id,
        attack_mode: Some(attack_mode),
        pellet_count,
        spread_degrees,
        damage: Some(candidate.damage),
        max_distance: Some(candidate.max_distance),
        cooldown_ticks: Some(candidate.cooldown_ticks),
        ammunition_cost: Some(candidate.ammunition_cost),
        muzzle_offset: Some(candidate.muzzle_offset),
        presentation: Some(candidate.presentation),
    }
}

pub open spec fn spec_candidate_from_kind(kind: StoredItemKind) -> Option<
    LoadingBayWeaponAuthoringCandidate,
> {
    match kind {
        StoredItemKind::Weapon {
            ammunition,
            attack_mode,
            pellet_count,
            spread_degrees,
            damage,
            max_distance,
            cooldown_ticks,
            ammunition_cost,
            muzzle_offset,
            presentation,
        } => {
            let mode = match attack_mode {
                None => None,
                Some(StoredWeaponAttackMode::Hitscan) => Some(
                    LoadingBayWeaponAuthoringAttackMode::Hitscan,
                ),
                Some(StoredWeaponAttackMode::Automatic) => Some(
                    LoadingBayWeaponAuthoringAttackMode::Automatic,
                ),
                Some(StoredWeaponAttackMode::Spread) => if pellet_count is Some
                    && spread_degrees is Some {
                    Some(
                        LoadingBayWeaponAuthoringAttackMode::Spread {
                            pellet_count: pellet_count->Some_0,
                            spread_degrees: spread_degrees->Some_0,
                        },
                    )
                } else {
                    None
                },
            };
            if mode is Some && damage is Some && max_distance is Some && cooldown_ticks is Some
                && ammunition_cost is Some && muzzle_offset is Some && presentation is Some {
                Some(
                    LoadingBayWeaponAuthoringCandidate {
                        attack_mode: mode->Some_0,
                        damage: damage->Some_0,
                        max_distance: max_distance->Some_0,
                        cooldown_ticks: cooldown_ticks->Some_0,
                        ammunition_item_id: ammunition,
                        ammunition_cost: ammunition_cost->Some_0,
                        muzzle_offset: muzzle_offset->Some_0,
                        presentation: presentation->Some_0,
                    },
                )
            } else {
                None
            }
        },
        _ => None,
    }
}

impl LoadingBayWeaponAuthoringCandidate {
    /// The stored weapon kind that this candidate authors.
    pub fn into_stored_kind(self) -> (kind: StoredItemKind)
        ensures
            kind == spec_stored_kind(self),
    {
        let (attack_mode, pellet_count, spread_degrees) = match self.attack_mode {
            LoadingBayWeaponAuthoringAttackMode::Hitscan => (
                StoredWeaponAttackMode::Hitscan,
                None,
                None,
            ),
            LoadingBayWeaponAuthoringAttackMode::Spread { pellet_count, spread_degrees } => (
                StoredWeaponAttackMode::Spread,
                Some(pellet_count),
                Some(spread_degrees),
            ),
            LoadingBayWeaponAuthoringAttackMode::Automatic => (
                StoredWeaponAttackMode::Automatic,
                None,
                None,
            ),
        };
        StoredItemKind::Weapon {
            ammunition: self.ammunition_item_id,
            attack_mode: Some(attack_mode),
            pellet_count,
            spread_degrees,
            damage: Some(self.damage),
            max_distance: Some(self.max_distance),
            cooldown_ticks: Some(self.cooldown_ticks),
            ammunition_cost: Some(self.ammunition_cost),
            muzzle_offset: Some(self.muzzle_offset),
            presentation: Some(self.presentation),
        }
    }
}

/// The authored weapon of a stored definition: present only when the
/// definition is a weapon carrying every current weapon field (and, for a
/// spread weapon, its pellet count and spread).
pub fn candidate_from_definition(definition: &StoredItemDefinition) -> (candidate: Option<
    LoadingBayWeaponAuthoringCandidate,
>)
    ensures
        candidate == spec_candidate_from_kind(definition.kind),
{
    match &definition.kind {
        StoredItemKind::Weapon {
            ammunition,
            attack_mode,
            pellet_count,
            spread_degrees,
            damage,
            max_distance,
            cooldown_ticks,
            ammunition_cost,
            muzzle_offset,
            presentation,
        } => {
            let mode = match attack_mode {
                None => {
                    return None;
                },
                Some(StoredWeaponAttackMode::Hitscan) => {
                    LoadingBayWeaponAuthoringAttackMode::Hitscan
                },
                Some(StoredWeaponAttackMode::Automatic) => {
                    LoadingBayWeaponAuthoringAttackMode::Automatic
                },
                Some(StoredWeaponAttackMode::Spread) => match (pellet_count, spread_degrees) {
                    (Some(pellet_count), Some(spread_degrees)) => {
                        LoadingBayWeaponAuthoringAttackMode::Spread {
                            pellet_count: *pellet_count,
                            spread_degrees: *spread_degrees,
                        }
                    },
                    _ => {
                        return None;
                    },
                },
            };
            match (damage, max_distance, cooldown_ticks, ammunition_cost, muzzle_offset, presentation) {
                (
                    Some(damage),
                    Some(max_distance),
                    Some(cooldown_ticks),
                    Some(ammunition_cost),
                    Some(muzzle_offset),
                    Some(presentation),
                ) => Some(
                    LoadingBayWeaponAuthoringCandidate {
                        attack_mode: mode,
                        damage: *damage,
                        max_distance: *max_distance,
                        cooldown_ticks: *cooldown_ticks,
                        ammunition_item_id: ammunition.clone(),
                        ammunition_cost: *ammunition_cost,
                        muzzle_offset: *muzzle_offset,
                        presentation: presentation.clone(),
                    },
                ),
                _ => None,
            }
        },
        _ => None,
    }
}

/// Reading back what was authored: the stored kind of a candidate yields the
/// same candidate.
pub proof fn lemma_candidate_round_trip(candidate: LoadingBayWeaponAuthoringCandidate)
    ensures
        spec_candidate_from_kind(spec_stored_kind(candidate)) == Some(candidate),
{
}

/// The stored kind of a candidate names what was authored: a hitscan,
/// automatic or spread candidate is stored with that attack mode (a spread
/// one with its pellet count and spread, the others with neither), and every
/// other authored value is stored as it was given.
pub proof fn lemma_stored_kind_names_the_authored_weapon(candidate: LoadingBayWeaponAuthoringCandidate)
    ensures
        spec_stored_kind(candidate) matches StoredItemKind::Weapon {
            ammunition,
            attack_mode,
            pellet_count,
            spread_degrees,
            damage,
            max_distance,
            cooldown_ticks,
            ammunition_cost,
            muzzle_offset,
            presentation,
        } && {
            &&& candidate.attack_mode == LoadingBayWeaponAuthoringAttackMode::Hitscan ==> attack_mode == Some(
                StoredWeaponAttackMode::Hitscan,
            ) && pellet_count is None && spread_degrees is None
            &&& candidate.attack_mode == LoadingBayWeaponAuthoringAttackMode::Automatic ==> attack_mode == Some(
                StoredWeaponAttackMode::Automatic,
            ) && pellet_count is None && spread_degrees is None
            &&& candidate.attack_mode matches LoadingBayWeaponAuthoringAttackMode::Spread {
                pellet_count: pellets,
                spread_degrees: spread,
            } ==> attack_mode == Some(StoredWeaponAttackMode::Spread) && pellet_count == Some(pellets)
                && spread_degrees == Some(spread)
            &&& ammunition == candidate.ammunition_item_id
            &&& damage == Some(candidate.damage)
            &&& max_distance == Some(candidate.max_distance)
            &&& cooldown_ticks == Some(candidate.cooldown_ticks)
            &&& ammunition_cost == Some(candidate.ammunition_cost)
            &&& muzzle_offset == Some(candidate.muzzle_offset)
            &&& presentation == Some(candidate.presentation)
        },
{
}

/// Reading a stored weapon back names its stored attack mode: a definition
/// stored as hitscan reads as a hitscan candidate, one stored as automatic
/// as an automatic one, one stored as spread as a spread candidate with the
/// stored pellet count and spread; every other value reads as stored.
pub proof fn lemma_read_names_the_stored_weapon(kind: StoredItemKind)
    ensures
        spec_candidate_from_kind(kind) matches Some(candidate) ==> kind matches StoredItemKind::Weapon {
            ammunition,
            attack_mode,
            pellet_count,
            spread_degrees,
            damage,
            max_distance,
            cooldown_ticks,
            ammunition_cost,
            muzzle_offset,
            presentation,
        } && {
            &&& attack_mode == Some(StoredWeaponAttackMode::Hitscan) ==> candidate.attack_mode
                == LoadingBayWeaponAuthoringAttackMode::Hitscan
            &&& attack_mode == Some(StoredWeaponAttackMode::Automatic) ==> candidate.attack_mode
                == LoadingBayWeaponAuthoringAttackMode::Automatic
            &&& attack_mode == Some(StoredWeaponAttackMode::Spread) ==> pellet_count is Some
                && spread_degrees is Some && candidate.attack_mode == (LoadingBayWeaponAuthoringAttackMode::Spread {
                pellet_count: pellet_count->Some_0,
                spread_degrees: spread_degrees->Some_0,
            })
            &&& attack_mode is Some
            &&& candidate.ammunition_item_id == ammunition
            &&& damage == Some(candidate.damage)
            &&& max_distance == Some(candidate.max_distance)
            &&& cooldown_ticks == Some(candidate.cooldown_ticks)
            &&& ammunition_cost == Some(candidate.ammunition_cost)
            &&& muzzle_offset == Some(candidate.muzzle_offset)
            &&& presentation == Some(candidate.presentation)
        },
{
}

// ---------------------------------------------------------------------------
// Item definitions.
// ---------------------------------------------------------------------------

/// The index of the first definition with identity `id`.
pub open spec fn definition_index(definitions: Seq<StoredItemDefinition>, id: Seq<char>) -> Option<
    int,
> {
    if exists|i: int| 0 <= i < definitions.len() && (#[trigger] definitions[i]).id@ == id {
        Some(
            choose|i: int|
                0 <= i < definitions.len() && (#[trigger] definitions[i]).id@ == id && forall|
                    j: int,
                | 0 <= j < i ==> (#[trigger] definitions[j]).id@ != id,
        )
    } else {
        None
    }
}

proof fn lemma_first_definition(definitions: Seq<StoredItemDefinition>, id: Seq<char>, i: int)
    requires
        0 <= i < definitions.len(),
        definitions[i].id@ == id,
        forall|j: int| 0 <= j < i ==> (#[trigger] definitions[j]).id@ != id,
    ensures
        definition_index(definitions, id) == Some(i),
{
    let k = choose|k: int|
        0 <= k < definitions.len() && (#[trigger] definitions[k]).id@ == id && forall|j: int|
            0 <= j < k ==> (#[trigger] definitions[j]).id@ != id;
    if k < i {
        assert(definitions[k].id@ != id);
    }
    if k > i {
        assert(definitions[i].id@ != id);
    }
}

fn find_definition(definitions: &Vec<StoredItemDefinition>, id: &str) -> (found: Option<usize>)
    ensures
        found is Some ==> found->Some_0 < definitions@.len(),
        found is Some ==> definition_index(definitions@, id@) == Some(found->Some_0 as int),
        found is None ==> definition_index(definitions@, id@) is None,
{
    let mut index: usize = 0;
    while index < definitions.len()
        invariant
            0 <= index <= definitions@.len(),
            forall|j: int| 0 <= j < index ==> (#[trigger] definitions@[j]).id@ != id@,
        decreases definitions@.len() - index,
    {
        if crate::stored_project::text_equal(definitions[index].id.as_str(), id) {
            proof {
                lemma_first_definition(definitions@, id@, index as int);
            }
            return Some(index);
        }
        index = index + 1;
    }
    None
}

/// Replaces the definition with identity `item_definition_id` (the first
/// one) by the candidate: a weapon of quantity one. Nothing else changes.
#[verifier::spinoff_prover]
pub fn replace_definition(
    project: &mut StoredProject,
    item_definition_id: &str,
    candidate: LoadingBayWeaponAuthoringCandidate,
) -> (result: Result<(), LoadingBayWeaponAuthoringRejection>)
    ensures
        match definition_index(old(project).item_definitions@, item_definition_id@) {
            None => result is Err && result->Err_0.code
                == LoadingBayWeaponAuthoringRejectionCode::WeaponNotFound
                && result->Err_0.message@ == weapon_not_found_message(0) && *final(project)
                == *old(project),
            Some(i) => result is Ok && final(project).item_definitions@
                == old(project).item_definitions@.update(
                i,
                StoredItemDefinition {
                    id: old(project).item_definitions@[i].id,
                    max_quantity: 1,
                    kind: spec_stored_kind(candidate),
                },
            ) && final(project).scenes == old(project).scenes && final(project).assets
                == old(project).assets && final(project).entry_scene == old(project).entry_scene
                && final(project).project_id == old(project).project_id && final(project).name
                == old(project).name && final(project).schema_version
                == old(project).schema_version,
        },
{
    let index = match find_definition(&project.item_definitions, item_definition_id) {
        Some(index) => index,
        None => {
            return Err(weapon_not_found(0));
        },
    };
    let id = project.item_definitions[index].id.clone();
    let replacement = StoredItemDefinition {
        id,
        max_quantity: 1,
        kind: candidate.into_stored_kind(),
    };
    let ghost before = project.item_definitions@;
    project.item_definitions.set(index, replacement);
    assert(project.item_definitions@ == before.update(index as int, replacement));
    Ok(())
}

// ---------------------------------------------------------------------------
// Provider-derived weapon owners.
// ---------------------------------------------------------------------------

/// The index of the first scene whose identity is the entry scene.
pub open spec fn entry_scene_index(project: StoredProject) -> Option<int> {
    let scenes = project.scenes@;
    if exists|i: int| 0 <= i < scenes.len() && (#[trigger] scenes[i]).id@ == project.entry_scene@ {
        Some(
            choose|i: int|
                0 <= i < scenes.len() && (#[trigger] scenes[i]).id@ == project.entry_scene@
                    && forall|j: int| 0 <= j < i ==> (#[trigger] scenes[j]).id@ != project.entry_scene@,
        )
    } else {
        None
    }
}

pub open spec fn max_entity_id(entities: Seq<StoredEntityDefinition>) -> u64
    decreases entities.len(),
{
    if entities.len() == 0 {
        0
    } else {
        let rest = max_entity_id(entities.drop_last());
        if entities.last().id > rest {
            entities.last().id
        } else {
            rest
        }
    }
}

#[verifier::opaque]
pub open spec fn is_inventory_owner(entities: Seq<StoredEntityDefinition>, id: u64) -> bool {
    exists|i: int| 0 <= i < entities.len() && (#[trigger] entities[i]).id == id
        && entities[i].inventory is Some
}

/// The entity whose inventory an owner identity stands for: the last entity
/// with that identity that carries an inventory.
#[verifier::opaque]
pub open spec fn inventory_entity(entities: Seq<StoredEntityDefinition>, id: u64) -> int {
    choose|i: int|
        0 <= i < entities.len() && (#[trigger] entities[i]).id == id && entities[i].inventory is Some
            && forall|j: int|
            i < j < entities.len() ==> !((#[trigger] entities[j]).id == id
                && entities[j].inventory is Some)
}

pub open spec fn inventory_of(entities: Seq<StoredEntityDefinition>, id: u64) -> StoredInventory {
    entities[inventory_entity(entities, id)].inventory->Some_0
}

/// `owners` lists every inventory owner identity exactly once, ascending.
#[verifier::opaque]
pub open spec fn ascending_owners(entities: Seq<StoredEntityDefinition>, owners: Seq<u64>) -> bool {
    &&& forall|i: int, j: int| 0 <= i < j < owners.len() ==> owners[i] < owners[j]
    &&& forall|i: int| 0 <= i < owners.len() ==> is_inventory_owner(entities, #[trigger] owners[i])
    &&& forall|id: u64| is_inventory_owner(entities, id) ==> owners.contains(id)
}

/// The weapon slots of the owners, in order: owner identity and slot index.
#[verifier::opaque]
pub open spec fn owner_slots(entities: Seq<StoredEntityDefinition>, owners: Seq<u64>) -> Seq<
    (u64, int),
>
    decreases owners.len(),
{
    if owners.len() == 0 {
        Seq::empty()
    } else {
        let owner = owners.last();
        owner_slots(entities, owners.drop_last()) + Seq::new(
            inventory_of(entities, owner).weapon_slots@.len(),
            |slot: int| (owner, slot),
        )
    }
}

/// A provider-derived weapon entity and the inventory slot it stands for.
#[derive(Debug, Clone, PartialEq, Eq)]
pub struct WeaponBinding {
    pub owner_entity_id: u64,
    pub inventory_owner_entity_id: u64,
    pub slot_index: usize,
    pub item_definition_id: String,
    /// The entry scene and the entity within it that carries the inventory.
    pub scene_index: usize,
    pub entity_index: usize,
}

pub open spec fn spec_binding(
    entities: Seq<StoredEntityDefinition>,
    slots: Seq<(u64, int)>,
    first: int,
    scene_index: int,
    i: int,
) -> WeaponBinding {
    let (owner, slot) = slots[i];
    let entity = inventory_entity(entities, owner);
    WeaponBinding {
        owner_entity_id: (first + i) as u64,
        inventory_owner_entity_id: owner,
        slot_index: slot as usize,
        item_definition_id: entities[entity].inventory->Some_0.weapon_slots@[slot],
        scene_index: scene_index as usize,
        entity_index: entity as usize,
    }
}

#[verifier::opaque]
pub open spec fn spec_bindings(
    entities: Seq<StoredEntityDefinition>,
    owners: Seq<u64>,
    first: int,
    scene_index: int,
) -> Seq<WeaponBinding> {
    let slots = owner_slots(entities, owners);
    Seq::new(slots.len(), |i: int| spec_binding(entities, slots, first, scene_index, i))
}

pub open spec fn missing_entry_scene_message() -> Seq<char> {
    "entry scene is missing while resolving weapon inspector owners"@
}

pub open spec fn owner_range_message() -> Seq<char> {
    "weapon inspector owner identity exceeds the supported range"@
}

/// What `all_bindings` yields: the entry scene must exist; identities start
/// one past the largest entity identity of that scene and must stay within
/// `u64`.
pub open spec fn bindings_outcome(
    project: StoredProject,
    owners: Seq<u64>,
    result: Result<Seq<WeaponBinding>, Seq<char>>,
) -> bool {
    match entry_scene_index(project) {
        None => result == Err::<Seq<WeaponBinding>, Seq<char>>(missing_entry_scene_message()),
        Some(si) => {
            let entities = project.scenes@[si].entities@;
            let largest = max_entity_id(entities);
            if largest == u64::MAX {
                result == Err::<Seq<WeaponBinding>, Seq<char>>(owner_range_message())
            } else {
                let first = largest + 1;
                let count = owner_slots(entities, owners).len();
                &&& ascending_owners(entities, owners)
                &&& if count > 0 && first + count - 1 > u64::MAX {
                    result == Err::<Seq<WeaponBinding>, Seq<char>>(owner_range_message())
                } else {
                    result == Ok::<Seq<WeaponBinding>, Seq<char>>(
                        spec_bindings(entities, owners, first, si),
                    )
                }
            }
        },
    }
}

pub open spec fn view_bindings(result: Result<Vec<WeaponBinding>, String>) -> Result<
    Seq<WeaponBinding>,
    Seq<char>,
> {
    match result {
        Ok(bindings) => Ok(bindings@),
        Err(message) => Err(message@),
    }
}

fn find_entry_scene(project: &StoredProject) -> (found: Option<usize>)
    ensures
        found is Some ==> found->Some_0 < project.scenes@.len(),
        found is Some ==> entry_scene_index(*project) == Some(found->Some_0 as int),
        found is None ==> entry_scene_index(*project) is None,
{
    let scenes = &project.scenes;
    let mut index: usize = 0;
    while index < scenes.len()
        invariant
            scenes == &project.scenes,
            0 <= index <= scenes@.len(),
            forall|j: int| 0 <= j < index ==> (#[trigger] scenes@[j]).id@ != project.entry_scene@,
        decreases scenes@.len() - index,
    {
        if crate::stored_project::text_equal(scenes[index].id.as_str(), project.entry_scene.as_str()) {
            proof {
                let i = index as int;
                let k = choose|k: int|
                    0 <= k < scenes@.len() && (#[trigger] scenes@[k]).id@ == project.entry_scene@
                        && forall|j: int|
                        0 <= j < k ==> (#[trigger] scenes@[j]).id@ != project.entry_scene@;
                if k < i {
                    assert(scenes@[k].id@ != project.entry_scene@);
                }
                if k > i {
                    assert(scenes@[i].id@ != project.entry_scene@);
                }
            }
            return Some(index);
        }
        index = index + 1;
    }
    None
}

fn largest_entity_id(entities: &Vec<StoredEntityDefinition>) -> (largest: u64)
    ensures
        largest == max_entity_id(entities@),
{
    let mut largest: u64 = 0;
    let mut index: usize = 0;
    while index < entities.len()
        invariant
            0 <= index <= entities@.len(),
            largest == max_entity_id(entities@.subrange(0, index as int)),
        decreases entities@.len() - index,
    {
        proof {
            let next = entities@.subrange(0, index as int + 1);
            assert(next.drop_last() =~= entities@.subrange(0, index as int));
        }
        if entities[index].id > largest {
            largest = entities[index].id;
        }
        index = index + 1;
    }
    assert(entities@.subrange(0, entities@.len() as int) =~= entities@);
    largest
}

/// The next inventory owner after `previous`: the smallest owner identity
/// above it, with the index of the last entity carrying that identity and an
/// inventory.
fn next_owner(entities: &Vec<StoredEntityDefinition>, previous: Option<u64>) -> (next: Option<
    (u64, usize),
>)
    ensures
        match next {
            None => forall|id: u64|
                is_inventory_owner(entities@, id) ==> (previous is Some && id
                    <= previous->Some_0),
            Some((owner, index)) => {
                &&& is_inventory_owner(entities@, owner)
                &&& (previous is None || owner > previous->Some_0)
                &&& forall|id: u64|
                    is_inventory_owner(entities@, id) && (previous is None || id
                        > previous->Some_0) ==> owner <= id
                &&& index == inventory_entity(entities@, owner)
            },
        },
{
    reveal(is_inventory_owner);
    reveal(inventory_entity);
    let mut best: Option<(u64, usize)> = None;
    let mut index: usize = 0;
    while index < entities.len()
        invariant
            0 <= index <= entities@.len(),
            match best {
                None => forall|j: int|
                    0 <= j < index && (#[trigger] entities@[j]).inventory is Some ==> (previous is Some
                        && entities@[j].id <= previous->Some_0),
                Some((owner, k)) => {
                    &&& 0 <= k < index
                    &&& entities@[k as int].id == owner
                    &&& entities@[k as int].inventory is Some
                    &&& (previous is None || owner > previous->Some_0)
                    &&& forall|j: int|
                        0 <= j < index && (#[trigger] entities@[j]).inventory is Some && (previous is None
                            || entities@[j].id > previous->Some_0) ==> owner <= entities@[j].id
                    &&& forall|j: int|
                        k < j < index ==> !((#[trigger] entities@[j]).id == owner
                            && entities@[j].inventory is Some)
                },
            },
        decreases entities@.len() - index,
    {
        let entity = &entities[index];
        let eligible = entity.inventory.is_some() && match previous {
            None => true,
            Some(previous) => entity.id > previous,
        };
        if eligible {
            match best {
                None => {
                    best = Some((entity.id, index));
                },
                Some((owner, _)) => {
                    if entity.id <= owner {
                        best = Some((entity.id, index));
                    }
                },
            }
        }
        index = index + 1;
    }
    match best {
        None => {
            proof {
                assert forall|id: u64| is_inventory_owner(entities@, id) implies (previous is Some
                    && id <= previous->Some_0) by {
                    let i = choose|i: int|
                        0 <= i < entities@.len() && (#[trigger] entities@[i]).id == id
                            && entities@[i].inventory is Some;
                    assert(entities@[i].inventory is Some);
                }
            }
            None
        },
        Some((owner, k)) => {
            proof {
                assert(is_inventory_owner(entities@, owner)) by {
                    assert(entities@[k as int].id == owner);
                }
                assert forall|id: u64|
                    is_inventory_owner(entities@, id) && (previous is None || id
                        > previous->Some_0) implies owner <= id by {
                    let i = choose|i: int|
                        0 <= i < entities@.len() && (#[trigger] entities@[i]).id == id
                            && entities@[i].inventory is Some;
                    assert(entities@[i].inventory is Some);
                }
                let c = inventory_entity(entities@, owner);
                assert(0 <= k < entities@.len() && entities@[k as int].id == owner
                    && entities@[k as int].inventory is Some && forall|j: int|
                    k < j < entities@.len() ==> !((#[trigger] entities@[j]).id == owner
                        && entities@[j].inventory is Some));
                if c < k {
                    assert(entities@[k as int].id == owner && entities@[k as int].inventory is Some);
                }
                if c > k {
                    assert(entities@[c].id == owner && entities@[c].inventory is Some);
                }
            }
            Some((owner, k))
        },
    }
}

proof fn lemma_owner_slots_push(entities: Seq<StoredEntityDefinition>, owners: Seq<u64>, owner: u64)
    ensures
        owner_slots(entities, owners.push(owner)) == owner_slots(entities, owners) + Seq::new(
            inventory_of(entities, owner).weapon_slots@.len(),
            |slot: int| (owner, slot),
        ),
{
    reveal(owner_slots);
    assert(owners.push(owner).drop_last() =~= owners);
}

/// Every provider-derived weapon binding of the entry scene, in identity
/// order.
pub open spec fn owner_ids(owners: Seq<(u64, usize)>) -> Seq<u64> {
    Seq::new(owners.len(), |i: int| owners[i].0)
}

/// Every inventory owner of `entities`, ascending, with the entity that
/// carries its inventory.
fn collect_owners(entities: &Vec<StoredEntityDefinition>) -> (owners: Vec<(u64, usize)>)
    ensures
        ascending_owners(entities@, owner_ids(owners@)),
        forall|i: int|
            0 <= i < owners@.len() ==> (#[trigger] owners@[i]).1 == inventory_entity(
                entities@,
                owners@[i].0,
            ),
{
    reveal(ascending_owners);
    let mut owners: Vec<(u64, usize)> = Vec::new();
    let mut previous: Option<u64> = None;
    loop
        invariant
            forall|i: int|
                0 <= i < owners@.len() ==> (#[trigger] owners@[i]).1 == inventory_entity(
                    entities@,
                    owners@[i].0,
                ),
            forall|i: int, j: int|
                0 <= i < j < owners@.len() ==> (#[trigger] owners@[i]).0 < (#[trigger] owners@[j]).0,
            forall|i: int|
                0 <= i < owners@.len() ==> is_inventory_owner(entities@, (#[trigger] owners@[i]).0),
            previous is None <==> owners@.len() == 0,
            previous is Some ==> previous->Some_0 == owners@.last().0,
            forall|id: u64|
                is_inventory_owner(entities@, id) && previous is Some && id <= previous->Some_0
                    ==> owner_ids(owners@).contains(id),
        ensures
            forall|i: int|
                0 <= i < owners@.len() ==> (#[trigger] owners@[i]).1 == inventory_entity(
                    entities@,
                    owners@[i].0,
                ),
            ascending_owners(entities@, owner_ids(owners@)),
        decreases (if previous is None {
            u64::MAX as int + 1
        } else {
            u64::MAX as int - previous->Some_0 as int
        }),
    {
        match next_owner(entities, previous) {
            None => {
                proof {
                    reveal(ascending_owners);
                    let ids = owner_ids(owners@);
                    assert forall|i: int, j: int| 0 <= i < j < ids.len() implies ids[i] < ids[j] by {
                        assert(owners@[i].0 < owners@[j].0);
                    }
                    assert forall|i: int| 0 <= i < ids.len() implies is_inventory_owner(
                        entities@,
                        #[trigger] ids[i],
                    ) by {
                        assert(is_inventory_owner(entities@, owners@[i].0));
                    }
                }
                break;
            },
            Some((owner, index)) => {
                let ghost old_owners = owners@;
                owners.push((owner, index));
                proof {
                    assert forall|id: u64|
                        is_inventory_owner(entities@, id) && id <= owner implies owner_ids(
                        owners@,
                    ).contains(id) by {
                        if previous is Some && id <= previous->Some_0 {
                            assert(owner_ids(old_owners).contains(id));
                            let k = choose|k: int|
                                0 <= k < owner_ids(old_owners).len() && owner_ids(old_owners)[k]
                                    == id;
                            assert(owner_ids(owners@)[k] == id);
                        } else {
                            assert(owner_ids(owners@)[owners@.len() - 1] == id);
                        }
                    }
                }
                previous = Some(owner);
            },
        }
    }
    owners
}

/// The bindings of one owner's weapon slots, appended after `bindings`:
/// fails when an identity would leave `u64`.
fn append_owner_bindings(
    bindings: &mut Vec<WeaponBinding>,
    slots: &Vec<String>,
    owner: u64,
    first: u64,
    scene_index: usize,
    entity_index: usize,
) -> (result: Result<(), ()>)
    ensures
        slots@.len() > 0 && first + old(bindings)@.len() + slots@.len() - 1 > u64::MAX
            <==> result is Err,
        result is Ok ==> final(bindings)@ == old(bindings)@ + Seq::new(
            slots@.len(),
            |s: int|
                WeaponBinding {
                    owner_entity_id: (first + old(bindings)@.len() + s) as u64,
                    inventory_owner_entity_id: owner,
                    slot_index: s as usize,
                    item_definition_id: slots@[s],
                    scene_index,
                    entity_index,
                },
        ),
{
    let ghost start = bindings@.len();
    let mut slot: usize = 0;
    while slot < slots.len()
        invariant
            0 <= slot <= slots@.len(),
            bindings@.len() == start + slot,
            start == old(bindings)@.len(),
            first + start + slot - 1 <= u64::MAX || slot == 0,
            bindings@ == old(bindings)@ + Seq::new(
                slot as nat,
                |s: int|
                    WeaponBinding {
                        owner_entity_id: (first + start + s) as u64,
                        inventory_owner_entity_id: owner,
                        slot_index: s as usize,
                        item_definition_id: slots@[s],
                        scene_index,
                        entity_index,
                    },
            ),
        decreases slots@.len() - slot,
    {
        let offset = bindings.len();
        if first > u64::MAX - (offset as u64) {
            return Err(());
        }
        bindings.push(
            WeaponBinding {
                owner_entity_id: first + offset as u64,
                inventory_owner_entity_id: owner,
                slot_index: slot,
                item_definition_id: slots[slot].clone(),
                scene_index,
                entity_index,
            },
        );
        slot = slot + 1;
        assert(bindings@ =~= old(bindings)@ + Seq::new(
            slot as nat,
            |s: int|
                WeaponBinding {
                    owner_entity_id: (first + start + s) as u64,
                    inventory_owner_entity_id: owner,
                    slot_index: s as usize,
                    item_definition_id: slots@[s],
                    scene_index,
                    entity_index,
                },
        ));
    }
    Ok(())
}

/// The bindings of the first `count` owners.
proof fn lemma_bindings_extend(
    entities: Seq<StoredEntityDefinition>,
    owners: Seq<u64>,
    count: int,
    first: int,
    scene_index: int,
)
    requires
        0 <= count < owners.len(),
        is_inventory_owner(entities, owners[count]),
    ensures
        ({
            let prefix = owners.take(count);
            let owner = owners[count];
            let slots = inventory_of(entities, owner).weapon_slots@;
            let earlier = owner_slots(entities, prefix).len();
            &&& owners.take(count + 1) == prefix.push(owner)
            &&& owner_slots(entities, prefix.push(owner)).len() == earlier + slots.len()
            &&& spec_bindings(entities, prefix.push(owner), first, scene_index) == spec_bindings(
                entities,
                prefix,
                first,
                scene_index,
            ) + Seq::new(
                slots.len(),
                |s: int|
                    WeaponBinding {
                        owner_entity_id: (first + earlier + s) as u64,
                        inventory_owner_entity_id: owner,
                        slot_index: s as usize,
                        item_definition_id: slots[s],
                        scene_index: scene_index as usize,
                        entity_index: inventory_entity(entities, owner) as usize,
                    },
            )
        }),
{
    reveal(spec_bindings);
    let prefix = owners.take(count);
    let owner = owners[count];
    assert(owners.take(count + 1) =~= prefix.push(owner));
    lemma_owner_slots_push(entities, prefix, owner);
    let all = owner_slots(entities, prefix.push(owner));
    let earlier = owner_slots(entities, prefix);
    let slots = inventory_of(entities, owner).weapon_slots@;
    assert forall|i: int| 0 <= i < earlier.len() implies all[i] == earlier[i] by {}
    assert(spec_bindings(entities, prefix.push(owner), first, scene_index) =~= spec_bindings(
        entities,
        prefix,
        first,
        scene_index,
    ) + Seq::new(
        slots.len(),
        |s: int|
            WeaponBinding {
                owner_entity_id: (first + earlier.len() + s) as u64,
                inventory_owner_entity_id: owner,
                slot_index: s as usize,
                item_definition_id: slots[s],
                scene_index: scene_index as usize,
                entity_index: inventory_entity(entities, owner) as usize,
            },
    ));
}

proof fn lemma_inventory_entity(entities: Seq<StoredEntityDefinition>, id: u64)
    requires
        is_inventory_owner(entities, id),
    ensures
        0 <= inventory_entity(entities, id) < entities.len(),
        entities[inventory_entity(entities, id)].id == id,
        entities[inventory_entity(entities, id)].inventory is Some,
{
    reveal(is_inventory_owner);
    reveal(inventory_entity);
    let i = choose|i: int|
        0 <= i < entities.len() && (#[trigger] entities[i]).id == id && entities[i].inventory is Some;
    lemma_last_inventory_entity(entities, id, i);
}

proof fn lemma_last_inventory_entity(entities: Seq<StoredEntityDefinition>, id: u64, i: int)
    requires
        0 <= i < entities.len(),
        entities[i].id == id,
        entities[i].inventory is Some,
    ensures
        exists|k: int|
            0 <= k < entities.len() && (#[trigger] entities[k]).id == id
                && entities[k].inventory is Some && forall|j: int|
                k < j < entities.len() ==> !((#[trigger] entities[j]).id == id
                    && entities[j].inventory is Some),
    decreases entities.len() - i,
{
    if exists|j: int|
        i < j < entities.len() && (#[trigger] entities[j]).id == id && entities[j].inventory is Some {
        let j = choose|j: int|
            i < j < entities.len() && (#[trigger] entities[j]).id == id
                && entities[j].inventory is Some;
        lemma_last_inventory_entity(entities, id, j);
    } else {
        assert(forall|j: int|
            i < j < entities.len() ==> !((#[trigger] entities[j]).id == id
                && entities[j].inventory is Some));
    }
}

proof fn lemma_no_bindings(entities: Seq<StoredEntityDefinition>, first: int, scene_index: int)
    ensures
        owner_slots(entities, Seq::empty()).len() == 0,
        spec_bindings(entities, Seq::empty(), first, scene_index) == Seq::<WeaponBinding>::empty(),
{
    reveal(owner_slots);
    reveal(spec_bindings);
    assert(spec_bindings(entities, Seq::empty(), first, scene_index) =~= Seq::<WeaponBinding>::empty());
}

proof fn lemma_ascending_member(entities: Seq<StoredEntityDefinition>, owners: Seq<u64>, k: int)
    requires
        ascending_owners(entities, owners),
        0 <= k < owners.len(),
    ensures
        is_inventory_owner(entities, owners[k]),
{
    reveal(ascending_owners);
}

/// Every provider-derived weapon binding of the entry scene, in identity
/// order.
#[verifier::spinoff_prover]
#[verifier::rlimit(100)]
pub fn all_bindings(project: &StoredProject) -> (result: Result<Vec<WeaponBinding>, String>)
    ensures
        exists|owners: Seq<u64>| bindings_outcome(*project, owners, view_bindings(result)),
{
    let scene_index = match find_entry_scene(project) {
        Some(index) => index,
        None => {
            let result = Err(
                String::from_str("entry scene is missing while resolving weapon inspector owners"),
            );
            assert(bindings_outcome(*project, Seq::empty(), view_bindings(result)));
            return result;
        },
    };
    let entities = &project.scenes[scene_index].entities;
    let largest = largest_entity_id(entities);
    if largest == u64::MAX {
        let result = Err(
            String::from_str("weapon inspector owner identity exceeds the supported range"),
        );
        assert(bindings_outcome(*project, Seq::empty(), view_bindings(result)));
        return result;
    }
    let first = largest + 1;
    let owners = collect_owners(entities);
    let ghost ids = owner_ids(owners@);
    let mut bindings: Vec<WeaponBinding> = Vec::new();
    let mut done: usize = 0;
    proof {
        assert(ids.take(0) =~= Seq::<u64>::empty());
        lemma_no_bindings(entities@, first as int, scene_index as int);
    }
    while done < owners.len()
        invariant
            entry_scene_index(*project) == Some(scene_index as int),
            largest == max_entity_id(entities@),
            largest < u64::MAX,
            first == largest + 1,
            entities == &project.scenes@[scene_index as int].entities,
            ascending_owners(entities@, ids),
            ids == owner_ids(owners@),
            forall|i: int|
                0 <= i < owners@.len() ==> (#[trigger] owners@[i]).1 == inventory_entity(
                    entities@,
                    owners@[i].0,
                ),
            0 <= done <= owners@.len(),
            bindings@ == spec_bindings(entities@, ids.take(done as int), first as int, scene_index as int),
            bindings@.len() == owner_slots(entities@, ids.take(done as int)).len(),
            bindings@.len() == 0 || first + bindings@.len() - 1 <= u64::MAX,
        decreases owners@.len() - done,
    {
        let (owner, entity_index) = owners[done];
        proof {
            assert(ids[done as int] == owner);
            lemma_ascending_member(entities@, ids, done as int);
            lemma_inventory_entity(entities@, owner);
            lemma_bindings_extend(entities@, ids, done as int, first as int, scene_index as int);
        }
        let slots = match &entities[entity_index].inventory {
            Some(inventory) => &inventory.weapon_slots,
            None => {
                return Err(String::new());
            },
        };
        match append_owner_bindings(&mut bindings, slots, owner, first, scene_index, entity_index) {
            Ok(()) => {},
            Err(()) => {
                let result = Err(
                    String::from_str("weapon inspector owner identity exceeds the supported range"),
                );
                proof {
                    lemma_owner_slots_monotone(entities@, ids, done as int);
                    assert(bindings_outcome(*project, ids, view_bindings(result)));
                }
                return result;
            },
        }
        done = done + 1;
    }
    proof {
        assert(ids.take(owners@.len() as int) =~= ids);
    }
    let result = Ok(bindings);
    assert(bindings_outcome(*project, ids, view_bindings(result)));
    result
}

proof fn lemma_owner_slots_monotone(entities: Seq<StoredEntityDefinition>, owners: Seq<u64>, k: int)
    requires
        0 <= k < owners.len(),
    ensures
        owner_slots(entities, owners.take(k + 1)).len() <= owner_slots(entities, owners).len(),
    decreases owners.len() - k,
{
    reveal(owner_slots);
    if k + 1 < owners.len() {
        lemma_owner_slots_monotone(entities, owners, k + 1);
        assert(owners.take(k + 2).drop_last() =~= owners.take(k + 1));
    } else {
        assert(owners.take(k + 1) =~= owners);
    }
}

/// The first binding of a provider-derived owner identity.
pub open spec fn binding_for(bindings: Seq<WeaponBinding>, owner_entity_id: u64) -> Option<
    WeaponBinding,
> {
    if exists|i: int| 0 <= i < bindings.len() && (#[trigger] bindings[i]).owner_entity_id == owner_entity_id {
        let i = choose|i: int|
            0 <= i < bindings.len() && (#[trigger] bindings[i]).owner_entity_id == owner_entity_id
                && forall|j: int| 0 <= j < i ==> (#[trigger] bindings[j]).owner_entity_id != owner_entity_id;
        Some(bindings[i])
    } else {
        None
    }
}

/// What resolving an owner yields for a given outcome of `all_bindings`.
pub open spec fn binding_resolution(
    outcome: Result<Seq<WeaponBinding>, Seq<char>>,
    owner_entity_id: u64,
    result: Result<WeaponBinding, LoadingBayWeaponAuthoringRejection>,
) -> bool {
    match outcome {
        Err(message) => result is Err && result->Err_0.code
            == LoadingBayWeaponAuthoringRejectionCode::ProjectRejected && result->Err_0.message@
            == message && result->Err_0.path is None,
        Ok(bindings) => match binding_for(bindings, owner_entity_id) {
            Some(binding) => result == Ok::<
                WeaponBinding,
                LoadingBayWeaponAuthoringRejection,
            >(binding),
            None => result is Err && result->Err_0.code
                == LoadingBayWeaponAuthoringRejectionCode::WeaponNotFound && result->Err_0.message@
                == weapon_not_found_message(owner_entity_id) && result->Err_0.path is Some
                && result->Err_0.path->Some_0@ == "$.ownerEntityId"@,
        },
    }
}

fn clone_binding(binding: &WeaponBinding) -> (copy: WeaponBinding)
    ensures
        copy == *binding,
{
    WeaponBinding {
        owner_entity_id: binding.owner_entity_id,
        inventory_owner_entity_id: binding.inventory_owner_entity_id,
        slot_index: binding.slot_index,
        item_definition_id: binding.item_definition_id.clone(),
        scene_index: binding.scene_index,
        entity_index: binding.entity_index,
    }
}

/// The provider-derived weapon binding of an owner identity.
pub fn resolve_binding(project: &StoredProject, requested_entity_id: u64) -> (result: Result<
    WeaponBinding,
    LoadingBayWeaponAuthoringRejection,
>)
    ensures
        exists|owners: Seq<u64>, outcome: Result<Seq<WeaponBinding>, Seq<char>>|
            bindings_outcome(*project, owners, outcome) && binding_resolution(
                outcome,
                requested_entity_id,
                result,
            ),
{
    let all = all_bindings(project);
    let ghost outcome = view_bindings(all);
    let ghost owners = choose|owners: Seq<u64>| bindings_outcome(*project, owners, view_bindings(all));
    assert(bindings_outcome(*project, owners, outcome));
    let bindings = match all {
        Ok(bindings) => bindings,
        Err(message) => {
            let result = Err(
                rejection(LoadingBayWeaponAuthoringRejectionCode::ProjectRejected, message, None),
            );
            assert(binding_resolution(outcome, requested_entity_id, result));
            return result;
        },
    };
    let mut index: usize = 0;
    while index < bindings.len()
        invariant
            outcome == Ok::<Seq<WeaponBinding>, Seq<char>>(bindings@),
            bindings_outcome(*project, owners, outcome),
            0 <= index <= bindings@.len(),
            forall|j: int| 0 <= j < index ==> (#[trigger] bindings@[j]).owner_entity_id != requested_entity_id,
        decreases bindings@.len() - index,
    {
        if bindings[index].owner_entity_id == requested_entity_id {
            let result = Ok(clone_binding(&bindings[index]));
            proof {
                let i = index as int;
                let k = choose|k: int|
                    0 <= k < bindings@.len() && (#[trigger] bindings@[k]).owner_entity_id
                        == requested_entity_id && forall|j: int|
                        0 <= j < k ==> (#[trigger] bindings@[j]).owner_entity_id != requested_entity_id;
                if k < i {
                    assert(bindings@[k].owner_entity_id != requested_entity_id);
                }
                if k > i {
                    assert(bindings@[i].owner_entity_id != requested_entity_id);
                }
                assert(binding_resolution(outcome, requested_entity_id, result));
            }
            return result;
        }
        index = index + 1;
    }
    let result = Err(weapon_not_found(requested_entity_id));
    assert(binding_resolution(outcome, requested_entity_id, result));
    result
}

/// The identities of every provider-derived weapon owner, in order.
pub fn loading_bay_weapon_owner_entity_ids(project: &StoredProject) -> (result: Result<
    Vec<u64>,
    String,
>)
    ensures
        exists|owners: Seq<u64>, outcome: Result<Seq<WeaponBinding>, Seq<char>>|
            bindings_outcome(*project, owners, outcome) && match outcome {
                Err(message) => result is Err && result->Err_0@ == message,
                Ok(bindings) => result is Ok && result->Ok_0@ == Seq::new(
                    bindings.len(),
                    |i: int| bindings[i].owner_entity_id,
                ),
            },
{
    let all = all_bindings(project);
    let ghost outcome = view_bindings(all);
    let ghost owners = choose|owners: Seq<u64>| bindings_outcome(*project, owners, view_bindings(all));
    assert(bindings_outcome(*project, owners, outcome));
    let bindings = match all {
        Ok(bindings) => bindings,
        Err(message) => {
            return Err(message);
        },
    };
    let mut ids: Vec<u64> = Vec::new();
    let mut index: usize = 0;
    while index < bindings.len()
        invariant
            0 <= index <= bindings@.len(),
            ids@ == Seq::new(index as nat, |i: int| bindings@[i].owner_entity_id),
        decreases bindings@.len() - index,
    {
        ids.push(bindings[index].owner_entity_id);
        index = index + 1;
        assert(ids@ =~= Seq::new(index as nat, |i: int| bindings@[i].owner_entity_id));
    }
    Ok(ids)
}

/// The inventory a binding points at, when its indices are valid.
pub open spec fn binding_inventory(project: StoredProject, binding: WeaponBinding) -> Option<
    StoredInventory,
> {
    if binding.scene_index < project.scenes@.len() && binding.entity_index
        < project.scenes@[binding.scene_index as int].entities@.len() {
        project.scenes@[binding.scene_index as int].entities@[binding.entity_index as int].inventory
    } else {
        None
    }
}

/// The quantity of the first starting stack of `item`, or zero.
pub open spec fn starting_quantity(stacks: Seq<StoredInventoryStack>, item: Seq<char>) -> u32 {
    if exists|i: int| 0 <= i < stacks.len() && (#[trigger] stacks[i]).item@ == item {
        let i = choose|i: int|
            0 <= i < stacks.len() && (#[trigger] stacks[i]).item@ == item && forall|j: int|
                0 <= j < i ==> (#[trigger] stacks[j]).item@ != item;
        stacks[i].quantity
    } else {
        0
    }
}

/// A weapon as read from the project, before its component revision (a
/// content hash of the stored definition) is attached.
#[derive(Debug, Clone, PartialEq, Eq)]
pub struct ResolvedWeapon {
    pub owner_entity_id: u64,
    pub item_definition_id: String,
    pub definition_index: usize,
    pub binding: LoadingBayWeaponAuthoringBinding,
    pub definition: LoadingBayWeaponAuthoringCandidate,
}

/// What resolving a weapon yields once its binding is known.
pub open spec fn weapon_resolution(
    project: StoredProject,
    binding: WeaponBinding,
    result: Result<ResolvedWeapon, LoadingBayWeaponAuthoringRejection>,
) -> bool {
    let owner = binding.owner_entity_id;
    let not_found = result is Err && result->Err_0.code
        == LoadingBayWeaponAuthoringRejectionCode::WeaponNotFound && result->Err_0.message@
        == weapon_not_found_message(owner);
    match definition_index(project.item_definitions@, binding.item_definition_id@) {
        None => not_found,
        Some(d) => match spec_candidate_from_kind(project.item_definitions@[d].kind) {
            None => not_found,
            Some(candidate) => match binding_inventory(project, binding) {
                None => not_found,
                Some(inventory) => result == Ok::<
                    ResolvedWeapon,
                    LoadingBayWeaponAuthoringRejection,
                >(
                    ResolvedWeapon {
                        owner_entity_id: owner,
                        item_definition_id: binding.item_definition_id,
                        definition_index: d as usize,
                        binding: LoadingBayWeaponAuthoringBinding {
                            inventory_owner_entity_id: binding.inventory_owner_entity_id,
                            slot_index: binding.slot_index,
                            starting_quantity: starting_quantity(
                                inventory.starting_stacks@,
                                binding.item_definition_id@,
                            ),
                            initially_equipped: inventory.initially_equipped_weapon is Some
                                && inventory.initially_equipped_weapon->Some_0@
                                == binding.item_definition_id@,
                        },
                        definition: candidate,
                    },
                ),
            },
        },
    }
}

fn first_stack_quantity(stacks: &Vec<StoredInventoryStack>, item: &str) -> (quantity: u32)
    ensures
        quantity == starting_quantity(stacks@, item@),
{
    let mut index: usize = 0;
    while index < stacks.len()
        invariant
            0 <= index <= stacks@.len(),
            forall|j: int| 0 <= j < index ==> (#[trigger] stacks@[j]).item@ != item@,
        decreases stacks@.len() - index,
    {
        if crate::stored_project::text_equal(stacks[index].item.as_str(), item) {
            proof {
                let i = index as int;
                let k = choose|k: int|
                    0 <= k < stacks@.len() && (#[trigger] stacks@[k]).item@ == item@ && forall|
                        j: int,
                    | 0 <= j < k ==> (#[trigger] stacks@[j]).item@ != item@;
                if k < i {
                    assert(stacks@[k].item@ != item@);
                }
                if k > i {
                    assert(stacks@[i].item@ != item@);
                }
            }
            return stacks[index].quantity;
        }
        index = index + 1;
    }
    0
}

/// Reads the weapon a binding stands for: its definition must exist and be a
/// complete weapon, and its inventory must exist.
pub fn resolve_bound_weapon(project: &StoredProject, binding: WeaponBinding) -> (result: Result<
    ResolvedWeapon,
    LoadingBayWeaponAuthoringRejection,
>)
    ensures
        weapon_resolution(*project, binding, result),
{
    let owner = binding.owner_entity_id;
    let index = match find_definition(&project.item_definitions, binding.item_definition_id.as_str()) {
        Some(index) => index,
        None => {
            return Err(weapon_not_found(owner));
        },
    };
    let candidate = match candidate_from_definition(&project.item_definitions[index]) {
        Some(candidate) => candidate,
        None => {
            return Err(weapon_not_found(owner));
        },
    };
    if binding.scene_index >= project.scenes.len() || binding.entity_index
        >= project.scenes[binding.scene_index].entities.len() {
        return Err(weapon_not_found(owner));
    }
    let inventory = match &project.scenes[binding.scene_index].entities[binding.entity_index].inventory {
        Some(inventory) => inventory,
        None => {
            return Err(weapon_not_found(owner));
        },
    };
    let quantity = first_stack_quantity(&inventory.starting_stacks, binding.item_definition_id.as_str());
    let equipped = match &inventory.initially_equipped_weapon {
        Some(equipped) => crate::stored_project::text_equal(
            equipped.as_str(),
            binding.item_definition_id.as_str(),
        ),
        None => false,
    };
    Ok(
        ResolvedWeapon {
            owner_entity_id: owner,
            item_definition_id: binding.item_definition_id,
            definition_index: index,
            binding: LoadingBayWeaponAuthoringBinding {
                inventory_owner_entity_id: binding.inventory_owner_entity_id,
                slot_index: binding.slot_index,
                starting_quantity: quantity,
                initially_equipped: equipped,
            },
            definition: candidate,
        },
    )
}

/// Resolves the weapon of a provider-derived owner identity.
pub fn resolve_weapon(project: &StoredProject, owner_entity_id: u64) -> (result: Result<
    ResolvedWeapon,
    LoadingBayWeaponAuthoringRejection,
>)
    ensures
        exists|
            owners: Seq<u64>,
            outcome: Result<Seq<WeaponBinding>, Seq<char>>,
            bound: Result<WeaponBinding, LoadingBayWeaponAuthoringRejection>,
        |
            bindings_outcome(*project, owners, outcome) && binding_resolution(
                outcome,
                owner_entity_id,
                bound,
            ) && match bound {
                Err(rejection) => result == Err::<
                    ResolvedWeapon,
                    LoadingBayWeaponAuthoringRejection,
                >(rejection),
                Ok(binding) => weapon_resolution(*project, binding, result),
            },
{
    let bound = resolve_binding(project, owner_entity_id);
    match bound {
        Err(rejection) => Err(rejection),
        Ok(binding) => resolve_bound_weapon(project, binding),
    }
}

impl LoadingBayWeaponAuthoringWeapon {
    /// The inspector readout of a resolved weapon with its component revision.
    pub fn from_resolved(resolved: ResolvedWeapon, component_revision: String) -> (weapon: Self)
        ensures
            weapon.component_type_id@ == LOADING_BAY_WEAPON_COMPONENT_TYPE_ID@,
            weapon.contract_id@ == LOADING_BAY_WEAPON_AUTHORING_CONTRACT_ID@,
            weapon.contract_version == LOADING_BAY_WEAPON_AUTHORING_CONTRACT_VERSION,
            weapon.owner_entity_id == resolved.owner_entity_id,
            weapon.component_revision == component_revision,
            weapon.item_definition_id == resolved.item_definition_id,
            weapon.binding == resolved.binding,
            weapon.definition == resolved.definition,
    {
        LoadingBayWeaponAuthoringWeapon {
            component_type_id: String::from_str(LOADING_BAY_WEAPON_COMPONENT_TYPE_ID),
            contract_id: String::from_str(LOADING_BAY_WEAPON_AUTHORING_CONTRACT_ID),
            contract_version: LOADING_BAY_WEAPON_AUTHORING_CONTRACT_VERSION,
            owner_entity_id: resolved.owner_entity_id,
            component_revision,
            item_definition_id: resolved.item_definition_id,
            binding: resolved.binding,
            definition: resolved.definition,
        }
    }
}

/// Replacing a weapon definition leaves every provider-derived binding as it
/// was: bindings depend only on the scenes and the entry scene.
pub proof fn lemma_replace_keeps_bindings(
    project: StoredProject,
    after: StoredProject,
    owners: Seq<u64>,
    outcome: Result<Seq<WeaponBinding>, Seq<char>>,
)
    requires
        after.scenes == project.scenes,
        after.entry_scene == project.entry_scene,
    ensures
        bindings_outcome(project, owners, outcome) == bindings_outcome(after, owners, outcome),
{
}

proof fn lemma_minimal_definition(definitions: Seq<StoredItemDefinition>, id: Seq<char>, i: int)
    requires
        0 <= i < definitions.len(),
        definitions[i].id@ == id,
    ensures
        exists|k: int|
            0 <= k < definitions.len() && (#[trigger] definitions[k]).id@ == id && forall|j: int|
                0 <= j < k ==> (#[trigger] definitions[j]).id@ != id,
    decreases i,
{
    if exists|j: int| 0 <= j < i && (#[trigger] definitions[j]).id@ == id {
        let j = choose|j: int| 0 <= j < i && (#[trigger] definitions[j]).id@ == id;
        lemma_minimal_definition(definitions, id, j);
    } else {
        assert(forall|j: int| 0 <= j < i ==> (#[trigger] definitions[j]).id@ != id);
    }
}

/// The index `definition_index` yields is the first definition of `id`.
pub proof fn lemma_definition_index_is_first(definitions: Seq<StoredItemDefinition>, id: Seq<char>)
    ensures
        definition_index(definitions, id) matches Some(d) ==> 0 <= d < definitions.len()
            && definitions[d].id@ == id && forall|j: int|
            0 <= j < d ==> (#[trigger] definitions[j]).id@ != id,
{
    if exists|i: int| 0 <= i < definitions.len() && (#[trigger] definitions[i]).id@ == id {
        let i = choose|i: int| 0 <= i < definitions.len() && (#[trigger] definitions[i]).id@ == id;
        lemma_minimal_definition(definitions, id, i);
    }
}

/// A read after a replacement gives back what was written: once the
/// definition a binding names has been replaced by a candidate, resolving
/// that binding yields exactly the candidate.
#[verifier::spinoff_prover]
pub proof fn lemma_read_after_replace(
    project: StoredProject,
    after: StoredProject,
    binding: WeaponBinding,
    candidate: LoadingBayWeaponAuthoringCandidate,
    d: int,
    result: Result<ResolvedWeapon, LoadingBayWeaponAuthoringRejection>,
)
    requires
        definition_index(project.item_definitions@, binding.item_definition_id@) == Some(d),
        after.item_definitions@ == project.item_definitions@.update(
            d,
            StoredItemDefinition {
                id: project.item_definitions@[d].id,
                max_quantity: 1,
                kind: spec_stored_kind(candidate),
            },
        ),
        after.scenes == project.scenes,
        binding_inventory(project, binding) is Some,
        weapon_resolution(after, binding, result),
    ensures
        result is Ok,
        result->Ok_0.definition == candidate,
        result->Ok_0.definition_index == d as usize,
        result->Ok_0.item_definition_id == binding.item_definition_id,
{
    let id = binding.item_definition_id@;
    let before = project.item_definitions@;
    let now = after.item_definitions@;
    lemma_definition_index_is_first(before, id);
    assert(0 <= d < before.len() && before[d].id@ == id && forall|j: int|
        0 <= j < d ==> (#[trigger] before[j]).id@ != id);
    assert(now[d].id@ == id);
    assert(now[d].kind == spec_stored_kind(candidate));
    assert forall|j: int| 0 <= j < d implies (#[trigger] now[j]).id@ != id by {
        assert(now[j] == before[j]);
    }
    lemma_first_definition(now, id, d);
    lemma_candidate_round_trip(candidate);
}

/// The weapon authoring service. Its project store, and the loading,
/// admission and publication of project sources, belong to the host; the
/// checks and edits between them are the functions of this module.
#[derive(Debug, Clone, Default)]
pub struct LoadingBayWeaponAuthoringService {}

impl LoadingBayWeaponAuthoringService {
    pub fn new() -> (service: Self) {
        LoadingBayWeaponAuthoringService {}
    }

    /// A replacement proceeds only against the component revision it was
    /// prepared from; `unchanged` tells whether the expected revision and the
    /// current one name the same content hash.
    pub fn check_component_revision(
        &self,
        expected_component_revision: &str,
        actual_component_revision: &str,
        unchanged: bool,
    ) -> (result: Result<(), LoadingBayWeaponAuthoringRejection>)
        ensures
            result is Ok <==> unchanged,
            result matches Err(rejection) ==> rejection.code
                == LoadingBayWeaponAuthoringRejectionCode::StaleComponent && rejection.message@
                == "expected component revision "@ + expected_component_revision@ + ", found "@
                + actual_component_revision@ && rejection.path is None,
    {
        if !unchanged {
            return Err(
                rejection(
                    LoadingBayWeaponAuthoringRejectionCode::StaleComponent,
                    crate::text::join3(
                        "expected component revision ",
                        expected_component_revision,
                        ", found ",
                    ).concat(actual_component_revision),
                    None,
                ),
            );
        }
        Ok(())
    }
}

} // verus!
