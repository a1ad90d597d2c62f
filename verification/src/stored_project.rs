//! Authored-project document shapes and format-level validation.
use vstd::prelude::*;

pub mod asset_catalog;
pub mod diagnostic_code;
pub mod document;
pub mod hierarchy;
pub mod inventories;
pub mod item_definitions;
pub mod pickups;
pub mod scene_entities;
pub mod scenes;
pub mod voxel_budget;
pub mod voxel_expansion;
pub mod weapon_definitions;

use crate::stored_project::voxel_budget::VoxelObjectCells;
use crate::text::{decimal, decimal_text, is_blank, join2, text_is_blank};

verus! {

pub const STORED_PROJECT_SCHEMA_VERSION: u32 = 20;

pub const MAX_PROJECT_VOXEL_OBJECT_RESOLVED_CELLS: u64 = 65_536;

// Floating-point values of the document are carried as the IEEE-754 bit
// patterns of their `f32` (or `f64`) values: the logic here only moves them.

#[derive(Debug, Clone, PartialEq, Eq)]
pub struct StoredProject {
    pub schema_version: u32,
    pub project_id: String,
    pub name: String,
    pub entry_scene: String,
    pub assets: Vec<StoredAsset>,
    pub item_definitions: Vec<StoredItemDefinition>,
    pub scenes: Vec<StoredScene>,
}

#[derive(Debug, Clone, PartialEq, Eq)]
pub struct StoredItemDefinition {
    pub id: String,
    pub max_quantity: u32,
    pub kind: StoredItemKind,
}

#[derive(Debug, Clone, PartialEq, Eq)]
pub enum StoredItemKind {
    Weapon {
        ammunition: String,
        attack_mode: Option<StoredWeaponAttackMode>,
        pellet_count: Option<u8>,
        spread_degrees: Option<u32>,
        damage: Option<u32>,
        max_distance: Option<u32>,
        cooldown_ticks: Option<u64>,
        ammunition_cost: Option<u32>,
        muzzle_offset: Option<[u32; 3]>,
        presentation: Option<String>,
    },
    Ammunition,
    AccessKey,
    HealthSupply { restore_health: u32 },
    Armor { protection: u32 },
}

#[derive(Debug, Clone, Copy, PartialEq, Eq, Structural)]
pub enum StoredWeaponAttackMode {
    Hitscan,
    Spread,
    Automatic,
}

/// An asset of the catalog: its identity, catalog metadata and import
/// record, whether it carries a voxel volume, its voxel object if it has one
/// (by its resolved cells and material palette), and whether it carries a
/// material definition whose style has a texture or a voxel surface. The
/// payloads' other contents (meshes, voxel grids, annotations, material
/// values) are the engine's and are not part of this model.
#[derive(Debug, Clone, PartialEq, Eq)]
pub struct StoredAsset {
    pub id: String,
    pub catalog: Option<StoredAssetCatalogMetadata>,
    pub import: Option<StoredAssetImport>,
    pub voxel_volume: bool,
    pub voxel_object: Option<VoxelObjectCells>,
    pub textured_material: bool,
}

/// A binding of a voxel material palette: the slot and the material asset
/// it names.
#[derive(Debug, Clone, PartialEq, Eq)]
pub struct StoredVoxelMaterialBinding {
    pub material_slot: u16,
    pub material_asset_id: String,
}

#[derive(Debug, Clone, PartialEq, Eq)]
pub struct StoredAssetCatalogMetadata {
    pub version: u32,
    pub hash: Option<String>,
    pub source_path: Option<String>,
    pub label: Option<String>,
}

#[derive(Debug, Clone, PartialEq, Eq)]
pub struct StoredAssetImport {
    pub source: StoredImportSource,
    pub source_hash: String,
    pub source_byte_count: u64,
    pub importer_version: u32,
    pub manifest_json: String,
    pub sidecar_json: String,
    pub generated_asset_ids: Vec<String>,
}

#[derive(Debug, Clone, PartialEq, Eq)]
pub enum StoredImportSource {
    Project { path: String },
    Host { path: String },
}

impl StoredImportSource {
    pub open spec fn spec_path(&self) -> String {
        match self {
            StoredImportSource::Project { path } => *path,
            StoredImportSource::Host { path } => *path,
        }
    }

    pub fn path(&self) -> (path: &str)
        ensures
            path@ == self.spec_path()@,
    {
        match self {
            StoredImportSource::Project { path } => path.as_str(),
            StoredImportSource::Host { path } => path.as_str(),
        }
    }
}

#[derive(Debug, Clone, PartialEq, Eq)]
pub struct StoredScene {
    pub id: String,
    pub name: String,
    pub voxel_environment: Option<StoredVoxelEnvironment>,
    pub voxel_instances: Vec<StoredVoxelInstance>,
    pub voxel_object_instances: Vec<StoredVoxelObjectInstance>,
    pub entities: Vec<StoredEntityDefinition>,
}

#[derive(Debug, Clone, PartialEq, Eq)]
pub struct StoredVoxelInstance {
    pub instance_id: String,
    pub voxel_asset_id: String,
    pub translation: [u32; 3],
    pub rotation: [u32; 4],
    pub scale: [u32; 3],
}

#[derive(Debug, Clone, PartialEq, Eq)]
pub struct StoredVoxelObjectInstance {
    pub instance_id: String,
    pub voxel_object_asset_id: String,
    pub frame: StoredVoxelObjectFrameSelection,
    pub translation: [u32; 3],
    pub rotation: [u32; 4],
    pub scale: [u32; 3],
    pub material_overrides: Vec<StoredVoxelObjectMaterialOverride>,
}

#[derive(Debug, Clone, PartialEq, Eq)]
pub enum StoredVoxelObjectFrameSelection {
    Default,
    Clip { clip_id: String, frame_index: u32 },
}

#[derive(Debug, Clone, PartialEq, Eq)]
pub struct StoredVoxelObjectMaterialOverride {
    pub material_slot: u16,
    pub material_asset_id: String,
}

#[derive(Debug, Clone, PartialEq, Eq)]
pub enum StoredVoxelEnvironment {
    Solid(StoredSolidVoxelEnvironment),
    Material(StoredMaterialVoxelEnvironment),
    GeneratedRoom(StoredGeneratedVoxelEnvironment),
}

#[derive(Debug, Clone, PartialEq, Eq)]
pub struct StoredSolidVoxelEnvironment {
    pub voxel_size: u64,
    pub chunk_size: u32,
    pub solid_voxels: Vec<[i64; 3]>,
}

#[derive(Debug, Clone, PartialEq, Eq)]
pub struct StoredMaterialVoxelEnvironment {
    pub voxel_size: u64,
    pub chunk_size: u32,
    pub material_voxels: Vec<StoredMaterialVoxel>,
    pub voxel_assets: Vec<String>,
}

#[derive(Debug, Clone, Copy, PartialEq, Eq, PartialOrd, Ord)]
pub struct StoredMaterialVoxel {
    pub address: [i64; 3],
    pub material_slot: u16,
}

#[derive(Debug, Clone, PartialEq, Eq)]
pub struct StoredGeneratedVoxelEnvironment {
    pub seed: u64,
    pub voxel_size: u64,
    pub chunk_size: u32,
    pub width: u32,
    pub height: u32,
    pub length: u32,
}

#[derive(Debug, Clone, PartialEq, Eq)]
pub struct StoredEntityDefinition {
    pub id: u64,
    pub name: String,
    pub parent: Option<u64>,
    pub child_order: u32,
    pub translation: Option<[u32; 3]>,
    pub rotation: [u32; 4],
    pub scale: [u32; 3],
    pub light: Option<StoredLight>,
    pub bounds: Option<StoredBounds>,
    pub collision: Option<StoredCollision>,
    pub renderable: Option<StoredRenderable>,
    pub door: Option<StoredDoor>,
    pub switch: Option<StoredSwitch>,
    pub enemy: bool,
    pub enemy_combat: Option<StoredEnemyCombat>,
    pub defeat_drop: Option<StoredEnemyDrop>,
    pub health: Option<StoredHealth>,
    pub hazard: Option<StoredHazard>,
    pub encounter: Option<StoredEncounter>,
    pub extraction_beacon: Option<StoredExtractionBeacon>,
    pub kinematic: Option<StoredKinematic>,
    pub navigation: Option<StoredNavigation>,
    pub player_controller: Option<StoredPlayerController>,
    pub inventory: Option<StoredInventory>,
    pub pickup: Option<StoredPickup>,
    pub weapon: Option<StoredWeapon>,
    pub secret_region: Option<StoredSecretRegion>,
    pub level_exit: Option<StoredLevelExit>,
}

#[derive(Debug, Clone, Copy, PartialEq, Eq)]
pub struct StoredBounds {
    pub min: [u32; 3],
    pub max: [u32; 3],
}

#[derive(Debug, Clone, PartialEq, Eq)]
pub struct StoredInventory {
    pub capacity_slots: usize,
    pub starting_stacks: Vec<StoredInventoryStack>,
    pub initially_equipped_weapon: Option<String>,
    pub weapon_slots: Vec<String>,
}

#[derive(Debug, Clone, PartialEq, Eq)]
pub struct StoredInventoryStack {
    pub item: String,
    pub quantity: u32,
}

#[derive(Debug, Clone, PartialEq, Eq)]
pub struct StoredPickup {
    pub item: String,
    pub quantity: u32,
    pub starter_ammunition: Option<StoredInventoryStack>,
}

#[derive(Debug, Clone, Copy, PartialEq, Eq)]
pub enum StoredLight {
    Ambient { color: [u32; 3], intensity: u32, enabled: bool, shadows: bool },
    Directional { color: [u32; 3], intensity: u32, enabled: bool, shadows: bool },
    Point {
        color: [u32; 3],
        intensity: u32,
        enabled: bool,
        range: Option<u32>,
        decay: u32,
        shadows: bool,
    },
    Spot {
        color: [u32; 3],
        intensity: u32,
        enabled: bool,
        range: Option<u32>,
        decay: u32,
        outer_angle_radians: u32,
        penumbra: u32,
        shadows: bool,
    },
}

#[derive(Debug, Clone, Copy, PartialEq, Eq, Structural)]
pub struct StoredCollision {
    pub enabled: bool,
    pub static_collider: bool,
}

#[derive(Debug, Clone, PartialEq, Eq)]
pub struct StoredRenderable {
    pub asset: String,
    pub visible: bool,
    pub initial_clip: Option<String>,
}

#[derive(Debug, Clone, PartialEq, Eq)]
pub struct StoredDoor {
    pub open_translation: [u32; 3],
    pub auto_close_after_ticks: Option<u64>,
    pub access: Option<StoredDoorAccess>,
}

#[derive(Debug, Clone, PartialEq, Eq)]
pub struct StoredDoorAccess {
    pub required_key: String,
    pub key_policy: StoredRequiredKeyPolicy,
    pub activation_radius: u32,
    pub denied_presentation: String,
}

#[derive(Debug, Clone, Copy, PartialEq, Eq, Structural)]
pub enum StoredRequiredKeyPolicy {
    Retain,
    Consume,
}

#[derive(Debug, Clone, PartialEq, Eq)]
pub struct StoredSwitch {
    pub controls: Vec<u64>,
    pub loading_bay_interlock: Option<StoredLoadingBayInterlock>,
}

#[derive(Debug, Clone, Copy, PartialEq, Eq, Structural)]
pub struct StoredLoadingBayInterlock {
    pub close_door: u64,
    pub open_door: u64,
}

#[derive(Debug, Clone, PartialEq, Eq)]
pub struct StoredSecretRegion {
    pub presentation: String,
}

#[derive(Debug, Clone, PartialEq, Eq)]
pub struct StoredLevelExit {
    pub activation_radius: u32,
    pub presentation: String,
}

#[derive(Debug, Clone, PartialEq, Eq)]
pub struct StoredEncounter {
    pub members: Vec<u64>,
    pub exit: u64,
    pub activation_radius: Option<u32>,
}

#[derive(Debug, Clone, Copy, PartialEq, Eq, Structural)]
pub struct StoredEnemyDrop {
    pub pickup: u64,
}

#[derive(Debug, Clone, Copy, PartialEq, Eq, Structural)]
pub struct StoredExtractionBeacon {
    pub activation_radius: u32,
}

#[derive(Debug, Clone, Copy, PartialEq, Eq)]
pub struct StoredHealth {
    pub max: u32,
    pub hitbox_half_extents: [u32; 3],
    pub max_armor: u32,
    pub armor_absorption_percent: u8,
}

#[derive(Debug, Clone, PartialEq, Eq)]
pub struct StoredEnemyCombat {
    pub sight_range: u32,
    pub hearing_range: u32,
    pub attack: StoredEnemyAttack,
}

#[derive(Debug, Clone, PartialEq, Eq)]
pub struct StoredEnemyAttack {
    pub kind: StoredEnemyAttackKind,
    pub damage: u32,
    pub range: u32,
    pub cooldown_ticks: u64,
    pub origin_offset: [u32; 3],
    pub presentation: String,
}

#[derive(Debug, Clone, Copy, PartialEq, Eq, Structural)]
pub enum StoredEnemyAttackKind {
    Melee,
    RangedHitscan,
}

#[derive(Debug, Clone, Copy, PartialEq, Eq, Structural)]
pub struct StoredHazard {
    pub damage: u32,
    pub cooldown_ticks: u64,
}

#[derive(Debug, Clone, Copy, PartialEq, Eq)]
pub struct StoredKinematic {
    pub half_extents: [u32; 3],
    pub velocity: [u32; 3],
}

#[derive(Debug, Clone, Copy, PartialEq, Eq)]
pub struct StoredNavigation {
    pub goal: [u32; 3],
    pub speed_units_per_second: u32,
    pub max_visited: usize,
}

#[derive(Debug, Clone, PartialEq, Eq)]
pub struct StoredPlayerController {
    pub move_speed_units_per_second: u32,
    pub move_step_seconds: u32,
    pub look_degrees_per_unit: u32,
    pub initial_yaw_degrees: u32,
    pub initial_pitch_degrees: u32,
    pub bindings: StoredPlayerInputBindings,
}

#[derive(Debug, Clone, PartialEq, Eq)]
pub struct StoredPlayerInputBindings {
    pub move_forward: String,
    pub move_backward: String,
    pub move_left: String,
    pub move_right: String,
    pub mouse_look: String,
    pub primary_fire: String,
    pub select_weapon: Vec<String>,
}

#[derive(Debug, Clone, Copy, PartialEq, Eq)]
pub struct StoredWeapon {
    pub damage: u32,
    pub max_distance: u32,
    pub cooldown_ticks: u64,
    pub ammo_capacity: u32,
    pub muzzle_offset: [u32; 3],
}

#[derive(Debug, Clone, PartialEq, Eq)]
pub struct ProjectDiagnostic {
    pub code: String,
    pub path: String,
    pub message: String,
}

#[derive(Debug, Clone, PartialEq, Eq)]
pub struct StoredProjectError {
    diagnostic: ProjectDiagnostic,
}

impl StoredProjectError {
    pub closed spec fn spec_diagnostic(&self) -> ProjectDiagnostic {
        self.diagnostic
    }

    pub fn diagnostic(&self) -> (diagnostic: &ProjectDiagnostic)
        ensures
            *diagnostic == self.spec_diagnostic(),
    {
        &self.diagnostic
    }

    pub fn new(code: &str, path: String, message: String) -> (error: Self)
        ensures
            error.spec_diagnostic().code@ == code@,
            error.spec_diagnostic().path == path,
            error.spec_diagnostic().message == message,
    {
        failure(code, path, message)
    }

    /// The `code at path: message` rendering of the error.
    pub fn render(&self) -> (text: String)
        ensures
            text@ == self.spec_diagnostic().code@ + " at "@ + self.spec_diagnostic().path@ + ": "@
                + self.spec_diagnostic().message@,
    {
        let mut text = self.diagnostic.code.clone();
        text.append(" at ");
        text.append(self.diagnostic.path.as_str());
        text.append(": ");
        text.append(self.diagnostic.message.as_str());
        text
    }
}

pub fn failure(code: &str, path: String, message: String) -> (error: StoredProjectError)
    ensures
        error.spec_diagnostic().code@ == code@,
        error.spec_diagnostic().path == path,
        error.spec_diagnostic().message == message,
{
    StoredProjectError {
        diagnostic: ProjectDiagnostic { code: String::from_str(code), path, message },
    }
}

/// Serializer helpers: which default values the document omits.
pub fn is_false(value: &bool) -> (omitted: bool)
    ensures
        omitted == !*value,
{
    !*value
}

pub fn is_zero_u32(value: &u32) -> (omitted: bool)
    ensures
        omitted == (*value == 0),
{
    *value == 0
}

pub fn is_zero_u8(value: &u8) -> (omitted: bool)
    ensures
        omitted == (*value == 0),
{
    *value == 0
}

/// A lowercase kebab-case segment: non-empty, made of `a-z`, `0-9` and `-`,
/// neither starting nor ending with `-`, and without two `-` in a row.
pub open spec fn kebab_segment(s: Seq<char>) -> bool {
    &&& s.len() > 0
    &&& forall|i: int| 0 <= i < s.len() ==> kebab_char(#[trigger] s[i])
    &&& s[0] != '-'
    &&& s[s.len() - 1] != '-'
    &&& forall|i: int| 0 <= i < s.len() - 1 ==> !(#[trigger] s[i] == '-' && s[i + 1] == '-')
}

pub open spec fn kebab_char(c: char) -> bool {
    ('a' <= c && c <= 'z') || ('0' <= c && c <= '9') || c == '-'
}

pub fn is_kebab_segment(value: &str) -> (valid: bool)
    ensures
        valid == kebab_segment(value@),
{
    let length = value.unicode_len();
    if length == 0 {
        return false;
    }
    let mut previous_hyphen = true;
    let mut index: usize = 0;
    while index < length
        invariant
            length == value@.len(),
            0 <= index <= length,
            forall|i: int| 0 <= i < index ==> kebab_char(#[trigger] value@[i]),
            index > 0 ==> value@[0] != '-',
            forall|i: int| 0 <= i < index - 1 ==> !(#[trigger] value@[i] == '-' && value@[i + 1] == '-'),
            previous_hyphen == (index == 0 || value@[index - 1] == '-'),
        decreases length - index,
    {
        let character = value.get_char(index);
        if ('a' <= character && character <= 'z') || ('0' <= character && character <= '9') {
            previous_hyphen = false;
        } else if character == '-' && !previous_hyphen {
            previous_hyphen = true;
        } else {
            return false;
        }
        index = index + 1;
    }
    !previous_hyphen
}

/// A serde path rendered as a document path: the empty path and `.` are the
/// document root `$`; otherwise leading dots are dropped.
pub open spec fn document_path(path: Seq<char>) -> Seq<char> {
    if path.len() == 0 || path == seq!['.'] {
        seq!['$']
    } else {
        drop_leading_dots(path)
    }
}

pub open spec fn drop_leading_dots(path: Seq<char>) -> Seq<char>
    decreases path.len(),
{
    if path.len() > 0 && path[0] == '.' {
        drop_leading_dots(path.drop_first())
    } else {
        path
    }
}

proof fn lemma_drop_leading_dots_skip(path: Seq<char>, k: int)
    requires
        0 <= k <= path.len(),
        forall|i: int| 0 <= i < k ==> path[i] == '.',
    ensures
        drop_leading_dots(path) == drop_leading_dots(path.skip(k)),
    decreases k,
{
    if k > 0 {
        assert(path.skip(1) =~= path.drop_first());
        lemma_drop_leading_dots_skip(path.drop_first(), k - 1);
        assert(path.drop_first().skip(k - 1) =~= path.skip(k));
    } else {
        assert(path.skip(0) =~= path);
    }
}

pub fn json_path(path: &str) -> (rendered: String)
    ensures
        rendered@ == document_path(path@),
{
    let length = path.unicode_len();
    if length == 0 || (length == 1 && path.get_char(0) == '.') {
        proof {
            reveal_strlit("$");
            if length == 1 {
                assert(path@ =~= seq!['.']);
            }
        }
        return String::from_str("$");
    }
    proof {
        if path@ == seq!['.'] {
            assert(path@[0] == '.');
        }
    }
    let mut start: usize = 0;
    while start < length && path.get_char(start) == '.'
        invariant
            length == path@.len(),
            0 <= start <= length,
            forall|i: int| 0 <= i < start ==> path@[i] == '.',
        decreases length - start,
    {
        start = start + 1;
    }
    proof {
        lemma_drop_leading_dots_skip(path@, start as int);
        let rest = path@.skip(start as int);
        if rest.len() > 0 {
            assert(rest[0] == path@[start as int]);
        }
        assert(path@.subrange(start as int, length as int) =~= rest);
    }
    String::from_str(path.substring_char(start, length))
}

/// The identity fields of a decoded import manifest.
#[derive(Debug, Clone, PartialEq, Eq)]
pub struct ImportManifestIdentity {
    pub mesh_asset_id: String,
    pub source_hash: String,
    pub importer_version: u32,
}

/// The identity fields of a decoded import sidecar.
#[derive(Debug, Clone, PartialEq, Eq)]
pub struct ImportSidecarIdentity {
    pub source_hash: String,
    pub importer_version: u32,
}

/// Why import metadata did not decode: where, and what the decoder said.
#[derive(Debug, Clone, PartialEq, Eq)]
pub struct ImportMetadataError {
    pub path: String,
    pub message: String,
}

pub open spec fn import_path(asset_index: nat) -> Seq<char> {
    "assets["@ + crate::text::decimal(asset_index) + "].import"@
}

pub open spec fn contains_text(items: Seq<String>, value: Seq<char>) -> bool {
    exists|i: int| 0 <= i < items.len() && (#[trigger] items[i])@ == value
}

/// Whether the stored import record agrees with its decoded manifest and
/// sidecar and with the mesh asset that carries it.
pub open spec fn import_identities_agree(
    import: StoredAssetImport,
    asset_id: Seq<char>,
    manifest: ImportManifestIdentity,
    sidecar: ImportSidecarIdentity,
) -> bool {
    &&& manifest.mesh_asset_id@ == asset_id
    &&& manifest.source_hash@ == import.source_hash@
    &&& sidecar.source_hash@ == import.source_hash@
    &&& manifest.importer_version == import.importer_version
    &&& sidecar.importer_version == import.importer_version
}

fn contains_string(items: &Vec<String>, value: &str) -> (found: bool)
    ensures
        found == contains_text(items@, value@),
{
    let mut index: usize = 0;
    while index < items.len()
        invariant
            0 <= index <= items@.len(),
            forall|j: int| 0 <= j < index ==> (#[trigger] items@[j])@ != value@,
        decreases items@.len() - index,
    {
        if text_equal(items[index].as_str(), value) {
            return true;
        }
        index = index + 1;
    }
    false
}

/// Character-wise equality of two texts.
pub fn text_equal(left: &str, right: &str) -> (equal: bool)
    ensures
        equal == (left@ == right@),
{
    let length = left.unicode_len();
    if length != right.unicode_len() {
        return false;
    }
    let mut index: usize = 0;
    while index < length
        invariant
            length == left@.len(),
            length == right@.len(),
            0 <= index <= length,
            forall|j: int| 0 <= j < index ==> left@[j] == right@[j],
        decreases length - index,
    {
        if left.get_char(index) != right.get_char(index) {
            return false;
        }
        index = index + 1;
    }
    assert(left@ =~= right@);
    true
}

/// Checks a stored mesh import against its decoded manifest and sidecar
/// (the decoder's results are passed in): metadata that did not decode is
/// reported at its own path; then the identities must agree; then the
/// generated asset identities must include the imported mesh.
pub fn validate_stored_import(
    import: &StoredAssetImport,
    asset_id: &str,
    asset_index: usize,
    manifest: Result<ImportManifestIdentity, ImportMetadataError>,
    sidecar: Result<ImportSidecarIdentity, ImportMetadataError>,
) -> (result: Result<(), StoredProjectError>)
    ensures
        match (manifest, sidecar) {
            (Err(error), _) => result is Err && result->Err_0.spec_diagnostic().code@
                == diagnostic_code::INVALID_IMPORT@ && result->Err_0.spec_diagnostic().path@
                == import_path(asset_index as nat) + ".manifestJson."@ + error.path@
                && result->Err_0.spec_diagnostic().message == error.message,
            (Ok(_), Err(error)) => result is Err && result->Err_0.spec_diagnostic().code@
                == diagnostic_code::INVALID_IMPORT@ && result->Err_0.spec_diagnostic().path@
                == import_path(asset_index as nat) + ".sidecarJson."@ + error.path@
                && result->Err_0.spec_diagnostic().message == error.message,
            (Ok(manifest), Ok(sidecar)) => if !import_identities_agree(
                *import,
                asset_id@,
                manifest,
                sidecar,
            ) {
                result is Err && result->Err_0.spec_diagnostic().code@
                    == diagnostic_code::INVALID_IMPORT@ && result->Err_0.spec_diagnostic().path@
                    == import_path(asset_index as nat) && result->Err_0.spec_diagnostic().message@
                    == "stored source, manifest, sidecar, and mesh identities must agree"@
            } else if !contains_text(import.generated_asset_ids@, asset_id@) {
                result is Err && result->Err_0.spec_diagnostic().code@
                    == diagnostic_code::INVALID_IMPORT@ && result->Err_0.spec_diagnostic().path@
                    == import_path(asset_index as nat) + ".generatedAssetIds"@
                    && result->Err_0.spec_diagnostic().message@
                    == "generated asset identities must include the imported mesh"@
            } else {
                result is Ok
            },
        },
{
    let path = crate::text::join3(
        "assets[",
        crate::text::decimal_text(asset_index as u64).as_str(),
        "].import",
    );
    let manifest = match manifest {
        Ok(manifest) => manifest,
        Err(error) => {
            let mut at = path.clone();
            at.append(".manifestJson.");
            at.append(error.path.as_str());
            return Err(failure(diagnostic_code::INVALID_IMPORT, at, error.message));
        },
    };
    let sidecar = match sidecar {
        Ok(sidecar) => sidecar,
        Err(error) => {
            let mut at = path.clone();
            at.append(".sidecarJson.");
            at.append(error.path.as_str());
            return Err(failure(diagnostic_code::INVALID_IMPORT, at, error.message));
        },
    };
    if !text_equal(manifest.mesh_asset_id.as_str(), asset_id) || manifest.source_hash
        != import.source_hash || sidecar.source_hash != import.source_hash
        || manifest.importer_version != import.importer_version || sidecar.importer_version
        != import.importer_version {
        return Err(
            failure(
                diagnostic_code::INVALID_IMPORT,
                path,
                String::from_str("stored source, manifest, sidecar, and mesh identities must agree"),
            ),
        );
    }
    if !contains_string(&import.generated_asset_ids, asset_id) {
        let mut at = path;
        at.append(".generatedAssetIds");
        return Err(
            failure(
                diagnostic_code::INVALID_IMPORT,
                at,
                String::from_str("generated asset identities must include the imported mesh"),
            ),
        );
    }
    Ok(())
}

/// The refusal owed to a document's header, checked first: its schema
/// version, its project identity, and its name.
pub open spec fn header_outcome(schema_version: u32, project_id: Seq<char>, name: Seq<char>) -> Option<
    (Seq<char>, Seq<char>, Seq<char>),
> {
    if schema_version != STORED_PROJECT_SCHEMA_VERSION {
        Some(
            (
                diagnostic_code::UNSUPPORTED_SCHEMA@,
                "schemaVersion"@,
                "expected schema "@ + decimal(STORED_PROJECT_SCHEMA_VERSION as nat) + ", found "@
                    + decimal(schema_version as nat),
            ),
        )
    } else if !kebab_segment(project_id) {
        Some(
            (
                diagnostic_code::INVALID_PROJECT_ID@,
                "projectId"@,
                "project identity must be one kebab-case segment"@,
            ),
        )
    } else if is_blank(name) {
        Some((diagnostic_code::INVALID_VALUE@, "name"@, "project name must not be empty"@))
    } else {
        None
    }
}

/// Checks a document's header: the current schema version, a kebab-case
/// project identity, and a name that is not blank.
pub fn validate_project_header(document: &StoredProject) -> (result: Result<(), StoredProjectError>)
    ensures
        match header_outcome(document.schema_version, document.project_id@, document.name@) {
            None => result is Ok,
            Some((code, path, message)) => result matches Err(error)
                && error.spec_diagnostic().code@ == code && error.spec_diagnostic().path@ == path
                && error.spec_diagnostic().message@ == message,
        },
{
    if document.schema_version != STORED_PROJECT_SCHEMA_VERSION {
        let mut message = join2(
            "expected schema ",
            decimal_text(STORED_PROJECT_SCHEMA_VERSION as u64).as_str(),
        );
        message.append(", found ");
        message.append(decimal_text(document.schema_version as u64).as_str());
        return Err(
            failure(diagnostic_code::UNSUPPORTED_SCHEMA, String::from_str("schemaVersion"), message),
        );
    }
    if !is_kebab_segment(document.project_id.as_str()) {
        return Err(
            failure(
                diagnostic_code::INVALID_PROJECT_ID,
                String::from_str("projectId"),
                String::from_str("project identity must be one kebab-case segment"),
            ),
        );
    }
    if text_is_blank(document.name.as_str()) {
        return Err(
            failure(
                diagnostic_code::INVALID_VALUE,
                String::from_str("name"),
                String::from_str("project name must not be empty"),
            ),
        );
    }
    Ok(())
}

} // verus!
