//! Values of the Studio adapter protocol that the adapter's logic builds and
//! reads. Floating-point coordinates are not part of this model.
use vstd::prelude::*;

use crate::stored_project::StoredImportSource;

verus! {

pub const STUDIO_ADAPTER_PROTOCOL_VERSION: u32 = 11;

pub const MAX_STUDIO_ADAPTER_REQUEST_BYTES: usize = 262144;

pub const MAX_STUDIO_ADAPTER_RESPONSE_BYTES: usize = 67108864;

pub const MAX_REQUEST_ID_BYTES: usize = 256;

pub const MAX_STUDIO_ENTITY_INSPECTOR_CONTRACTS: usize = 64;

pub const MAX_STUDIO_ENTITY_COMPONENT_REFERENCES: usize = 4096;

pub const MAX_STUDIO_ENTITY_COMPONENTS_PER_OWNER: usize = 32;

pub const VOXEL_OBJECT_COMPONENT_TYPE_ID: &'static str = "rusty.voxel-object.instance";

pub const VOXEL_OBJECT_INSPECTOR_CONTRACT_ID: &'static str = "rusty.studio.voxel-object-authoring";

pub const VOXEL_OBJECT_INSPECTOR_CONTRACT_VERSION: u32 = 1;

/// A file chosen by the Studio user, inside the open project or anywhere on
/// the trusted host.
#[derive(Debug, Clone, PartialEq, Eq)]
pub enum StudioFileSelection {
    Project { path: String },
    Host { path: String },
}

impl StudioFileSelection {
    pub open spec fn spec_path(&self) -> Seq<char> {
        match self {
            StudioFileSelection::Project { path } => path@,
            StudioFileSelection::Host { path } => path@,
        }
    }

    /// The selected path, whichever scope it was chosen in.
    pub fn path(&self) -> (path: &str)
        ensures
            path@ == self.spec_path(),
    {
        match self {
            StudioFileSelection::Project { path } => path.as_str(),
            StudioFileSelection::Host { path } => path.as_str(),
        }
    }
}

#[derive(Debug, Clone, Copy, PartialEq, Eq, Structural)]
pub enum StudioVoxelObjectSourceKind {
    Static,
    Animated,
}

#[derive(Debug, Clone, Copy, PartialEq, Eq, Structural)]
pub enum StudioEnvironmentPreset {
    TinyEnclosed,
}

#[derive(Debug, Clone, Copy, PartialEq, Eq, Structural)]
pub enum VoxelBrushMode {
    Paint,
    Erase,
}

#[derive(Debug, Clone, Copy, PartialEq, Eq, Structural)]
pub enum VoxelPickFace {
    NegativeX,
    PositiveX,
    NegativeY,
    PositiveY,
    NegativeZ,
    PositiveZ,
}

#[derive(Debug, Clone, Copy, PartialEq, Eq, Structural)]
pub enum VoxelObjectAnimationProperty {
    Translation,
    Rotation,
    Scale,
    MorphWeights,
}

#[derive(Debug, Clone)]
pub struct AdapterDescription {
    pub adapter_id: &'static str,
    pub adapter_version: u32,
    pub protocol_version: u32,
    pub project_kind: &'static str,
    pub project_schema_version: u32,
    pub operations: Vec<&'static str>,
    pub entity_inspector_contracts: Vec<StudioEntityInspectorContractIdentity>,
}

#[derive(Debug, Clone, Copy, PartialEq, Eq)]
pub struct StudioEntityInspectorContractIdentity {
    pub contract_id: &'static str,
    pub contract_version: u32,
}

#[derive(Debug, Clone, Copy, PartialEq, Eq)]
pub struct StudioEntityComponentReference {
    pub owner_entity_id: u64,
    pub component_type_id: &'static str,
    pub inspector_contract: Option<StudioEntityInspectorContractIdentity>,
}

#[derive(Debug, Clone)]
pub struct VoxelObjectSourceClipReadout {
    pub source_animation_index: u32,
    pub name: String,
    pub duration_microseconds: u64,
    pub channel_count: usize,
    pub target_node_indices: Vec<u32>,
    pub properties: Vec<VoxelObjectAnimationProperty>,
}

#[derive(Debug, Clone)]
pub struct VoxelObjectSourceDiagnostic {
    pub severity: &'static str,
    pub code: &'static str,
    pub path: &'static str,
    pub message: &'static str,
}

#[derive(Debug)]
pub struct AnimatedMeshResourceReadout {
    pub asset: String,
    pub content_hash: String,
    pub clip_ids: Vec<String>,
    pub source_path: String,
}

#[derive(Debug)]
pub struct AssetBrowserReadout {
    pub assets: Vec<AssetEntryReadout>,
    pub lock_entries: Vec<AssetLockEntryReadout>,
}

#[derive(Debug)]
pub struct AssetEntryReadout {
    pub asset_id: String,
    pub kind: String,
    pub version: u32,
    pub hash: Option<String>,
    pub source_path: Option<String>,
    pub label: Option<String>,
    pub dependencies: Vec<String>,
    pub dependents: Vec<String>,
    pub material: bool,
    pub imported_mesh: bool,
    pub import: Option<AssetImportReadout>,
}

#[derive(Debug)]
pub struct AssetImportReadout {
    pub source: StoredImportSource,
    pub source_hash: String,
    pub source_byte_count: u64,
    pub importer_version: u32,
    pub generated_asset_ids: Vec<String>,
    pub status: &'static str,
}

#[derive(Debug)]
pub struct AssetLockEntryReadout {
    pub asset_id: String,
    pub kind: String,
    pub version: u32,
    pub hash: Option<String>,
    pub dependencies: Vec<String>,
}

#[derive(Debug, Clone)]
pub struct AssetImportDiagnosticReadout {
    pub severity: String,
    pub code: String,
    pub locus: String,
    pub message: String,
    pub remedy: String,
}

#[derive(Debug, Clone)]
pub struct AssetImportArtifactReadout {
    pub relative_path: String,
    pub byte_count: u64,
}

#[derive(Debug)]
pub struct VoxelHistoryReadout {
    pub persisted: bool,
    pub entry_count: usize,
    pub cursor: usize,
    pub undo_depth: usize,
    pub redo_depth: usize,
    pub authority_hash: String,
    pub history_hash: String,
}

#[derive(Debug)]
pub struct VoxelAnnotationSummaryReadout {
    pub layer_id: String,
    pub canonical_layer_hash: String,
    pub membership_data_hash: String,
    pub region_count: usize,
    pub assigned_cell_count: u64,
}

#[derive(Debug)]
pub struct StudioProjectIdentity {
    pub project_id: String,
    pub name: String,
    pub entry_scene: String,
    pub source_schema_version: u32,
    pub current_schema_version: u32,
    pub project_hash: String,
    pub scene_revision: u64,
    pub relative_project_file: String,
}

#[derive(Debug)]
pub struct CanonicalOwnerContent {
    pub project_json: String,
    pub asset_catalog_json: String,
    pub authored_scene_json: String,
    pub entity_state_json: String,
    pub content_manifest_json: String,
}

#[derive(Debug)]
pub struct ProjectionReadout {
    pub frame_kind: &'static str,
    pub source_revision: u64,
    pub retained_entities: usize,
    pub retained_lights: usize,
    pub retained_voxel_instances: usize,
    pub retained_voxel_chunks: usize,
    pub diagnostics: Vec<ProjectionDiagnosticReadout>,
}

#[derive(Debug)]
pub struct ProjectionDiagnosticReadout {
    pub code: &'static str,
    pub entity_id: u64,
    pub asset: String,
    pub asset_kind: Option<String>,
}

#[derive(Debug)]
pub struct VoxelHistoryBoundsReadout {
    pub min: [i64; 3],
    pub max: [i64; 3],
}

#[derive(Debug)]
pub struct VoxelHistoryMaterialDeltaReadout {
    pub before_material: Option<u16>,
    pub after_material: Option<u16>,
    pub changed_voxels: usize,
}

/// Why the adapter refused a request: a stable code, optionally the path of
/// the offending input, and a message for people.
#[derive(Debug, Clone)]
pub struct AdapterRejection {
    pub code: String,
    pub path: Option<String>,
    pub message: String,
}

pub struct AdapterRejectionView {
    pub code: Seq<char>,
    pub path: Option<Seq<char>>,
    pub message: Seq<char>,
}

impl View for AdapterRejection {
    type V = AdapterRejectionView;

    open spec fn view(&self) -> AdapterRejectionView {
        AdapterRejectionView {
            code: self.code@,
            path: optional_text(self.path),
            message: self.message@,
        }
    }
}

/// The view of an optional text.
pub open spec fn optional_text(text: Option<String>) -> Option<Seq<char>> {
    match text {
        Some(text) => Some(text@),
        None => None,
    }
}

impl AdapterRejection {
    /// A rejection with `code` and `message`, at no particular path.
    pub fn new(code: &str, message: &str) -> (rejection: Self)
        ensures
            rejection.code@ == code@,
            rejection.path is None,
            rejection.message@ == message@,
    {
        AdapterRejection {
            code: String::from_str(code),
            path: None,
            message: String::from_str(message),
        }
    }

    /// The same rejection, located at `path`.
    pub fn at_path(self, path: &str) -> (located: Self)
        ensures
            located.code == self.code,
            located.message == self.message,
            optional_text(located.path) == Some(path@),
    {
        let mut located = self;
        located.path = Some(String::from_str(path));
        located
    }
}

} // verus!
