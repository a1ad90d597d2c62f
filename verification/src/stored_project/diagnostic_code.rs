//! Stable diagnostic codes of project-document validation.
use vstd::prelude::*;

verus! {

pub const DECODE: &'static str = "project.decode";

pub const ENCODE: &'static str = "project.encode";

pub const MIGRATION: &'static str = "project.migration";

pub const UNSUPPORTED_SCHEMA: &'static str = "project.unsupportedSchema";

pub const INVALID_PROJECT_ID: &'static str = "project.invalidProjectId";

pub const INVALID_VALUE: &'static str = "project.invalidValue";

pub const INVALID_ASSET_ID: &'static str = "project.invalidAssetId";

pub const WRONG_ASSET_KIND: &'static str = "project.wrongAssetKind";

pub const DUPLICATE_ASSET: &'static str = "project.duplicateAsset";

pub const DUPLICATE_ITEM_DEFINITION: &'static str = "project.duplicateItemDefinition";

pub const DUPLICATE_INVENTORY_STACK: &'static str = "project.duplicateInventoryStack";

pub const MISSING_ITEM_DEFINITION: &'static str = "project.missingItemDefinition";

pub const DUPLICATE_SCENE: &'static str = "project.duplicateScene";

pub const MISSING_ENTRY_SCENE: &'static str = "project.missingEntryScene";

pub const MISSING_ASSET: &'static str = "project.missingAsset";

pub const DUPLICATE_ENTITY: &'static str = "project.duplicateEntity";

pub const INVALID_COMPONENT: &'static str = "project.invalidComponent";

pub const INVALID_RELATIONSHIP: &'static str = "project.invalidRelationship";

pub const INVALID_SPATIAL: &'static str = "project.invalidSpatial";

pub const INVALID_VOXEL_ASSET: &'static str = "project.invalidVoxelAsset";

pub const INVALID_VOXEL_HISTORY: &'static str = "project.invalidVoxelHistory";

pub const INVALID_VOXEL_ANNOTATION: &'static str = "project.invalidVoxelAnnotation";

pub const INVALID_VOXEL_INSTANCE: &'static str = "project.invalidVoxelInstance";

pub const INVALID_VOXEL_OBJECT: &'static str = "project.invalidVoxelObject";

pub const VOXEL_OBJECT_AGGREGATE_LIMIT: &'static str = "project.voxelObjectAggregateLimit";

pub const INVALID_VOXEL_OBJECT_INSTANCE: &'static str = "project.invalidVoxelObjectInstance";

pub const INVALID_MATERIAL: &'static str = "project.invalidMaterial";

pub const INVALID_IMPORT: &'static str = "project.invalidImport";

} // verus!
