//! Whether a voxel-object instance may be shown with a surface mode other
//! than the default: only when the object exists and no material of its
//! palette, after the instance's overrides, is textured. The surface mode
//! itself is the engine's; the rule reads whether it is the default and the
//! name it is shown by.
use vstd::prelude::*;

use crate::stored_project::{
    text_equal, StoredAsset, StoredProject, StoredVoxelMaterialBinding, StoredVoxelObjectMaterialOverride,
};
use crate::studio_adapter::protocol::{AdapterRejection, AdapterRejectionView};
use crate::text::{join2, join3};

verus! {

/// The first asset, from the `k`-th on, with identity `id`.
pub open spec fn first_asset_from(assets: Seq<StoredAsset>, id: Seq<char>, k: int) -> Option<int>
    decreases assets.len() - k,
{
    if k < 0 || k >= assets.len() {
        None
    } else if assets[k].id@ == id {
        Some(k)
    } else {
        first_asset_from(assets, id, k + 1)
    }
}

/// The first override, from the `k`-th on, for material slot `slot`.
pub open spec fn override_from(overrides: Seq<StoredVoxelObjectMaterialOverride>, slot: u16, k: int) -> Option<int>
    decreases overrides.len() - k,
{
    if k < 0 || k >= overrides.len() {
        None
    } else if overrides[k].material_slot == slot {
        Some(k)
    } else {
        override_from(overrides, slot, k + 1)
    }
}

/// The material a palette binding shows under the instance's overrides: the
/// first override for its slot, else its own.
pub open spec fn bound_material(
    binding: StoredVoxelMaterialBinding,
    overrides: Seq<StoredVoxelObjectMaterialOverride>,
) -> Seq<char> {
    match override_from(overrides, binding.material_slot, 0) {
        Some(j) => overrides[j].material_asset_id@,
        None => binding.material_asset_id@,
    }
}

/// Some asset with identity `id` carries a textured material.
pub open spec fn textured(assets: Seq<StoredAsset>, id: Seq<char>) -> bool {
    exists|i: int| 0 <= i < assets.len() && (#[trigger] assets[i]).id@ == id && assets[i].textured_material
}

/// Some binding of the palette shows a textured material.
pub open spec fn palette_textured(
    assets: Seq<StoredAsset>,
    palette: Seq<StoredVoxelMaterialBinding>,
    overrides: Seq<StoredVoxelObjectMaterialOverride>,
) -> bool {
    exists|b: int| 0 <= b < palette.len() && textured(assets, bound_material(#[trigger] palette[b], overrides))
}

/// The refusal owed to showing the voxel object `asset_id` with a surface
/// mode (the default or not, shown by `mode_name`) under `overrides`.
pub open spec fn surface_rejection(
    assets: Seq<StoredAsset>,
    asset_id: Seq<char>,
    overrides: Seq<StoredVoxelObjectMaterialOverride>,
    mode_is_default: bool,
    mode_name: Seq<char>,
) -> Option<AdapterRejectionView> {
    let missing = AdapterRejectionView {
        code: "voxelObject.assetMissing"@,
        path: None,
        message: "project has no voxel-object asset `"@ + asset_id + "`"@,
    };
    if mode_is_default {
        None
    } else {
        match first_asset_from(assets, asset_id, 0) {
            Some(i) => match assets[i].voxel_object {
                Some(object) => if palette_textured(assets, object.material_palette@, overrides) {
                    Some(
                        AdapterRejectionView {
                            code: "voxelObject.surfaceTextureUnsupported"@,
                            path: None,
                            message: mode_name + " has no stable UV contract for a textured voxel-object material"@,
                        },
                    )
                } else {
                    None
                },
                None => Some(missing),
            },
            None => Some(missing),
        }
    }
}

fn find_asset(assets: &Vec<StoredAsset>, id: &str) -> (found: Option<usize>)
    ensures
        match found {
            Some(i) => first_asset_from(assets@, id@, 0) == Some(i as int) && i < assets@.len(),
            None => first_asset_from(assets@, id@, 0) is None,
        },
{
    let mut k: usize = 0;
    while k < assets.len()
        invariant
            k <= assets@.len(),
            first_asset_from(assets@, id@, 0) == first_asset_from(assets@, id@, k as int),
        decreases assets@.len() - k,
    {
        if text_equal(assets[k].id.as_str(), id) {
            return Some(k);
        }
        k = k + 1;
    }
    None
}

fn material_shown<'a>(
    binding: &'a StoredVoxelMaterialBinding,
    overrides: &'a Vec<StoredVoxelObjectMaterialOverride>,
) -> (material: &'a str)
    ensures
        material@ == bound_material(*binding, overrides@),
{
    let mut k: usize = 0;
    while k < overrides.len()
        invariant
            k <= overrides@.len(),
            override_from(overrides@, binding.material_slot, 0) == override_from(
                overrides@,
                binding.material_slot,
                k as int,
            ),
        decreases overrides@.len() - k,
    {
        if overrides[k].material_slot == binding.material_slot {
            return overrides[k].material_asset_id.as_str();
        }
        k = k + 1;
    }
    binding.material_asset_id.as_str()
}

fn is_textured(assets: &Vec<StoredAsset>, id: &str) -> (found: bool)
    ensures
        found == textured(assets@, id@),
{
    let mut k: usize = 0;
    while k < assets.len()
        invariant
            k <= assets@.len(),
            forall|i: int| 0 <= i < k ==> !((#[trigger] assets@[i]).id@ == id@ && assets@[i].textured_material),
        decreases assets@.len() - k,
    {
        if assets[k].textured_material && text_equal(assets[k].id.as_str(), id) {
            return true;
        }
        k = k + 1;
    }
    false
}

/// Checks that the voxel object `asset_id` of `project` may be shown with a
/// surface mode (whether it is the default, and the name it is shown by)
/// under `material_overrides`: a mode other than the default needs the
/// object, and no textured material among its palette's materials.
pub fn ensure_surface_mode_supported(
    project: &StoredProject,
    asset_id: &str,
    material_overrides: &Vec<StoredVoxelObjectMaterialOverride>,
    surface_mode_is_default: bool,
    surface_mode_name: &str,
) -> (result: Result<(), AdapterRejection>)
    ensures
        match surface_rejection(
            project.assets@,
            asset_id@,
            material_overrides@,
            surface_mode_is_default,
            surface_mode_name@,
        ) {
            None => result is Ok,
            Some(rejection) => result matches Err(error) && error@ == rejection,
        },
{
    if surface_mode_is_default {
        return Ok(());
    }
    let assets = &project.assets;
    let index = match find_asset(assets, asset_id) {
        Some(index) => index,
        None => {
            let message = join3("project has no voxel-object asset `", asset_id, "`");
            return Err(AdapterRejection::new("voxelObject.assetMissing", message.as_str()));
        },
    };
    let object = match &assets[index].voxel_object {
        Some(object) => object,
        None => {
            let message = join3("project has no voxel-object asset `", asset_id, "`");
            return Err(AdapterRejection::new("voxelObject.assetMissing", message.as_str()));
        },
    };
    assert(assets@[index as int].voxel_object == Some(*object));
    let palette = &object.material_palette;
    let mut b: usize = 0;
    while b < palette.len()
        invariant
            b <= palette@.len(),
            !surface_mode_is_default,
            *assets == project.assets,
            first_asset_from(assets@, asset_id@, 0) == Some(index as int),
            index < assets@.len(),
            assets@[index as int].voxel_object == Some(*object),
            *palette == object.material_palette,
            forall|c: int|
                0 <= c < b ==> !textured(assets@, bound_material(#[trigger] palette@[c], material_overrides@)),
        decreases palette@.len() - b,
    {
        let material = material_shown(&palette[b], material_overrides);
        if is_textured(assets, material) {
            proof {
                assert(textured(assets@, bound_material(palette@[b as int], material_overrides@)));
                assert(palette_textured(assets@, palette@, material_overrides@));
            }
            let message = join2(surface_mode_name, " has no stable UV contract for a textured voxel-object material");
            return Err(AdapterRejection::new("voxelObject.surfaceTextureUnsupported", message.as_str()));
        }
        b = b + 1;
    }
    Ok(())
}

} // verus!
