//! Voxel authoring lookups and coordinate mapping: finding the authored
//! asset or scene a request names, and moving between a voxel asset's local
//! coordinates and the shared authority grid.
use vstd::prelude::*;

use crate::stored_project::{text_equal, StoredAsset, StoredProject, StoredScene};
use crate::studio_adapter::protocol::{AdapterRejection, AdapterRejectionView, VoxelPickFace};
use crate::text::{decimal, decimal_text, join3};

verus! {

pub open spec fn voxel_rejection(code: Seq<char>, message: Seq<char>) -> AdapterRejectionView {
    AdapterRejectionView { code, path: None, message }
}

pub open spec fn asset_position(assets: Seq<StoredAsset>, asset_id: Seq<char>) -> Option<int> {
    if exists|i: int| 0 <= i < assets.len() && (#[trigger] assets[i]).id@ == asset_id {
        Some(
            choose|i: int|
                0 <= i < assets.len() && (#[trigger] assets[i]).id@ == asset_id && forall|j: int|
                    0 <= j < i ==> (#[trigger] assets[j]).id@ != asset_id,
        )
    } else {
        None
    }
}

/// The first asset with identity `asset_id`.
pub fn find_asset<'a>(project: &'a StoredProject, asset_id: &str) -> (result: Result<
    &'a StoredAsset,
    AdapterRejection,
>)
    ensures
        match asset_position(project.assets@, asset_id@) {
            Some(i) => result matches Ok(asset) && *asset == project.assets@[i],
            None => result matches Err(error) && error@ == voxel_rejection(
                "voxel.assetMissing"@,
                "project has no asset `"@ + asset_id@ + "`"@,
            ),
        },
{
    let mut index: usize = 0;
    while index < project.assets.len()
        invariant
            index <= project.assets@.len(),
            forall|j: int| 0 <= j < index ==> (#[trigger] project.assets@[j]).id@ != asset_id@,
        decreases project.assets@.len() - index,
    {
        if text_equal(project.assets[index].id.as_str(), asset_id) {
            proof {
                let i = index as int;
                let assets = project.assets@;
                assert forall|k: int|
                    0 <= k < assets.len() && (#[trigger] assets[k]).id@ == asset_id@ && (forall|
                        j: int,
                    | 0 <= j < k ==> (#[trigger] assets[j]).id@ != asset_id@) implies k == i by {
                    if k < i {
                        assert(assets[k].id@ != asset_id@);
                    }
                    if k > i {
                        assert(assets[i].id@ != asset_id@);
                    }
                }
            }
            return Ok(&project.assets[index]);
        }
        index = index + 1;
    }
    let message = join3("project has no asset `", asset_id, "`");
    Err(AdapterRejection::new("voxel.assetMissing", message.as_str()))
}

pub open spec fn scene_position(scenes: Seq<StoredScene>, scene_id: Seq<char>) -> Option<int> {
    if exists|i: int| 0 <= i < scenes.len() && (#[trigger] scenes[i]).id@ == scene_id {
        Some(
            choose|i: int|
                0 <= i < scenes.len() && (#[trigger] scenes[i]).id@ == scene_id && forall|j: int|
                    0 <= j < i ==> (#[trigger] scenes[j]).id@ != scene_id,
        )
    } else {
        None
    }
}

/// The first scene with identity `scene_id`.
pub fn find_scene<'a>(project: &'a StoredProject, scene_id: &str) -> (result: Result<
    &'a StoredScene,
    AdapterRejection,
>)
    ensures
        match scene_position(project.scenes@, scene_id@) {
            Some(i) => result matches Ok(scene) && *scene == project.scenes@[i],
            None => result matches Err(error) && error@ == voxel_rejection(
                "voxel.sceneMissing"@,
                "project has no scene `"@ + scene_id@ + "`"@,
            ),
        },
{
    let mut index: usize = 0;
    while index < project.scenes.len()
        invariant
            index <= project.scenes@.len(),
            forall|j: int| 0 <= j < index ==> (#[trigger] project.scenes@[j]).id@ != scene_id@,
        decreases project.scenes@.len() - index,
    {
        if text_equal(project.scenes[index].id.as_str(), scene_id) {
            proof {
                let i = index as int;
                let scenes = project.scenes@;
                assert forall|k: int|
                    0 <= k < scenes.len() && (#[trigger] scenes[k]).id@ == scene_id@ && (forall|
                        j: int,
                    | 0 <= j < k ==> (#[trigger] scenes[j]).id@ != scene_id@) implies k == i by {
                    if k < i {
                        assert(scenes[k].id@ != scene_id@);
                    }
                    if k > i {
                        assert(scenes[i].id@ != scene_id@);
                    }
                }
            }
            return Ok(&project.scenes[index]);
        }
        index = index + 1;
    }
    let message = join3("project has no scene `", scene_id, "`");
    Err(AdapterRejection::new("voxel.sceneMissing", message.as_str()))
}

/// An edit proceeds only against the voxel asset content it was prepared
/// from.
pub fn require_asset_hash(content_hash: &str, expected: &str) -> (result: Result<
    (),
    AdapterRejection,
>)
    ensures
        result is Ok <==> content_hash@ == expected@,
        result matches Err(error) ==> error@ == voxel_rejection(
            "voxel.staleAsset"@,
            "expected voxel asset hash "@ + expected@ + ", found "@ + content_hash@,
        ),
{
    if text_equal(content_hash, expected) {
        Ok(())
    } else {
        let message = join3("expected voxel asset hash ", expected, ", found ").concat(content_hash);
        Err(AdapterRejection::new("voxel.staleAsset", message.as_str()))
    }
}

/// A signed integer as `Debug` writes it.
pub open spec fn signed_decimal(value: int) -> Seq<char> {
    if value < 0 {
        "-"@ + decimal((-value) as nat)
    } else {
        decimal(value as nat)
    }
}

/// Three signed coordinates as `Debug` writes the array.
pub open spec fn coordinates_text(value: [i64; 3]) -> Seq<char> {
    "["@ + signed_decimal(value[0] as int) + ", "@ + signed_decimal(value[1] as int) + ", "@
        + signed_decimal(value[2] as int) + "]"@
}

fn signed_decimal_text(value: i64) -> (text: String)
    ensures
        text@ == signed_decimal(value as int),
{
    if value < 0 {
        let magnitude: u64 = if value == i64::MIN {
            9223372036854775808
        } else {
            (-value) as u64
        };
        let digits = decimal_text(magnitude);
        let mut text = String::from_str("-");
        text.append(digits.as_str());
        text
    } else {
        decimal_text(value as u64)
    }
}

fn coordinates_debug(value: [i64; 3]) -> (text: String)
    ensures
        text@ == coordinates_text(value),
{
    let mut text = String::from_str("[");
    text.append(signed_decimal_text(value[0]).as_str());
    text.append(", ");
    text.append(signed_decimal_text(value[1]).as_str());
    text.append(", ");
    text.append(signed_decimal_text(value[2]).as_str());
    text.append("]");
    text
}

pub open spec fn in_bounds(minimum: [i64; 3], maximum: [i64; 3], local: [i64; 3]) -> bool {
    forall|axis: int| 0 <= axis < 3 ==> minimum[axis] <= local[axis] && local[axis] <= maximum[axis]
}

pub open spec fn shift_fits(origin: [i64; 3], local: [i64; 3]) -> bool {
    forall|axis: int|
        0 <= axis < 3 ==> i64::MIN <= origin[axis] + local[axis] && origin[axis] + local[axis]
            <= i64::MAX
}

/// Maps a local voxel of an asset with the given authored bounds and grid
/// origin into the authority grid: the voxel must lie within the bounds,
/// and every shifted coordinate must fit.
pub fn local_to_authority_address(
    minimum: [i64; 3],
    maximum: [i64; 3],
    origin: [i64; 3],
    local: [i64; 3],
) -> (result: Result<[i64; 3], AdapterRejection>)
    ensures
        !in_bounds(minimum, maximum, local) ==> (result matches Err(error) && error@
            == voxel_rejection(
            "voxel.outOfBounds"@,
            "local voxel "@ + coordinates_text(local) + " is outside the authored bounds"@,
        )),
        in_bounds(minimum, maximum, local) && !shift_fits(origin, local) ==> (result matches Err(
            error,
        ) && error@ == voxel_rejection(
            "voxel.coordinateOverflow"@,
            "voxel origin mapping overflowed"@,
        )),
        in_bounds(minimum, maximum, local) && shift_fits(origin, local) ==> (result matches Ok(
            address,
        ) && forall|axis: int| 0 <= axis < 3 ==> address[axis] == origin[axis] + local[axis]),
{
    let mut axis: usize = 0;
    while axis < 3
        invariant
            axis <= 3,
            forall|k: int| 0 <= k < axis ==> minimum[k] <= local[k] && local[k] <= maximum[k],
        decreases 3 - axis,
    {
        if local[axis] < minimum[axis] || local[axis] > maximum[axis] {
            let message = join3("local voxel ", coordinates_debug(local).as_str(), " is outside the authored bounds");
            return Err(AdapterRejection::new("voxel.outOfBounds", message.as_str()));
        }
        axis = axis + 1;
    }
    let mut address = local;
    let mut axis: usize = 0;
    while axis < 3
        invariant
            axis <= 3,
            in_bounds(minimum, maximum, local),
            forall|k: int| 0 <= k < axis ==> address[k] == origin[k] + local[k],
            forall|k: int| axis <= k < 3 ==> address[k] == local[k],
            forall|k: int|
                0 <= k < axis ==> i64::MIN <= origin[k] + local[k] && origin[k] + local[k]
                    <= i64::MAX,
        decreases 3 - axis,
    {
        match origin[axis].checked_add(local[axis]) {
            Some(value) => {
                address[axis] = value;
            },
            None => {
                return Err(
                    AdapterRejection::new(
                        "voxel.coordinateOverflow",
                        "voxel origin mapping overflowed",
                    ),
                );
            },
        }
        axis = axis + 1;
    }
    Ok(address)
}

pub open spec fn sub_fits(origin: [i64; 3], authority: [i64; 3]) -> bool {
    forall|axis: int|
        0 <= axis < 3 ==> i64::MIN <= authority[axis] - origin[axis] && authority[axis]
            - origin[axis] <= i64::MAX
}

/// Maps an authority-grid voxel into an asset's local coordinates, when
/// every shifted coordinate fits.
pub fn authority_to_local(origin: [i64; 3], authority: [i64; 3]) -> (result: Result<
    [i64; 3],
    AdapterRejection,
>)
    ensures
        sub_fits(origin, authority) ==> (result matches Ok(local) && forall|axis: int|
            0 <= axis < 3 ==> local[axis] == authority[axis] - origin[axis]),
        !sub_fits(origin, authority) ==> (result matches Err(error) && error@ == voxel_rejection(
            "voxel.coordinateOverflow"@,
            "pick coordinate could not be mapped into asset-local space"@,
        )),
{
    let mut local = authority;
    let mut axis: usize = 0;
    while axis < 3
        invariant
            axis <= 3,
            forall|k: int| 0 <= k < axis ==> local[k] == authority[k] - origin[k],
            forall|k: int| axis <= k < 3 ==> local[k] == authority[k],
            forall|k: int|
                0 <= k < axis ==> i64::MIN <= authority[k] - origin[k] && authority[k] - origin[k]
                    <= i64::MAX,
        decreases 3 - axis,
    {
        match authority[axis].checked_sub(origin[axis]) {
            Some(value) => {
                local[axis] = value;
            },
            None => {
                return Err(
                    AdapterRejection::new(
                        "voxel.coordinateOverflow",
                        "pick coordinate could not be mapped into asset-local space",
                    ),
                );
            },
        }
        axis = axis + 1;
    }
    Ok(local)
}

/// The six axis directions of the voxel grid.
#[derive(Debug, Clone, Copy, PartialEq, Eq, Structural)]
pub enum Direction6 {
    NegX,
    PosX,
    NegY,
    PosY,
    NegZ,
    PosZ,
}

/// The grid direction a picked face names.
pub fn pick_face(face: VoxelPickFace) -> (direction: Direction6)
    ensures
        direction == match face {
            VoxelPickFace::NegativeX => Direction6::NegX,
            VoxelPickFace::PositiveX => Direction6::PosX,
            VoxelPickFace::NegativeY => Direction6::NegY,
            VoxelPickFace::PositiveY => Direction6::PosY,
            VoxelPickFace::NegativeZ => Direction6::NegZ,
            VoxelPickFace::PositiveZ => Direction6::PosZ,
        },
{
    match face {
        VoxelPickFace::NegativeX => Direction6::NegX,
        VoxelPickFace::PositiveX => Direction6::PosX,
        VoxelPickFace::NegativeY => Direction6::NegY,
        VoxelPickFace::PositiveY => Direction6::PosY,
        VoxelPickFace::NegativeZ => Direction6::NegZ,
        VoxelPickFace::PositiveZ => Direction6::PosZ,
    }
}

/// The picked face a grid direction is reported as.
pub fn readout_face(direction: Direction6) -> (face: VoxelPickFace)
    ensures
        pick_face_spec(face) == direction,
{
    match direction {
        Direction6::NegX => VoxelPickFace::NegativeX,
        Direction6::PosX => VoxelPickFace::PositiveX,
        Direction6::NegY => VoxelPickFace::NegativeY,
        Direction6::PosY => VoxelPickFace::PositiveY,
        Direction6::NegZ => VoxelPickFace::NegativeZ,
        Direction6::PosZ => VoxelPickFace::PositiveZ,
    }
}

pub open spec fn pick_face_spec(face: VoxelPickFace) -> Direction6 {
    match face {
        VoxelPickFace::NegativeX => Direction6::NegX,
        VoxelPickFace::PositiveX => Direction6::PosX,
        VoxelPickFace::NegativeY => Direction6::NegY,
        VoxelPickFace::PositiveY => Direction6::PosY,
        VoxelPickFace::NegativeZ => Direction6::NegZ,
        VoxelPickFace::PositiveZ => Direction6::PosZ,
    }
}

/// Picked faces and grid directions correspond one to one: reporting the
/// direction a face names gives the face back.
pub proof fn lemma_faces_round_trip(face: VoxelPickFace, direction: Direction6)
    ensures
        pick_face_spec(face) == direction <==> face == match direction {
            Direction6::NegX => VoxelPickFace::NegativeX,
            Direction6::PosX => VoxelPickFace::PositiveX,
            Direction6::NegY => VoxelPickFace::NegativeY,
            Direction6::PosY => VoxelPickFace::PositiveY,
            Direction6::NegZ => VoxelPickFace::NegativeZ,
            Direction6::PosZ => VoxelPickFace::PositiveZ,
        },
{
}

/// Shifting into the authority grid and back gives the local voxel again.
pub proof fn lemma_authority_round_trip(origin: [i64; 3], local: [i64; 3], address: [i64; 3])
    requires
        forall|axis: int| 0 <= axis < 3 ==> address[axis] == origin[axis] + local[axis],
    ensures
        sub_fits(origin, address),
        forall|axis: int| 0 <= axis < 3 ==> address[axis] - origin[axis] == local[axis],
{
}

} // verus!
