//! The project-wide bound on the cells that voxel-object frames resolve to.
use vstd::prelude::*;

use crate::stored_project::diagnostic_code;
use crate::stored_project::{
    failure, StoredAsset, StoredProjectError, StoredVoxelMaterialBinding, MAX_PROJECT_VOXEL_OBJECT_RESOLVED_CELLS,
};
use crate::text::{decimal, decimal_text, join2};

verus! {

/// A voxel object as the project's rules read it: its asset identity, the
/// sparse run lengths of its default frame and then of each frame of each
/// clip, in order, and the bindings of its material palette.
#[derive(Debug, Clone, PartialEq, Eq)]
pub struct VoxelObjectCells {
    pub asset_id: String,
    pub frames: Vec<Vec<u32>>,
    pub material_palette: Vec<StoredVoxelMaterialBinding>,
}

pub open spec fn runs_sum(runs: Seq<u32>) -> int
    decreases runs.len(),
{
    if runs.len() == 0 {
        0
    } else {
        runs_sum(runs.drop_last()) + runs.last()
    }
}

pub open spec fn frames_sum(frames: Seq<Vec<u32>>) -> int
    decreases frames.len(),
{
    if frames.len() == 0 {
        0
    } else {
        frames_sum(frames.drop_last()) + runs_sum(frames.last()@)
    }
}

/// The cells of the voxel objects the assets carry, leaving out the one
/// being replaced.
pub open spec fn counted_cells(assets: Seq<StoredAsset>, replaced: Option<Seq<char>>) -> int
    decreases assets.len(),
{
    if assets.len() == 0 {
        0
    } else {
        counted_cells(assets.drop_last(), replaced) + match assets.last().voxel_object {
            Some(object) => if replaced == Some(object.asset_id@) {
                0
            } else {
                frames_sum(object.frames@)
            },
            None => 0,
        }
    }
}

pub open spec fn replaced_id(replacement: Option<VoxelObjectCells>) -> Option<Seq<char>> {
    match replacement {
        Some(object) => Some(object.asset_id@),
        None => None,
    }
}

/// The cells of the voxel objects of a project's assets, with `replacement`
/// in place of the object of the same identity.
pub open spec fn aggregate_cells(
    assets: Seq<StoredAsset>,
    replacement: Option<VoxelObjectCells>,
) -> int {
    counted_cells(assets, replaced_id(replacement)) + match replacement {
        Some(object) => frames_sum(object.frames@),
        None => 0,
    }
}

pub open spec fn is_overflow_error(error: StoredProjectError) -> bool {
    &&& error.spec_diagnostic().code@ == diagnostic_code::VOXEL_OBJECT_AGGREGATE_LIMIT@
    &&& error.spec_diagnostic().path@ == "assets"@
    &&& error.spec_diagnostic().message@ == "voxel-object aggregate cell count overflowed"@
}

proof fn lemma_runs_prefix(runs: Seq<u32>, k: int)
    requires
        0 <= k <= runs.len(),
    ensures
        0 <= runs_sum(runs.take(k)) <= runs_sum(runs),
    decreases runs.len(),
{
    if k < runs.len() {
        assert(runs.take(k) =~= runs.drop_last().take(k));
        lemma_runs_prefix(runs.drop_last(), k);
    } else {
        assert(runs.take(k) =~= runs);
        if runs.len() > 0 {
            lemma_runs_prefix(runs.drop_last(), k - 1);
        }
    }
}

pub(crate) proof fn lemma_frames_prefix(frames: Seq<Vec<u32>>, k: int)
    requires
        0 <= k <= frames.len(),
    ensures
        0 <= frames_sum(frames.take(k)) <= frames_sum(frames),
    decreases frames.len(),
{
    if frames.len() > 0 {
        lemma_runs_prefix(frames.last()@, frames.last()@.len() as int);
        if k < frames.len() {
            assert(frames.take(k) =~= frames.drop_last().take(k));
            lemma_frames_prefix(frames.drop_last(), k);
        } else {
            assert(frames.take(k) =~= frames);
            lemma_frames_prefix(frames.drop_last(), k - 1);
        }
    }
}

proof fn lemma_counted_prefix(assets: Seq<StoredAsset>, replaced: Option<Seq<char>>, k: int)
    requires
        0 <= k <= assets.len(),
    ensures
        0 <= counted_cells(assets.take(k), replaced) <= counted_cells(assets, replaced),
    decreases assets.len(),
{
    if assets.len() > 0 {
        if let Some(object) = assets.last().voxel_object {
            lemma_frames_prefix(object.frames@, object.frames@.len() as int);
            assert(object.frames@.take(object.frames@.len() as int) =~= object.frames@);
        }
        if k < assets.len() {
            assert(assets.take(k) =~= assets.drop_last().take(k));
            lemma_counted_prefix(assets.drop_last(), replaced, k);
        } else {
            assert(assets.take(k) =~= assets);
            lemma_counted_prefix(assets.drop_last(), replaced, k - 1);
        }
    }
}

pub(crate) fn overflow_error() -> (error: StoredProjectError)
    ensures
        is_overflow_error(error),
{
    failure(
        diagnostic_code::VOXEL_OBJECT_AGGREGATE_LIMIT,
        String::from_str("assets"),
        String::from_str("voxel-object aggregate cell count overflowed"),
    )
}

/// `total` plus the cells of one frame.
pub fn add_voxel_frame_cells(total: u64, runs: &Vec<u32>) -> (result: Result<u64, StoredProjectError>)
    ensures
        total + runs_sum(runs@) <= u64::MAX ==> result == Ok::<u64, StoredProjectError>(
            (total + runs_sum(runs@)) as u64,
        ),
        total + runs_sum(runs@) > u64::MAX ==> (result matches Err(error) && is_overflow_error(
            error,
        )),
{
    let mut sum = total;
    let mut index: usize = 0;
    while index < runs.len()
        invariant
            index <= runs@.len(),
            sum == total + runs_sum(runs@.take(index as int)),
        decreases runs@.len() - index,
    {
        assert(runs@.take(index as int + 1).drop_last() =~= runs@.take(index as int));
        match sum.checked_add(runs[index] as u64) {
            Some(next) => {
                sum = next;
            },
            None => {
                proof {
                    lemma_runs_prefix(runs@, index as int + 1);
                }
                return Err(overflow_error());
            },
        }
        index = index + 1;
    }
    assert(runs@.take(index as int) =~= runs@);
    Ok(sum)
}

/// `total` plus the cells of every frame of one voxel object.
pub fn add_voxel_object_cells(total: u64, object: &VoxelObjectCells) -> (result: Result<
    u64,
    StoredProjectError,
>)
    ensures
        total + frames_sum(object.frames@) <= u64::MAX ==> result == Ok::<u64, StoredProjectError>(
            (total + frames_sum(object.frames@)) as u64,
        ),
        total + frames_sum(object.frames@) > u64::MAX ==> (result matches Err(error)
            && is_overflow_error(error)),
{
    add_frames_cells(total, &object.frames)
}

/// `total` plus the cells of every frame in `frames`.
pub fn add_frames_cells(total: u64, frames: &Vec<Vec<u32>>) -> (result: Result<u64, StoredProjectError>)
    ensures
        total + frames_sum(frames@) <= u64::MAX ==> result == Ok::<u64, StoredProjectError>(
            (total + frames_sum(frames@)) as u64,
        ),
        total + frames_sum(frames@) > u64::MAX ==> (result matches Err(error) && is_overflow_error(error)),
{
    let mut sum = total;
    let mut index: usize = 0;
    while index < frames.len()
        invariant
            index <= frames@.len(),
            sum == total + frames_sum(frames@.take(index as int)),
        decreases frames@.len() - index,
    {
        assert(frames@.take(index as int + 1).drop_last() =~= frames@.take(index as int));
        assert(frames@.take(index as int + 1).last() == frames@[index as int]);
        let added = add_voxel_frame_cells(sum, &frames[index]);
        match added {
            Ok(next) => {
                proof {
                    lemma_runs_prefix(frames@[index as int]@, frames@[index as int]@.len() as int);
                    assert(frames@[index as int]@.take(frames@[index as int]@.len() as int)
                        =~= frames@[index as int]@);
                }
                sum = next;
            },
            Err(error) => {
                proof {
                    lemma_frames_prefix(frames@, index as int + 1);
                }
                return Err(error);
            },
        }
        index = index + 1;
    }
    assert(frames@.take(index as int) =~= frames@);
    Ok(sum)
}

pub open spec fn limit_message(cells: int) -> Seq<char> {
    "voxel-object frames resolve "@ + decimal(cells as nat) + " aggregate cells; project limit is "@
        + decimal(MAX_PROJECT_VOXEL_OBJECT_RESOLVED_CELLS as nat)
}

/// The voxel-object frames of a project's assets, with `replacement` in
/// place of the object of its identity, must resolve to at most the
/// project's cell bound.
pub fn validate_voxel_object_aggregate_budget(
    assets: &Vec<StoredAsset>,
    replacement: Option<&VoxelObjectCells>,
) -> (result: Result<(), StoredProjectError>)
    ensures
        ({
            let cells = aggregate_cells(
                assets@,
                match replacement {
                    Some(object) => Some(*object),
                    None => None,
                },
            );
            &&& cells > u64::MAX ==> (result matches Err(error) && is_overflow_error(error))
            &&& MAX_PROJECT_VOXEL_OBJECT_RESOLVED_CELLS < cells <= u64::MAX ==> (result matches Err(
                error,
            ) && error.spec_diagnostic().code@ == diagnostic_code::VOXEL_OBJECT_AGGREGATE_LIMIT@
                && error.spec_diagnostic().path@ == (if replacement is Some {
                "voxelObjectCandidate"@
            } else {
                "assets"@
            }) && error.spec_diagnostic().message@ == limit_message(cells))
            &&& cells <= MAX_PROJECT_VOXEL_OBJECT_RESOLVED_CELLS ==> result is Ok
        }),
{
    let ghost replaced = match replacement {
        Some(object) => Some(object.asset_id@),
        None => None,
    };
    let mut sum: u64 = 0;
    let mut index: usize = 0;
    while index < assets.len()
        invariant
            index <= assets@.len(),
            replaced == match replacement {
                Some(object) => Some(object.asset_id@),
                None => None::<Seq<char>>,
            },
            sum == counted_cells(assets@.take(index as int), replaced),
        decreases assets@.len() - index,
    {
        assert(assets@.take(index as int + 1).drop_last() =~= assets@.take(index as int));
        assert(assets@.take(index as int + 1).last() == assets@[index as int]);
        if let Some(object) = &assets[index].voxel_object {
            let skipped = match replacement {
                Some(replacing) => crate::stored_project::text_equal(
                    replacing.asset_id.as_str(),
                    object.asset_id.as_str(),
                ),
                None => false,
            };
            if !skipped {
                match add_voxel_object_cells(sum, object) {
                    Ok(next) => {
                        proof {
                            lemma_frames_prefix(object.frames@, object.frames@.len() as int);
                            assert(object.frames@.take(object.frames@.len() as int) =~= object.frames@);
                        }
                        sum = next;
                    },
                    Err(error) => {
                        proof {
                            lemma_counted_prefix(assets@, replaced, index as int + 1);
                            if let Some(replacing) = replacement {
                                lemma_frames_prefix(replacing.frames@, replacing.frames@.len() as int);
                                assert(replacing.frames@.take(replacing.frames@.len() as int)
                                    =~= replacing.frames@);
                            }
                        }
                        return Err(error);
                    },
                }
            }
        }
        index = index + 1;
    }
    assert(assets@.take(index as int) =~= assets@);
    if let Some(replacing) = replacement {
        proof {
            lemma_frames_prefix(replacing.frames@, replacing.frames@.len() as int);
            assert(replacing.frames@.take(replacing.frames@.len() as int) =~= replacing.frames@);
        }
        sum = add_voxel_object_cells(sum, replacing)?;
    }
    if sum > MAX_PROJECT_VOXEL_OBJECT_RESOLVED_CELLS {
        let path = if replacement.is_some() {
            String::from_str("voxelObjectCandidate")
        } else {
            String::from_str("assets")
        };
        let mut message = join2("voxel-object frames resolve ", decimal_text(sum).as_str());
        message.append(" aggregate cells; project limit is ");
        message.append(decimal_text(MAX_PROJECT_VOXEL_OBJECT_RESOLVED_CELLS).as_str());
        return Err(failure(diagnostic_code::VOXEL_OBJECT_AGGREGATE_LIMIT, path, message));
    }
    Ok(())
}

} // verus!
