//! The material voxels a sparse voxel asset stands for: each run expanded
//! voxel by voxel along x, moved by the grid origin, and ordered by address.
use vstd::prelude::*;
use vstd::relations::sorted_by;

use crate::stored_project::diagnostic_code;
use crate::stored_project::hierarchy::failure_is;
use crate::stored_project::{failure, StoredMaterialVoxel, StoredProjectError};
use crate::studio_adapter::voxel_fill::SparseRun;

verus! {

/// The order of voxel addresses: lexicographic on the axes.
pub open spec fn address_leq() -> spec_fn(StoredMaterialVoxel, StoredMaterialVoxel) -> bool {
    |a: StoredMaterialVoxel, b: StoredMaterialVoxel|
        a.address[0] < b.address[0] || (a.address[0] == b.address[0] && (a.address[1] < b.address[1] || (
        a.address[1] == b.address[1] && a.address[2] <= b.address[2])))
}

pub open spec fn fits_i64(value: int) -> bool {
    i64::MIN <= value <= i64::MAX
}

/// The refusal of a run whose voxels run past the end of the axis.
pub open spec fn run_overflow() -> (Seq<char>, Seq<char>) {
    ("representation"@, "sparse run overflowed"@)
}

/// The refusal of a voxel that the grid origin moves off the axes.
pub open spec fn origin_overflow() -> (Seq<char>, Seq<char>) {
    ("grid.origin"@, "voxel origin mapping overflowed"@)
}

/// The `offset`-th voxel of `run`, moved by `origin`, or the refusal owed
/// to it (the run's own address first, then the axes in order).
pub open spec fn run_voxel(run: SparseRun, origin: [i64; 3], offset: int) -> Result<
    StoredMaterialVoxel,
    (Seq<char>, Seq<char>),
> {
    let x = run.start[0] + offset;
    if !fits_i64(x) {
        Err(run_overflow())
    } else if !fits_i64(origin[0] + x) || !fits_i64(origin[1] + run.start[1]) || !fits_i64(
        origin[2] + run.start[2],
    ) {
        Err(origin_overflow())
    } else {
        Ok(
            StoredMaterialVoxel {
                address: [
                    (origin[0] + x) as i64,
                    (origin[1] + run.start[1]) as i64,
                    (origin[2] + run.start[2]) as i64,
                ],
                material_slot: run.material_slot,
            },
        )
    }
}

/// The first `n` voxels of `run`, or the first refusal among them.
pub open spec fn run_voxels(run: SparseRun, origin: [i64; 3], n: int) -> Result<
    Seq<StoredMaterialVoxel>,
    (Seq<char>, Seq<char>),
>
    decreases n,
{
    if n <= 0 {
        Ok(Seq::empty())
    } else {
        match run_voxels(run, origin, n - 1) {
            Err(refusal) => Err(refusal),
            Ok(voxels) => match run_voxel(run, origin, n - 1) {
                Err(refusal) => Err(refusal),
                Ok(voxel) => Ok(voxels.push(voxel)),
            },
        }
    }
}

/// The voxels of the first `n` runs, in run order, or the first refusal.
pub open spec fn runs_voxels(runs: Seq<SparseRun>, origin: [i64; 3], n: int) -> Result<
    Seq<StoredMaterialVoxel>,
    (Seq<char>, Seq<char>),
>
    decreases n,
{
    if n <= 0 {
        Ok(Seq::empty())
    } else {
        match runs_voxels(runs, origin, n - 1) {
            Err(refusal) => Err(refusal),
            Ok(voxels) => match run_voxels(runs[n - 1], origin, runs[n - 1].length as int) {
                Err(refusal) => Err(refusal),
                Ok(more) => Ok(voxels + more),
            },
        }
    }
}

proof fn lemma_run_refusal_stays(run: SparseRun, origin: [i64; 3], k: int, n: int)
    requires
        0 <= k <= n,
        run_voxels(run, origin, k) is Err,
    ensures
        run_voxels(run, origin, n) == run_voxels(run, origin, k),
    decreases n - k,
{
    if k < n {
        lemma_run_refusal_stays(run, origin, k, n - 1);
    }
}

proof fn lemma_runs_refusal_stays(runs: Seq<SparseRun>, origin: [i64; 3], k: int, n: int)
    requires
        0 <= k <= n,
        runs_voxels(runs, origin, k) is Err,
    ensures
        runs_voxels(runs, origin, n) == runs_voxels(runs, origin, k),
    decreases n - k,
{
    if k < n {
        lemma_runs_refusal_stays(runs, origin, k, n - 1);
    }
}

/// `slice::sort_unstable_by_key` on the voxels' addresses: ascending in the
/// lexicographic order of the address arrays, with the same voxels as
/// before (in some order among equal addresses).
#[verifier::external_body]
fn sort_by_address(voxels: &mut Vec<StoredMaterialVoxel>)
    ensures
        sorted_by(final(voxels)@, address_leq()),
        final(voxels)@.to_multiset() == old(voxels)@.to_multiset(),
{
    voxels.sort_unstable_by_key(|voxel| voxel.address);
}

fn push_run(voxels: &mut Vec<StoredMaterialVoxel>, run: &SparseRun, origin: [i64; 3]) -> (result: Result<
    (),
    StoredProjectError,
>)
    ensures
        match run_voxels(*run, origin, run.length as int) {
            Ok(more) => result is Ok && final(voxels)@ == old(voxels)@ + more,
            Err((path, message)) => result matches Err(error) && failure_is(
                error,
                diagnostic_code::INVALID_VOXEL_ASSET@,
                path,
                message,
            ),
        },
{
    let ghost before = voxels@;
    assert(voxels@.subrange(before.len() as int, voxels@.len() as int) =~= Seq::<StoredMaterialVoxel>::empty());
    assert(voxels@.subrange(0, before.len() as int) =~= before);
    let mut offset: u32 = 0;
    while offset < run.length
        invariant
            offset <= run.length,
            run_voxels(*run, origin, offset as int) == Ok::<Seq<StoredMaterialVoxel>, (Seq<char>, Seq<char>)>(
                voxels@.subrange(before.len() as int, voxels@.len() as int),
            ),
            voxels@.subrange(0, before.len() as int) == before,
            before.len() <= voxels@.len(),
        decreases run.length - offset,
    {
        let x = match run.start[0].checked_add(offset as i64) {
            Some(x) => x,
            None => {
                proof {
                    lemma_run_refusal_stays(*run, origin, offset as int + 1, run.length as int);
                }
                return Err(
                    failure(
                        diagnostic_code::INVALID_VOXEL_ASSET,
                        String::from_str("representation"),
                        String::from_str("sparse run overflowed"),
                    ),
                );
            },
        };
        let moved = match (
            origin[0].checked_add(x),
            origin[1].checked_add(run.start[1]),
            origin[2].checked_add(run.start[2]),
        ) {
            (Some(a), Some(b), Some(c)) => [a, b, c],
            _ => {
                proof {
                    lemma_run_refusal_stays(*run, origin, offset as int + 1, run.length as int);
                }
                return Err(
                    failure(
                        diagnostic_code::INVALID_VOXEL_ASSET,
                        String::from_str("grid.origin"),
                        String::from_str("voxel origin mapping overflowed"),
                    ),
                );
            },
        };
        voxels.push(StoredMaterialVoxel { address: moved, material_slot: run.material_slot });
        offset = offset + 1;
        assert(voxels@.subrange(before.len() as int, voxels@.len() as int) =~= run_voxels(
            *run,
            origin,
            offset as int - 1,
        )->Ok_0.push(run_voxel(*run, origin, offset as int - 1)->Ok_0));
        assert(voxels@.subrange(0, before.len() as int) =~= before);
    }
    assert(voxels@ =~= before + voxels@.subrange(before.len() as int, voxels@.len() as int));
    Ok(())
}

/// Expands the sparse runs of a voxel asset whose grid starts at `origin`
/// into its material voxels, ordered by address; a run that passes the end
/// of the x axis, or a voxel the origin moves off an axis, is refused.
pub fn expand_voxel_asset(origin: [i64; 3], runs: &Vec<SparseRun>) -> (result: Result<
    Vec<StoredMaterialVoxel>,
    StoredProjectError,
>)
    ensures
        match runs_voxels(runs@, origin, runs@.len() as int) {
            Ok(expanded) => result matches Ok(voxels) && sorted_by(voxels@, address_leq())
                && voxels@.to_multiset() == expanded.to_multiset(),
            Err((path, message)) => result matches Err(error) && failure_is(
                error,
                diagnostic_code::INVALID_VOXEL_ASSET@,
                path,
                message,
            ),
        },
{
    let mut voxels: Vec<StoredMaterialVoxel> = Vec::new();
    let mut index: usize = 0;
    while index < runs.len()
        invariant
            index <= runs@.len(),
            runs_voxels(runs@, origin, index as int) == Ok::<
                Seq<StoredMaterialVoxel>,
                (Seq<char>, Seq<char>),
            >(voxels@),
        decreases runs@.len() - index,
    {
        match push_run(&mut voxels, &runs[index], origin) {
            Ok(()) => {},
            Err(error) => {
                proof {
                    lemma_runs_refusal_stays(runs@, origin, index as int + 1, runs@.len() as int);
                }
                return Err(error);
            },
        }
        index = index + 1;
    }
    sort_by_address(&mut voxels);
    Ok(voxels)
}

} // verus!
