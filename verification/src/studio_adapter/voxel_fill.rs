//! The initial content of a new voxel asset: its bounds filled with one
//! material, written as one sparse run per row.
use vstd::prelude::*;

use crate::studio_adapter::protocol::{AdapterRejection, AdapterRejectionView};
use crate::text::{decimal, decimal_text, join3};

verus! {

/// A run of voxels along the x axis, starting at `start`.
#[derive(Debug, Clone, Copy, PartialEq, Eq)]
pub struct SparseRun {
    pub start: [i64; 3],
    pub length: u32,
    pub material_slot: u16,
}

pub open spec fn fill_rejection(code: Seq<char>, message: Seq<char>) -> AdapterRejectionView {
    AdapterRejectionView { code, path: None, message }
}

pub open spec fn extent_unrepresentable() -> AdapterRejectionView {
    fill_rejection(
        "voxel.invalidBounds"@,
        "initial voxel bounds must be ordered with a representable extent"@,
    )
}

pub open spec fn bounds_unordered() -> AdapterRejectionView {
    fill_rejection("voxel.invalidBounds"@, "initial voxel bounds must be ordered on every axis"@)
}

/// The number of voxels along one axis, when it can be written as an `i64`.
pub open spec fn axis_extent(minimum: i64, maximum: i64) -> Option<int> {
    let difference = maximum - minimum;
    if difference < i64::MIN || difference > i64::MAX || difference + 1 > i64::MAX {
        None
    } else {
        Some(difference + 1)
    }
}

/// The refusal owed to the bounds along one axis.
pub open spec fn axis_violation(minimum: i64, maximum: i64) -> Option<AdapterRejectionView> {
    match axis_extent(minimum, maximum) {
        None => Some(extent_unrepresentable()),
        Some(extent) => if extent < 0 {
            Some(bounds_unordered())
        } else {
            None
        },
    }
}

pub open spec fn extent(minimum: [i64; 3], maximum: [i64; 3], axis: int) -> int {
    maximum[axis] - minimum[axis] + 1
}

pub open spec fn volume_message(represented: int, limit: usize) -> Seq<char> {
    "initial voxel volume represents "@ + decimal(represented as nat) + " cells; limit is "@
        + decimal(limit as nat)
}

/// The run of the `k`-th row: rows go along y, then along z.
pub open spec fn row_run(minimum: [i64; 3], row_length: int, rows_per_layer: int, material_slot: u16, k: int) -> SparseRun {
    SparseRun {
        start: [minimum[0], (minimum[1] + k % rows_per_layer) as i64, (minimum[2] + k / rows_per_layer) as i64],
        length: row_length as u32,
        material_slot,
    }
}

/// What filling the bounds yields: each axis in turn must have an ordered,
/// representable extent; the represented volume must be computable, non-empty
/// and within `limit`; a row must fit a run and the rows must be countable;
/// then one run per row.
pub open spec fn fill_outcome(
    minimum: [i64; 3],
    maximum: [i64; 3],
    material_slot: u16,
    limit: usize,
) -> Result<Seq<SparseRun>, AdapterRejectionView> {
    if axis_violation(minimum[0], maximum[0]) is Some {
        Err(axis_violation(minimum[0], maximum[0])->Some_0)
    } else if axis_violation(minimum[1], maximum[1]) is Some {
        Err(axis_violation(minimum[1], maximum[1])->Some_0)
    } else if axis_violation(minimum[2], maximum[2]) is Some {
        Err(axis_violation(minimum[2], maximum[2])->Some_0)
    } else {
        let x = extent(minimum, maximum, 0);
        let y = extent(minimum, maximum, 1);
        let z = extent(minimum, maximum, 2);
        if x * y > u64::MAX || x * y * z > u64::MAX {
            Err(fill_rejection("voxel.resourceLimit"@, "initial voxel volume size overflowed"@))
        } else if x * y * z == 0 || x * y * z > limit {
            Err(fill_rejection("voxel.resourceLimit"@, volume_message(x * y * z, limit)))
        } else if x > u32::MAX {
            Err(
                fill_rejection(
                    "voxel.resourceLimit"@,
                    "initial voxel row does not fit the sparse-run format"@,
                ),
            )
        } else if y * z > usize::MAX {
            Err(fill_rejection("voxel.resourceLimit"@, "initial voxel row count exceeds this host"@))
        } else {
            Ok(Seq::new((y * z) as nat, |k: int| row_run(minimum, x, y, material_slot, k)))
        }
    }
}

pub open spec fn runs_view(result: Result<Vec<SparseRun>, AdapterRejection>) -> Result<
    Seq<SparseRun>,
    AdapterRejectionView,
> {
    match result {
        Ok(runs) => Ok(runs@),
        Err(error) => Err(error@),
    }
}

fn axis_length(minimum: i64, maximum: i64) -> (result: Result<u64, AdapterRejection>)
    ensures
        match axis_violation(minimum, maximum) {
            Some(violation) => result matches Err(error) && error@ == violation,
            None => result == Ok::<u64, AdapterRejection>((maximum - minimum + 1) as u64),
        },
{
    let span = match maximum.checked_sub(minimum) {
        Some(difference) => match difference.checked_add(1) {
            Some(span) => span,
            None => {
                return Err(
                    AdapterRejection::new(
                        "voxel.invalidBounds",
                        "initial voxel bounds must be ordered with a representable extent",
                    ),
                );
            },
        },
        None => {
            return Err(
                AdapterRejection::new(
                    "voxel.invalidBounds",
                    "initial voxel bounds must be ordered with a representable extent",
                ),
            );
        },
    };
    if span < 0 {
        return Err(
            AdapterRejection::new(
                "voxel.invalidBounds",
                "initial voxel bounds must be ordered on every axis",
            ),
        );
    }
    Ok(span as u64)
}

/// Fills the bounds `minimum..=maximum` with `material_slot`, as one run
/// per row, when the volume is within `limit` cells.
pub fn filled_volume_runs(
    minimum: [i64; 3],
    maximum: [i64; 3],
    material_slot: u16,
    limit: usize,
) -> (result: Result<Vec<SparseRun>, AdapterRejection>)
    ensures
        runs_view(result) == fill_outcome(minimum, maximum, material_slot, limit),
{
    let x = axis_length(minimum[0], maximum[0])?;
    let y = axis_length(minimum[1], maximum[1])?;
    let z = axis_length(minimum[2], maximum[2])?;
    let layer = match x.checked_mul(y) {
        Some(layer) => layer,
        None => {
            return Err(AdapterRejection::new("voxel.resourceLimit", "initial voxel volume size overflowed"));
        },
    };
    let represented = match layer.checked_mul(z) {
        Some(represented) => represented,
        None => {
            return Err(AdapterRejection::new("voxel.resourceLimit", "initial voxel volume size overflowed"));
        },
    };
    if represented == 0 || represented > limit as u64 {
        let mut message = join3(
            "initial voxel volume represents ",
            decimal_text(represented).as_str(),
            " cells; limit is ",
        );
        message.append(decimal_text(limit as u64).as_str());
        return Err(AdapterRejection::new("voxel.resourceLimit", message.as_str()));
    }
    if x > u32::MAX as u64 {
        return Err(
            AdapterRejection::new(
                "voxel.resourceLimit",
                "initial voxel row does not fit the sparse-run format",
            ),
        );
    }
    proof {
        assert(x >= 1 && y >= 1 && z >= 1) by (nonlinear_arith)
            requires
                x * y * z != 0,
                x >= 0,
                y >= 0,
                z >= 0,
        ;
        assert(y * z <= x * y * z) by (nonlinear_arith)
            requires
                x >= 1,
                y >= 0,
                z >= 0,
        ;
    }
    let rows = y * z;
    if rows > usize::MAX as u64 {
        return Err(
            AdapterRejection::new("voxel.resourceLimit", "initial voxel row count exceeds this host"),
        );
    }
    let run_length = x as u32;
    let ghost rows_total = y * z;
    let mut runs: Vec<SparseRun> = Vec::new();
    let mut layer_index: u64 = 0;
    while layer_index < z
        invariant
            y >= 1,
            y <= i64::MAX,
            z <= i64::MAX,
            layer_index <= z,
            y * z <= u64::MAX,
            run_length == x,
            x == maximum[0] - minimum[0] + 1,
            y == maximum[1] - minimum[1] + 1,
            z == maximum[2] - minimum[2] + 1,
            runs@.len() == layer_index * y,
            forall|k: int|
                0 <= k < runs@.len() ==> runs@[k] == row_run(minimum, x as int, y as int, material_slot, k),
        decreases z - layer_index,
    {
        let mut row_index: u64 = 0;
        while row_index < y
            invariant
                y >= 1,
                y <= i64::MAX,
                z <= i64::MAX,
                layer_index < z,
                row_index <= y,
                y * z <= u64::MAX,
                run_length == x,
                x == maximum[0] - minimum[0] + 1,
                y == maximum[1] - minimum[1] + 1,
                z == maximum[2] - minimum[2] + 1,
                runs@.len() == layer_index * y + row_index,
                forall|k: int|
                    0 <= k < runs@.len() ==> runs@[k] == row_run(minimum, x as int, y as int, material_slot, k),
            decreases y - row_index,
        {
            let ghost k = (layer_index * y + row_index) as int;
            proof {
                vstd::arithmetic::div_mod::lemma_fundamental_div_mod_converse(
                    k,
                    y as int,
                    layer_index as int,
                    row_index as int,
                );
            }
            let run = SparseRun {
                start: [minimum[0], minimum[1] + row_index as i64, minimum[2] + layer_index as i64],
                length: run_length,
                material_slot,
            };
            runs.push(run);
            row_index = row_index + 1;
        }
        proof {
            assert(layer_index * y + y == (layer_index + 1) * y) by (nonlinear_arith);
            assert((layer_index + 1) * y <= z * y) by (nonlinear_arith)
                requires
                    layer_index < z,
                    y >= 1,
            ;
        }
        layer_index = layer_index + 1;
    }
    assert(layer_index * y == y * z) by (nonlinear_arith)
        requires
            layer_index == z,
    ;
    assert(runs@ =~= Seq::new(rows_total as nat, |k: int| row_run(minimum, x as int, y as int, material_slot, k)));
    Ok(runs)
}

} // verus!
