//! Bounds and windows of voxel edit-history readouts: how much of a history
//! a query may ask for, which entries and deltas it reports, and how entry
//! hashes are written. The history itself is the engine's.
use vstd::prelude::*;

use crate::studio_adapter::protocol::{AdapterRejection, AdapterRejectionView};
use crate::text::{decimal, decimal_text, digit_char, digit_text, join2};

verus! {

pub const MAX_HISTORY_QUERY_ENTRIES: usize = 512;

pub const MAX_HISTORY_QUERY_DELTAS_PER_ENTRY: usize = 4096;

pub const MAX_HISTORY_PREVIEW_SAMPLES: usize = 4096;

pub open spec fn history_rejection(code: Seq<char>, message: Seq<char>) -> AdapterRejectionView {
    AdapterRejectionView { code, path: None, message }
}

/// A history query asks for 1 to 512 entries and 1 to 4096 deltas per
/// entry.
pub fn check_history_query(max_entries: usize, max_deltas_per_entry: usize) -> (result: Result<
    (),
    AdapterRejection,
>)
    ensures
        !(1 <= max_entries <= MAX_HISTORY_QUERY_ENTRIES) ==> (result matches Err(error) && error@
            == history_rejection(
            "voxel.historyQueryLimit"@,
            "maxEntries must be between 1 and "@ + decimal(MAX_HISTORY_QUERY_ENTRIES as nat),
        )),
        1 <= max_entries <= MAX_HISTORY_QUERY_ENTRIES && !(1 <= max_deltas_per_entry
            <= MAX_HISTORY_QUERY_DELTAS_PER_ENTRY) ==> (result matches Err(error) && error@
            == history_rejection(
            "voxel.historyQueryLimit"@,
            "maxDeltasPerEntry must be between 1 and "@ + decimal(
                MAX_HISTORY_QUERY_DELTAS_PER_ENTRY as nat,
            ),
        )),
        1 <= max_entries <= MAX_HISTORY_QUERY_ENTRIES && 1 <= max_deltas_per_entry
            <= MAX_HISTORY_QUERY_DELTAS_PER_ENTRY ==> result is Ok,
{
    if !(1 <= max_entries && max_entries <= MAX_HISTORY_QUERY_ENTRIES) {
        let message = join2(
            "maxEntries must be between 1 and ",
            decimal_text(MAX_HISTORY_QUERY_ENTRIES as u64).as_str(),
        );
        return Err(AdapterRejection::new("voxel.historyQueryLimit", message.as_str()));
    }
    if !(1 <= max_deltas_per_entry && max_deltas_per_entry <= MAX_HISTORY_QUERY_DELTAS_PER_ENTRY) {
        let message = join2(
            "maxDeltasPerEntry must be between 1 and ",
            decimal_text(MAX_HISTORY_QUERY_DELTAS_PER_ENTRY as u64).as_str(),
        );
        return Err(AdapterRejection::new("voxel.historyQueryLimit", message.as_str()));
    }
    Ok(())
}

/// A revert preview samples at most 4096 changed voxels.
pub fn check_preview_samples(max_samples: usize) -> (result: Result<(), AdapterRejection>)
    ensures
        result is Ok <==> max_samples <= MAX_HISTORY_PREVIEW_SAMPLES,
        result matches Err(error) ==> error@ == history_rejection(
            "voxel.historyPreviewLimit"@,
            "maxSamples exceeds "@ + decimal(MAX_HISTORY_PREVIEW_SAMPLES as nat),
        ),
{
    if max_samples > MAX_HISTORY_PREVIEW_SAMPLES {
        let message = join2(
            "maxSamples exceeds ",
            decimal_text(MAX_HISTORY_PREVIEW_SAMPLES as u64).as_str(),
        );
        return Err(AdapterRejection::new("voxel.historyPreviewLimit", message.as_str()));
    }
    Ok(())
}

/// A prepared revert is applied only to the project it was previewed on.
pub fn check_revert_project(expected_project_hash: &str, prepared_project_hash: &str) -> (result:
    Result<(), AdapterRejection>)
    ensures
        result is Ok <==> expected_project_hash@ == prepared_project_hash@,
        result matches Err(error) ==> error@ == history_rejection(
            "voxel.historyPreviewStale"@,
            "apply project hash does not match the prepared history preview"@,
        ),
{
    if !crate::stored_project::text_equal(expected_project_hash, prepared_project_hash) {
        return Err(
            AdapterRejection::new(
                "voxel.historyPreviewStale",
                "apply project hash does not match the prepared history preview",
            ),
        );
    }
    Ok(())
}

/// The reported part of a list of `count` items when at most `limit` are
/// reported: the position of the first reported item (the most recent ones
/// are kept) and whether any were left out.
pub fn recent_window(count: usize, limit: usize) -> (window: (usize, bool))
    ensures
        window.0 == if count > limit {
            count - limit
        } else {
            0
        },
        window.1 == (count > limit),
{
    let first = count.saturating_sub(limit);
    (first, first > 0)
}

/// The reported part of a list of `count` items when at most `limit` are
/// reported from its start: how many are reported, and whether any were
/// left out.
pub fn leading_window(count: usize, limit: usize) -> (window: (usize, bool))
    ensures
        window.0 == if count > limit {
            limit
        } else {
            count
        },
        window.1 == (count > limit),
{
    if count > limit {
        (limit, true)
    } else {
        (count, false)
    }
}

/// A hexadecimal digit in lower case.
pub open spec fn hex_digit(d: nat) -> char {
    if d < 10 {
        digit_char(d)
    } else if d == 10 {
        'a'
    } else if d == 11 {
        'b'
    } else if d == 12 {
        'c'
    } else if d == 13 {
        'd'
    } else if d == 14 {
        'e'
    } else {
        'f'
    }
}

/// The `digits` lowest hexadecimal digits of `value`, most significant
/// first, in lower case.
pub open spec fn hex_digits(value: nat, digits: nat) -> Seq<char>
    decreases digits,
{
    if digits == 0 {
        Seq::empty()
    } else {
        hex_digits(value / 16, (digits - 1) as nat).push(hex_digit(value % 16))
    }
}

fn hex_digit_text(d: u64) -> (text: &'static str)
    requires
        d < 16,
    ensures
        text@ == seq![hex_digit(d as nat)],
{
    if d < 10 {
        let text = digit_text(d);
        text
    } else if d == 10 {
        proof { reveal_strlit("a"); }
        "a"
    } else if d == 11 {
        proof { reveal_strlit("b"); }
        "b"
    } else if d == 12 {
        proof { reveal_strlit("c"); }
        "c"
    } else if d == 13 {
        proof { reveal_strlit("d"); }
        "d"
    } else if d == 14 {
        proof { reveal_strlit("e"); }
        "e"
    } else {
        proof { reveal_strlit("f"); }
        "f"
    }
}

/// The `digits` lowest hexadecimal digits of `value`, in lower case.
fn hex_text(value: u64, digits: u64) -> (text: String)
    ensures
        text@ == hex_digits(value as nat, digits as nat),
    decreases digits,
{
    if digits == 0 {
        String::new()
    } else {
        let mut text = hex_text(value / 16, digits - 1);
        text.append(hex_digit_text(value % 16));
        text
    }
}

/// A 64-bit hash as `{:016x}` writes it: sixteen lower-case hexadecimal
/// digits, zero-padded.
pub fn hash_hex(value: u64) -> (text: String)
    ensures
        text@ == hex_digits(value as nat, 16),
{
    hex_text(value, 16)
}

} // verus!
