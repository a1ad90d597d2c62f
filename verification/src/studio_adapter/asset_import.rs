//! The decisions of mesh asset import: which sources are accepted, where a
//! packed glTF runtime resource is kept, how a plan is named, and which
//! prepared plans may be applied. Planning, conversion and hashing are done
//! by the importer; publication by the project store.
use vstd::prelude::*;

use crate::stored_project::{text_equal, StoredImportSource};
use crate::studio_adapter::protocol::{AdapterRejection, AdapterRejectionView, StudioFileSelection};

verus! {

pub open spec fn import_rejection(code: Seq<char>, message: Seq<char>) -> AdapterRejectionView {
    AdapterRejectionView { code, path: None, message }
}

/// `text` without the trailing `suffix`, when it ends with it.
pub open spec fn strip_suffix(text: Seq<char>, suffix: Seq<char>) -> Option<Seq<char>> {
    if suffix.len() <= text.len() && text.subrange(text.len() - suffix.len(), text.len() as int)
        == suffix {
        Some(text.subrange(0, text.len() - suffix.len()))
    } else {
        None
    }
}

/// `text` without the leading `prefix`, when it starts with it.
pub open spec fn strip_prefix(text: Seq<char>, prefix: Seq<char>) -> Option<Seq<char>> {
    if prefix.len() <= text.len() && text.subrange(0, prefix.len() as int) == prefix {
        Some(text.subrange(prefix.len() as int, text.len() as int))
    } else {
        None
    }
}

/// ASCII letters in lower case; every other character unchanged.
pub open spec fn ascii_lower(c: char) -> char {
    if 'A' <= c && c <= 'Z' {
        ((c as u32) + 32) as char
    } else {
        c
    }
}

pub open spec fn ascii_lowercase(text: Seq<char>) -> Seq<char> {
    text.map_values(|c: char| ascii_lower(c))
}

pub open spec fn is_ascii_hex_digit(c: char) -> bool {
    ('0' <= c && c <= '9') || ('a' <= c && c <= 'f') || ('A' <= c && c <= 'F')
}

/// Whether `text` ends with `suffix`.
fn strip_suffix_text<'a>(text: &'a str, suffix: &str) -> (stem: Option<&'a str>)
    ensures
        match stem {
            Some(stem) => strip_suffix(text@, suffix@) == Some(stem@),
            None => strip_suffix(text@, suffix@) is None,
        },
{
    let length = text.unicode_len();
    let suffix_length = suffix.unicode_len();
    if suffix_length > length {
        return None;
    }
    let tail = text.substring_char(length - suffix_length, length);
    if text_equal(tail, suffix) {
        Some(text.substring_char(0, length - suffix_length))
    } else {
        None
    }
}

/// `text` without a leading `prefix`, or all of `text`.
pub(crate) fn strip_prefix_text<'a>(text: &'a str, prefix: &str) -> (rest: &'a str)
    ensures
        rest@ == match strip_prefix(text@, prefix@) {
            Some(rest) => rest,
            None => text@,
        },
{
    let length = text.unicode_len();
    let prefix_length = prefix.unicode_len();
    if prefix_length > length {
        return text;
    }
    let head = text.substring_char(0, prefix_length);
    if text_equal(head, prefix) {
        text.substring_char(prefix_length, length)
    } else {
        text
    }
}

fn ascii_lower_char(c: char) -> (lower: char)
    ensures
        lower == ascii_lower(c),
{
    if 'A' <= c && c <= 'Z' {
        let code: u8 = c as u8;
        (code + 32) as char
    } else {
        c
    }
}

/// Whether `text`, in ASCII lower case, ends with `suffix`.
fn ends_with_ignoring_ascii_case(text: &str, suffix: &str) -> (ends: bool)
    ensures
        ends == (strip_suffix(ascii_lowercase(text@), suffix@) is Some),
{
    let length = text.unicode_len();
    let suffix_length = suffix.unicode_len();
    let ghost lower = ascii_lowercase(text@);
    if suffix_length > length {
        return false;
    }
    let start = length - suffix_length;
    let mut index: usize = 0;
    while index < suffix_length
        invariant
            length == text@.len(),
            suffix_length == suffix@.len(),
            start == length - suffix_length,
            lower == ascii_lowercase(text@),
            index <= suffix_length,
            forall|k: int| 0 <= k < index ==> lower[start + k] == suffix@[k],
        decreases suffix_length - index,
    {
        if ascii_lower_char(text.get_char(start + index)) != suffix.get_char(index) {
            assert(lower.subrange(start as int, length as int)[index as int] != suffix@[index as int]);
            return false;
        }
        index = index + 1;
    }
    assert(lower.subrange(start as int, length as int) =~= suffix@);
    true
}

/// Whether an import source is a binary or JSON glTF, which imports as an
/// animated mesh: its path ends in `.glb` or `.gltf`, in any ASCII case.
pub open spec fn is_animated_path(path: Seq<char>) -> bool {
    strip_suffix(ascii_lowercase(path), ".glb"@) is Some || strip_suffix(
        ascii_lowercase(path),
        ".gltf"@,
    ) is Some
}

pub fn is_animated_source(path: &str) -> (animated: bool)
    ensures
        animated == is_animated_path(path@),
{
    ends_with_ignoring_ascii_case(path, ".glb") || ends_with_ignoring_ascii_case(path, ".gltf")
}

/// The selection a retained import source is read from again.
pub fn selection_from_stored(source: &StoredImportSource) -> (selection: StudioFileSelection)
    ensures
        match (*source, selection) {
            (StoredImportSource::Project { path }, StudioFileSelection::Project { path: chosen }) =>
                chosen@ == path@,
            (StoredImportSource::Host { path }, StudioFileSelection::Host { path: chosen }) =>
                chosen@ == path@,
            _ => false,
        },
{
    match source {
        StoredImportSource::Project { path } => StudioFileSelection::Project { path: path.clone() },
        StoredImportSource::Host { path } => StudioFileSelection::Host { path: path.clone() },
    }
}

pub open spec fn packed_host_unsupported() -> AdapterRejectionView {
    import_rejection(
        "assetImport.animatedHostSourceUnsupported"@,
        "packed glTF runtime resources require a project-relative source"@,
    )
}

pub open spec fn packed_extension_invalid() -> AdapterRejectionView {
    import_rejection(
        "assetImport.invalidSourceExtension"@,
        "packed glTF runtime resources require a .gltf source"@,
    )
}

pub open spec fn packed_hash_invalid() -> AdapterRejectionView {
    import_rejection(
        "assetImport.invalidSourceHash"@,
        "glTF import did not produce a canonical source hash"@,
    )
}

/// The glTF stem: the path without `.gltf` (or `.GLTF`).
pub open spec fn gltf_stem(path: Seq<char>) -> Option<Seq<char>> {
    match strip_suffix(path, ".gltf"@) {
        Some(stem) => Some(stem),
        None => strip_suffix(path, ".GLTF"@),
    }
}

/// The hexadecimal digits of a source hash, without its `sha256:` label.
pub open spec fn hash_digits(source_hash: Seq<char>) -> Seq<char> {
    match strip_prefix(source_hash, "sha256:"@) {
        Some(digits) => digits,
        None => source_hash,
    }
}

/// Where the packed runtime GLB of a project glTF source is kept: beside the
/// source, named by its stem and the first sixteen digits of its hash.
pub open spec fn packed_runtime_outcome(source: StudioFileSelection, source_hash: Seq<char>) -> Result<
    Seq<char>,
    AdapterRejectionView,
> {
    match source {
        StudioFileSelection::Host { .. } => Err(packed_host_unsupported()),
        StudioFileSelection::Project { path } => match gltf_stem(path@) {
            None => Err(packed_extension_invalid()),
            Some(stem) => {
                let digits = hash_digits(source_hash);
                if digits.len() < 16 || !(forall|i: int|
                    0 <= i < digits.len() ==> #[trigger] is_ascii_hex_digit(digits[i])) {
                    Err(packed_hash_invalid())
                } else {
                    Ok(stem + ".rusty-import-"@ + digits.take(16) + ".glb"@)
                }
            },
        },
    }
}

pub open spec fn text_view(result: Result<String, AdapterRejection>) -> Result<
    Seq<char>,
    AdapterRejectionView,
> {
    match result {
        Ok(text) => Ok(text@),
        Err(error) => Err(error@),
    }
}

fn all_hex_digits(text: &str) -> (all: bool)
    ensures
        all == forall|i: int| 0 <= i < text@.len() ==> #[trigger] is_ascii_hex_digit(text@[i]),
{
    let length = text.unicode_len();
    let mut index: usize = 0;
    while index < length
        invariant
            length == text@.len(),
            index <= length,
            forall|i: int| 0 <= i < index ==> #[trigger] is_ascii_hex_digit(text@[i]),
        decreases length - index,
    {
        let c = text.get_char(index);
        if !(('0' <= c && c <= '9') || ('a' <= c && c <= 'f') || ('A' <= c && c <= 'F')) {
            assert(!is_ascii_hex_digit(text@[index as int]));
            return false;
        }
        index = index + 1;
    }
    true
}

/// The project-relative path of the packed runtime GLB of a glTF import.
pub fn packed_runtime_path(source: &StudioFileSelection, source_hash: &str) -> (result: Result<
    String,
    AdapterRejection,
>)
    ensures
        text_view(result) == packed_runtime_outcome(*source, source_hash@),
{
    let path = match source {
        StudioFileSelection::Host { .. } => {
            return Err(
                AdapterRejection::new(
                    "assetImport.animatedHostSourceUnsupported",
                    "packed glTF runtime resources require a project-relative source",
                ),
            );
        },
        StudioFileSelection::Project { path } => path.as_str(),
    };
    let stem = match strip_suffix_text(path, ".gltf") {
        Some(stem) => stem,
        None => match strip_suffix_text(path, ".GLTF") {
            Some(stem) => stem,
            None => {
                return Err(
                    AdapterRejection::new(
                        "assetImport.invalidSourceExtension",
                        "packed glTF runtime resources require a .gltf source",
                    ),
                );
            },
        },
    };
    let digits = strip_prefix_text(source_hash, "sha256:");
    if digits.unicode_len() < 16 || !all_hex_digits(digits) {
        return Err(
            AdapterRejection::new(
                "assetImport.invalidSourceHash",
                "glTF import did not produce a canonical source hash",
            ),
        );
    }
    let mut relative = String::from_str(stem);
    relative.append(".rusty-import-");
    relative.append(digits.substring_char(0, 16));
    relative.append(".glb");
    assert(digits@.subrange(0, 16) =~= digits@.take(16));
    Ok(relative)
}

/// The plan identity of an asset import: `asset-import-` and the first
/// sixteen characters of the plan hash.
pub fn asset_import_plan_id(plan_hash: &str) -> (plan_id: String)
    requires
        plan_hash@.len() >= 16,
    ensures
        plan_id@ == "asset-import-"@ + plan_hash@.take(16),
{
    let mut plan_id = String::from_str("asset-import-");
    plan_id.append(plan_hash.substring_char(0, 16));
    assert(plan_hash@.subrange(0, 16) =~= plan_hash@.take(16));
    plan_id
}

pub open spec fn animated_host_unsupported() -> AdapterRejectionView {
    import_rejection(
        "assetImport.animatedHostSourceUnsupported"@,
        "animated GLB import requires a project-relative source so the retained runtime resource remains durable"@,
    )
}

/// An animated source must be project-relative, so that its retained runtime
/// resource stays durable.
pub fn check_animated_source(animated: bool, source: &StoredImportSource) -> (result: Result<
    (),
    AdapterRejection,
>)
    ensures
        result is Ok <==> !(animated && source is Host),
        result matches Err(error) ==> error@ == animated_host_unsupported(),
{
    if animated {
        if let StoredImportSource::Host { .. } = source {
            return Err(
                AdapterRejection::new(
                    "assetImport.animatedHostSourceUnsupported",
                    "animated GLB import requires a project-relative source so the retained runtime resource remains durable",
                ),
            );
        }
    }
    Ok(())
}

pub open spec fn host_gltf_unsupported() -> AdapterRejectionView {
    import_rejection(
        "assetImport.animatedHostSourceUnsupported"@,
        "JSON glTF import requires a project-relative source so its external closure and packed runtime GLB remain durable"@,
    )
}

/// A JSON glTF is imported only from inside the project: its external
/// resources and packed runtime GLB must stay with it.
pub fn check_host_source(normalized_path: &str) -> (result: Result<(), AdapterRejection>)
    ensures
        result is Ok <==> strip_suffix(ascii_lowercase(normalized_path@), ".gltf"@) is None,
        result matches Err(error) ==> error@ == host_gltf_unsupported(),
{
    if ends_with_ignoring_ascii_case(normalized_path, ".gltf") {
        return Err(
            AdapterRejection::new(
                "assetImport.animatedHostSourceUnsupported",
                "JSON glTF import requires a project-relative source so its external closure and packed runtime GLB remain durable",
            ),
        );
    }
    Ok(())
}

/// The byte count of a JSON glTF source: its root document and every
/// external resource, summed without overflowing.
pub open spec fn gltf_byte_count(root_json_len: u64, resource_lens: Seq<u64>) -> u64
    decreases resource_lens.len(),
{
    if resource_lens.len() == 0 {
        root_json_len
    } else {
        let total = gltf_byte_count(root_json_len, resource_lens.drop_last()) as int
            + resource_lens.last() as int;
        if total > u64::MAX {
            u64::MAX
        } else {
            total as u64
        }
    }
}

pub fn gltf_source_byte_count(root_json_len: u64, resource_lens: &Vec<u64>) -> (total: u64)
    ensures
        total == gltf_byte_count(root_json_len, resource_lens@),
{
    let mut total = root_json_len;
    let mut index: usize = 0;
    while index < resource_lens.len()
        invariant
            index <= resource_lens@.len(),
            total == gltf_byte_count(root_json_len, resource_lens@.take(index as int)),
        decreases resource_lens@.len() - index,
    {
        assert(resource_lens@.take(index as int + 1).drop_last() =~= resource_lens@.take(
            index as int,
        ));
        total = total.saturating_add(resource_lens[index]);
        index = index + 1;
    }
    assert(resource_lens@.take(index as int) =~= resource_lens@);
    total
}

/// What applying an asset import reads of its prepared plan.
#[derive(Debug, Clone)]
pub struct PreparedAssetImport {
    pub plan_id: String,
    pub plan_hash: String,
    pub expected_project_hash: String,
    /// Whether the plan produced imported assets (it has no errors).
    pub has_assets: bool,
    pub animated: bool,
    pub manifest_json: Option<String>,
    pub sidecar_json: Option<String>,
    pub source: StoredImportSource,
    pub reimport_kind: Option<String>,
}

pub open spec fn plan_mismatch() -> AdapterRejectionView {
    import_rejection(
        "assetImport.planMismatch"@,
        "prepared asset-import plan identity or hash does not match"@,
    )
}

pub open spec fn stale_plan() -> AdapterRejectionView {
    import_rejection(
        "assetImport.stalePlan"@,
        "asset-import plan was prepared for a different project hash"@,
    )
}

pub open spec fn plan_has_errors() -> AdapterRejectionView {
    import_rejection(
        "assetImport.planHasErrors"@,
        "asset-import plan has errors and has no publication candidate"@,
    )
}

pub open spec fn manifest_missing() -> AdapterRejectionView {
    import_rejection("assetImport.planIncomplete"@, "asset-import plan has no canonical manifest"@)
}

pub open spec fn sidecar_missing() -> AdapterRejectionView {
    import_rejection("assetImport.planIncomplete"@, "asset-import plan has no canonical sidecar"@)
}

pub open spec fn animated_source_not_durable() -> AdapterRejectionView {
    import_rejection(
        "assetImport.animatedHostSourceUnsupported"@,
        "animated GLB import requires a durable project-relative source"@,
    )
}

/// The refusal owed to applying `prepared` as the plan `plan_id` with hash
/// `plan_hash` against the project hash `project_hash`, checked in this
/// order: the plan's identity, its project, its errors, its manifest and
/// sidecar, and the durability of an animated source.
pub open spec fn apply_outcome(
    prepared: PreparedAssetImport,
    plan_id: Seq<char>,
    plan_hash: Seq<char>,
    project_hash: Seq<char>,
) -> Result<(Seq<char>, Seq<char>), AdapterRejectionView> {
    if prepared.plan_id@ != plan_id || prepared.plan_hash@ != plan_hash {
        Err(plan_mismatch())
    } else if prepared.expected_project_hash@ != project_hash {
        Err(stale_plan())
    } else if !prepared.has_assets {
        Err(plan_has_errors())
    } else if prepared.manifest_json is None {
        Err(manifest_missing())
    } else if prepared.sidecar_json is None {
        Err(sidecar_missing())
    } else if prepared.animated && prepared.source is Host {
        Err(animated_source_not_durable())
    } else {
        Ok((prepared.manifest_json->Some_0@, prepared.sidecar_json->Some_0@))
    }
}

pub open spec fn documents_view(result: Result<(String, String), AdapterRejection>) -> Result<
    (Seq<char>, Seq<char>),
    AdapterRejectionView,
> {
    match result {
        Ok((manifest, sidecar)) => Ok((manifest@, sidecar@)),
        Err(error) => Err(error@),
    }
}

impl PreparedAssetImport {
    /// Checks that this prepared plan may be applied as requested, and gives
    /// its canonical manifest and sidecar documents.
    pub fn check_apply(&self, plan_id: &str, plan_hash: &str, project_hash: &str) -> (result:
        Result<(String, String), AdapterRejection>)
        ensures
            documents_view(result) == apply_outcome(*self, plan_id@, plan_hash@, project_hash@),
    {
        if !text_equal(self.plan_id.as_str(), plan_id) || !text_equal(
            self.plan_hash.as_str(),
            plan_hash,
        ) {
            return Err(
                AdapterRejection::new(
                    "assetImport.planMismatch",
                    "prepared asset-import plan identity or hash does not match",
                ),
            );
        }
        if !text_equal(self.expected_project_hash.as_str(), project_hash) {
            return Err(
                AdapterRejection::new(
                    "assetImport.stalePlan",
                    "asset-import plan was prepared for a different project hash",
                ),
            );
        }
        if !self.has_assets {
            return Err(
                AdapterRejection::new(
                    "assetImport.planHasErrors",
                    "asset-import plan has errors and has no publication candidate",
                ),
            );
        }
        let manifest = match &self.manifest_json {
            Some(manifest) => manifest.clone(),
            None => {
                return Err(
                    AdapterRejection::new(
                        "assetImport.planIncomplete",
                        "asset-import plan has no canonical manifest",
                    ),
                );
            },
        };
        let sidecar = match &self.sidecar_json {
            Some(sidecar) => sidecar.clone(),
            None => {
                return Err(
                    AdapterRejection::new(
                        "assetImport.planIncomplete",
                        "asset-import plan has no canonical sidecar",
                    ),
                );
            },
        };
        if self.animated {
            if let StoredImportSource::Host { .. } = &self.source {
                return Err(
                    AdapterRejection::new(
                        "assetImport.animatedHostSourceUnsupported",
                        "animated GLB import requires a durable project-relative source",
                    ),
                );
            }
        }
        Ok((manifest, sidecar))
    }

    /// The kind of reimport the plan performs; a first import is a
    /// structural reload.
    pub fn reimport_kind(&self) -> (kind: String)
        ensures
            kind@ == match self.reimport_kind {
                Some(kind) => kind@,
                None => "structuralReload"@,
            },
    {
        match &self.reimport_kind {
            Some(kind) => kind.clone(),
            None => String::from_str("structuralReload"),
        }
    }
}

/// The sizes of a JSON glTF source: its root document and each external
/// resource it references.
#[derive(Debug, Clone)]
pub struct GltfSourceSizes {
    pub root_json_len: u64,
    pub resource_lens: Vec<u64>,
}

/// What import planning reads of a loaded source: where it was selected,
/// how many bytes were read, and the sizes of its glTF closure, if any.
#[derive(Debug, Clone)]
pub struct LoadedImportSource {
    pub stored: StoredImportSource,
    pub byte_len: u64,
    pub gltf: Option<GltfSourceSizes>,
}

impl LoadedImportSource {
    /// The source byte count of an import: the bytes read, or for a JSON
    /// glTF its root document and every external resource.
    pub fn source_byte_count(&self) -> (count: u64)
        ensures
            count == match self.gltf {
                Some(sizes) => gltf_byte_count(sizes.root_json_len, sizes.resource_lens@),
                None => self.byte_len,
            },
    {
        match &self.gltf {
            Some(sizes) => gltf_source_byte_count(sizes.root_json_len, &sizes.resource_lens),
            None => self.byte_len,
        }
    }
}

} // verus!
