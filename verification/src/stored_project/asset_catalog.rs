//! The rules on a document's asset catalog, each asset in turn: its
//! identity parses to a typed asset identity that is not a scene, it is not
//! declared twice, its payloads suit its kind, and a catalog version, where
//! it has one, is non-zero. Identities are parsed by the asset catalog and
//! payloads are judged by the engine (voxel volumes and objects, meshes,
//! materials, imports); what they say of each asset is given as facts.
use vstd::prelude::*;

use crate::stored_project::diagnostic_code;
use crate::stored_project::hierarchy::failure_is;
use crate::stored_project::{failure, text_equal, StoredAsset, StoredAssetCatalogMetadata, StoredProjectError};
use crate::text::{decimal, decimal_text};

verus! {

/// The kinds of typed asset identity.
#[derive(Debug, Clone, Copy, PartialEq, Eq, Structural)]
pub enum CatalogAssetKind {
    Scene,
    VoxelVolume,
    VoxelObject,
    Material,
    StaticMesh,
    AnimatedMesh,
    Other,
}

/// The payload that carries a voxel material palette.
#[derive(Debug, Clone, Copy, PartialEq, Eq, Structural)]
pub enum PalettePayload {
    VoxelVolume,
    VoxelObject,
}

/// A voxel payload's material palette: the material asset each binding
/// names, in order.
pub struct AssetPalette {
    pub payload: PalettePayload,
    pub material_asset_ids: Vec<String>,
}

/// What the identity parser and the engine say of one catalog asset: the
/// kind its identity parses to (or the parser's message), the engine's
/// verdict on the asset's payloads for that kind, the material palette of
/// its voxel payload if it has one, and whether it carries a material
/// definition.
pub struct CatalogAssetFacts {
    pub kind: Result<CatalogAssetKind, String>,
    pub payload: Result<(), StoredProjectError>,
    pub palette: Option<AssetPalette>,
    pub material: bool,
}

/// An identity that parsed to a kind other than a scene.
pub open spec fn catalogued_kind(kind: Result<CatalogAssetKind, String>) -> bool {
    kind matches Ok(k) && k != CatalogAssetKind::Scene
}

/// Catalog metadata, where there is any, has a non-zero version.
pub open spec fn version_non_zero(catalog: Option<StoredAssetCatalogMetadata>) -> bool {
    match catalog {
        Some(metadata) => metadata.version != 0,
        None => true,
    }
}

/// `assets[i].<field>`
pub open spec fn asset_path(i: nat, field: Seq<char>) -> Seq<char> {
    "assets["@ + decimal(i) + "]."@ + field
}

/// An asset before the `i`-th with the `i`-th's identity.
pub open spec fn earlier_asset(assets: Seq<StoredAsset>, i: int) -> Option<int> {
    if exists|j: int| 0 <= j < i && (#[trigger] assets[j]).id@ == assets[i].id@ {
        Some(choose|j: int| 0 <= j < i && (#[trigger] assets[j]).id@ == assets[i].id@)
    } else {
        None
    }
}

/// The refusal owed to the `i`-th asset, if any, as code, path and message.
pub open spec fn asset_failure(assets: Seq<StoredAsset>, facts: Seq<CatalogAssetFacts>, i: int) -> Option<
    (Seq<char>, Seq<char>, Seq<char>),
> {
    match facts[i].kind {
        Err(message) => Some((diagnostic_code::INVALID_ASSET_ID@, asset_path(i as nat, "id"@), message@)),
        Ok(CatalogAssetKind::Scene) => Some(
            (
                diagnostic_code::WRONG_ASSET_KIND@,
                asset_path(i as nat, "id"@),
                "scene documents belong in `scenes`, not the asset catalog"@,
            ),
        ),
        Ok(_) => match earlier_asset(assets, i) {
            Some(first) => Some(
                (
                    diagnostic_code::DUPLICATE_ASSET@,
                    asset_path(i as nat, "id"@),
                    "asset `"@ + assets[i].id@ + "` was already declared at "@ + asset_path(
                        first as nat,
                        "id"@,
                    ),
                ),
            ),
            None => match facts[i].payload {
                Err(error) => Some(
                    (
                        error.spec_diagnostic().code@,
                        error.spec_diagnostic().path@,
                        error.spec_diagnostic().message@,
                    ),
                ),
                Ok(_) => if !version_non_zero(assets[i].catalog) {
                    Some(
                        (
                            diagnostic_code::INVALID_VALUE@,
                            asset_path(i as nat, "catalog.version"@),
                            "catalog versions must be non-zero"@,
                        ),
                    )
                } else {
                    None
                },
            },
        },
    }
}

pub open spec fn first_asset_failure(assets: Seq<StoredAsset>, facts: Seq<CatalogAssetFacts>, i: int) -> Option<
    (Seq<char>, Seq<char>, Seq<char>),
>
    decreases assets.len() - i,
{
    if i < 0 || i >= assets.len() {
        None
    } else {
        match asset_failure(assets, facts, i) {
            Some(failure) => Some(failure),
            None => first_asset_failure(assets, facts, i + 1),
        }
    }
}

fn asset_path_text(i: usize, field: &str) -> (path: String)
    ensures
        path@ == asset_path(i as nat, field@),
{
    let mut path = String::from_str("assets[");
    path.append(decimal_text(i as u64).as_str());
    path.append("].");
    path.append(field);
    path
}

/// Checks a document's asset catalog in order, against the facts on each
/// asset: its identity parses, and not to a scene; it is not declared
/// before (the refusal names the earlier declaration); its payloads suit
/// its kind; and a catalog version is non-zero.
pub fn validate_asset_catalog(assets: &Vec<StoredAsset>, facts: &Vec<CatalogAssetFacts>) -> (result: Result<
    (),
    StoredProjectError,
>)
    requires
        facts@.len() == assets@.len(),
    ensures
        match first_asset_failure(assets@, facts@, 0) {
            None => result is Ok,
            Some((code, path, message)) => result matches Err(error) && failure_is(error, code, path, message),
        },
{
    let mut index: usize = 0;
    while index < assets.len()
        invariant
            facts@.len() == assets@.len(),
            index <= assets@.len(),
            first_asset_failure(assets@, facts@, 0) == first_asset_failure(assets@, facts@, index as int),
            forall|a: int, b: int| 0 <= a < b < index ==> (#[trigger] assets@[a]).id@ != (#[trigger] assets@[b]).id@,
        decreases assets@.len() - index,
    {
        let ghost i = index as int;
        let asset = &assets[index];
        match &facts[index].kind {
            Err(message) => {
                proof {
                    reveal_strlit("id");
                }
                return Err(failure(diagnostic_code::INVALID_ASSET_ID, asset_path_text(index, "id"), message.clone()));
            },
            Ok(CatalogAssetKind::Scene) => {
                proof {
                    reveal_strlit("id");
                    reveal_strlit("scene documents belong in `scenes`, not the asset catalog");
                }
                return Err(
                    failure(
                        diagnostic_code::WRONG_ASSET_KIND,
                        asset_path_text(index, "id"),
                        String::from_str("scene documents belong in `scenes`, not the asset catalog"),
                    ),
                );
            },
            Ok(_) => {},
        }
        let mut j: usize = 0;
        while j < index
            invariant
                facts@.len() == assets@.len(),
                index < assets@.len(),
                i == index as int,
                j <= index,
                *asset == assets@[i],
                catalogued_kind(facts@[i].kind),
                first_asset_failure(assets@, facts@, 0) == first_asset_failure(assets@, facts@, i),
                forall|a: int, b: int|
                    0 <= a < b < index ==> (#[trigger] assets@[a]).id@ != (#[trigger] assets@[b]).id@,
                forall|k: int| 0 <= k < j ==> (#[trigger] assets@[k]).id@ != assets@[i].id@,
            decreases index - j,
        {
            if text_equal(assets[j].id.as_str(), asset.id.as_str()) {
                proof {
                    assert(earlier_asset(assets@, i) is Some);
                    let chosen = earlier_asset(assets@, i)->Some_0;
                    if chosen != j as int {
                        assert(assets@[chosen].id@ == assets@[j as int].id@);
                    }
                }
                let mut message = String::from_str("asset `");
                message.append(asset.id.as_str());
                message.append("` was already declared at ");
                message.append(asset_path_text(j, "id").as_str());
                proof {
                    reveal_strlit("id");
                    reveal_strlit("asset `");
                    reveal_strlit("` was already declared at ");
                }
                return Err(failure(diagnostic_code::DUPLICATE_ASSET, asset_path_text(index, "id"), message));
            }
            j = j + 1;
        }
        proof {
            assert(earlier_asset(assets@, i) is None);
        }
        if let Err(error) = &facts[index].payload {
            let diagnostic = error.diagnostic();
            return Err(failure(diagnostic.code.as_str(), diagnostic.path.clone(), diagnostic.message.clone()));
        }
        if let Some(metadata) = &asset.catalog {
            if metadata.version == 0 {
                proof {
                    reveal_strlit("catalog.version");
                    reveal_strlit("catalog versions must be non-zero");
                }
                return Err(
                    failure(
                        diagnostic_code::INVALID_VALUE,
                        asset_path_text(index, "catalog.version"),
                        String::from_str("catalog versions must be non-zero"),
                    ),
                );
            }
        }
        assert(asset_failure(assets@, facts@, i) is None);
        index = index + 1;
    }
    Ok(())
}

/// What an accepted catalog promises: no identity is declared twice, no
/// asset is a scene, the engine accepts every asset's payloads, and every
/// catalog version is non-zero.
pub proof fn lemma_accepted_catalog_is_distinct(assets: Seq<StoredAsset>, facts: Seq<CatalogAssetFacts>)
    requires
        facts.len() == assets.len(),
        first_asset_failure(assets, facts, 0) is None,
    ensures
        forall|a: int, b: int| 0 <= a < b < assets.len() ==> (#[trigger] assets[a]).id@ != (#[trigger] assets[b]).id@,
        forall|i: int|
            0 <= i < assets.len() ==> catalogued_kind((#[trigger] facts[i]).kind),
        forall|i: int|
            0 <= i < assets.len() ==> version_non_zero((#[trigger] assets[i]).catalog),
        forall|i: int| 0 <= i < assets.len() ==> (#[trigger] facts[i]).payload is Ok,
{
    assert forall|i: int| 0 <= i < assets.len() implies #[trigger] asset_failure(assets, facts, i) is None by {
        lemma_no_asset_failure_before(assets, facts, 0, i);
    }
    assert forall|a: int, b: int| 0 <= a < b < assets.len() implies (#[trigger] assets[a]).id@ != (
    #[trigger] assets[b]).id@ by {
        assert(asset_failure(assets, facts, b) is None);
        if assets[a].id@ == assets[b].id@ {
            assert(earlier_asset(assets, b) is Some);
        }
    }
    assert forall|i: int| 0 <= i < assets.len() implies catalogued_kind((#[trigger] facts[i]).kind) by {
        assert(asset_failure(assets, facts, i) is None);
    }
    assert forall|i: int| 0 <= i < assets.len() implies version_non_zero((#[trigger] assets[i]).catalog) by {
        assert(asset_failure(assets, facts, i) is None);
    }
    assert forall|i: int| 0 <= i < assets.len() implies (#[trigger] facts[i]).payload is Ok by {
        assert(asset_failure(assets, facts, i) is None);
        if earlier_asset(assets, i) is Some {
            assert(asset_failure(assets, facts, i) is Some);
        }
    }
}

proof fn lemma_no_asset_failure_before(assets: Seq<StoredAsset>, facts: Seq<CatalogAssetFacts>, k: int, i: int)
    requires
        0 <= k <= i < assets.len(),
        first_asset_failure(assets, facts, k) is None,
    ensures
        asset_failure(assets, facts, i) is None,
    decreases i - k,
{
    if k < i {
        lemma_no_asset_failure_before(assets, facts, k + 1, i);
    }
}


/// The first asset of identity `id`.
pub open spec fn asset_index(assets: Seq<StoredAsset>, id: Seq<char>) -> Option<int> {
    if exists|i: int| 0 <= i < assets.len() && (#[trigger] assets[i]).id@ == id {
        Some(
            choose|i: int|
                0 <= i < assets.len() && (#[trigger] assets[i]).id@ == id && forall|j: int|
                    0 <= j < i ==> (#[trigger] assets[j]).id@ != id,
        )
    } else {
        None
    }
}

pub open spec fn payload_name(payload: PalettePayload) -> Seq<char> {
    match payload {
        PalettePayload::VoxelVolume => "voxelVolume"@,
        PalettePayload::VoxelObject => "voxelObject"@,
    }
}

/// `assets[i].<payload>.materialPalette[b].materialAssetId`
pub open spec fn binding_path(i: nat, payload: PalettePayload, b: nat) -> Seq<char> {
    "assets["@ + decimal(i) + "]."@ + payload_name(payload) + ".materialPalette["@ + decimal(b)
        + "].materialAssetId"@
}

/// The refusal owed to the `b`-th binding of the `i`-th asset's palette.
pub open spec fn binding_failure(
    assets: Seq<StoredAsset>,
    facts: Seq<CatalogAssetFacts>,
    i: int,
    b: int,
) -> Option<(Seq<char>, Seq<char>, Seq<char>)> {
    let palette = facts[i].palette->Some_0;
    let id = palette.material_asset_ids@[b]@;
    match asset_index(assets, id) {
        None => Some(
            (
                diagnostic_code::MISSING_ASSET@,
                binding_path(i as nat, palette.payload, b as nat),
                "voxel material binding references missing asset `"@ + id + "`"@,
            ),
        ),
        Some(m) => if facts[m].material {
            None
        } else {
            Some(
                (
                    diagnostic_code::INVALID_MATERIAL@,
                    binding_path(i as nat, palette.payload, b as nat),
                    "voxel material binding must resolve to an asset-catalog material definition"@,
                ),
            )
        },
    }
}

pub open spec fn first_binding_failure(
    assets: Seq<StoredAsset>,
    facts: Seq<CatalogAssetFacts>,
    i: int,
    b: int,
) -> Option<(Seq<char>, Seq<char>, Seq<char>)>
    decreases facts[i].palette->Some_0.material_asset_ids@.len() - b,
{
    if b < 0 || b >= facts[i].palette->Some_0.material_asset_ids@.len() {
        None
    } else {
        match binding_failure(assets, facts, i, b) {
            Some(failure) => Some(failure),
            None => first_binding_failure(assets, facts, i, b + 1),
        }
    }
}

/// The first refusal owed to the palettes of the assets from the `i`-th on.
pub open spec fn first_palette_failure(assets: Seq<StoredAsset>, facts: Seq<CatalogAssetFacts>, i: int) -> Option<
    (Seq<char>, Seq<char>, Seq<char>),
>
    decreases assets.len() - i,
{
    if i < 0 || i >= assets.len() {
        None
    } else if facts[i].palette is None {
        first_palette_failure(assets, facts, i + 1)
    } else {
        match first_binding_failure(assets, facts, i, 0) {
            Some(failure) => Some(failure),
            None => first_palette_failure(assets, facts, i + 1),
        }
    }
}

fn find_asset(assets: &Vec<StoredAsset>, id: &str) -> (found: Option<usize>)
    ensures
        match found {
            Some(i) => i < assets@.len() && asset_index(assets@, id@) == Some(i as int),
            None => asset_index(assets@, id@) is None,
        },
{
    let mut index: usize = 0;
    while index < assets.len()
        invariant
            index <= assets@.len(),
            forall|j: int| 0 <= j < index ==> (#[trigger] assets@[j]).id@ != id@,
        decreases assets@.len() - index,
    {
        if text_equal(assets[index].id.as_str(), id) {
            proof {
                let k = asset_index(assets@, id@)->Some_0;
                if k < index as int {
                    assert(assets@[k].id@ != id@);
                }
                if (index as int) < k {
                    assert(assets@[index as int].id@ != id@);
                }
            }
            return Some(index);
        }
        index = index + 1;
    }
    None
}

fn binding_path_text(i: usize, payload: PalettePayload, b: usize) -> (path: String)
    ensures
        path@ == binding_path(i as nat, payload, b as nat),
{
    let mut path = String::from_str("assets[");
    path.append(decimal_text(i as u64).as_str());
    path.append("].");
    match payload {
        PalettePayload::VoxelVolume => path.append("voxelVolume"),
        PalettePayload::VoxelObject => path.append("voxelObject"),
    }
    path.append(".materialPalette[");
    path.append(decimal_text(b as u64).as_str());
    path.append("].materialAssetId");
    path
}

fn check_binding(
    assets: &Vec<StoredAsset>,
    facts: &Vec<CatalogAssetFacts>,
    i: usize,
    payload: PalettePayload,
    id: &str,
    b: usize,
) -> (result: Result<(), StoredProjectError>)
    requires
        facts@.len() == assets@.len(),
        i < facts@.len(),
        facts@[i as int].palette matches Some(palette) && palette.payload == payload && b
            < palette.material_asset_ids@.len() && palette.material_asset_ids@[b as int]@ == id@,
    ensures
        match binding_failure(assets@, facts@, i as int, b as int) {
            None => result is Ok,
            Some((code, path, message)) => result matches Err(error) && failure_is(error, code, path, message),
        },
{
    match find_asset(assets, id) {
        None => {
            let mut message = String::from_str("voxel material binding references missing asset `");
            message.append(id);
            message.append("`");
            Err(failure(diagnostic_code::MISSING_ASSET, binding_path_text(i, payload, b), message))
        },
        Some(m) => {
            if !facts[m].material {
                Err(
                    failure(
                        diagnostic_code::INVALID_MATERIAL,
                        binding_path_text(i, payload, b),
                        String::from_str("voxel material binding must resolve to an asset-catalog material definition"),
                    ),
                )
            } else {
                Ok(())
            }
        },
    }
}

fn check_palette(assets: &Vec<StoredAsset>, facts: &Vec<CatalogAssetFacts>, i: usize) -> (result: Result<
    (),
    StoredProjectError,
>)
    requires
        facts@.len() == assets@.len(),
        i < facts@.len(),
        facts@[i as int].palette is Some,
    ensures
        match first_binding_failure(assets@, facts@, i as int, 0) {
            None => result is Ok,
            Some((code, path, message)) => result matches Err(error) && failure_is(error, code, path, message),
        },
{
    let palette = match &facts[i].palette {
        Some(palette) => palette,
        None => {
            return Ok(());
        },
    };
    let ids = &palette.material_asset_ids;
    let mut b: usize = 0;
    while b < ids.len()
        invariant
            facts@.len() == assets@.len(),
            i < facts@.len(),
            facts@[i as int].palette == Some(*palette),
            *ids == palette.material_asset_ids,
            b <= ids@.len(),
            first_binding_failure(assets@, facts@, i as int, 0) == first_binding_failure(
                assets@,
                facts@,
                i as int,
                b as int,
            ),
        decreases ids@.len() - b,
    {
        match check_binding(assets, facts, i, palette.payload, ids[b].as_str(), b) {
            Ok(()) => {},
            Err(error) => {
                return Err(error);
            },
        }
        b = b + 1;
    }
    Ok(())
}

/// Checks the material palettes of a catalog's voxel payloads, asset by
/// asset and binding by binding: each binding names an asset of the
/// catalog, and that asset carries a material definition.
pub fn validate_asset_palettes(assets: &Vec<StoredAsset>, facts: &Vec<CatalogAssetFacts>) -> (result: Result<
    (),
    StoredProjectError,
>)
    requires
        facts@.len() == assets@.len(),
    ensures
        match first_palette_failure(assets@, facts@, 0) {
            None => result is Ok,
            Some((code, path, message)) => result matches Err(error) && failure_is(error, code, path, message),
        },
{
    let mut index: usize = 0;
    while index < assets.len()
        invariant
            facts@.len() == assets@.len(),
            index <= assets@.len(),
            first_palette_failure(assets@, facts@, 0) == first_palette_failure(assets@, facts@, index as int),
        decreases assets@.len() - index,
    {
        if facts[index].palette.is_some() {
            check_palette(assets, facts, index)?;
        }
        index = index + 1;
    }
    Ok(())
}

/// The `b`-th binding of the `i`-th asset's palette names a catalog asset
/// that carries a material definition.
pub open spec fn binding_resolves(assets: Seq<StoredAsset>, facts: Seq<CatalogAssetFacts>, i: int, b: int) -> bool {
    &&& asset_index(assets, facts[i].palette->Some_0.material_asset_ids@[b]@) matches Some(m)
    &&& facts[m].material
}

/// Accepted palettes resolve: every binding of every voxel payload names a
/// catalog asset that carries a material definition.
pub proof fn lemma_accepted_palettes_resolve(assets: Seq<StoredAsset>, facts: Seq<CatalogAssetFacts>, i: int, b: int)
    requires
        facts.len() == assets.len(),
        first_palette_failure(assets, facts, 0) is None,
        0 <= i < assets.len(),
        facts[i].palette is Some,
        0 <= b < facts[i].palette->Some_0.material_asset_ids@.len(),
    ensures
        binding_resolves(assets, facts, i, b),
{
    lemma_no_palette_failure_before(assets, facts, 0, i);
    lemma_no_binding_failure_before(assets, facts, i, 0, b);
}

proof fn lemma_no_palette_failure_before(assets: Seq<StoredAsset>, facts: Seq<CatalogAssetFacts>, k: int, i: int)
    requires
        0 <= k <= i < assets.len(),
        first_palette_failure(assets, facts, k) is None,
    ensures
        facts[i].palette is Some ==> first_binding_failure(assets, facts, i, 0) is None,
    decreases i - k,
{
    if k < i {
        lemma_no_palette_failure_before(assets, facts, k + 1, i);
    }
}

proof fn lemma_no_binding_failure_before(assets: Seq<StoredAsset>, facts: Seq<CatalogAssetFacts>, i: int, k: int, b: int)
    requires
        0 <= k <= b < facts[i].palette->Some_0.material_asset_ids@.len(),
        first_binding_failure(assets, facts, i, k) is None,
    ensures
        binding_failure(assets, facts, i, b) is None,
    decreases b - k,
{
    if k < b {
        lemma_no_binding_failure_before(assets, facts, i, k + 1, b);
    }
}

} // verus!
