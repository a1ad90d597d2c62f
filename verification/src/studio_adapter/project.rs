//! Pieces of the project readout that the adapter derives from the stored
//! document itself: entity tags, the entry scene, scene revisions and the
//! reporting of document errors.
use vstd::prelude::*;

use crate::stored_project::{StoredEntityDefinition, StoredProject, StoredProjectError, StoredScene};
use crate::studio_adapter::protocol::{AdapterRejection, AdapterRejectionView};
use crate::weapon_authoring::entry_scene_index;

verus! {

/// The largest integer a JSON number carries exactly.
pub const JSON_SAFE_U64_MASK: u64 = 9007199254740991;

/// A document error, reported at its document path.
pub fn stored_project_rejection(error: &StoredProjectError) -> (rejection: AdapterRejection)
    ensures
        rejection@ == (AdapterRejectionView {
            code: error.spec_diagnostic().code@,
            path: Some(error.spec_diagnostic().path@),
            message: error.spec_diagnostic().message@,
        }),
{
    let diagnostic = error.diagnostic();
    AdapterRejection::new(diagnostic.code.as_str(), diagnostic.message.as_str()).at_path(
        diagnostic.path.as_str(),
    )
}

/// The domain tags of an authored entity, in text order.
pub open spec fn domain_tag_list(entity: StoredEntityDefinition) -> Seq<Seq<char>> {
    (if entity.door is Some { seq!["door"@] } else { Seq::empty() })
        + (if entity.encounter is Some { seq!["encounter"@] } else { Seq::empty() })
        + (if entity.enemy { seq!["enemy"@] } else { Seq::empty() })
        + (if entity.extraction_beacon is Some { seq!["extraction-beacon"@] } else { Seq::empty() })
        + (if entity.navigation is Some { seq!["navigation"@] } else { Seq::empty() })
        + (if entity.player_controller is Some { seq!["player-controller"@] } else { Seq::empty() })
        + (if entity.switch is Some { seq!["switch"@] } else { Seq::empty() })
        + (if entity.weapon is Some { seq!["weapon"@] } else { Seq::empty() })
}

pub open spec fn text_views(texts: Seq<String>) -> Seq<Seq<char>> {
    texts.map_values(|text: String| text@)
}

fn push_tag(tags: &mut Vec<String>, present: bool, tag: &str)
    ensures
        text_views(final(tags)@) == text_views(old(tags)@) + if present {
            seq![tag@]
        } else {
            Seq::empty()
        },
{
    if present {
        tags.push(String::from_str(tag));
    }
    assert(text_views(tags@) =~= text_views(old(tags)@) + if present {
        seq![tag@]
    } else {
        Seq::empty()
    });
}

/// The domain tags of an authored entity: one for each gameplay component it
/// carries, in text order, each once.
pub fn domain_tags(entity: &StoredEntityDefinition) -> (tags: Vec<String>)
    ensures
        text_views(tags@) == domain_tag_list(*entity),
{
    let mut tags: Vec<String> = Vec::new();
    assert(text_views(tags@) =~= Seq::empty());
    push_tag(&mut tags, entity.door.is_some(), "door");
    push_tag(&mut tags, entity.encounter.is_some(), "encounter");
    push_tag(&mut tags, entity.enemy, "enemy");
    push_tag(&mut tags, entity.extraction_beacon.is_some(), "extraction-beacon");
    push_tag(&mut tags, entity.navigation.is_some(), "navigation");
    push_tag(&mut tags, entity.player_controller.is_some(), "player-controller");
    push_tag(&mut tags, entity.switch.is_some(), "switch");
    push_tag(&mut tags, entity.weapon.is_some(), "weapon");
    assert(text_views(tags@) =~= domain_tag_list(*entity));
    tags
}

/// The entry scene of a project that has one.
pub fn entry_scene(project: &StoredProject) -> (scene: &StoredScene)
    requires
        entry_scene_index(*project) is Some,
    ensures
        *scene == project.scenes@[entry_scene_index(*project)->Some_0],
{
    let mut index: usize = 0;
    while index < project.scenes.len()
        invariant
            entry_scene_index(*project) is Some,
            index <= project.scenes@.len(),
            forall|j: int| 0 <= j < index ==> (#[trigger] project.scenes@[j]).id@ != project.entry_scene@,
        decreases project.scenes@.len() - index,
    {
        if crate::stored_project::text_equal(project.scenes[index].id.as_str(), project.entry_scene.as_str()) {
            proof {
                let i = index as int;
                let scenes = project.scenes@;
                let k = entry_scene_index(*project)->Some_0;
                if k < i {
                    assert(scenes[k].id@ != project.entry_scene@);
                }
                if k > i {
                    assert(scenes[i].id@ != project.entry_scene@);
                }
            }
            return &project.scenes[index];
        }
        index = index + 1;
    }
    proof {
        let k = entry_scene_index(*project)->Some_0;
        assert(project.scenes@[k].id@ == project.entry_scene@);
    }
    &project.scenes[0]
}

/// The big-endian value of eight bytes.
pub open spec fn big_endian(bytes: [u8; 8]) -> int {
    ((((((bytes[0] as int * 256 + bytes[1] as int) * 256 + bytes[2] as int) * 256 + bytes[3] as int)
        * 256 + bytes[4] as int) * 256 + bytes[5] as int) * 256 + bytes[6] as int) * 256
        + bytes[7] as int
}

/// The scene revision a content hash stands for: its first eight bytes, big
/// endian, within the JSON-safe range, and never zero.
pub fn revision_from_hash(leading_bytes: [u8; 8]) -> (revision: u64)
    ensures
        revision == if (big_endian(leading_bytes) as u64 & JSON_SAFE_U64_MASK) == 0 {
            1
        } else {
            big_endian(leading_bytes) as u64 & JSON_SAFE_U64_MASK
        },
{
    let mut value: u64 = 0;
    let mut index: usize = 0;
    while index < 8
        invariant
            index <= 8,
            value < pow256(index as nat),
            value == partial_big_endian(leading_bytes, index as nat),
        decreases 8 - index,
    {
        proof {
            lemma_pow256_step(index as nat);
            lemma_pow256_step(index as nat + 1);
            assert(value * 256 + leading_bytes[index as int] < pow256(index as nat + 1)) by (nonlinear_arith)
                requires
                    value < pow256(index as nat),
                    leading_bytes[index as int] < 256,
                    pow256(index as nat + 1) == pow256(index as nat) * 256,
            ;
        }
        value = value * 256 + leading_bytes[index] as u64;
        index = index + 1;
    }
    assert(partial_big_endian(leading_bytes, 8) == big_endian(leading_bytes)) by {
        reveal_with_fuel(partial_big_endian, 9);
    }
    let masked = value & JSON_SAFE_U64_MASK;
    if masked == 0 {
        1
    } else {
        masked
    }
}

pub open spec fn pow256(n: nat) -> int
    decreases n,
{
    if n == 0 {
        1
    } else {
        pow256((n - 1) as nat) * 256
    }
}

proof fn lemma_pow256_step(n: nat)
    ensures
        pow256(n + 1) == pow256(n) * 256,
        n <= 8 ==> pow256(n) <= 0x1_0000_0000_0000_0000,
    decreases n,
{
    if n > 0 {
        lemma_pow256_step((n - 1) as nat);
    }
    reveal_with_fuel(pow256, 9);
}

/// The value of the first `n` bytes, big endian.
pub open spec fn partial_big_endian(bytes: [u8; 8], n: nat) -> int
    decreases n,
{
    if n == 0 {
        0
    } else {
        partial_big_endian(bytes, (n - 1) as nat) * 256 + bytes[n - 1] as int
    }
}

/// The kinds of render asset a projection diagnostic can name.
#[derive(Debug, Clone, Copy, PartialEq, Eq, Structural)]
pub enum RenderAssetKind {
    Material,
    Texture,
    Sprite,
    SpriteAtlas,
    StaticMesh,
    AnimatedMesh,
    VoxelObject,
    Audio,
    Font,
}

/// The protocol name of a render asset kind.
pub fn render_asset_kind(kind: RenderAssetKind) -> (name: &'static str)
    ensures
        name@ == match kind {
            RenderAssetKind::Material => "material"@,
            RenderAssetKind::Texture => "texture"@,
            RenderAssetKind::Sprite => "sprite"@,
            RenderAssetKind::SpriteAtlas => "spriteAtlas"@,
            RenderAssetKind::StaticMesh => "staticMesh"@,
            RenderAssetKind::AnimatedMesh => "animatedMesh"@,
            RenderAssetKind::VoxelObject => "voxelObject"@,
            RenderAssetKind::Audio => "audio"@,
            RenderAssetKind::Font => "font"@,
        },
{
    match kind {
        RenderAssetKind::Material => "material",
        RenderAssetKind::Texture => "texture",
        RenderAssetKind::Sprite => "sprite",
        RenderAssetKind::SpriteAtlas => "spriteAtlas",
        RenderAssetKind::StaticMesh => "staticMesh",
        RenderAssetKind::AnimatedMesh => "animatedMesh",
        RenderAssetKind::VoxelObject => "voxelObject",
        RenderAssetKind::Audio => "audio",
        RenderAssetKind::Font => "font",
    }
}

} // verus!
