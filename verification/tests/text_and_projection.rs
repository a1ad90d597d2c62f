use loading_bay::stored_project::{StoredProject, StoredScene, StoredVoxelInstance, StoredVoxelObjectFrameSelection};
use loading_bay::text::{decimal_text, join3};
use loading_bay::voxel_object_projection::{projection_error, stored_object_frame};
use loading_bay::voxel_volume_projection::{environment_instance, normalized_hash};

#[test]
fn decimal_text_matches_display() {
    for value in [0u64, 7, 10, 99, 1_000_000, u64::MAX] {
        assert_eq!(decimal_text(value), value.to_string());
    }
    assert_eq!(join3("a", "b", "c"), "abc");
}

#[test]
fn hashes_lose_their_label() {
    assert_eq!(normalized_hash(Some("sha256:abc")), Some("abc".to_string()));
    assert_eq!(normalized_hash(Some("abc")), Some("abc".to_string()));
    assert_eq!(normalized_hash(None), None);
}

#[test]
fn frames_resolve_through_clips() {
    let clip = StoredVoxelObjectFrameSelection::Clip { clip_id: "walk".to_string(), frame_index: 1 };
    assert_eq!(stored_object_frame(&StoredVoxelObjectFrameSelection::Default, None), Ok(0));
    assert_eq!(stored_object_frame(&clip, Some(&vec![4, 9])), Ok(9));
    assert_eq!(
        stored_object_frame(&clip, Some(&vec![4])).unwrap_err().message(),
        "clip `walk` has no frame 1"
    );
    assert_eq!(stored_object_frame(&clip, None), Err(projection_error("clip `walk` has no frame 1")));
}

fn instance(id: &str) -> StoredVoxelInstance {
    StoredVoxelInstance {
        instance_id: id.to_string(),
        voxel_asset_id: "voxel-volume:hangar".to_string(),
        translation: [0, 0, 0],
        rotation: [0, 0, 0, 0x3f80_0000],
        scale: [0x3f80_0000; 3],
    }
}

#[test]
fn the_environment_is_the_single_entry_scene_instance() {
    let mut project = StoredProject {
        schema_version: 20,
        project_id: "bay".to_string(),
        name: "Bay".to_string(),
        entry_scene: "scene:main".to_string(),
        assets: vec![],
        item_definitions: vec![],
        scenes: vec![StoredScene {
            id: "scene:main".to_string(),
            name: "Main".to_string(),
            voxel_environment: None,
            voxel_instances: vec![instance("hangar")],
            voxel_object_instances: vec![],
            entities: vec![],
        }],
    };
    assert_eq!(environment_instance(&project).unwrap().instance_id, "hangar");
    project.scenes[0].voxel_instances.push(instance("annex"));
    assert_eq!(
        environment_instance(&project).unwrap_err().message(),
        "native voxel projection requires one admitted environment instance, found 2"
    );
    project.entry_scene = "scene:none".to_string();
    assert_eq!(environment_instance(&project).unwrap_err().message(), "entry scene is missing");
}

#[test]
fn white_space_is_the_unicode_white_space_set() {
    for code in 0u32..=0x10FFFF {
        if let Some(c) = char::from_u32(code) {
            assert_eq!(loading_bay::text::char_is_whitespace(c), c.is_whitespace(), "U+{code:04X}");
        }
    }
    assert!(loading_bay::text::text_is_blank(" \u{3000}\t"));
    assert!(!loading_bay::text::text_is_blank(" a "));
}
