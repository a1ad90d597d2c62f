use loading_bay::stored_project::StoredImportSource;
use loading_bay::studio_adapter::asset_import::{
    asset_import_plan_id, check_animated_source, check_host_source, gltf_source_byte_count,
    is_animated_source, packed_runtime_path, selection_from_stored, PreparedAssetImport,
};
use loading_bay::studio_adapter::components::component_references;
use loading_bay::studio_adapter::host_file::{
    check_existing_target, check_host_file, check_read_length, check_target,
    check_target_unchanged, checked_absolute_path, io_rejection,
};
use loading_bay::studio_adapter::path::{
    check_chain, check_observed_entry,
    check_request, check_request_with, ChainStep, EntryKind, PathSafetyError, ProjectLocation,
    RevalidationObservations, MAX_PROJECT_PATH_BYTES, MAX_ROOT_PATH_BYTES,
};
use loading_bay::studio_adapter::playback::{
    clip_to_restart, playback_status, should_finish_once, PlaybackCommandKind, PlaybackStatus, PlaybackTarget,
    PlayerSample, StudioVoxelObjectPlayback,
};
use loading_bay::stored_project::{StoredVoxelObjectFrameSelection, StoredVoxelObjectInstance};
use loading_bay::studio_adapter::protocol::{
    AdapterRejection, StudioFileSelection, STUDIO_ADAPTER_PROTOCOL_VERSION,
    VOXEL_OBJECT_COMPONENT_TYPE_ID,
};
use loading_bay::studio_adapter::service::StudioAdapterService;
use loading_bay::weapon_authoring::LOADING_BAY_WEAPON_COMPONENT_TYPE_ID;

#[test]
fn adapter_rejection_is_located_at_a_path() {
    let rejection = AdapterRejection::new("path.rejected", "bad path");
    assert_eq!(rejection.code, "path.rejected");
    assert_eq!(rejection.path, None);
    assert_eq!(rejection.message, "bad path");
    let located = rejection.at_path("$.root");
    assert_eq!(located.code, "path.rejected");
    assert_eq!(located.path.as_deref(), Some("$.root"));
    assert_eq!(located.message, "bad path");
}

#[test]
fn file_selection_path_ignores_scope() {
    let project = StudioFileSelection::Project { path: "meshes/crate.gltf".to_string() };
    let host = StudioFileSelection::Host { path: "/tmp/crate.glb".to_string() };
    assert_eq!(project.path(), "meshes/crate.gltf");
    assert_eq!(host.path(), "/tmp/crate.glb");
}

#[test]
fn request_bounds_are_checked_in_order() {
    let long_root = format!("/{}", "a".repeat(MAX_ROOT_PATH_BYTES));
    let long_file = "b".repeat(MAX_PROJECT_PATH_BYTES + 1);
    assert_eq!(
        check_request_with(&long_root, &long_file, true),
        Err(PathSafetyError::RootTooLong)
    );
    assert_eq!(
        check_request_with("/root", &long_file, true),
        Err(PathSafetyError::ProjectPathTooLong)
    );
    assert_eq!(
        check_request_with("root", "project.json", false),
        Err(PathSafetyError::RootNotAbsolute)
    );
    assert_eq!(check_request_with("/root", "project.json", true), Ok(()));
    assert_eq!(check_request("/srv/project", "loading-bay.json"), Ok(()));
    assert_eq!(
        check_request("relative/root", "loading-bay.json"),
        Err(PathSafetyError::RootNotAbsolute)
    );
}

#[test]
fn path_errors_render_their_messages() {
    assert_eq!(
        PathSafetyError::RootTooLong.message(),
        "project root exceeds the path bound"
    );
    assert_eq!(
        PathSafetyError::FileTooLarge { path: "a/b.json".to_string(), limit: 10, actual: 12 }
            .message(),
        "project-relative file a/b.json has 12 bytes; limit is 10"
    );
    assert_eq!(
        PathSafetyError::WrongFileType { label: "project root", path: "/x".to_string() }.message(),
        "project root has the wrong file type: /x"
    );
    assert_eq!(
        PathSafetyError::Io {
            operation: "inspect file",
            path: "/x/y".to_string(),
            message: "denied".to_string(),
        }
        .message(),
        "could not inspect file at /x/y: denied"
    );
}

#[test]
fn project_location_keeps_what_it_was_given() {
    let location = ProjectLocation::accept_resolved(
        "/srv/bay".to_string(),
        "bay.project.json",
        "/srv/bay/bay.project.json".to_string(),
    )
    .expect("file inside the root");
    assert_eq!(location.root(), "/srv/bay");
    assert_eq!(location.relative_project_file(), "bay.project.json");
    assert_eq!(location.project_file(), "/srv/bay/bay.project.json");
    assert!(location.revalidate("/srv/bay/bay.project.json").is_ok());
    assert_eq!(
        location.revalidate("/srv/other/bay.project.json"),
        Err(PathSafetyError::ProjectEscapesRoot)
    );
    assert_eq!(
        ProjectLocation::accept_resolved(
            "/srv/bay".to_string(),
            "../escape.json",
            "/srv/escape.json".to_string(),
        )
        .err(),
        Some(PathSafetyError::ProjectEscapesRoot)
    );
    assert_eq!(
        ProjectLocation::check_file_size("a.json".to_string(), 4, 5),
        Err(PathSafetyError::FileTooLarge { path: "a.json".to_string(), limit: 4, actual: 5 })
    );
    assert_eq!(
        ProjectLocation::check_relative_file("a.json", false),
        Err(PathSafetyError::UnsafeProjectPath)
    );
    assert_eq!(ProjectLocation::check_relative_file("a.json", true), Ok(()));
}

#[test]
fn service_refuses_bad_request_identities() {
    let refusal = StudioAdapterService::check_request_identity(STUDIO_ADAPTER_PROTOCOL_VERSION, " \t")
        .unwrap_err();
    assert_eq!(refusal.request_id, None);
    assert_eq!(refusal.error.code, "protocol.invalidRequestId");
    let long_id = "r".repeat(257);
    assert!(StudioAdapterService::check_request_identity(STUDIO_ADAPTER_PROTOCOL_VERSION, &long_id)
        .is_err());
    let refusal = StudioAdapterService::check_request_identity(10, "req-1").unwrap_err();
    assert_eq!(refusal.request_id.as_deref(), Some("req-1"));
    assert_eq!(refusal.error.code, "protocol.unsupportedVersion");
    assert_eq!(refusal.error.message, "protocol version 10 is unsupported; expected 11");
    assert!(StudioAdapterService::check_request_identity(11, "req-1").is_ok());
}

#[test]
fn service_bounds_requests_and_responses() {
    let input = "x".repeat(262_145);
    let rejection = StudioAdapterService::check_request_size(&input).unwrap_err();
    assert_eq!(rejection.code, "protocol.requestTooLarge");
    assert_eq!(rejection.message, "request is 262145 bytes, exceeding the 262144-byte bound");
    assert!(StudioAdapterService::check_request_size("{}").is_ok());
    assert_eq!(
        StudioAdapterService::check_response_size("{}".to_string()).unwrap(),
        "{}"
    );
}

#[test]
fn service_opens_reads_and_closes_one_project() {
    let mut service = StudioAdapterService::new();
    let rejection = service.require_open().unwrap_err();
    assert_eq!(rejection.code, "project.notOpen");
    assert_eq!(rejection.message, "no external project is open");
    let location = ProjectLocation::for_new_project(
        "/srv/bay".to_string(),
        "new.project.json",
        "/srv/bay/new.project.json".to_string(),
    );
    service.record_open(location);
    assert_eq!(service.require_open().unwrap().project_file(), "/srv/bay/new.project.json");
    service.close();
    assert!(service.require_open().is_err());
}

#[test]
fn service_describes_itself() {
    let description = StudioAdapterService::describe();
    assert_eq!(description.adapter_id, "rusty-engine-demo.loading-bay");
    assert_eq!(description.protocol_version, 11);
    assert_eq!(description.operations.len(), 5);
    assert_eq!(description.entity_inspector_contracts.len(), 2);
    let rejection = StudioAdapterService::path_rejection(&PathSafetyError::RootNotAbsolute);
    assert_eq!(rejection.code, "path.rejected");
    assert_eq!(rejection.message, "project root must be absolute");
}

#[test]
fn component_references_are_sorted_and_checked() {
    let references =
        component_references(&vec![7, 3], &vec![7], &vec![3, 7]).expect("known owners");
    let keys: Vec<(u64, &str)> = references
        .iter()
        .map(|reference| (reference.owner_entity_id, reference.component_type_id))
        .collect();
    assert_eq!(
        keys,
        vec![
            (3, VOXEL_OBJECT_COMPONENT_TYPE_ID),
            (7, LOADING_BAY_WEAPON_COMPONENT_TYPE_ID),
            (7, VOXEL_OBJECT_COMPONENT_TYPE_ID),
        ]
    );
    let absent = component_references(&vec![9], &vec![], &vec![3]).unwrap_err();
    assert_eq!(absent.code, "project.entityComponents");
    assert_eq!(
        absent.message,
        "component owner 9 is absent from the canonical entry-scene hierarchy"
    );
    let repeated = component_references(&vec![3, 3], &vec![], &vec![3]).unwrap_err();
    assert_eq!(
        repeated.message,
        "owner 3 repeats component `rusty.voxel-object.instance`"
    );
    let too_many: Vec<u64> = (0..4097).collect();
    let bounded = component_references(&too_many, &vec![], &too_many).unwrap_err();
    assert_eq!(
        bounded.message,
        "project has 4097 component references, exceeding 4096"
    );
}

#[test]
fn packed_runtime_path_names_the_hash() {
    let source = StudioFileSelection::Project { path: "meshes/crate.gltf".to_string() };
    assert_eq!(
        packed_runtime_path(&source, "sha256:0123456789abcdef0123").unwrap(),
        "meshes/crate.rusty-import-0123456789abcdef.glb"
    );
    let upper = StudioFileSelection::Project { path: "CRATE.GLTF".to_string() };
    assert_eq!(
        packed_runtime_path(&upper, "ABCDEF0123456789").unwrap(),
        "CRATE.rusty-import-ABCDEF0123456789.glb"
    );
    let host = StudioFileSelection::Host { path: "/tmp/crate.gltf".to_string() };
    assert_eq!(
        packed_runtime_path(&host, "0123456789abcdef").unwrap_err().code,
        "assetImport.animatedHostSourceUnsupported"
    );
    let glb = StudioFileSelection::Project { path: "crate.glb".to_string() };
    assert_eq!(
        packed_runtime_path(&glb, "0123456789abcdef").unwrap_err().code,
        "assetImport.invalidSourceExtension"
    );
    assert_eq!(
        packed_runtime_path(&source, "sha256:0123").unwrap_err().code,
        "assetImport.invalidSourceHash"
    );
    assert_eq!(
        packed_runtime_path(&source, "0123456789abcdeg").unwrap_err().code,
        "assetImport.invalidSourceHash"
    );
}

#[test]
fn asset_import_sources_are_classified() {
    assert!(is_animated_source("crate.GLB"));
    assert!(is_animated_source("a/b/crate.gltf"));
    assert!(!is_animated_source("crate.obj"));
    assert_eq!(asset_import_plan_id("0123456789abcdef9999"), "asset-import-0123456789abcdef");
    assert!(check_animated_source(true, &StoredImportSource::Host { path: "/a.glb".to_string() })
        .is_err());
    assert!(check_animated_source(true, &StoredImportSource::Project { path: "a.glb".to_string() })
        .is_ok());
    assert!(check_host_source("/tmp/a.GLTF").is_err());
    assert!(check_host_source("/tmp/a.obj").is_ok());
    assert_eq!(gltf_source_byte_count(10, &vec![5, 7]), 22);
    assert_eq!(gltf_source_byte_count(u64::MAX - 1, &vec![5]), u64::MAX);
    match selection_from_stored(&StoredImportSource::Host { path: "/a.obj".to_string() }) {
        StudioFileSelection::Host { path } => assert_eq!(path, "/a.obj"),
        StudioFileSelection::Project { .. } => panic!("scope changed"),
    }
}

fn prepared() -> PreparedAssetImport {
    PreparedAssetImport {
        plan_id: "asset-import-0123456789abcdef".to_string(),
        plan_hash: "hash".to_string(),
        expected_project_hash: "project".to_string(),
        has_assets: true,
        animated: false,
        manifest_json: Some("{\"m\":1}".to_string()),
        sidecar_json: Some("{\"s\":1}".to_string()),
        source: StoredImportSource::Project { path: "crate.obj".to_string() },
        reimport_kind: None,
    }
}

#[test]
fn prepared_imports_apply_only_as_planned() {
    let plan = prepared();
    assert_eq!(
        plan.check_apply("asset-import-0123456789abcdef", "hash", "project").unwrap(),
        ("{\"m\":1}".to_string(), "{\"s\":1}".to_string())
    );
    assert_eq!(
        plan.check_apply("other", "hash", "project").unwrap_err().code,
        "assetImport.planMismatch"
    );
    assert_eq!(
        plan.check_apply("asset-import-0123456789abcdef", "hash", "stale").unwrap_err().code,
        "assetImport.stalePlan"
    );
    let mut failed = prepared();
    failed.has_assets = false;
    assert_eq!(
        failed.check_apply("asset-import-0123456789abcdef", "hash", "project").unwrap_err().code,
        "assetImport.planHasErrors"
    );
    let mut incomplete = prepared();
    incomplete.sidecar_json = None;
    assert_eq!(
        incomplete
            .check_apply("asset-import-0123456789abcdef", "hash", "project")
            .unwrap_err()
            .message,
        "asset-import plan has no canonical sidecar"
    );
    assert_eq!(plan.reimport_kind(), "structuralReload");
}

#[test]
fn host_paths_must_be_absolute_and_normalized() {
    let rejection = checked_absolute_path("   ").unwrap_err();
    assert_eq!(rejection.code, "hostFile.invalidPath");
    assert_eq!(rejection.message, "host path must contain 1..=4096 UTF-8 bytes");
    assert_eq!(rejection.path, None);
    let relative = checked_absolute_path("relative/file.glb").unwrap_err();
    assert_eq!(relative.path.as_deref(), Some("relative/file.glb"));
    assert!(checked_absolute_path("/srv/../etc/passwd").is_err());
    assert_eq!(checked_absolute_path("/srv/assets/crate.glb").unwrap(), "/srv/assets/crate.glb");
}

#[test]
fn host_targets_are_replaced_only_knowingly() {
    assert!(check_target("/t", Some("h1"), Some("h1")).is_ok());
    let stale = check_target("/t", Some("h2"), Some("h1")).unwrap_err();
    assert_eq!(stale.code, "hostFile.staleTarget");
    assert_eq!(stale.message, "expected target hash h1, found h2");
    assert_eq!(
        check_target("/t", Some("h2"), None).unwrap_err().code,
        "hostFile.expectedHashRequired"
    );
    assert_eq!(check_target("/t", None, Some("h1")).unwrap_err().code, "hostFile.targetMissing");
    assert!(check_target("/t", None, None).is_ok());
    assert!(check_target_unchanged("/t", Some("a"), Some("a")).is_ok());
    assert!(check_target_unchanged("/t", None, Some("a")).is_err());
    assert_eq!(
        check_host_file("/f", true, 11, 10).unwrap_err().message,
        "selected file has 11 bytes; limit is 10"
    );
    assert_eq!(check_host_file("/f", false, 1, 10).unwrap_err().code, "hostFile.wrongType");
    assert_eq!(
        check_read_length("/f", 11, 10).unwrap_err().message,
        "selected file exceeds the 10-byte limit"
    );
    assert_eq!(
        check_existing_target("/f", true, 67_108_865).unwrap_err().message,
        "existing target has 67108865 bytes; comparison limit is 67108864"
    );
    let io = io_rejection("read host target", "/f", "denied");
    assert_eq!(io.code, "hostFile.io");
    assert_eq!(io.message, "could not read host target: denied");
}

#[test]
fn playback_controls_only_the_selected_instance() {
    let mut playback = StudioVoxelObjectPlayback::new();
    assert_eq!(
        playback.ensure_target("scene-a", "crate").unwrap_err().code,
        "voxelObject.playbackNotSelected"
    );
    playback.select(PlaybackTarget {
        scene_id: "scene-a".to_string(),
        instance_id: "crate".to_string(),
        voxel_object_asset_id: "voxel-object:crate".to_string(),
    });
    assert!(playback.ensure_target("scene-a", "crate").is_ok());
    let mismatch = playback.ensure_target("scene-a", "barrel").unwrap_err();
    assert_eq!(mismatch.code, "voxelObject.playbackTargetMismatch");
    assert_eq!(mismatch.message, "playback targets `scene-a/crate`, not `scene-a/barrel`");
    assert!(playback.stop("scene-a", "barrel").is_err());
    assert!(playback.target().is_some());
    assert!(playback.stop("scene-a", "crate").is_ok());
    assert!(playback.target().is_none());
}

#[test]
fn playback_decisions() {
    assert_eq!(playback_status(PlaybackStatus::Paused), "paused");
    assert_eq!(clip_to_restart(true, true, Some("walk")).unwrap(), Some("walk".to_string()));
    assert_eq!(clip_to_restart(true, false, Some("walk")).unwrap(), None);
    assert!(clip_to_restart(true, true, None).is_err());
    assert!(should_finish_once(PlaybackStatus::Playing, true, true));
    assert!(!should_finish_once(PlaybackStatus::Paused, true, true));
}

fn previewed_instance() -> StoredVoxelObjectInstance {
    StoredVoxelObjectInstance {
        instance_id: "crate".to_string(),
        voxel_object_asset_id: "voxel-object:crate".to_string(),
        frame: StoredVoxelObjectFrameSelection::Clip { clip_id: "spin".to_string(), frame_index: 3 },
        translation: [0, 0, 0],
        rotation: [0, 0, 0, 0x3f80_0000],
        scale: [0x3f80_0000; 3],
        material_overrides: vec![],
    }
}

#[test]
fn playback_commands_follow_the_session_rules() {
    let mut playback = StudioVoxelObjectPlayback::new();
    for command in [PlaybackCommandKind::Play, PlaybackCommandKind::Pause, PlaybackCommandKind::Sample, PlaybackCommandKind::Stop] {
        let refusal = playback.control("scene-a", "crate", command).unwrap_err();
        assert_eq!(refusal.code, "voxelObject.playbackNotSelected");
        assert!(playback.target().is_none());
    }
    assert!(playback.control("scene-a", "crate", PlaybackCommandKind::Scrub).is_ok());
    playback.select(PlaybackTarget {
        scene_id: "scene-a".to_string(),
        instance_id: "crate".to_string(),
        voxel_object_asset_id: "voxel-object:crate".to_string(),
    });
    for command in [PlaybackCommandKind::Play, PlaybackCommandKind::Pause, PlaybackCommandKind::Sample, PlaybackCommandKind::Stop] {
        let refusal = playback.control("scene-b", "crate", command).unwrap_err();
        assert_eq!(refusal.code, "voxelObject.playbackTargetMismatch");
        assert_eq!(playback.target().unwrap().instance_id, "crate");
    }
    assert!(playback.control("scene-a", "crate", PlaybackCommandKind::Sample).is_ok());
    let sample = Some(PlayerSample {
        status: PlaybackStatus::Playing,
        clip_id: Some("spin".to_string()),
        elapsed_microseconds: 250_000,
        frame: 7,
        clip_frame: Some(2),
        ended: false,
    });
    let playing = playback.readout("scene-a", "crate", &previewed_instance(), 4, &sample);
    assert_eq!(playing.status, "playing");
    assert_eq!(playing.runtime_frame, 7);
    assert_eq!(playing.clip_frame, Some(2));
    assert_eq!(playing.elapsed_microseconds, 250_000);

    assert!(playback.control("scene-a", "crate", PlaybackCommandKind::Stop).is_ok());
    assert!(playback.target().is_none());
    let stopped = playback.readout("scene-a", "crate", &previewed_instance(), 4, &None);
    assert_eq!(stopped.status, "stopped");
    assert_eq!(stopped.clip_id, None);
    assert_eq!(stopped.elapsed_microseconds, 0);
    assert_eq!(stopped.runtime_frame, 4);
    assert_eq!(stopped.clip_frame, None);
    assert!(!stopped.ended);
    assert_eq!(stopped.voxel_object_asset_id, "voxel-object:crate");
    assert_eq!(stopped.durable_frame, previewed_instance().frame);
}

fn unchanged_observations() -> RevalidationObservations {
    RevalidationObservations {
        root: Ok(EntryKind::Directory),
        chain: vec![
            ChainStep::Entry { path: "/work/bay/levels".to_string(), kind: Ok(EntryKind::Directory) },
            ChainStep::Entry { path: "/work/bay/levels/bay.json".to_string(), kind: Ok(EntryKind::File) },
        ],
        project_file: Ok(EntryKind::File),
        canonical_project_file: Ok("/work/bay/levels/bay.json".to_string()),
    }
}

#[test]
fn revalidation_accepts_an_unchanged_project_and_refuses_replacements() {
    let location = ProjectLocation::accept_resolved(
        "/work/bay".to_string(),
        "levels/bay.json",
        "/work/bay/levels/bay.json".to_string(),
    )
    .unwrap();
    assert_eq!(location.revalidate_observed(&unchanged_observations()), Ok(()));

    let mut linked = unchanged_observations();
    linked.project_file = Ok(EntryKind::Symlink);
    assert_eq!(
        location.revalidate_observed(&linked),
        Err(PathSafetyError::Symlink { path: "/work/bay/levels/bay.json".to_string() })
    );
    let mut folder = unchanged_observations();
    folder.project_file = Ok(EntryKind::Directory);
    assert_eq!(
        location.revalidate_observed(&folder),
        Err(PathSafetyError::WrongFileType { label: "project file", path: "/work/bay/levels/bay.json".to_string() })
    );
    let mut linked_parent = unchanged_observations();
    linked_parent.chain[0] = ChainStep::Entry { path: "/work/bay/levels".to_string(), kind: Ok(EntryKind::Symlink) };
    assert_eq!(
        location.revalidate_observed(&linked_parent),
        Err(PathSafetyError::Symlink { path: "/work/bay/levels".to_string() })
    );
    let mut dotted = unchanged_observations();
    dotted.chain.insert(0, ChainStep::NotNormal);
    assert_eq!(location.revalidate_observed(&dotted), Err(PathSafetyError::UnsafeProjectPath));
    let mut root_file = unchanged_observations();
    root_file.root = Ok(EntryKind::File);
    assert_eq!(
        location.revalidate_observed(&root_file),
        Err(PathSafetyError::WrongFileType { label: "project root", path: "/work/bay".to_string() })
    );
    let mut moved = unchanged_observations();
    moved.canonical_project_file = Ok("/elsewhere/bay.json".to_string());
    assert_eq!(location.revalidate_observed(&moved), Err(PathSafetyError::ProjectEscapesRoot));
    let mut vanished = unchanged_observations();
    vanished.canonical_project_file = Err("No such file or directory".to_string());
    assert_eq!(
        location.revalidate_observed(&vanished),
        Err(PathSafetyError::Io {
            operation: "canonicalize project file",
            path: "/work/bay/levels/bay.json".to_string(),
            message: "No such file or directory".to_string()
        })
    );
}

#[test]
fn observed_entries_must_be_of_their_kind_and_no_link() {
    let check = |observed: Result<EntryKind, String>| {
        check_observed_entry("/srv/bay".to_string(), "project root", "inspect directory", observed, EntryKind::Directory)
    };
    assert!(check(Ok(EntryKind::Directory)).is_ok());
    assert_eq!(check(Ok(EntryKind::Symlink)).unwrap_err(), PathSafetyError::Symlink { path: "/srv/bay".to_string() });
    assert_eq!(
        check(Ok(EntryKind::File)).unwrap_err(),
        PathSafetyError::WrongFileType { label: "project root", path: "/srv/bay".to_string() }
    );
    assert_eq!(
        check(Err("denied".to_string())).unwrap_err(),
        PathSafetyError::Io { operation: "inspect directory", path: "/srv/bay".to_string(), message: "denied".to_string() }
    );
    let plain = || ChainStep::Entry { path: "/srv/bay/levels".to_string(), kind: Ok(EntryKind::Directory) };
    let linked = ChainStep::Entry { path: "/srv/bay/levels/one".to_string(), kind: Ok(EntryKind::Symlink) };
    assert!(check_chain(&vec![plain()]).is_ok());
    assert_eq!(
        check_chain(&vec![plain(), linked, ChainStep::NotNormal]).unwrap_err(),
        PathSafetyError::Symlink { path: "/srv/bay/levels/one".to_string() }
    );
    assert_eq!(check_chain(&vec![ChainStep::NotNormal, plain()]).unwrap_err(), PathSafetyError::UnsafeProjectPath);
}
