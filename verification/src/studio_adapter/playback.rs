//! Which voxel-object instance Studio is previewing, and the decisions taken
//! around its player. The player itself (clips, time, frames) runs on the
//! host; this module keeps the selected target and decides what each
//! playback command may do to it.
use vstd::prelude::*;

use crate::stored_project::{
    text_equal, StoredProject, StoredVoxelObjectFrameSelection, StoredVoxelObjectInstance,
};
use crate::text::{decimal_text, join3};
use crate::voxel_object_projection::missing_frame_message;
use crate::studio_adapter::protocol::{AdapterRejection, AdapterRejectionView};

verus! {

/// The instance a playback session previews.
#[derive(Debug, Clone)]
pub struct PlaybackTarget {
    pub scene_id: String,
    pub instance_id: String,
    pub voxel_object_asset_id: String,
}

/// The state of a voxel-object player.
#[derive(Debug, Clone, Copy, PartialEq, Eq, Structural)]
pub enum PlaybackStatus {
    Stopped,
    Playing,
    Paused,
}

/// The protocol name of a player state.
pub fn playback_status(status: PlaybackStatus) -> (name: &'static str)
    ensures
        name@ == match status {
            PlaybackStatus::Stopped => "stopped"@,
            PlaybackStatus::Playing => "playing"@,
            PlaybackStatus::Paused => "paused"@,
        },
{
    match status {
        PlaybackStatus::Stopped => "stopped",
        PlaybackStatus::Playing => "playing",
        PlaybackStatus::Paused => "paused",
    }
}

pub open spec fn playback_rejection(code: Seq<char>, message: Seq<char>) -> AdapterRejectionView {
    AdapterRejectionView { code, path: None, message }
}

pub open spec fn not_selected() -> AdapterRejectionView {
    playback_rejection(
        "voxelObject.playbackNotSelected"@,
        "scrub an applied voxel-object instance before controlling playback"@,
    )
}

pub open spec fn target_mismatch(target: (Seq<char>, Seq<char>), scene_id: Seq<char>, instance_id: Seq<char>) -> AdapterRejectionView {
    playback_rejection(
        "voxelObject.playbackTargetMismatch"@,
        "playback targets `"@ + target.0 + "/"@ + target.1 + "`, not `"@ + scene_id + "/"@
            + instance_id + "`"@,
    )
}

/// The refusal owed to controlling the playback of `scene_id/instance_id`
/// while `selected` (scene and instance) is the previewed target.
pub open spec fn target_outcome(
    selected: Option<(Seq<char>, Seq<char>)>,
    scene_id: Seq<char>,
    instance_id: Seq<char>,
) -> Option<AdapterRejectionView> {
    match selected {
        None => Some(not_selected()),
        Some(target) => if target.0 != scene_id || target.1 != instance_id {
            Some(target_mismatch(target, scene_id, instance_id))
        } else {
            None
        },
    }
}

/// The playback session of the adapter: at most one previewed instance.
pub struct StudioVoxelObjectPlayback {
    session: Option<PlaybackTarget>,
}

impl StudioVoxelObjectPlayback {
    /// The scene, instance and voxel-object asset of the previewed target,
    /// if any.
    pub closed spec fn selected_target(&self) -> Option<(Seq<char>, Seq<char>, Seq<char>)> {
        match self.session {
            Some(target) => Some(
                (target.scene_id@, target.instance_id@, target.voxel_object_asset_id@),
            ),
            None => None,
        }
    }

    /// The scene and instance of the previewed target, if any.
    pub closed spec fn selected(&self) -> Option<(Seq<char>, Seq<char>)> {
        match self.session {
            Some(target) => Some((target.scene_id@, target.instance_id@)),
            None => None,
        }
    }

    pub fn new() -> (playback: Self)
        ensures
            playback.selected() is None,
            playback.selected_target() is None,
    {
        StudioVoxelObjectPlayback { session: None }
    }

    /// Forgets the previewed target.
    pub fn clear(&mut self)
        ensures
            final(self).selected() is None,
            final(self).selected_target() is None,
    {
        self.session = None;
    }

    /// Makes `target` the previewed instance, as a successful scrub does.
    pub fn select(&mut self, target: PlaybackTarget)
        ensures
            final(self).selected() == Some((target.scene_id@, target.instance_id@)),
            final(self).selected_target() == Some(
                (target.scene_id@, target.instance_id@, target.voxel_object_asset_id@),
            ),
    {
        self.session = Some(target);
    }

    /// The previewed target, if any.
    pub fn target(&self) -> (target: Option<&PlaybackTarget>)
        ensures
            match target {
                Some(target) => self.selected() == Some((target.scene_id@, target.instance_id@))
                    && self.selected_target() == Some(
                    (target.scene_id@, target.instance_id@, target.voxel_object_asset_id@),
                ),
                None => self.selected() is None && self.selected_target() is None,
            },
    {
        match &self.session {
            Some(target) => Some(target),
            None => None,
        }
    }

    /// Playback of an instance is controlled only while it is the previewed
    /// target.
    pub fn ensure_target(&self, scene_id: &str, instance_id: &str) -> (result: Result<
        (),
        AdapterRejection,
    >)
        ensures
            match target_outcome(self.selected(), scene_id@, instance_id@) {
                None => result is Ok,
                Some(rejection) => result matches Err(error) && error@ == rejection,
            },
    {
        let session = match &self.session {
            Some(session) => session,
            None => {
                return Err(
                    AdapterRejection::new(
                        "voxelObject.playbackNotSelected",
                        "scrub an applied voxel-object instance before controlling playback",
                    ),
                );
            },
        };
        if !text_equal(session.scene_id.as_str(), scene_id) || !text_equal(
            session.instance_id.as_str(),
            instance_id,
        ) {
            let mut message = String::from_str("playback targets `");
            message.append(session.scene_id.as_str());
            message.append("/");
            message.append(session.instance_id.as_str());
            message.append("`, not `");
            message.append(scene_id);
            message.append("/");
            message.append(instance_id);
            message.append("`");
            return Err(
                AdapterRejection::new("voxelObject.playbackTargetMismatch", message.as_str()),
            );
        }
        Ok(())
    }

    /// Stops previewing `scene_id/instance_id`: only the previewed target
    /// can be stopped.
    pub fn stop(&mut self, scene_id: &str, instance_id: &str) -> (result: Result<
        (),
        AdapterRejection,
    >)
        ensures
            match target_outcome(old(self).selected(), scene_id@, instance_id@) {
                None => result is Ok && final(self).selected() is None
                    && final(self).selected_target() is None,
                Some(rejection) => result matches Err(error) && error@ == rejection
                    && final(self).selected() == old(self).selected()
                    && final(self).selected_target() == old(self).selected_target(),
            },
    {
        self.ensure_target(scene_id, instance_id)?;
        self.clear();
        Ok(())
    }
}

/// Selecting a target makes exactly that target controllable, and clearing
/// the session makes every control refused as unselected.
pub proof fn lemma_selected_target_is_controllable(
    target: (Seq<char>, Seq<char>),
    scene_id: Seq<char>,
    instance_id: Seq<char>,
)
    ensures
        target_outcome(Some(target), scene_id, instance_id) is None <==> (target.0 == scene_id
            && target.1 == instance_id),
        target_outcome(None, scene_id, instance_id) == Some(not_selected()),
{
}

/// Resuming a once-through clip that has ended starts it again from its
/// first frame; this names the clip to restart, if any.
pub fn clip_to_restart(ended: bool, plays_once: bool, clip: Option<&str>) -> (result: Result<
    Option<String>,
    AdapterRejection,
>)
    ensures
        !(ended && plays_once) ==> (result matches Ok(restart) && restart is None),
        ended && plays_once && clip is Some ==> (result matches Ok(restart) && restart is Some
            && restart->Some_0@ == clip->Some_0@),
        ended && plays_once && clip is None ==> (result matches Err(error) && error@
            == playback_rejection(
            "voxelObject.playbackRejected"@,
            "ended voxel-object playback has no selected clip"@,
        )),
{
    if !(ended && plays_once) {
        return Ok(None);
    }
    match clip {
        Some(clip) => Ok(Some(String::from_str(clip))),
        None => Err(
            AdapterRejection::new(
                "voxelObject.playbackRejected",
                "ended voxel-object playback has no selected clip",
            ),
        ),
    }
}

/// A once-through clip that has played to its end is paused there.
pub fn should_finish_once(status: PlaybackStatus, plays_once: bool, ended: bool) -> (finish: bool)
    ensures
        finish == (status == PlaybackStatus::Playing && plays_once && ended),
{
    status == PlaybackStatus::Playing && plays_once && ended
}

pub open spec fn scene_position(project: StoredProject, scene_id: Seq<char>) -> Option<int> {
    if exists|i: int| 0 <= i < project.scenes@.len() && (#[trigger] project.scenes@[i]).id@ == scene_id {
        Some(
            choose|i: int|
                0 <= i < project.scenes@.len() && (#[trigger] project.scenes@[i]).id@ == scene_id
                    && forall|j: int|
                    0 <= j < i ==> (#[trigger] project.scenes@[j]).id@ != scene_id,
        )
    } else {
        None
    }
}

pub open spec fn instance_position(
    instances: Seq<StoredVoxelObjectInstance>,
    instance_id: Seq<char>,
) -> Option<int> {
    if exists|i: int| 0 <= i < instances.len() && (#[trigger] instances[i]).instance_id@ == instance_id {
        Some(
            choose|i: int|
                0 <= i < instances.len() && (#[trigger] instances[i]).instance_id@ == instance_id
                    && forall|j: int|
                    0 <= j < i ==> (#[trigger] instances[j]).instance_id@ != instance_id,
        )
    } else {
        None
    }
}

pub open spec fn missing_scene(scene_id: Seq<char>) -> AdapterRejectionView {
    playback_rejection("project.missingScene"@, "project has no scene `"@ + scene_id + "`"@)
}

pub open spec fn missing_instance(scene_id: Seq<char>, instance_id: Seq<char>) -> AdapterRejectionView {
    playback_rejection(
        "voxelObject.instanceMissing"@,
        "scene `"@ + scene_id + "` has no voxel-object instance `"@ + instance_id + "`"@,
    )
}

proof fn lemma_first_match<A>(items: Seq<A>, matches: spec_fn(A) -> bool, i: int)
    requires
        0 <= i < items.len(),
        matches(items[i]),
        forall|j: int| 0 <= j < i ==> !matches(#[trigger] items[j]),
    ensures
        forall|k: int|
            0 <= k < items.len() && matches(items[k]) && (forall|j: int|
                0 <= j < k ==> !matches(#[trigger] items[j])) ==> k == i,
{
    assert forall|k: int|
        0 <= k < items.len() && matches(items[k]) && (forall|j: int|
            0 <= j < k ==> !matches(#[trigger] items[j])) implies k == i by {
        if k < i {
            assert(!matches(items[k]));
        }
        if k > i {
            assert(!matches(items[i]));
        }
    }
}

fn find_scene(project: &StoredProject, scene_id: &str) -> (found: Option<usize>)
    ensures
        match found {
            Some(i) => i < project.scenes@.len() && scene_position(*project, scene_id@) == Some(
                i as int,
            ),
            None => scene_position(*project, scene_id@) is None,
        },
{
    let mut index: usize = 0;
    while index < project.scenes.len()
        invariant
            index <= project.scenes@.len(),
            forall|j: int| 0 <= j < index ==> (#[trigger] project.scenes@[j]).id@ != scene_id@,
        decreases project.scenes@.len() - index,
    {
        if text_equal(project.scenes[index].id.as_str(), scene_id) {
            proof {
                lemma_first_match(
                    project.scenes@,
                    |scene: crate::stored_project::StoredScene| scene.id@ == scene_id@,
                    index as int,
                );
            }
            return Some(index);
        }
        index = index + 1;
    }
    None
}

/// The voxel-object instance `instance_id` of the scene `scene_id`: the
/// first scene and the first instance with those identities.
pub fn playback_instance<'a>(project: &'a StoredProject, scene_id: &str, instance_id: &str) -> (
    result: Result<&'a StoredVoxelObjectInstance, AdapterRejection>)
    ensures
        match scene_position(*project, scene_id@) {
            None => result matches Err(error) && error@ == missing_scene(scene_id@),
            Some(s) => match instance_position(
                project.scenes@[s].voxel_object_instances@,
                instance_id@,
            ) {
                None => result matches Err(error) && error@ == missing_instance(
                    scene_id@,
                    instance_id@,
                ),
                Some(k) => result matches Ok(instance) && *instance
                    == project.scenes@[s].voxel_object_instances@[k],
            },
        },
{
    let scene_index = match find_scene(project, scene_id) {
        Some(scene_index) => scene_index,
        None => {
            let mut message = String::from_str("project has no scene `");
            message.append(scene_id);
            message.append("`");
            return Err(AdapterRejection::new("project.missingScene", message.as_str()));
        },
    };
    let instances = &project.scenes[scene_index].voxel_object_instances;
    let mut index: usize = 0;
    while index < instances.len()
        invariant
            scene_index < project.scenes@.len(),
            scene_position(*project, scene_id@) == Some(scene_index as int),
            instances@ == project.scenes@[scene_index as int].voxel_object_instances@,
            index <= instances@.len(),
            forall|j: int| 0 <= j < index ==> (#[trigger] instances@[j]).instance_id@ != instance_id@,
        decreases instances@.len() - index,
    {
        if text_equal(instances[index].instance_id.as_str(), instance_id) {
            proof {
                lemma_first_match(
                    instances@,
                    |instance: StoredVoxelObjectInstance| instance.instance_id@ == instance_id@,
                    index as int,
                );
            }
            return Ok(&instances[index]);
        }
        index = index + 1;
    }
    let mut message = String::from_str("scene `");
    message.append(scene_id);
    message.append("` has no voxel-object instance `");
    message.append(instance_id);
    message.append("`");
    Err(AdapterRejection::new("voxelObject.instanceMissing", message.as_str()))
}

/// The runtime frame an instance's durable frame selection shows: frame
/// zero by default, else the selected frame of the named clip, where
/// `clip_frames` are the runtime frame indices of that clip in the admitted
/// object, if it has the clip.
pub fn resolve_frame(selection: &StoredVoxelObjectFrameSelection, clip_frames: Option<&Vec<u32>>) -> (
    result: Result<u32, AdapterRejection>)
    ensures
        match *selection {
            StoredVoxelObjectFrameSelection::Default => result == Ok::<u32, AdapterRejection>(0),
            StoredVoxelObjectFrameSelection::Clip { clip_id, frame_index } => match clip_frames {
                Some(frames) if frame_index < frames@.len() => result == Ok::<
                    u32,
                    AdapterRejection,
                >(frames@[frame_index as int]),
                _ => result matches Err(error) && error@ == playback_rejection(
                    "voxelObject.frameRejected"@,
                    missing_frame_message(clip_id@, frame_index),
                ),
            },
        },
{
    match selection {
        StoredVoxelObjectFrameSelection::Default => Ok(0),
        StoredVoxelObjectFrameSelection::Clip { clip_id, frame_index } => {
            if let Some(frames) = clip_frames {
                if (*frame_index as usize) < frames.len() {
                    return Ok(frames[*frame_index as usize]);
                }
            }
            let mut message = join3("clip `", clip_id.as_str(), "` has no frame ");
            message.append(decimal_text(*frame_index as u64).as_str());
            Err(AdapterRejection::new("voxelObject.frameRejected", message.as_str()))
        },
    }
}

/// A failure reported by the voxel-object player.
pub fn player_rejection(message: &str) -> (rejection: AdapterRejection)
    ensures
        rejection@ == playback_rejection("voxelObject.playbackRejected"@, message@),
{
    AdapterRejection::new("voxelObject.playbackRejected", message)
}


/// The commands that control a previewed voxel object.
#[derive(Debug, Clone, Copy, PartialEq, Eq, Structural)]
pub enum PlaybackCommandKind {
    Scrub,
    Play,
    Pause,
    Sample,
    Stop,
}

/// What a command does to the session before the player runs: the refusal
/// owed, if any, and the target previewed afterwards. A scrub needs no
/// target (a scrub the player accepts then selects its instance); play,
/// pause and sample need the previewed target and keep it; a stop needs it
/// and forgets it.
pub open spec fn control_outcome(
    selected: Option<(Seq<char>, Seq<char>)>,
    scene_id: Seq<char>,
    instance_id: Seq<char>,
    command: PlaybackCommandKind,
) -> (Option<AdapterRejectionView>, Option<(Seq<char>, Seq<char>)>) {
    match command {
        PlaybackCommandKind::Scrub => (None, selected),
        PlaybackCommandKind::Stop => match target_outcome(selected, scene_id, instance_id) {
            None => (None, None),
            Some(rejection) => (Some(rejection), selected),
        },
        _ => (target_outcome(selected, scene_id, instance_id), selected),
    }
}

/// What the host's player reports when sampled.
#[derive(Debug, Clone)]
pub struct PlayerSample {
    pub status: PlaybackStatus,
    pub clip_id: Option<String>,
    pub elapsed_microseconds: u64,
    pub frame: u32,
    pub clip_frame: Option<u32>,
    pub ended: bool,
}

/// The playback readout of an instance, as far as the library decides it
/// (the project and object content hashes, the loop mode and the rate are
/// the host's).
#[derive(Debug, Clone)]
pub struct PlaybackReadout {
    pub scene_id: String,
    pub instance_id: String,
    pub voxel_object_asset_id: String,
    pub durable_frame: StoredVoxelObjectFrameSelection,
    pub status: String,
    pub clip_id: Option<String>,
    pub elapsed_microseconds: u64,
    pub runtime_frame: u32,
    pub clip_frame: Option<u32>,
    pub ended: bool,
}

fn copy_frame_selection(selection: &StoredVoxelObjectFrameSelection) -> (copy: StoredVoxelObjectFrameSelection)
    ensures
        copy == *selection,
{
    match selection {
        StoredVoxelObjectFrameSelection::Default => StoredVoxelObjectFrameSelection::Default,
        StoredVoxelObjectFrameSelection::Clip { clip_id, frame_index } => StoredVoxelObjectFrameSelection::Clip {
            clip_id: clip_id.clone(),
            frame_index: *frame_index,
        },
    }
}

fn copy_optional_text(text: &Option<String>) -> (copy: Option<String>)
    ensures
        copy == *text,
{
    match text {
        Some(value) => Some(value.clone()),
        None => None,
    }
}

impl StudioVoxelObjectPlayback {
    /// Applies what `command` decides of the session before the player runs
    /// (see `control_outcome`).
    pub fn control(&mut self, scene_id: &str, instance_id: &str, command: PlaybackCommandKind) -> (result: Result<
        (),
        AdapterRejection,
    >)
        ensures
            ({
                let (refusal, next) = control_outcome(old(self).selected(), scene_id@, instance_id@, command);
                &&& match refusal {
                    None => result is Ok,
                    Some(rejection) => result matches Err(error) && error@ == rejection,
                }
                &&& final(self).selected() == next
                &&& next is Some ==> final(self).selected_target() == old(self).selected_target()
                &&& next is None ==> final(self).selected_target() is None
            }),
    {
        match command {
            PlaybackCommandKind::Scrub => Ok(()),
            PlaybackCommandKind::Stop => self.stop(scene_id, instance_id),
            _ => self.ensure_target(scene_id, instance_id),
        }
    }

    /// The readout presented for `scene_id/instance_id` (whose stored
    /// instance is `instance`, resolving to `durable_runtime_frame`) after a
    /// command: with a previewed target, the target and the player's
    /// `sample`; without one, the stopped readout of the durable frame.
    pub fn readout(
        &self,
        scene_id: &str,
        instance_id: &str,
        instance: &StoredVoxelObjectInstance,
        durable_runtime_frame: u32,
        sample: &Option<PlayerSample>,
    ) -> (readout: PlaybackReadout)
        requires
            self.selected_target() is Some ==> sample is Some,
        ensures
            readout.durable_frame == instance.frame,
            match self.selected_target() {
                None => {
                    &&& readout.scene_id@ == scene_id@
                    &&& readout.instance_id@ == instance_id@
                    &&& readout.voxel_object_asset_id@ == instance.voxel_object_asset_id@
                    &&& readout.status@ == "stopped"@
                    &&& readout.clip_id is None
                    &&& readout.elapsed_microseconds == 0
                    &&& readout.runtime_frame == durable_runtime_frame
                    &&& readout.clip_frame is None
                    &&& !readout.ended
                },
                Some((scene, instance_of_target, asset)) => {
                    let played = sample->Some_0;
                    &&& readout.scene_id@ == scene
                    &&& readout.instance_id@ == instance_of_target
                    &&& readout.voxel_object_asset_id@ == asset
                    &&& readout.status@ == match played.status {
                        PlaybackStatus::Stopped => "stopped"@,
                        PlaybackStatus::Playing => "playing"@,
                        PlaybackStatus::Paused => "paused"@,
                    }
                    &&& readout.clip_id == played.clip_id
                    &&& readout.elapsed_microseconds == played.elapsed_microseconds
                    &&& readout.runtime_frame == played.frame
                    &&& readout.clip_frame == played.clip_frame
                    &&& readout.ended == played.ended
                },
            },
    {
        let durable_frame = copy_frame_selection(&instance.frame);
        match (self.target(), sample) {
            (Some(target), Some(played)) => PlaybackReadout {
                scene_id: target.scene_id.clone(),
                instance_id: target.instance_id.clone(),
                voxel_object_asset_id: target.voxel_object_asset_id.clone(),
                durable_frame,
                status: String::from_str(playback_status(played.status)),
                clip_id: copy_optional_text(&played.clip_id),
                elapsed_microseconds: played.elapsed_microseconds,
                runtime_frame: played.frame,
                clip_frame: played.clip_frame,
                ended: played.ended,
            },
            _ => PlaybackReadout {
                scene_id: String::from_str(scene_id),
                instance_id: String::from_str(instance_id),
                voxel_object_asset_id: instance.voxel_object_asset_id.clone(),
                durable_frame,
                status: String::from_str(playback_status(PlaybackStatus::Stopped)),
                clip_id: None,
                elapsed_microseconds: 0,
                runtime_frame: durable_runtime_frame,
                clip_frame: None,
                ended: false,
            },
        }
    }
}

/// The session rules of playback: without a previewed target every control
/// but a scrub is refused as unselected and leaves no target; with one, a
/// control of another instance is refused as a mismatch and keeps the
/// target; stopping the previewed target succeeds and leaves no target, so
/// the next readout is the stopped readout of the durable frame.
pub proof fn lemma_playback_session_rules(
    target: (Seq<char>, Seq<char>),
    scene_id: Seq<char>,
    instance_id: Seq<char>,
    command: PlaybackCommandKind,
)
    ensures
        command != PlaybackCommandKind::Scrub ==> control_outcome(None, scene_id, instance_id, command) == (
            Some(not_selected()),
            None::<(Seq<char>, Seq<char>)>,
        ),
        command != PlaybackCommandKind::Scrub && (target.0 != scene_id || target.1 != instance_id)
            ==> control_outcome(Some(target), scene_id, instance_id, command) == (
            Some(target_mismatch(target, scene_id, instance_id)),
            Some(target),
        ),
        control_outcome(Some(target), target.0, target.1, PlaybackCommandKind::Stop) == (
            None::<AdapterRejectionView>,
            None::<(Seq<char>, Seq<char>)>,
        ),
        command != PlaybackCommandKind::Stop ==> control_outcome(Some(target), target.0, target.1, command) == (
            None::<AdapterRejectionView>,
            Some(target),
        ),
{
}

} // verus!
