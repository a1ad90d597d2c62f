//! The stored-project side of projecting authored voxel-object instances:
//! which runtime frame each instance shows. Admission, meshing and rendering
//! are the engine's.
use vstd::prelude::*;

use crate::stored_project::StoredVoxelObjectFrameSelection;
use crate::text::{decimal, decimal_text, join3};

verus! {

/// Why the voxel objects could not be projected.
#[derive(Debug, Clone, PartialEq, Eq)]
pub struct StoredVoxelObjectProjectionError(pub String);

impl StoredVoxelObjectProjectionError {
    pub fn message(&self) -> (message: &str)
        ensures
            message@ == self.0@,
    {
        self.0.as_str()
    }
}

pub fn projection_error(message: &str) -> (error: StoredVoxelObjectProjectionError)
    ensures
        error.0@ == message@,
{
    StoredVoxelObjectProjectionError(String::from_str(message))
}

pub open spec fn missing_frame_message(clip_id: Seq<char>, frame_index: u32) -> Seq<char> {
    "clip `"@ + clip_id + "` has no frame "@ + decimal(frame_index as nat)
}

/// The runtime frame a stored frame selection shows: frame zero by default,
/// else the selected frame of the named clip. `clip_frames` are the runtime
/// frame indices of that clip in the admitted object, if it has the clip.
pub fn stored_object_frame(
    selection: &StoredVoxelObjectFrameSelection,
    clip_frames: Option<&Vec<u32>>,
) -> (result: Result<u32, StoredVoxelObjectProjectionError>)
    ensures
        match *selection {
            StoredVoxelObjectFrameSelection::Default => result == Ok::<
                u32,
                StoredVoxelObjectProjectionError,
            >(0),
            StoredVoxelObjectFrameSelection::Clip { clip_id, frame_index } => match clip_frames {
                Some(frames) if frame_index < frames@.len() => result == Ok::<
                    u32,
                    StoredVoxelObjectProjectionError,
                >(frames@[frame_index as int]),
                _ => result matches Err(error) && error.0@ == missing_frame_message(
                    clip_id@,
                    frame_index,
                ),
            },
        },
{
    match selection {
        StoredVoxelObjectFrameSelection::Default => Ok(0),
        StoredVoxelObjectFrameSelection::Clip { clip_id, frame_index } => {
            if let Some(frames) = clip_frames {
                if (*frame_index as usize) < frames.len() {
                    return Ok(frames[*frame_index as usize]);
                }
            }
            let mut message = join3("clip `", clip_id.as_str(), "` has no frame ");
            message.append(decimal_text(*frame_index as u64).as_str());
            Err(projection_error(message.as_str()))
        },
    }
}

} // verus!
