//! The persisted, resumable counter that says which frame is posted next.
//!
//! Frame numbers are 1-based. A sequence with no frames holds the counter
//! at 0; any other sequence holds it in `1..=total_frames`.

use vstd::prelude::*;

verus! {

/// Why a pair of counters is not a valid frame sequence.
#[derive(Debug, Clone, Copy, PartialEq, Eq, Structural)]
pub enum FrameInfoError {
    /// Frames exist, but the counter is 0 (numbering is 1-based).
    ZeroCurrentFrame,
    /// The counter is past the last frame.
    CurrentFrameExceedsTotal { current_frame: u32, total_frames: u32 },
    /// There are no frames, but the counter is not 0.
    CurrentFrameWithoutFrames { current_frame: u32 },
}

/// Progress through a movie's frames.
#[derive(Debug, Clone, Copy, PartialEq, Eq, Structural)]
pub struct FrameInfo {
    /// Number of frames in the movie.
    pub total_frames: u32,
    /// Next frame to post, 1-based.
    pub current_frame: u32,
}

/// The invariant of a frame sequence.
pub open spec fn valid_frame_state(total_frames: u32, current_frame: u32) -> bool {
    if total_frames == 0 {
        current_frame == 0
    } else {
        1 <= current_frame <= total_frames
    }
}

/// The error that validation reports for a pair of counters, if any.
pub open spec fn frame_state_error(total_frames: u32, current_frame: u32) -> Option<FrameInfoError> {
    if total_frames == 0 {
        if current_frame != 0 {
            Some(FrameInfoError::CurrentFrameWithoutFrames { current_frame })
        } else {
            None
        }
    } else if current_frame == 0 {
        Some(FrameInfoError::ZeroCurrentFrame)
    } else if current_frame > total_frames {
        Some(FrameInfoError::CurrentFrameExceedsTotal { current_frame, total_frames })
    } else {
        None
    }
}

/// What loading yields: a stored sequence if it is valid, else a fresh one
/// built from the defaults.
pub open spec fn loaded_frame_info(
    stored: Option<FrameInfo>,
    default_total_frames: u32,
    default_current_frame: u32,
) -> Result<FrameInfo, FrameInfoError> {
    match stored {
        Some(info) => match frame_state_error(info.total_frames, info.current_frame) {
            Some(e) => Err(e),
            None => Ok(info),
        },
        None => FrameInfo::built(default_total_frames, default_current_frame),
    }
}

impl FrameInfo {
    pub open spec fn wf(self) -> bool {
        valid_frame_state(self.total_frames, self.current_frame)
    }

    /// What `new` returns.
    pub open spec fn built(total_frames: u32, current_frame: u32) -> Result<FrameInfo, FrameInfoError> {
        if total_frames == 0 {
            Ok(FrameInfo { total_frames: 0, current_frame: 0 })
        } else {
            match frame_state_error(total_frames, current_frame) {
                Some(e) => Err(e),
                None => Ok(FrameInfo { total_frames, current_frame }),
            }
        }
    }

    /// The state after one advance: the next frame, back to 1 after the last,
    /// and no change when there are no frames.
    pub open spec fn successor(self) -> FrameInfo {
        if self.total_frames == 0 {
            self
        } else if self.current_frame >= self.total_frames {
            FrameInfo { current_frame: 1, ..self }
        } else {
            FrameInfo { current_frame: (self.current_frame + 1) as u32, ..self }
        }
    }

    /// Builds a sequence, checking its invariant. With no frames the counter
    /// is set to 0 whatever was asked.
    pub fn new(total_frames: u32, current_frame: u32) -> (r: Result<FrameInfo, FrameInfoError>)
        ensures
            r == FrameInfo::built(total_frames, current_frame),
            r matches Ok(info) ==> info.wf(),
    {
        if total_frames == 0 {
            return Ok(FrameInfo { total_frames: 0, current_frame: 0 });
        }
        if current_frame == 0 {
            return Err(FrameInfoError::ZeroCurrentFrame);
        }
        if current_frame > total_frames {
            return Err(FrameInfoError::CurrentFrameExceedsTotal { current_frame, total_frames });
        }
        Ok(FrameInfo { total_frames, current_frame })
    }

    /// Checks the invariant.
    pub fn validate(&self) -> (r: Result<(), FrameInfoError>)
        ensures
            r is Ok <==> self.wf(),
            r matches Err(e) ==> frame_state_error(self.total_frames, self.current_frame) == Some(e),
    {
        if self.total_frames == 0 {
            if self.current_frame != 0 {
                return Err(FrameInfoError::CurrentFrameWithoutFrames { current_frame: self.current_frame });
            }
            return Ok(());
        }
        if self.current_frame == 0 {
            return Err(FrameInfoError::ZeroCurrentFrame);
        }
        if self.current_frame > self.total_frames {
            return Err(FrameInfoError::CurrentFrameExceedsTotal {
                current_frame: self.current_frame,
                total_frames: self.total_frames,
            });
        }
        Ok(())
    }

    /// Moves to the next frame, wrapping back to frame 1 after the last one.
    /// Does nothing when there are no frames.
    pub fn increment(&mut self)
        ensures
            *final(self) == old(self).successor(),
    {
        if self.total_frames == 0 {
            return;
        }
        self.current_frame = if self.current_frame >= self.total_frames {
            1
        } else {
            self.current_frame + 1
        };
    }

    /// Settles the state at start-up from what storage held: a stored
    /// sequence must be valid and is kept as it is; with none stored, a
    /// sequence is built from the defaults. Corrupt state is never repaired.
    pub fn load_or_create(
        stored: Option<FrameInfo>,
        default_total_frames: u32,
        default_current_frame: u32,
    ) -> (r: Result<FrameInfo, FrameInfoError>)
        ensures
            r == loaded_frame_info(stored, default_total_frames, default_current_frame),
            r matches Ok(info) ==> info.wf(),
    {
        match stored {
            Some(info) => match info.validate() {
                Ok(()) => Ok(info),
                Err(e) => Err(e),
            },
            None => FrameInfo::new(default_total_frames, default_current_frame),
        }
    }
}

/// Validation accepts exactly the states that satisfy the invariant.
pub proof fn lemma_error_iff_invalid(total_frames: u32, current_frame: u32)
    ensures
        frame_state_error(total_frames, current_frame) is None <==> valid_frame_state(total_frames, current_frame),
{
}

/// Advancing a valid sequence gives a valid sequence, with the same number
/// of frames.
pub proof fn lemma_successor_preserves_invariant(info: FrameInfo)
    requires
        info.wf(),
    ensures
        info.successor().wf(),
        info.successor().total_frames == info.total_frames,
{
}

/// Loading a valid sequence that was stored gives back that same sequence,
/// whatever the defaults.
pub proof fn lemma_reload_returns_stored(info: FrameInfo, default_total_frames: u32, default_current_frame: u32)
    requires
        info.wf(),
    ensures
        loaded_frame_info(Some(info), default_total_frames, default_current_frame) == Ok::<FrameInfo, FrameInfoError>(info),
{
}

} // verus!
