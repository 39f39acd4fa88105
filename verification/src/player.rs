//! Decisions the player makes around its decoder and output.

use vstd::prelude::*;

verus! {

/// What a seek does.
#[derive(Clone, Copy, Debug, PartialEq, Eq, Structural)]
pub enum SeekPlan {
    /// No source is loaded: the seek is ignored.
    NoSource,
    /// Stop decoding, restart at `target` milliseconds, and start playing
    /// again when `resume` holds.
    Restart { target: i32, resume: bool },
}

/// The position a seek request goes to: not before 0 and, when the duration
/// is known (positive), not past it.
pub open spec fn spec_seek_target(position: i32, duration: i32) -> i32 {
    let t = if position < 0 { 0 } else { position };
    if duration > 0 && t > duration { duration } else { t }
}

/// Plan a seek to `position` milliseconds in a source of `duration`
/// milliseconds (a duration of -1 is unknown).  Playback resumes when it was
/// playing, or when the target lies before the end of the source.
pub fn plan_seek(position: i32, duration: i32, has_source: bool, was_playing: bool) -> (p: SeekPlan)
    ensures
        !has_source ==> p == SeekPlan::NoSource,
        has_source ==> p == (SeekPlan::Restart {
            target: spec_seek_target(position, duration),
            resume: was_playing || spec_seek_target(position, duration) < duration,
        }),
{
    let mut target = if position < 0 { 0 } else { position };
    if duration > 0 && target > duration {
        target = duration;
    }
    if !has_source {
        return SeekPlan::NoSource;
    }
    let resume = was_playing || target < duration;
    SeekPlan::Restart { target, resume }
}

/// Law: a seek never goes before the start, nor past a known end.
pub proof fn lemma_seek_target_in_range(position: i32, duration: i32)
    ensures
        spec_seek_target(position, duration) >= 0,
        duration > 0 ==> spec_seek_target(position, duration) <= duration,
        0 <= position && (duration <= 0 || position <= duration) ==> spec_seek_target(position, duration) == position,
{
}

} // verus!
