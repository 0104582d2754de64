//! Frame stepping for the replay panel's playback controls.

use vstd::prelude::*;

verus! {

/// The frame shown after stepping forward from `current` in a recording of `total`
/// frames: the next one, or `current` again at the last frame.
pub open spec fn frame_after_forward(current: int, total: int) -> int {
    if current + 1 < total {
        current + 1
    } else {
        current
    }
}

/// Whether playback continues after stepping forward: stepping past the last frame
/// stops it.
pub open spec fn playing_after_forward(current: int, total: int, playing: bool) -> bool {
    if current + 1 < total {
        playing
    } else {
        false
    }
}

/// The frame shown after stepping back from `current`: the previous one, or the
/// first frame again.
pub open spec fn frame_after_back(current: int) -> int {
    if current > 0 {
        current - 1
    } else {
        0
    }
}

/// The final frame of a recording of `total` frames, or 0 when it is empty.
pub open spec fn final_frame(total: int) -> int {
    if total > 0 {
        total - 1
    } else {
        0
    }
}

/// Moves to the next of `total` frames; at the last frame playback stops instead.
pub fn step_forward(current_frame: &mut usize, playing: &mut bool, total: usize)
    ensures
        *final(current_frame) == frame_after_forward(*old(current_frame) as int, total as int),
        *final(playing) == playing_after_forward(*old(current_frame) as int, total as int, *old(playing)),
{
    if *current_frame < usize::MAX && *current_frame + 1 < total {
        *current_frame = *current_frame + 1;
    } else {
        *playing = false;
    }
}

/// Moves to the previous frame, staying at the first one.
pub fn step_back(current_frame: &mut usize)
    ensures
        *final(current_frame) == frame_after_back(*old(current_frame) as int),
{
    *current_frame = current_frame.saturating_sub(1);
}

/// The frame the "last frame" control jumps to: the final one, or 0 for an empty recording.
pub fn last_frame(total: usize) -> (f: usize)
    ensures
        f == final_frame(total as int),
{
    total.saturating_sub(1)
}

/// Stepping never leaves the recording: from a frame within `total` frames, stepping
/// forward or back, or jumping to the last frame, lands on a frame within them.
pub proof fn stepping_stays_in_recording(current: int, total: int)
    requires
        0 <= current < total,
    ensures
        0 <= frame_after_forward(current, total) < total,
        0 <= frame_after_back(current) < total,
        0 <= final_frame(total) < total,
{
}

/// Stepping back undoes stepping forward, unless playback was already at the last
/// frame; stepping forward undoes stepping back, unless it was at the first.
pub proof fn step_back_undoes_step_forward(current: int, total: int)
    requires
        0 <= current < total,
    ensures
        current + 1 < total ==> frame_after_back(frame_after_forward(current, total)) == current,
        current > 0 ==> frame_after_forward(frame_after_back(current), total) == current,
        current + 1 == total ==> frame_after_forward(current, total) == current
            && !playing_after_forward(current, total, true),
{
}

} // verus!
