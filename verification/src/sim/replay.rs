//! Recording a run frame by frame: the recorder's start / stop / record protocol.

use vstd::prelude::*;

verus! {

/// The frames a recorder holds after it is handed `frame`: the frame is appended
/// while recording and dropped otherwise.
pub open spec fn after_record<F>(frames: Seq<F>, recording: bool, frame: F) -> Seq<F> {
    if recording {
        frames.push(frame)
    } else {
        frames
    }
}

/// The frames a recorder holds after it is handed `items`, one by one and in order.
pub open spec fn after_records<F>(frames: Seq<F>, recording: bool, items: Seq<F>) -> Seq<F>
    decreases items.len(),
{
    if items.len() == 0 {
        frames
    } else {
        after_record(after_records(frames, recording, items.drop_last()), recording, items.last())
    }
}

/// Records simulation frames while recording is on.
#[derive(Debug, Clone)]
pub struct ReplayRecorder<F> {
    pub frames: Vec<F>,
    pub recording: bool,
}

impl<F> ReplayRecorder<F> {
    /// Create a new idle recorder.
    pub fn new() -> (r: Self)
        ensures
            r.frames@ == Seq::<F>::empty(),
            !r.recording,
    {
        ReplayRecorder { frames: Vec::new(), recording: false }
    }

    /// Begin recording; clears any previously recorded frames.
    pub fn start(&mut self)
        ensures
            final(self).frames@ == Seq::<F>::empty(),
            final(self).recording,
    {
        self.frames.clear();
        self.recording = true;
    }

    /// Stop recording, keeping the frames recorded so far.
    pub fn stop(&mut self)
        ensures
            final(self).frames@ == old(self).frames@,
            !final(self).recording,
    {
        self.recording = false;
    }

    /// Append a frame (no-op when not recording).
    pub fn record(&mut self, frame: F)
        ensures
            final(self).recording == old(self).recording,
            final(self).frames@ == after_record(old(self).frames@, old(self).recording, frame),
    {
        if self.recording {
            self.frames.push(frame);
        }
    }
}

/// A recorder that is recording keeps every frame it is handed, in order, after
/// those it held; one that is not recording keeps its frames unchanged. In
/// particular, after `start` the recorder holds exactly the frames recorded since.
pub proof fn recording_keeps_frames_in_order<F>(frames: Seq<F>, items: Seq<F>)
    ensures
        after_records(frames, true, items) == frames + items,
        after_records(Seq::<F>::empty(), true, items) == items,
        after_records(frames, false, items) == frames,
    decreases items.len(),
{
    if items.len() > 0 {
        recording_keeps_frames_in_order(frames, items.drop_last());
        assert(frames + items =~= (frames + items.drop_last()).push(items.last()));
    }
    assert(Seq::<F>::empty() + items =~= items);
    if items.len() > 0 {
        recording_keeps_frames_in_order(Seq::<F>::empty(), items.drop_last());
    }
}

impl<F> Default for ReplayRecorder<F> {
    fn default() -> (r: Self)
        ensures
            r.frames@ == Seq::<F>::empty(),
            !r.recording,
    {
        ReplayRecorder::new()
    }
}

} // verus!
