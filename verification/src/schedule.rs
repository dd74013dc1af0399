//! The file-run schedule: when, while streaming a recorded file through
//! the engine, a snapshot is requested and when the warm-up count starts
//! over.
//!
//! A run counts frames since the last refresh marker; the frame right
//! after the window has been seen asks for one snapshot, and reaching a
//! refresh marker starts the count (and so the snapshot) over.
use vstd::prelude::*;

verus! {

/// Whether `markers` holds the value `v`.
fn markers_contain(markers: &Vec<usize>, v: usize) -> (r: bool)
    ensures
        r == markers@.contains(v),
{
    let mut i: usize = 0;
    while i < markers.len()
        invariant
            i <= markers@.len(),
            forall|k: int| 0 <= k < i ==> markers@[k] != v,
        decreases markers@.len() - i,
    {
        if markers[i] == v {
            return true;
        }
        i = i + 1;
    }
    proof {
        assert(!markers@.contains(v));
    }
    false
}

/// The per-file driving schedule: `index` counts frames since the last
/// refresh marker (saturating just past `frame_count`), `overall_frame`
/// counts all frames, and `refresh_markers` lists the frame numbers at
/// which the count starts over.
#[derive(Debug)]
pub struct RefreshSchedule {
    pub index: usize,
    pub overall_frame: usize,
    pub frame_count: usize,
    pub refresh_markers: Vec<usize>,
}

impl RefreshSchedule {
    pub fn new(frame_count: usize, refresh_markers: Vec<usize>) -> (r: Self)
        ensures
            r.index == 0,
            r.overall_frame == 0,
            r.frame_count == frame_count,
            r.refresh_markers@ == refresh_markers@,
    {
        Self { index: 0, overall_frame: 0, frame_count, refresh_markers }
    }

    /// Account for one frame: report whether this frame carries the
    /// snapshot request (exactly when the count has just passed the
    /// window, so once per refresh), advance the counts, and start the
    /// count over at a refresh marker.
    pub fn step(&mut self) -> (snapshot: bool)
        requires
            old(self).overall_frame < usize::MAX,
            old(self).index <= old(self).frame_count + 1,
            old(self).frame_count + 1 < usize::MAX,
        ensures
            snapshot == (old(self).index == old(self).frame_count),
            final(self).overall_frame == old(self).overall_frame + 1,
            final(self).index == (if old(self).refresh_markers@.contains(
                (old(self).overall_frame + 1) as usize,
            ) {
                0usize
            } else if old(self).index <= old(self).frame_count {
                (old(self).index + 1) as usize
            } else {
                old(self).index
            }),
            final(self).index <= final(self).frame_count + 1,
            final(self).frame_count == old(self).frame_count,
            final(self).refresh_markers == old(self).refresh_markers,
    {
        let snapshot = self.index == self.frame_count;
        if self.index <= self.frame_count {
            self.index = self.index + 1;
        }
        self.overall_frame = self.overall_frame + 1;
        if markers_contain(&self.refresh_markers, self.overall_frame) {
            self.index = 0;
        }
        snapshot
    }
}

} // verus!
