//! The frame counter: counts rendered frames and hands out, on demand, the
//! frame count together with the elapsed time since the last reading, from
//! which the shell computes frames per second.

use vstd::prelude::*;

verus! {

/// Counts frames between readings. Timestamps are plain microsecond values
/// supplied by the caller's clock.
pub struct FPScalculator {
    frames: usize,
    start: Option<u64>,
}

impl FPScalculator {
    pub closed spec fn frames_spec(&self) -> int {
        self.frames as int
    }

    pub closed spec fn start_spec(&self) -> Option<u64> {
        self.start
    }

    /// A counter with no frames counted and no baseline yet.
    pub fn new() -> (r: FPScalculator)
        ensures
            r.frames_spec() == 0,
            r.start_spec() is None,
    {
        FPScalculator { frames: 0, start: None }
    }

    /// Counts one rendered frame.
    pub fn count_one_frame(&mut self)
        requires
            old(self).frames_spec() < usize::MAX,
        ensures
            final(self).frames_spec() == old(self).frames_spec() + 1,
            final(self).start_spec() == old(self).start_spec(),
    {
        self.frames = self.frames + 1;
    }

    /// Takes a reading at time `now`: the frames counted since the last
    /// reading and the elapsed time, or nothing when this reading only
    /// establishes the baseline. Either way the count restarts from zero
    /// with `now` as the new baseline.
    pub fn fps(&mut self, now: u64) -> (r: Option<(usize, u64)>)
        requires
            old(self).start_spec() matches Some(start) ==> start <= now,
        ensures
            final(self).frames_spec() == 0,
            final(self).start_spec() == Some(now),
            r == match old(self).start_spec() {
                Some(start) => Some((old(self).frames_spec() as usize, (now - start) as u64)),
                None => None::<(usize, u64)>,
            },
    {
        let r = match self.start {
            Some(start) => Some((self.frames, now - start)),
            None => None,
        };
        self.frames = 0;
        self.start = Some(now);
        r
    }
}

} // verus!
