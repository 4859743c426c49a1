use vstd::prelude::*;

verus! {

/// Inclusive bounds of the sprite-sheet cells that belong to one animation
/// clip. Configured once per clip and never mutated afterwards.
#[derive(Clone, Copy, PartialEq, Eq, Structural, Debug)]
pub struct SpriteAnimationIndex {
    pub first: usize,
    pub last: usize,
}

impl SpriteAnimationIndex {
    /// A clip's range is ordered and leaves room for the single-step advance.
    pub open spec fn wf(self) -> bool {
        self.first <= self.last && self.last < usize::MAX
    }

    /// Modular increment over the closed interval `[first, last]`.
    pub open spec fn next_frame(self, frame: usize) -> usize {
        if frame == self.last {
            self.first
        } else {
            (frame + 1) as usize
        }
    }
}

/// A repeating timer over whole milliseconds: each tick accumulates elapsed
/// time, and on reaching the fixed interval keeps only the remainder, so a
/// periodic beat survives uneven frame times.
#[derive(Clone, Copy, PartialEq, Eq, Structural, Debug)]
pub struct SpriteAnimationTimer {
    pub interval_ms: u64,
    pub elapsed_ms: u64,
    pub finished_this_tick: bool,
}

impl SpriteAnimationTimer {
    /// The interval is positive and the accumulator never holds a full period.
    pub open spec fn wf(self) -> bool {
        0 < self.interval_ms && self.elapsed_ms < self.interval_ms
    }

    /// Whether one tick of `delta_ms` reaches the interval: the
    /// threshold-crossing event.
    pub open spec fn crosses(self, delta_ms: u64) -> bool {
        self.elapsed_ms + delta_ms >= self.interval_ms
    }

    /// The timer after one tick: the accumulator grows by `delta_ms`, and on a
    /// crossing wraps to the remainder modulo the interval.
    pub open spec fn ticked(self, delta_ms: u64) -> SpriteAnimationTimer {
        SpriteAnimationTimer {
            interval_ms: self.interval_ms,
            elapsed_ms: if self.crosses(delta_ms) {
                ((self.elapsed_ms + delta_ms) % (self.interval_ms as int)) as u64
            } else {
                (self.elapsed_ms + delta_ms) as u64
            },
            finished_this_tick: self.crosses(delta_ms),
        }
    }

    /// A fresh repeating timer with the given interval.
    pub fn new(interval_ms: u64) -> (t: SpriteAnimationTimer)
        requires
            0 < interval_ms,
        ensures
            t == (SpriteAnimationTimer { interval_ms, elapsed_ms: 0, finished_this_tick: false }),
            t.wf(),
    {
        SpriteAnimationTimer { interval_ms, elapsed_ms: 0, finished_this_tick: false }
    }

    /// Advance the timer by `delta_ms` milliseconds.
    pub fn tick(&mut self, delta_ms: u64)
        requires
            old(self).wf(),
            old(self).elapsed_ms + delta_ms <= u64::MAX,
        ensures
            *final(self) == old(self).ticked(delta_ms),
            final(self).wf(),
    {
        let total = self.elapsed_ms + delta_ms;
        if total >= self.interval_ms {
            self.elapsed_ms = total % self.interval_ms;
            self.finished_this_tick = true;
        } else {
            self.elapsed_ms = total;
            self.finished_this_tick = false;
        }
    }

    /// Whether the most recent tick crossed the interval threshold.
    pub fn just_finished(&self) -> (r: bool)
        ensures
            r == self.finished_this_tick,
    {
        self.finished_this_tick
    }
}

/// One animation clip's playback state: whether it currently owns the visible
/// frame index, its frame range, and its frame-advance timer.
#[derive(Clone, Copy, PartialEq, Eq, Structural, Debug)]
pub struct SpriteAnimation {
    pub is_playing: bool,
    pub index: SpriteAnimationIndex,
    pub timer: SpriteAnimationTimer,
}

impl SpriteAnimation {
    pub open spec fn wf(self) -> bool {
        self.index.wf() && self.timer.wf()
    }

    /// The state after `stop`: only the playing flag changes.
    pub open spec fn stopped(self) -> SpriteAnimation {
        SpriteAnimation { is_playing: false, ..self }
    }

    /// The frame from which one call of `play` proceeds: activating a stopped
    /// clip restarts it at its first frame, a playing clip keeps the frame.
    pub open spec fn restart_frame(self, frame: usize) -> usize {
        if self.is_playing {
            frame
        } else {
            self.index.first
        }
    }

    /// The clip state after one call of `play`: it is playing and its timer
    /// has ticked once.
    pub open spec fn played(self, delta_ms: u64) -> SpriteAnimation {
        SpriteAnimation { is_playing: true, index: self.index, timer: self.timer.ticked(delta_ms) }
    }

    /// The visible frame index after one call of `play`: a threshold crossing
    /// advances it one step (never more, whatever `delta_ms` was), otherwise
    /// it stays where the call started.
    pub open spec fn played_frame(self, frame: usize, delta_ms: u64) -> usize {
        if self.timer.crosses(delta_ms) {
            self.index.next_frame(self.restart_frame(frame))
        } else {
            self.restart_frame(frame)
        }
    }

    /// Stop playback unconditionally. The visible frame index and the timer
    /// are untouched, so stopping an already stopped clip changes nothing.
    pub fn stop(&mut self)
        ensures
            *final(self) == old(self).stopped(),
    {
        self.is_playing = false;
    }

    /// Play the clip for one frame: restart at `index.first` when the clip was
    /// stopped, tick the timer by `delta_ms`, and on a threshold crossing
    /// advance `frame_index` one step, wrapping from `index.last` back to
    /// `index.first`.
    pub fn play(&mut self, frame_index: &mut usize, delta_ms: u64)
        requires
            old(self).wf(),
            old(self).timer.elapsed_ms + delta_ms <= u64::MAX,
            *old(frame_index) < usize::MAX,
        ensures
            *final(self) == old(self).played(delta_ms),
            *final(frame_index) == old(self).played_frame(*old(frame_index), delta_ms),
            final(self).wf(),
    {
        if !self.is_playing {
            *frame_index = self.index.first;
            self.is_playing = true;
        }
        self.timer.tick(delta_ms);
        if self.timer.just_finished() {
            *frame_index = if *frame_index == self.index.last {
                self.index.first
            } else {
                *frame_index + 1
            };
        }
    }
}

/// Stopping twice in a row is the same as stopping once: the second stop
/// changes neither the clip state nor anything else.
pub proof fn lemma_stop_idempotent(a: SpriteAnimation)
    ensures
        a.stopped().stopped() == a.stopped(),
{
}

/// After a stop, a play restarts the clip: the resulting frame index does not
/// depend on what the frame index was before.
pub proof fn lemma_restart_ignores_prior_frame(a: SpriteAnimation, f: usize, g: usize, delta_ms: u64)
    ensures
        a.stopped().played_frame(f, delta_ms) == a.stopped().played_frame(g, delta_ms),
{
}

/// A stop followed immediately by a play resets the visible frame index to
/// the clip's first frame, whatever it held before, as long as that play's
/// tick stays below the interval threshold.
pub proof fn lemma_stop_then_play_resets(a: SpriteAnimation, f: usize, delta_ms: u64)
    requires
        a.timer.elapsed_ms + delta_ms < a.timer.interval_ms,
    ensures
        a.stopped().played_frame(f, delta_ms) == a.index.first,
{
}

/// A play of an already playing clip whose tick stays below the interval
/// threshold never advances the visible frame index.
pub proof fn lemma_no_advance_below_threshold(a: SpriteAnimation, f: usize, delta_ms: u64)
    requires
        a.is_playing,
        a.timer.elapsed_ms + delta_ms < a.timer.interval_ms,
    ensures
        a.played_frame(f, delta_ms) == f,
{
}

/// Two plays of a playing clip that each stay below the interval threshold
/// but together reach it advance the visible frame index exactly once.
pub proof fn lemma_two_short_ticks_advance_once(a: SpriteAnimation, f: usize, delta_ms: u64)
    requires
        a.wf(),
        a.is_playing,
        a.timer.elapsed_ms + delta_ms < a.timer.interval_ms,
        a.timer.elapsed_ms + delta_ms + delta_ms >= a.timer.interval_ms,
    ensures
        a.played(delta_ms).played_frame(a.played_frame(f, delta_ms), delta_ms) == a.index.next_frame(f),
{
}

} // verus!
