//! Monotonic instants and time-driven frame animation. The clock is read by
//! the caller and passed in, so every method here is a function of its
//! arguments.

use vstd::prelude::*;
use crate::display::elapsed_us;

verus! {

/// A reading of the monotonic microsecond clock.
#[derive(Clone, Copy, Debug, PartialEq, Eq, Structural)]
pub struct EspInstant {
    micros: u64,
}

impl View for EspInstant {
    type V = u64;

    closed spec fn view(&self) -> u64 {
        self.micros
    }
}

impl EspInstant {
    pub fn from_micros(micros: u64) -> (r: EspInstant)
        ensures
            r@ == micros,
    {
        EspInstant { micros }
    }

    pub fn micros(&self) -> (r: u64)
        ensures
            r == self@,
    {
        self.micros
    }

    /// Microseconds from this instant to `now`; 0 if `now` is earlier, so a
    /// misordered pair never reads as a huge interval.
    pub fn elapsed_us(&self, now: EspInstant) -> (r: u64)
        ensures
            r == elapsed_us(self@, now@),
    {
        now.micros.saturating_sub(self.micros)
    }

    /// Whole milliseconds from this instant to `now`.
    pub fn elapsed_ms(&self, now: EspInstant) -> (r: u64)
        ensures
            r == elapsed_us(self@, now@) / 1000,
    {
        self.elapsed_us(now) / 1000
    }
}

/// The abstract state of a [`FrameAnimation`].
pub struct FrameAnimationView {
    pub frames: Seq<&'static [u8]>,
    pub current_frame: int,
    pub frame_duration_us: u64,
    pub last_update_time: u64,
    pub loop_animation: bool,
    pub is_finished: bool,
}

impl FrameAnimationView {
    /// The current index is 0 with no frames and a valid index otherwise.
    pub open spec fn wf(self) -> bool {
        if self.frames.len() == 0 {
            self.current_frame == 0
        } else {
            0 <= self.current_frame < self.frames.len()
        }
    }

    /// The animation at `now`: once a frame has been shown for its duration
    /// the next one comes, wrapping to the first when looping, else
    /// stopping, finished, on the last. Returns whether the frame advanced.
    pub open spec fn update(self, now: u64) -> (FrameAnimationView, bool) {
        if self.is_finished || self.frames.len() == 0 || elapsed_us(self.last_update_time, now)
            < self.frame_duration_us {
            (self, false)
        } else if self.current_frame + 1 < self.frames.len() {
            (
                FrameAnimationView {
                    current_frame: self.current_frame + 1,
                    last_update_time: now,
                    ..self
                },
                true,
            )
        } else if self.loop_animation {
            (FrameAnimationView { current_frame: 0, last_update_time: now, ..self }, true)
        } else {
            (
                FrameAnimationView {
                    current_frame: self.frames.len() - 1,
                    last_update_time: now,
                    is_finished: true,
                    ..self
                },
                true,
            )
        }
    }
}

/// A sequence of image frames shown one after another at a fixed rate.
pub struct FrameAnimation {
    frames: Vec<&'static [u8]>,
    current_frame: usize,
    frame_duration_us: u64,
    last_update_time: u64,
    loop_animation: bool,
    is_finished: bool,
}

impl View for FrameAnimation {
    type V = FrameAnimationView;

    closed spec fn view(&self) -> FrameAnimationView {
        FrameAnimationView {
            frames: self.frames@,
            current_frame: self.current_frame as int,
            frame_duration_us: self.frame_duration_us,
            last_update_time: self.last_update_time,
            loop_animation: self.loop_animation,
            is_finished: self.is_finished,
        }
    }
}

impl FrameAnimation {
    /// An empty, looping animation whose frames last `frame_duration_ms`,
    /// started at `now`.
    pub fn new(frame_duration_ms: u32, now: u64) -> (r: FrameAnimation)
        ensures
            r@.wf(),
            r@ == (FrameAnimationView {
                frames: Seq::empty(),
                current_frame: 0,
                frame_duration_us: (frame_duration_ms * 1000) as u64,
                last_update_time: now,
                loop_animation: true,
                is_finished: false,
            }),
    {
        FrameAnimation {
            frames: Vec::new(),
            current_frame: 0,
            frame_duration_us: frame_duration_ms as u64 * 1000,
            last_update_time: now,
            loop_animation: true,
            is_finished: false,
        }
    }

    /// As [`FrameAnimation::new`] with `1000 / fps` milliseconds a frame.
    pub fn with_fps(fps: u32, now: u64) -> (r: FrameAnimation)
        requires
            fps > 0,
        ensures
            r@.wf(),
            r@ == (FrameAnimationView {
                frames: Seq::empty(),
                current_frame: 0,
                frame_duration_us: ((1000int / fps as int) * 1000) as u64,
                last_update_time: now,
                loop_animation: true,
                is_finished: false,
            }),
    {
        FrameAnimation::new(1000 / fps, now)
    }

    pub fn add_frame(&mut self, frame_data: &'static [u8])
        requires
            old(self)@.wf(),
        ensures
            final(self)@.wf(),
            final(self)@ == (FrameAnimationView {
                frames: old(self)@.frames.push(frame_data),
                ..old(self)@
            }),
    {
        self.frames.push(frame_data);
    }

    pub fn set_loop(&mut self, should_loop: bool)
        ensures
            final(self)@ == (FrameAnimationView { loop_animation: should_loop, ..old(self)@ }),
    {
        self.loop_animation = should_loop;
    }

    /// Frames of `1000 / fps` milliseconds.
    pub fn set_fps(&mut self, fps: u32)
        requires
            fps > 0,
        ensures
            final(self)@ == (FrameAnimationView {
                frame_duration_us: ((1000int / fps as int) * 1000) as u64,
                ..old(self)@
            }),
    {
        self.frame_duration_us = (1000 / fps) as u64 * 1000;
    }

    pub fn set_frame_duration_ms(&mut self, duration_ms: u32)
        ensures
            final(self)@ == (FrameAnimationView {
                frame_duration_us: (duration_ms * 1000) as u64,
                ..old(self)@
            }),
    {
        self.frame_duration_us = duration_ms as u64 * 1000;
    }

    /// Advances to the next frame if the current one has lasted its
    /// duration at `now`; returns whether it did.
    pub fn update(&mut self, now: u64) -> (r: bool)
        requires
            old(self)@.wf(),
        ensures
            final(self)@.wf(),
            (final(self)@, r) == old(self)@.update(now),
    {
        if self.is_finished || self.frames.len() == 0 {
            return false;
        }
        if now.saturating_sub(self.last_update_time) < self.frame_duration_us {
            return false;
        }
        self.last_update_time = now;
        if self.current_frame + 1 < self.frames.len() {
            self.current_frame = self.current_frame + 1;
        } else if self.loop_animation {
            self.current_frame = 0;
        } else {
            self.current_frame = self.frames.len() - 1;
            self.is_finished = true;
        }
        true
    }

    /// The frame shown, if there is any.
    pub fn get_current_frame(&self) -> (r: Option<&'static [u8]>)
        requires
            self@.wf(),
        ensures
            r == if self@.frames.len() == 0 {
                None
            } else {
                Some(self@.frames[self@.current_frame])
            },
    {
        if self.current_frame < self.frames.len() {
            Some(self.frames[self.current_frame])
        } else {
            None
        }
    }

    pub fn get_current_frame_index(&self) -> (r: usize)
        ensures
            r == self@.current_frame,
    {
        self.current_frame
    }

    pub fn get_frame_count(&self) -> (r: usize)
        ensures
            r == self@.frames.len(),
    {
        self.frames.len()
    }

    /// Back to the first frame, restarted at `now`.
    pub fn reset(&mut self, now: u64)
        ensures
            final(self)@.wf(),
            final(self)@ == (FrameAnimationView {
                current_frame: 0,
                last_update_time: now,
                is_finished: false,
                ..old(self)@
            }),
    {
        self.current_frame = 0;
        self.last_update_time = now;
        self.is_finished = false;
    }

    pub fn is_finished(&self) -> (r: bool)
        ensures
            r == self@.is_finished,
    {
        self.is_finished
    }

    /// Shows frame `frame_index` from `now`, if there is such a frame;
    /// otherwise nothing changes.
    pub fn jump_to_frame(&mut self, frame_index: usize, now: u64)
        requires
            old(self)@.wf(),
        ensures
            final(self)@.wf(),
            final(self)@ == if frame_index < old(self)@.frames.len() {
                FrameAnimationView {
                    current_frame: frame_index as int,
                    last_update_time: now,
                    is_finished: false,
                    ..old(self)@
                }
            } else {
                old(self)@
            },
    {
        if frame_index < self.frames.len() {
            self.current_frame = frame_index;
            self.last_update_time = now;
            self.is_finished = false;
        }
    }
}

} // verus!
