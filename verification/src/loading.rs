//! The spinner shown while the library loads.

use vstd::prelude::*;

verus! {

/// How long each spinner frame is shown, in milliseconds.
pub const FRAME_DURATION_MS: u64 = 80;

/// A braille spinner: a fixed cycle of frames advanced on a caller-side
/// clock.
pub struct LoadingAnimation {
    frames: Vec<&'static str>,
    current_frame: usize,
    last_update_ms: u64,
}

impl LoadingAnimation {
    /// Which frame is showing.
    pub closed spec fn spec_frame(&self) -> int {
        self.current_frame as int
    }

    /// When the frame last advanced.
    pub closed spec fn spec_last_update_ms(&self) -> u64 {
        self.last_update_ms
    }

    /// The animation is well formed: ten frames with the cursor on one
    /// of them.
    pub closed spec fn wf(&self) -> bool {
        self.frames@.len() == 10 && self.current_frame < 10
    }

    /// A spinner showing its first frame, with the given creation time.
    pub fn new(now_ms: u64) -> (r: LoadingAnimation)
        ensures
            r.wf(),
            r.spec_frame() == 0,
            r.spec_last_update_ms() == now_ms,
    {
        let mut frames: Vec<&'static str> = Vec::new();
        frames.push("\u{280b}");
        frames.push("\u{2819}");
        frames.push("\u{2839}");
        frames.push("\u{2838}");
        frames.push("\u{283c}");
        frames.push("\u{2834}");
        frames.push("\u{2826}");
        frames.push("\u{2827}");
        frames.push("\u{2807}");
        frames.push("\u{280f}");
        LoadingAnimation { frames, current_frame: 0, last_update_ms: now_ms }
    }

    /// Advances to the next frame, wrapping around, once the frame
    /// duration has elapsed.
    pub fn tick(&mut self, now_ms: u64)
        requires
            old(self).wf(),
        ensures
            final(self).wf(),
            now_ms >= old(self).spec_last_update_ms() + FRAME_DURATION_MS ==> (final(
                self).spec_frame() == (old(self).spec_frame() + 1) % 10 && final(
                self).spec_last_update_ms() == now_ms),
            now_ms < old(self).spec_last_update_ms() + FRAME_DURATION_MS ==> (final(
                self).spec_frame() == old(self).spec_frame() && final(self).spec_last_update_ms()
                == old(self).spec_last_update_ms()),
    {
        if now_ms >= self.last_update_ms && now_ms - self.last_update_ms >= FRAME_DURATION_MS {
            self.current_frame = (self.current_frame + 1) % self.frames.len();
            self.last_update_ms = now_ms;
        }
    }

    /// The frame to draw.
    pub fn current_frame(&self) -> (r: &'static str)
        requires
            self.wf(),
        ensures
            r == self.frames_view()[self.spec_frame()],
    {
        self.frames[self.current_frame]
    }

    /// The frame cycle.
    pub closed spec fn frames_view(&self) -> Seq<&'static str> {
        self.frames@
    }
}

} // verus!
