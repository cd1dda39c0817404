//! Conversions between decoded-frame counts and milliseconds of playback
//! time.
//!
//! The engine reports positions computed from the number of frames decoded
//! so far and the stream's sample rate, never from wall-clock time.  A frame
//! is one sample per channel.  Frame counters are capped at `MAX_FRAMES` so
//! that converting a count to milliseconds can never overflow a `u64`.

use vstd::prelude::*;

verus! {

/// Largest frame count the engine tracks; `MAX_FRAMES * 1000` still fits
/// in a `u64`, so a frame count below the cap converts to milliseconds
/// without overflow.
pub const MAX_FRAMES: u64 = u64::MAX / 1000;

/// Milliseconds of audio represented by `frames` frames at `rate` frames
/// per second.
pub open spec fn spec_ms_of_frames(frames: nat, rate: nat) -> nat
    recommends
        1 <= rate,
{
    frames * 1000 / rate
}

/// Frame count corresponding to `ms` milliseconds at `rate` frames per
/// second, without the cap.
pub open spec fn spec_frames_of_ms(ms: nat, rate: nat) -> nat {
    ms * rate / 1000
}

/// Frame count corresponding to `ms` milliseconds, capped at `MAX_FRAMES`.
pub open spec fn spec_clamped_frames(ms: nat, rate: nat) -> nat {
    if spec_frames_of_ms(ms, rate) > MAX_FRAMES as nat {
        MAX_FRAMES as nat
    } else {
        spec_frames_of_ms(ms, rate)
    }
}

/// Sum of a frame counter and a newly decoded frame count, capped at
/// `MAX_FRAMES`.
pub open spec fn spec_add_frames(frames: nat, delta: nat) -> nat {
    if frames + delta > MAX_FRAMES as nat {
        MAX_FRAMES as nat
    } else {
        frames + delta
    }
}

/// Converts a position in milliseconds to a frame count, capped at
/// `MAX_FRAMES`.
pub fn frames_of_ms(ms: u64, rate: u32) -> (r: u64)
    ensures
        r == spec_clamped_frames(ms as nat, rate as nat),
        r <= MAX_FRAMES,
{
    proof {
        assert((ms as int) * (rate as int) <= (u64::MAX as int) * (u32::MAX as int)) by (
        nonlinear_arith)
            requires
                ms <= u64::MAX,
                rate <= u32::MAX,
        ;
    }
    let f: u128 = (ms as u128) * (rate as u128) / 1000;
    if f > MAX_FRAMES as u128 {
        MAX_FRAMES
    } else {
        f as u64
    }
}

/// Converts a capped frame count to milliseconds of playback time.
pub fn ms_of_frames(frames: u64, rate: u32) -> (r: u64)
    requires
        frames <= MAX_FRAMES,
        1 <= rate,
    ensures
        r == spec_ms_of_frames(frames as nat, rate as nat),
{
    proof {
        assert((frames as int) * 1000 <= (MAX_FRAMES as int) * 1000) by (nonlinear_arith)
            requires
                frames <= MAX_FRAMES,
        ;
        assert((u64::MAX as int / 1000) * 1000 <= u64::MAX as int) by (nonlinear_arith);
        assert((frames as int) * 1000 / (rate as int) <= (frames as int) * 1000) by (
        nonlinear_arith)
            requires
                1 <= rate,
                0 <= frames,
        ;
    }
    ((frames as u128) * 1000 / (rate as u128)) as u64
}

/// Adds newly decoded frames to a capped frame counter.
pub fn add_frames(frames: u64, delta: u64) -> (r: u64)
    ensures
        r == spec_add_frames(frames as nat, delta as nat),
        r <= MAX_FRAMES,
{
    let s: u128 = frames as u128 + delta as u128;
    if s > MAX_FRAMES as u128 {
        MAX_FRAMES
    } else {
        s as u64
    }
}

/// Adds two millisecond counts, saturating at the largest representable
/// value.
pub fn sat_add_ms(a: u64, b: u64) -> (r: u64)
    ensures
        r == if a + b > u64::MAX as int {
            u64::MAX as int
        } else {
            a + b
        },
{
    if a <= u64::MAX - b {
        a + b
    } else {
        u64::MAX
    }
}

} // verus!
