//! The sample queue between the decode loop and the audio device.
//!
//! Decoding is bursty while the device consumes samples at a fixed rate, so
//! decoded PCM is queued here.  The device side never blocks on the decode
//! side: when the queue is empty or the output is paused it receives
//! silence instead.

use std::collections::VecDeque;
use vstd::prelude::*;

verus! {

/// The PCM sample value emitted when there is nothing to play: silence.
pub const SILENCE: i16 = 0;

/// FIFO of interleaved signed 16-bit PCM samples.
pub struct RingBuffer {
    samples: VecDeque<i16>,
}

impl View for RingBuffer {
    type V = Seq<i16>;

    closed spec fn view(&self) -> Seq<i16> {
        self.samples@
    }
}

impl RingBuffer {
    /// Creates an empty buffer.
    pub fn new() -> (r: RingBuffer)
        ensures
            r@ == Seq::<i16>::empty(),
    {
        RingBuffer { samples: VecDeque::new() }
    }

    /// Number of queued samples.
    pub fn len(&self) -> (r: usize)
        ensures
            r == self@.len(),
    {
        self.samples.len()
    }

    /// Appends decoded samples at the back of the queue.
    pub fn write(&mut self, samples: &Vec<i16>)
        ensures
            final(self)@ == old(self)@ + samples@,
    {
        let n = samples.len();
        for i in 0..n
            invariant
                n == samples@.len(),
                self@ == old(self)@ + samples@.take(i as int),
        {
            self.samples.push_back(samples[i]);
            proof {
                assert(old(self)@ + samples@.take(i as int) + seq![samples@[i as int]] == old(
                    self,
                )@ + samples@.take(i + 1));
            }
        }
        proof {
            assert(samples@.take(n as int) == samples@);
        }
    }

    /// Removes and returns the oldest sample, if any.
    pub fn pop(&mut self) -> (r: Option<i16>)
        ensures
            old(self)@.len() == 0 ==> r is None && final(self)@ == old(self)@,
            old(self)@.len() > 0 ==> r == Some(old(self)@[0]) && final(self)@ == old(self)@.drop_first(),
    {
        self.samples.pop_front()
    }

    /// Drops every queued sample.
    pub fn clear(&mut self)
        ensures
            final(self)@ == Seq::<i16>::empty(),
    {
        self.samples.clear();
    }
}

/// Model of the audio output: the queued samples and the paused flag.
pub ghost struct OutputModel {
    pub buffer: Seq<i16>,
    pub paused: bool,
}

/// The output side of the player: the sample queue plus the paused flag
/// that the device callback reads.
pub struct AudioOutput {
    ring: RingBuffer,
    paused: bool,
}

impl View for AudioOutput {
    type V = OutputModel;

    closed spec fn view(&self) -> OutputModel {
        OutputModel { buffer: self.ring@, paused: self.paused }
    }
}

impl AudioOutput {
    /// Creates an unpaused output with an empty queue.
    pub fn new() -> (r: AudioOutput)
        ensures
            r@.buffer == Seq::<i16>::empty(),
            !r@.paused,
    {
        AudioOutput { ring: RingBuffer::new(), paused: false }
    }

    /// Appends decoded samples for playback.
    pub fn write_samples(&mut self, samples: &Vec<i16>)
        ensures
            final(self)@.buffer == old(self)@.buffer + samples@,
            final(self)@.paused == old(self)@.paused,
    {
        self.ring.write(samples);
    }

    /// Approximate occupancy, used for backpressure decisions.
    pub fn buffer_len(&self) -> (r: usize)
        ensures
            r == self@.buffer.len(),
    {
        self.ring.len()
    }

    /// Sets the paused flag read by the device callback.
    pub fn set_paused(&mut self, paused: bool)
        ensures
            final(self)@.buffer == old(self)@.buffer,
            final(self)@.paused == paused,
    {
        self.paused = paused;
    }

    /// Reads the paused flag.
    pub fn is_paused(&self) -> (r: bool)
        ensures
            r == self@.paused,
    {
        self.paused
    }

    /// Drops all queued samples; used on stop and on seek so stale audio is
    /// never heard.
    pub fn clear_buffer(&mut self)
        ensures
            final(self)@.buffer == Seq::<i16>::empty(),
            final(self)@.paused == old(self)@.paused,
    {
        self.ring.clear();
    }

    /// The device callback: fills `n` output slots.  While paused every
    /// slot receives silence and the queue is untouched; otherwise queued
    /// samples are played in order and any remaining slots receive silence
    /// (an underrun).
    pub fn render(&mut self, n: usize) -> (out: Vec<i16>)
        ensures
            out@.len() == n,
            final(self)@.paused == old(self)@.paused,
            old(self)@.paused ==> final(self)@.buffer == old(self)@.buffer && out@ == Seq::new(
                n as nat,
                |i: int| SILENCE,
            ),
            !old(self)@.paused ==> ({
                let k = if n <= old(self)@.buffer.len() {
                    n as int
                } else {
                    old(self)@.buffer.len() as int
                };
                &&& final(self)@.buffer == old(self)@.buffer.skip(k)
                &&& out@.take(k) == old(self)@.buffer.take(k)
                &&& forall|i: int| k <= i < n ==> out@[i] == SILENCE
            }),
    {
        let mut out: Vec<i16> = Vec::new();
        if self.paused {
            for j in 0..n
                invariant
                    out@ == Seq::new(j as nat, |i: int| SILENCE),
                    self@ == old(self)@,
                    self@.paused,
            {
                out.push(SILENCE);
                proof {
                    assert(out@ == Seq::new((j + 1) as nat, |i: int| SILENCE));
                }
            }
            return out;
        }
        let ghost k: int = if n <= old(self)@.buffer.len() {
            n as int
        } else {
            old(self)@.buffer.len() as int
        };
        for j in 0..n
            invariant
                out@.len() == j,
                self@.paused == old(self)@.paused,
                !self@.paused,
                k == if n <= old(self)@.buffer.len() {
                    n as int
                } else {
                    old(self)@.buffer.len() as int
                },
                j <= k ==> self@.buffer == old(self)@.buffer.skip(j as int),
                j > k ==> self@.buffer == old(self)@.buffer.skip(k),
                out@.take(if j <= k {
                    j as int
                } else {
                    k
                }) == old(self)@.buffer.take(
                    if j <= k {
                        j as int
                    } else {
                        k
                    },
                ),
                forall|i: int| k <= i < j ==> out@[i] == SILENCE,
        {
            match self.ring.pop() {
                Some(s) => {
                    out.push(s);
                    proof {
                        assert(j < k);
                        assert(old(self)@.buffer.skip(j as int).drop_first() == old(
                            self,
                        )@.buffer.skip(j + 1));
                        assert(out@.take(j + 1) =~= old(self)@.buffer.take(j + 1));
                    }
                },
                None => {
                    out.push(SILENCE);
                    proof {
                        assert(j >= k);
                        assert(out@.take(k) =~= old(self)@.buffer.take(k));
                    }
                },
            }
        }
        out
    }
}

} // verus!
