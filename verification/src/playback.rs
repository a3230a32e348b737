//! The playback sink: a decoded buffer drained into an output device that
//! says, each time it is asked, how many frames it can take.
//!
//! The sink never asks the device to take more than it offered, nor more
//! than is left, and it advances only by what it asked the device to take.

use vstd::prelude::*;
use crate::types::{Frequency, Samples, Sound};

verus! {

/// What an output device answers when asked how much it can take.
#[derive(Debug, Copy, Clone, PartialEq, Eq, Structural)]
pub enum StreamAvailable {
    /// The device can take this many frames.
    Frames(i64),
    /// The device reports an input overflow; the question is to be asked
    /// again.
    InputOverflowed,
    /// The device reports an output underflow; the question is to be asked
    /// again.
    OutputUnderflowed,
}

/// What to do after an answer of the device.
#[derive(Debug, Copy, Clone, PartialEq, Eq, Structural)]
pub enum WriteStep {
    /// Write nothing; ask the device again.
    Retry,
    /// Write `frames` samples, starting with the sample at `start`.
    Write { start: usize, frames: u32 },
}

/// How many frames to write when the device offers `available` and
/// `remaining` are left: the smaller of the two, and never more than one
/// write can carry. An offer below zero counts as none.
pub open spec fn frames_to_write(available: int, remaining: int) -> int {
    let offered = if available < 0 {
        0
    } else if available > u32::MAX {
        u32::MAX as int
    } else {
        available
    };
    if offered <= remaining {
        offered
    } else {
        remaining
    }
}

/// How many writes drain `remaining` samples into a device that offers `n`
/// frames every time it is asked.
pub open spec fn writes_needed(remaining: nat, n: int) -> nat
    decreases remaining,
{
    if remaining == 0 || n <= 0 {
        0
    } else {
        1 + writes_needed((remaining - frames_to_write(n, remaining as int)) as nat, n)
    }
}

/// A decoded buffer on its way into an output device.
pub struct PlaybackSink {
    sound: Sound,
    frequency: Frequency,
    count: usize,
}

impl PlaybackSink {
    /// The samples that the sink drains.
    pub closed spec fn samples(&self) -> Samples {
        self.sound@
    }

    /// The rate at which the samples are to be played.
    pub closed spec fn rate(&self) -> Frequency {
        self.frequency
    }

    /// How many samples have been written so far.
    pub closed spec fn written(&self) -> nat {
        self.count as nat
    }

    /// How many samples are still to be written.
    pub open spec fn remaining(&self) -> int {
        self.samples().len() - self.written()
    }

    /// The sink never holds a count of written samples beyond its buffer.
    #[verifier::type_invariant]
    spec fn within_buffer(&self) -> bool {
        self.count <= self.sound@.len()
    }

    /// A sink over a decoded buffer, with nothing written yet.
    pub fn new(sound: Sound, frequency: Frequency) -> (sink: PlaybackSink)
        ensures
            sink.samples() == sound@,
            sink.rate() == frequency,
            sink.written() == 0,
    {
        PlaybackSink { sound, frequency, count: 0 }
    }

    /// The buffer that the sink drains.
    pub fn sound(&self) -> (sound: &Sound)
        ensures
            sound@ == self.samples(),
    {
        &self.sound
    }

    /// The rate at which the device is to be opened.
    pub fn frequency(&self) -> (frequency: Frequency)
        ensures
            frequency == self.rate(),
    {
        self.frequency
    }

    /// How many samples have been written so far.
    pub fn position(&self) -> (count: usize)
        ensures
            count == self.written(),
            count <= self.samples().len(),
    {
        proof {
            use_type_invariant(self);
        }
        self.count
    }

    /// Whether every sample has been written.
    pub fn is_done(&self) -> (done: bool)
        ensures
            done == (self.remaining() == 0),
    {
        proof {
            use_type_invariant(self);
        }
        self.count >= self.sound.len()
    }

    /// Decides the next step from the device's answer. On a number of
    /// frames the sink asks for a write of as many samples as the device
    /// offers, or of all that is left if that is fewer, and moves on by
    /// that many. On an overflow or underflow report nothing is written.
    pub fn next_write(&mut self, available: StreamAvailable) -> (step: WriteStep)
        ensures
            0 <= old(self).remaining(),
            final(self).samples() == old(self).samples(),
            final(self).rate() == old(self).rate(),
            match available {
                StreamAvailable::Frames(offered) => {
                    &&& step == (WriteStep::Write {
                        start: old(self).written() as usize,
                        frames: frames_to_write(offered as int, old(self).remaining()) as u32,
                    })
                    &&& final(self).written() == old(self).written() + frames_to_write(
                        offered as int,
                        old(self).remaining(),
                    )
                },
                _ => step == WriteStep::Retry && final(self).written() == old(self).written(),
            },
    {
        proof {
            use_type_invariant(&*self);
        }
        match available {
            StreamAvailable::Frames(offered) => {
                let remaining: usize = self.sound.len() - self.count;
                let offer: u32 = if offered < 0 {
                    0
                } else if offered > 0xffff_ffff {
                    0xffff_ffff
                } else {
                    offered as u32
                };
                let frames: u32 = if offer as usize <= remaining {
                    offer
                } else {
                    remaining as u32
                };
                let start: usize = self.count;
                self.count = start + frames as usize;
                WriteStep::Write { start, frames }
            },
            StreamAvailable::InputOverflowed => WriteStep::Retry,
            StreamAvailable::OutputUnderflowed => WriteStep::Retry,
        }
    }

    /// No write asks for more than the device offered, nor for more than
    /// is left.
    pub proof fn lemma_write_is_bounded(available: int, remaining: int)
        requires
            0 <= remaining,
        ensures
            0 <= frames_to_write(available, remaining) <= remaining,
            available >= 0 ==> frames_to_write(available, remaining) <= available,
            frames_to_write(available, remaining) <= u32::MAX,
    {
    }

    /// A device that offers `n` frames every time it is asked, with `n`
    /// above zero and within what one write can carry, is drained into
    /// with exactly `ceil(total / n)` writes.
    pub proof fn lemma_steady_device_write_count(total: nat, n: int)
        requires
            0 < n <= u32::MAX,
        ensures
            writes_needed(total, n) == (total + n - 1) / n,
        decreases total,
    {
        if total == 0 {
            assert((n - 1) / n == 0) by (nonlinear_arith)
                requires
                    0 < n,
            ;
        } else if total <= n {
            assert(frames_to_write(n, total as int) == total);
            assert(writes_needed(0, n) == 0);
            assert((total + n - 1) / n == 1) by (nonlinear_arith)
                requires
                    0 < total <= n,
            ;
        } else {
            let rest = (total - n) as nat;
            assert(frames_to_write(n, total as int) == n);
            PlaybackSink::lemma_steady_device_write_count(rest, n);
            assert((total + n - 1) / n == (rest + n - 1) / n + 1) by (nonlinear_arith)
                requires
                    0 < n,
                    rest == total - n,
            ;
        }
    }
}

} // verus!
