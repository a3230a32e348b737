//! The capture source: what happens each time the input device delivers a
//! buffer.
//!
//! The device's callback must never stall. Every delivered buffer is
//! offered to the hand-off queue without waiting; then the callback tells
//! the device whether to go on. A stop request is honoured at the first
//! callback that sees it, and the buffer delivered with that callback is
//! still passed on.

use vstd::prelude::*;
use std::sync::mpsc::Sender;
use crate::error::BridgeError;
use crate::types::{Bitrate, Frequency, Samples, Sound};

verus! {

/// Makes `std::sync::mpsc::Sender`, the producing end of a queue, known to
/// Verus as a type whose inside it does not see.
#[verifier::external_type_specification]
#[verifier::external_body]
#[verifier::reject_recursive_types(T)]
pub struct ExSender<T>(Sender<T>);

/// Hands a buffer to `std::sync::mpsc::Sender::send`, which never waits.
/// The result says whether the queue took it; it does not once the
/// receiving end is gone, which depends on the other side, so nothing is
/// claimed of it.
#[verifier::external_body]
fn offer(sender: &Sender<Sound>, sound: Sound) -> (taken: bool) {
    sender.send(sound).is_ok()
}

/// Whether the capture path works at a sample rate: it does at 8000 Hz and
/// at 16000 Hz only.
pub open spec fn capture_supported(frequency: Frequency) -> bool {
    frequency == Frequency::Freq_8000 || frequency == Frequency::Freq_16000
}

/// Admits a format to capture, or refuses it with `UnsupportedFormat`. The
/// decision falls before any device is touched and rests on the sample
/// rate alone.
pub fn check_capture_format(bitrate: Bitrate, frequency: Frequency) -> (r: Result<(), BridgeError>)
    ensures
        capture_supported(frequency) ==> r == Ok::<(), BridgeError>(()),
        !capture_supported(frequency) ==> r == Err::<(), BridgeError>(
            BridgeError::UnsupportedFormat,
        ),
{
    match frequency {
        Frequency::Freq_8000 | Frequency::Freq_16000 => Ok(()),
        _ => Err(BridgeError::UnsupportedFormat),
    }
}

/// What a callback tells the device.
#[derive(Debug, Copy, Clone, PartialEq, Eq, Structural)]
pub enum CallbackResult {
    /// Keep delivering buffers.
    Continue,
    /// Deliver no more buffers.
    Complete,
}

/// What one callback came to.
#[derive(Debug, Copy, Clone, PartialEq, Eq, Structural)]
pub struct CaptureOutcome {
    /// What the device is told.
    pub result: CallbackResult,
    /// Whether the queue took the buffer.
    pub delivered: bool,
}

/// What the device is told: to finish once a stop has been requested, to go
/// on otherwise.
pub open spec fn callback_result(stop_requested: bool) -> CallbackResult {
    if stop_requested {
        CallbackResult::Complete
    } else {
        CallbackResult::Continue
    }
}

/// The producing end of the hand-off queue, as the device's callback uses
/// it during one session.
pub struct CaptureSource {
    sender: Sender<Sound>,
    bitrate: Bitrate,
    offered: Ghost<Seq<Samples>>,
}

impl CaptureSource {
    /// Every buffer that a source has offered has the bit depth of its
    /// session.
    #[verifier::type_invariant]
    spec fn one_depth(&self) -> bool {
        forall|i: int|
            0 <= i < self.offered@.len() ==> (#[trigger] self.offered@[i]).bitrate()
                == self.bitrate
    }

    /// The bit depth of the session.
    pub closed spec fn depth(&self) -> Bitrate {
        self.bitrate
    }

    /// The buffers offered to the queue so far, in order.
    pub closed spec fn offered(&self) -> Seq<Samples> {
        self.offered@
    }

    /// Whether every buffer offered so far has the bit depth of the
    /// session. This holds of a source in every state.
    pub open spec fn uniform(&self) -> bool {
        forall|i: int|
            0 <= i < self.offered().len() ==> (#[trigger] self.offered()[i]).bitrate()
                == self.depth()
    }

    /// A source over the producing end of the hand-off queue, for a session
    /// at the given bit depth, with nothing offered yet.
    pub fn new(sender: Sender<Sound>, bitrate: Bitrate) -> (source: CaptureSource)
        ensures
            source.depth() == bitrate,
            source.offered() == Seq::<Samples>::empty(),
    {
        CaptureSource { sender, bitrate, offered: Ghost(Seq::empty()) }
    }

    /// The bit depth of the session.
    pub fn bitrate(&self) -> (bitrate: Bitrate)
        ensures
            bitrate == self.depth(),
            self.uniform(),
    {
        proof {
            use_type_invariant(self);
        }
        self.bitrate
    }

    /// Settles one callback once the queue has answered: the device is told
    /// to finish exactly when a stop has been requested, whether or not the
    /// queue took the buffer.
    pub fn settle(delivered: bool, stop_requested: bool) -> (outcome: CaptureOutcome)
        ensures
            outcome == (CaptureOutcome { result: callback_result(stop_requested), delivered }),
    {
        let result: CallbackResult = if stop_requested {
            CallbackResult::Complete
        } else {
            CallbackResult::Continue
        };
        CaptureOutcome { result, delivered }
    }

    /// Handles one callback of the device. A buffer of the session's bit
    /// depth is offered to the queue, without waiting, even when a stop
    /// has been requested. A buffer of another bit depth is kept off the
    /// queue and counts as not delivered. Either way the device is told
    /// whether to go on.
    pub fn on_chunk(&mut self, chunk: Sound, stop_requested: bool) -> (outcome: CaptureOutcome)
        ensures
            final(self).depth() == old(self).depth(),
            final(self).uniform(),
            outcome.result == callback_result(stop_requested),
            chunk@.bitrate() == old(self).depth() ==> final(self).offered() == old(
                self,
            ).offered().push(chunk@),
            chunk@.bitrate() != old(self).depth() ==> final(self).offered() == old(self).offered()
                && !outcome.delivered,
    {
        proof {
            use_type_invariant(&*self);
        }
        let delivered: bool = match (chunk.bitrate(), self.bitrate) {
            (Bitrate::Bits_8, Bitrate::Bits_8) | (Bitrate::Bits_16, Bitrate::Bits_16) => {
                self.offered = Ghost(self.offered@.push(chunk@));
                offer(&self.sender, chunk)
            },
            _ => false,
        };
        CaptureSource::settle(delivered, stop_requested)
    }

    /// Handles one callback of a device that delivers 16-bit frames: the
    /// frames are taken as a 16-bit buffer and handled as `on_chunk` does.
    pub fn on_buffer(&mut self, buffer: Vec<i16>, stop_requested: bool) -> (outcome: CaptureOutcome)
        ensures
            final(self).depth() == old(self).depth(),
            final(self).uniform(),
            outcome.result == callback_result(stop_requested),
            old(self).depth() == Bitrate::Bits_16 ==> final(self).offered() == old(
                self,
            ).offered().push(Samples::Bits_16(buffer@)),
            old(self).depth() != Bitrate::Bits_16 ==> final(self).offered() == old(self).offered()
                && !outcome.delivered,
    {
        self.on_chunk(Sound::from_vec_i16(buffer), stop_requested)
    }
}

} // verus!
