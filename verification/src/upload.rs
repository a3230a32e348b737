//! The upload adapter: captured buffers in, a byte stream out.
//!
//! The adapter takes sample buffers off the hand-off queue one at a time,
//! stages the wire bytes of each, and copies them into whatever destination
//! the caller offers, however large or small. The bytes leave in the order
//! in which the buffers arrived, and none is lost or repeated.

use vstd::prelude::*;
use std::sync::mpsc::Receiver;
use crate::types::{Samples, Sound};

verus! {

/// Makes `std::sync::mpsc::Receiver`, the consuming end of a queue, known to
/// Verus as a type whose inside it does not see.
#[verifier::external_type_specification]
#[verifier::external_body]
#[verifier::reject_recursive_types(T)]
pub struct ExReceiver<T>(Receiver<T>);

/// Waits on `std::sync::mpsc::Receiver::recv` for the next buffer. `None`
/// means that every sender is gone and the queue is drained. What arrives
/// depends on the sending side, so nothing is claimed of it.
#[verifier::external_body]
fn next_buffer(receiver: &Receiver<Sound>) -> (r: Option<Sound>) {
    receiver.recv().ok()
}

/// The byte stream that a run of buffers makes: the wire bytes of each, one
/// after the other.
pub open spec fn stream_of(buffers: Seq<Samples>) -> Seq<u8>
    decreases buffers.len(),
{
    if buffers.len() == 0 {
        Seq::empty()
    } else {
        stream_of(buffers.drop_last()) + buffers.last().wire_bytes()
    }
}

/// What came off the queue, as samples.
pub open spec fn arrival_view(arrival: Option<Sound>) -> Option<Samples> {
    match arrival {
        Some(sound) => Some(sound@),
        None => None,
    }
}

/// The smaller of two lengths.
pub open spec fn min_len(a: int, b: int) -> int {
    if a <= b {
        a
    } else {
        b
    }
}

/// A pull-based byte source over a queue of sample buffers.
pub struct ReceiverBody {
    receiver: Receiver<Sound>,
    current: Option<Vec<u8>>,
    counter: usize,
    received: Ghost<Seq<Samples>>,
}

impl ReceiverBody {
    /// A staged buffer holds the wire bytes of the buffer received last,
    /// and the cursor lies within it; with nothing staged the cursor is at
    /// zero.
    #[verifier::type_invariant]
    spec fn staged_is_last_received(&self) -> bool {
        match self.current {
            Some(bytes) => {
                &&& self.received@.len() > 0
                &&& bytes@ == self.received@.last().wire_bytes()
                &&& self.counter <= bytes@.len()
            },
            None => self.counter == 0,
        }
    }

    /// The wire bytes of the buffer that is staged, if one is.
    pub closed spec fn staged(&self) -> Option<Seq<u8>> {
        match self.current {
            Some(bytes) => Some(bytes@),
            None => None,
        }
    }

    /// How many bytes of the staged buffer have been handed out.
    pub closed spec fn cursor(&self) -> nat {
        self.counter as nat
    }

    /// The buffers taken off the queue so far, in order of arrival.
    pub closed spec fn received(&self) -> Seq<Samples> {
        self.received@
    }

    /// The bytes handed out so far, in order: the stream of the buffers
    /// received, short of what is still staged.
    pub closed spec fn delivered(&self) -> Seq<u8> {
        match self.current {
            Some(bytes) => stream_of(self.received@.drop_last()) + bytes@.take(self.counter as int),
            None => stream_of(self.received@),
        }
    }

    /// The bytes of the staged buffer that are still to be handed out.
    pub open spec fn pending(&self) -> Seq<u8> {
        match self.staged() {
            Some(bytes) => bytes.skip(self.cursor() as int),
            None => Seq::empty(),
        }
    }

    /// What holds of an adapter in every state: the cursor lies within the
    /// staged buffer, and what was handed out, followed by what is still
    /// staged, is the stream of the buffers received.
    pub open spec fn consistent(&self) -> bool {
        &&& self.staged() matches Some(bytes) ==> self.cursor() <= bytes.len()
        &&& self.delivered() + self.pending() == stream_of(self.received())
    }

    /// What a pull leaves behind when it copies the first `n` bytes of
    /// `pending` into a destination that held `dest_before`.
    pub open spec fn copied(
        before: &ReceiverBody,
        after: &ReceiverBody,
        pending: Seq<u8>,
        dest_before: Seq<u8>,
        dest_after: Seq<u8>,
        n: int,
    ) -> bool {
        &&& n == min_len(pending.len() as int, dest_before.len() as int)
        &&& dest_after == pending.take(n) + dest_before.skip(n)
        &&& after.delivered() == before.delivered() + pending.take(n)
        &&& after.pending() == pending.skip(n)
        &&& after.staged() is None <==> n == pending.len()
    }

    /// What a pull does once the wait on the queue has ended with `arrival`:
    /// on a closed queue nothing changes and no byte is handed out; on a
    /// buffer, the buffer joins those received and its first bytes are
    /// copied.
    pub open spec fn served(
        before: &ReceiverBody,
        after: &ReceiverBody,
        arrival: Option<Samples>,
        dest_before: Seq<u8>,
        dest_after: Seq<u8>,
        n: int,
    ) -> bool {
        match arrival {
            None => {
                &&& n == 0
                &&& dest_after == dest_before
                &&& after.received() == before.received()
                &&& after.delivered() == before.delivered()
                &&& after.staged() is None
            },
            Some(samples) => {
                &&& after.received() == before.received().push(samples)
                &&& ReceiverBody::copied(
                    before,
                    after,
                    samples.wire_bytes(),
                    dest_before,
                    dest_after,
                    n,
                )
            },
        }
    }

    /// Derives the public statement of consistency from the invariant.
    proof fn lemma_invariant_is_consistent(&self)
        requires
            self.staged_is_last_received(),
        ensures
            self.consistent(),
    {
        match self.current {
            Some(bytes) => {
                let cut = self.counter as int;
                assert(bytes@.take(cut) + bytes@.skip(cut) =~= bytes@);
                assert(self.delivered() + self.pending() =~= stream_of(self.received@.drop_last())
                    + bytes@);
            },
            None => {
                assert(self.delivered() + self.pending() =~= stream_of(self.received@));
            },
        }
    }

    /// An adapter over the consuming end of the hand-off queue, with nothing
    /// staged, nothing received and nothing handed out.
    pub fn new(receiver: Receiver<Sound>) -> (body: ReceiverBody)
        ensures
            body.consistent(),
            body.staged() is None,
            body.received() == Seq::<Samples>::empty(),
            body.delivered() == Seq::<u8>::empty(),
    {
        let body = ReceiverBody {
            receiver,
            current: None,
            counter: 0,
            received: Ghost(Seq::empty()),
        };
        proof {
            body.lemma_invariant_is_consistent();
        }
        body
    }

    /// Whether a buffer is staged.
    pub fn is_staged(&self) -> (staged: bool)
        ensures
            staged == self.staged() is Some,
    {
        self.current.is_some()
    }

    /// Copies pending bytes of the staged buffer into `dest`: as many as
    /// are pending, or as many as `dest` holds if that is fewer. A staged
    /// buffer that is thereby exhausted is dropped.
    pub fn clone_to_buffer(&mut self, dest: &mut [u8]) -> (n: usize)
        requires
            old(self).staged() is Some,
        ensures
            old(self).consistent(),
            final(self).consistent(),
            final(self).received() == old(self).received(),
            ReceiverBody::copied(
                old(self),
                final(self),
                old(self).pending(),
                old(dest)@,
                final(dest)@,
                n as int,
            ),
    {
        proof {
            use_type_invariant(&*self);
            self.lemma_invariant_is_consistent();
        }
        let ghost pending = self.pending();
        let ghost staged = self.staged()->0;
        let ghost dest_before = dest@;
        let counter: usize = self.counter;
        let (written_length, source_length) = {
            let source: &Vec<u8> = self.current.as_ref().unwrap();
            let available: usize = source.len() - counter;
            let length: usize = if available <= dest.len() {
                available
            } else {
                dest.len()
            };
            let mut i: usize = 0;
            while i < length
                invariant
                    i <= length,
                    length <= dest.len(),
                    counter + length <= source.len(),
                    dest@.len() == dest_before.len(),
                    pending == source@.skip(counter as int),
                    dest@ == pending.take(i as int) + dest_before.skip(i as int),
                decreases length - i,
            {
                dest[i] = source[counter + i];
                i += 1;
                assert(dest@ =~= pending.take(i as int) + dest_before.skip(i as int));
            }
            (length, source.len())
        };
        let ghost earlier = stream_of(self.received@.drop_last());
        let ghost taken = pending.take(written_length as int);
        self.counter = counter + written_length;
        proof {
            assert(staged.take(counter + written_length) =~= staged.take(counter as int) + taken);
            assert(self.pending() =~= pending.skip(written_length as int));
            assert(self.delivered() =~= old(self).delivered() + taken) by {
                assert(earlier + (staged.take(counter as int) + taken) =~= (earlier + staged.take(
                    counter as int,
                )) + taken);
            }
        }
        if self.counter >= source_length {
            self.counter = 0;
            self.current = None;
            proof {
                assert(taken =~= pending);
                assert(staged.take(counter as int) + pending =~= staged);
                assert(self.pending() =~= pending.skip(written_length as int));
                assert(self.delivered() =~= old(self).delivered() + taken) by {
                    assert(earlier + staged =~= (earlier + staged.take(counter as int)) + pending);
                }
            }
        }
        proof {
            use_type_invariant(&*self);
            self.lemma_invariant_is_consistent();
        }
        written_length
    }

    /// Serves a pull with what the wait on the queue produced, when nothing
    /// is staged: `None` for a closed queue, or the buffer that arrived.
    pub fn read_next(&mut self, arrival: Option<Sound>, buf: &mut [u8]) -> (n: usize)
        requires
            old(self).staged() is None,
        ensures
            old(self).consistent(),
            final(self).consistent(),
            ReceiverBody::served(
                old(self),
                final(self),
                arrival_view(arrival),
                old(buf)@,
                final(buf)@,
                n as int,
            ),
    {
        proof {
            use_type_invariant(&*self);
            self.lemma_invariant_is_consistent();
        }
        match arrival {
            None => 0,
            Some(sound) => {
                let bytes: Vec<u8> = sound.to_bytes();
                self.received = Ghost(self.received@.push(sound@));
                self.current = Some(bytes);
                proof {
                    assert(self.received().drop_last() =~= old(self).received());
                    assert(self.pending() =~= sound@.wire_bytes());
                    assert(self.delivered() =~= old(self).delivered());
                }
                self.clone_to_buffer(buf)
            },
        }
    }

    /// Pulls the next bytes of the stream into `buf` and returns how many
    /// were copied. With nothing staged it first waits on the queue for the
    /// next buffer; a closed queue ends the stream with 0 bytes.
    pub fn read(&mut self, buf: &mut [u8]) -> (n: usize)
        ensures
            old(self).consistent(),
            final(self).consistent(),
            old(self).staged() is Some ==> final(self).received() == old(self).received()
                && ReceiverBody::copied(
                old(self),
                final(self),
                old(self).pending(),
                old(buf)@,
                final(buf)@,
                n as int,
            ),
            old(self).staged() is None ==> exists|arrival: Option<Samples>|
                ReceiverBody::served(
                    old(self),
                    final(self),
                    arrival,
                    old(buf)@,
                    final(buf)@,
                    n as int,
                ),
    {
        if self.current.is_none() {
            let arrival: Option<Sound> = next_buffer(&self.receiver);
            let ghost arrived: Option<Samples> = arrival_view(arrival);
            let n: usize = self.read_next(arrival, buf);
            assert(ReceiverBody::served(old(self), self, arrived, old(buf)@, buf@, n as int));
            n
        } else {
            self.clone_to_buffer(buf)
        }
    }

    /// In every consistent state the bytes handed out are the front of the
    /// stream of the buffers received, and between buffers they are the
    /// whole of it.
    pub proof fn lemma_delivered_in_order(&self)
        requires
            self.consistent(),
        ensures
            self.delivered().len() <= stream_of(self.received()).len(),
            self.delivered() == stream_of(self.received()).take(self.delivered().len() as int),
            self.staged() is None ==> self.delivered() == stream_of(self.received()),
    {
        let stream = stream_of(self.received());
        assert(stream =~= self.delivered() + self.pending());
        assert(self.delivered() =~= stream.take(self.delivered().len() as int));
        if self.staged() is None {
            assert(self.delivered() =~= stream);
        }
    }
}

/// The stream of a run of buffers grows by the wire bytes of each buffer
/// that joins the run.
pub proof fn lemma_stream_of_push(buffers: Seq<Samples>, next: Samples)
    ensures
        stream_of(buffers.push(next)) == stream_of(buffers) + next.wire_bytes(),
{
    assert(buffers.push(next).drop_last() =~= buffers);
}

} // verus!
