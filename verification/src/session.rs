//! The life cycles of a recording and of a playback.
//!
//! A session decides; its owner acts. The owner reports what happened as an
//! event, the session moves to its next state and answers with what is to
//! be done. A request that the current state does not allow is refused
//! with `InvalidState` and changes nothing.

use vstd::prelude::*;
use crate::capture::{capture_supported, check_capture_format};
use crate::error::BridgeError;
use crate::format::FormatDescriptor;
use crate::nuance::TtsResponse;
use crate::playback::PlaybackSink;
use crate::types::{Bitrate, Frequency, Samples};

verus! {

/// Where a recording stands.
#[derive(Debug, Copy, Clone, PartialEq, Eq, Structural)]
pub enum RecordingState {
    /// Nothing has been opened.
    Idle,
    /// The device is open and the capture thread delivers buffers.
    Recording,
    /// A stop has been requested; the capture thread is being joined.
    Stopping,
    /// The capture thread has joined and the queue is closed.
    Stopped,
}

/// What the owner of a recording reports.
#[derive(Debug, Copy, Clone, PartialEq, Eq, Structural)]
pub enum RecordingEvent {
    /// The user asks for the recording to begin.
    Start,
    /// The user asks for the recording to end.
    StopRequested,
    /// The capture thread has joined.
    CaptureJoined,
}

/// What the owner of a recording is to do next.
#[derive(Debug, Copy, Clone, PartialEq, Eq, Structural)]
pub enum RecordingAction {
    /// Open the input device and start the capture thread.
    OpenCapture,
    /// Raise the stop flag and join the capture thread.
    SignalStop,
    /// Close the producing end of the hand-off queue.
    CloseQueue,
}

impl RecordingState {
    /// The place of a state in the life cycle, counted from `Idle`.
    pub open spec fn rank(self) -> nat {
        match self {
            RecordingState::Idle => 0,
            RecordingState::Recording => 1,
            RecordingState::Stopping => 2,
            RecordingState::Stopped => 3,
        }
    }

    /// What an event leads to in a state, for a session at the given
    /// sample rate: the next state and the action, or the refusal. A start
    /// is refused with `UnsupportedFormat` where capture does not work at
    /// the rate; every event that the state does not await is refused with
    /// `InvalidState`.
    pub open spec fn after(self, frequency: Frequency, event: RecordingEvent) -> Result<
        (RecordingState, RecordingAction),
        BridgeError,
    > {
        match (self, event) {
            (RecordingState::Idle, RecordingEvent::Start) => if capture_supported(frequency) {
                Ok((RecordingState::Recording, RecordingAction::OpenCapture))
            } else {
                Err(BridgeError::UnsupportedFormat)
            },
            (RecordingState::Recording, RecordingEvent::StopRequested) => Ok(
                (RecordingState::Stopping, RecordingAction::SignalStop),
            ),
            (RecordingState::Stopping, RecordingEvent::CaptureJoined) => Ok(
                (RecordingState::Stopped, RecordingAction::CloseQueue),
            ),
            _ => Err(BridgeError::InvalidState),
        }
    }

    /// Every step that is taken leads to the very next state: none is
    /// skipped and none is revisited.
    pub proof fn lemma_no_state_skipped(self, frequency: Frequency, event: RecordingEvent)
        ensures
            self.after(frequency, event) matches Ok((next, _)) ==> next.rank() == self.rank() + 1,
    {
    }

    /// A stop is accepted while recording and at no other time.
    pub proof fn lemma_stop_needs_recording(self, frequency: Frequency)
        ensures
            self.after(frequency, RecordingEvent::StopRequested) is Ok <==> self
                == RecordingState::Recording,
            self != RecordingState::Recording ==> self.after(
                frequency,
                RecordingEvent::StopRequested,
            ) == Err::<(RecordingState, RecordingAction), BridgeError>(BridgeError::InvalidState),
    {
    }

    /// Recording is entered only at a rate at which capture works.
    pub proof fn lemma_recording_needs_supported_rate(
        self,
        frequency: Frequency,
        event: RecordingEvent,
    )
        ensures
            self.after(frequency, event) matches Ok((next, _)) && next == RecordingState::Recording
                ==> capture_supported(frequency),
    {
    }
}

/// The controller of one recording.
pub struct RecordingSession {
    state: RecordingState,
    bitrate: Bitrate,
    frequency: Frequency,
}

impl RecordingSession {
    /// Where the recording stands.
    pub closed spec fn phase(&self) -> RecordingState {
        self.state
    }

    /// The format that the recording was asked for.
    pub closed spec fn descriptor(&self) -> FormatDescriptor {
        FormatDescriptor { bitrate: self.bitrate, frequency: self.frequency }
    }

    /// Once a session has left `Idle`, its sample rate is one at which
    /// capture works.
    #[verifier::type_invariant]
    spec fn rate_admitted(&self) -> bool {
        self.state != RecordingState::Idle ==> capture_supported(self.frequency)
    }

    /// An idle session for the given format.
    pub fn new(bitrate: Bitrate, frequency: Frequency) -> (session: RecordingSession)
        ensures
            session.phase() == RecordingState::Idle,
            session.descriptor() == (FormatDescriptor { bitrate, frequency }),
    {
        RecordingSession { state: RecordingState::Idle, bitrate, frequency }
    }

    /// Where the recording stands.
    pub fn state(&self) -> (state: RecordingState)
        ensures
            state == self.phase(),
            state != RecordingState::Idle ==> capture_supported(self.descriptor().frequency),
    {
        proof {
            use_type_invariant(self);
        }
        self.state
    }

    /// The format that the recording was asked for.
    pub fn format(&self) -> (descriptor: FormatDescriptor)
        ensures
            descriptor == self.descriptor(),
    {
        FormatDescriptor { bitrate: self.bitrate, frequency: self.frequency }
    }

    /// Takes an event. Where the state awaits it, the session moves on and
    /// answers with the action to perform; where it does not, or where a
    /// start asks for a rate at which capture does not work, the session
    /// stays as it is and answers with the refusal.
    pub fn handle(&mut self, event: RecordingEvent) -> (r: Result<RecordingAction, BridgeError>)
        ensures
            final(self).descriptor() == old(self).descriptor(),
            match old(self).phase().after(old(self).descriptor().frequency, event) {
                Ok((next, action)) => final(self).phase() == next && r == Ok::<
                    RecordingAction,
                    BridgeError,
                >(action),
                Err(e) => final(self).phase() == old(self).phase() && r == Err::<
                    RecordingAction,
                    BridgeError,
                >(e),
            },
    {
        proof {
            use_type_invariant(&*self);
        }
        match (self.state, event) {
            (RecordingState::Idle, RecordingEvent::Start) => {
                match check_capture_format(self.bitrate, self.frequency) {
                    Ok(()) => {
                        self.state = RecordingState::Recording;
                        Ok(RecordingAction::OpenCapture)
                    },
                    Err(e) => Err(e),
                }
            },
            (RecordingState::Recording, RecordingEvent::StopRequested) => {
                self.state = RecordingState::Stopping;
                Ok(RecordingAction::SignalStop)
            },
            (RecordingState::Stopping, RecordingEvent::CaptureJoined) => {
                self.state = RecordingState::Stopped;
                Ok(RecordingAction::CloseQueue)
            },
            _ => Err(BridgeError::InvalidState),
        }
    }
}

/// Where a playback stands.
#[derive(Debug, Copy, Clone, PartialEq, Eq, Structural)]
pub enum PlaybackState {
    /// The request is on its way; no response has come yet.
    Requesting,
    /// A response has come; its format is being negotiated.
    Negotiating,
    /// The decoded samples are being written to the device.
    Playing,
    /// The playback is over, played or abandoned.
    Done,
}

/// How the device fared with a playback.
#[derive(Debug, Copy, Clone, PartialEq, Eq, Structural)]
pub enum DeviceReport {
    /// Every sample was written and the stream was closed.
    Played,
    /// The device does not support the negotiated format.
    FormatRefused,
    /// The device failed while opening, writing or closing.
    Failed,
}

impl DeviceReport {
    /// What a report means for the caller of the playback.
    pub open spec fn verdict(self) -> Result<(), BridgeError> {
        match self {
            DeviceReport::Played => Ok(()),
            DeviceReport::FormatRefused => Err(BridgeError::UnsupportedFormat),
            DeviceReport::Failed => Err(BridgeError::DeviceError),
        }
    }
}

/// The controller of one playback.
pub struct PlaybackSession {
    state: PlaybackState,
}

impl PlaybackSession {
    /// Where the playback stands.
    pub closed spec fn phase(&self) -> PlaybackState {
        self.state
    }

    /// A session whose request has just been sent.
    pub fn new() -> (session: PlaybackSession)
        ensures
            session.phase() == PlaybackState::Requesting,
    {
        PlaybackSession { state: PlaybackState::Requesting }
    }

    /// Where the playback stands.
    pub fn state(&self) -> (state: PlaybackState)
        ensures
            state == self.phase(),
    {
        self.state
    }

    /// Notes that the response has come: negotiation begins. Refused with
    /// `InvalidState` unless the session was waiting for the response.
    pub fn response_received(&mut self) -> (r: Result<(), BridgeError>)
        ensures
            old(self).phase() == PlaybackState::Requesting ==> final(self).phase()
                == PlaybackState::Negotiating && r == Ok::<(), BridgeError>(()),
            old(self).phase() != PlaybackState::Requesting ==> final(self).phase() == old(
                self,
            ).phase() && r == Err::<(), BridgeError>(BridgeError::InvalidState),
    {
        match self.state {
            PlaybackState::Requesting => {
                self.state = PlaybackState::Negotiating;
                Ok(())
            },
            _ => Err(BridgeError::InvalidState),
        }
    }

    /// What negotiating a response leads to: a sink over the samples that
    /// the response carries under its own format, or the failure that ends
    /// the playback.
    pub open spec fn negotiated(
        before: PlaybackState,
        content_type: Seq<char>,
        body: Seq<u8>,
    ) -> Result<(Samples, Frequency), BridgeError> {
        if before == PlaybackState::Negotiating {
            TtsResponse::interpreted(content_type, body)
        } else {
            Err(BridgeError::InvalidState)
        }
    }

    /// Negotiates the format of the response and decodes its body. On
    /// success the session is playing and a sink over the decoded samples
    /// is returned, nothing of it written yet. On a failed negotiation or a
    /// malformed body the playback is over: the bytes are discarded, never
    /// played under a guessed format. Refused with `InvalidState`, and
    /// without effect, unless the session was negotiating.
    pub fn negotiate(&mut self, content_type: &str, body: &[u8]) -> (r: Result<
        PlaybackSink,
        BridgeError,
    >)
        ensures
            match PlaybackSession::negotiated(old(self).phase(), content_type@, body@) {
                Ok((samples, frequency)) => {
                    &&& final(self).phase() == PlaybackState::Playing
                    &&& r matches Ok(sink)
                    &&& sink.samples() == samples
                    &&& sink.rate() == frequency
                    &&& sink.written() == 0
                },
                Err(e) => {
                    &&& r matches Err(found)
                    &&& found == e
                    &&& final(self).phase() == if old(self).phase() == PlaybackState::Negotiating {
                        PlaybackState::Done
                    } else {
                        old(self).phase()
                    }
                },
            },
    {
        match self.state {
            PlaybackState::Negotiating => match TtsResponse::from_response(content_type, body) {
                Ok(response) => {
                    self.state = PlaybackState::Playing;
                    Ok(PlaybackSink::new(response.sound, response.frequency))
                },
                Err(e) => {
                    self.state = PlaybackState::Done;
                    Err(e)
                },
            },
            _ => Err(BridgeError::InvalidState),
        }
    }

    /// Ends the playback with the device's report: played through, refused
    /// for its format (`UnsupportedFormat`), or failed (`DeviceError`).
    /// Refused with `InvalidState`, and without effect, unless the session
    /// was playing.
    pub fn finish(&mut self, report: DeviceReport) -> (r: Result<(), BridgeError>)
        ensures
            old(self).phase() == PlaybackState::Playing ==> final(self).phase()
                == PlaybackState::Done && r == report.verdict(),
            old(self).phase() != PlaybackState::Playing ==> final(self).phase() == old(
                self,
            ).phase() && r == Err::<(), BridgeError>(BridgeError::InvalidState),
    {
        match self.state {
            PlaybackState::Playing => {
                self.state = PlaybackState::Done;
                match report {
                    DeviceReport::Played => Ok(()),
                    DeviceReport::FormatRefused => Err(BridgeError::UnsupportedFormat),
                    DeviceReport::Failed => Err(BridgeError::DeviceError),
                }
            },
            _ => Err(BridgeError::InvalidState),
        }
    }
}

} // verus!
