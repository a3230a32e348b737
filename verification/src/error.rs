//! The ways in which an operation of the bridge can fail.

use vstd::prelude::*;

verus! {

/// Why an operation of the bridge was refused or abandoned.
#[derive(Debug, Copy, Clone, PartialEq, Eq, Structural)]
pub enum BridgeError {
    /// The requested bit depth and sample rate are not supported on this path.
    UnsupportedFormat,
    /// A response did not carry usable `bit` and `rate` parameters.
    FormatNegotiationFailed,
    /// The audio device failed while opening, writing or closing.
    DeviceError,
    /// A 16-bit byte stream ended in the middle of a sample.
    MalformedAudioData,
    /// The session is not in a state that allows the request.
    InvalidState,
}

impl BridgeError {
    /// A short description, for logs and messages.
    pub fn message(&self) -> (text: &'static str)
        ensures
            text@ == self.message_text(),
    {
        match self {
            BridgeError::UnsupportedFormat => "unsupported audio format",
            BridgeError::FormatNegotiationFailed => "format negotiation failed",
            BridgeError::DeviceError => "audio device error",
            BridgeError::MalformedAudioData => "malformed audio data",
            BridgeError::InvalidState => "invalid session state",
        }
    }

    /// The text that `message` returns.
    pub open spec fn message_text(&self) -> Seq<char> {
        match self {
            BridgeError::UnsupportedFormat => "unsupported audio format"@,
            BridgeError::FormatNegotiationFailed => "format negotiation failed"@,
            BridgeError::DeviceError => "audio device error"@,
            BridgeError::MalformedAudioData => "malformed audio data"@,
            BridgeError::InvalidState => "invalid session state"@,
        }
    }
}

} // verus!
