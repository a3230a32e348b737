//! The speech service as the bridge sees it: the settings that a session
//! carries, the format it announces, and what a response turns into.

use vstd::prelude::*;
use std::sync::mpsc::Receiver;
use crate::error::BridgeError;
use crate::format::FormatDescriptor;
use crate::text::{same_text, starts_with};
use crate::types::{Bitrate, Frequency, Samples, Sound};

verus! {

/// Whether a URI already names the `https` scheme.
pub open spec fn has_https_scheme(uri: Seq<char>) -> bool {
    "https:"@.is_prefix_of(uri)
}

/// A URI with the `https` scheme put in front where it names none.
pub open spec fn secured(uri: Seq<char>) -> Seq<char> {
    if has_https_scheme(uri) {
        uri
    } else {
        "https://"@ + uri
    }
}

/// Puts the `https` scheme in front of a URI that does not name it.
fn secure_uri(uri: String) -> (r: String)
    ensures
        r@ == secured(uri@),
{
    if starts_with(uri.as_str(), "https:") {
        uri
    } else {
        String::from_str("https://").concat(uri.as_str())
    }
}

/// A URI that has been secured is left as it is when secured again.
pub proof fn lemma_secured_is_stable(uri: Seq<char>)
    ensures
        has_https_scheme(secured(uri)),
        secured(secured(uri)) == secured(uri),
{
    if !has_https_scheme(uri) {
        reveal_strlit("https:");
        reveal_strlit("https://");
        let whole = "https://"@ + uri;
        assert("https:"@ =~= whole.subrange(0, 6));
    }
}

/// The settings of the speech service: three opaque credentials and the two
/// endpoints.
#[derive(Debug, Clone)]
pub struct NuanceConfig {
    pub app_id: String,
    pub app_key: String,
    pub user_opaque_id: String,
    pub asr_uri: String,
    pub tts_uri: String,
}

impl NuanceConfig {
    /// Whether `self` is `raw` with both endpoints secured and the
    /// credentials untouched.
    pub open spec fn is_sanitized_from(&self, raw: &NuanceConfig) -> bool {
        &&& self.app_id@ == raw.app_id@
        &&& self.app_key@ == raw.app_key@
        &&& self.user_opaque_id@ == raw.user_opaque_id@
        &&& self.asr_uri@ == secured(raw.asr_uri@)
        &&& self.tts_uri@ == secured(raw.tts_uri@)
    }

    /// Makes both endpoints name the `https` scheme.
    pub fn sanitize(self) -> (r: NuanceConfig)
        ensures
            r.is_sanitized_from(&self),
    {
        NuanceConfig {
            app_id: self.app_id,
            app_key: self.app_key,
            user_opaque_id: self.user_opaque_id,
            asr_uri: secure_uri(self.asr_uri),
            tts_uri: secure_uri(self.tts_uri),
        }
    }
}

/// A client of the speech service: the format it asks for and its settings.
pub struct Nuance {
    bitrate: Bitrate,
    frequency: Frequency,
    config: NuanceConfig,
}

impl Nuance {
    /// The format that the client announces in its requests.
    pub closed spec fn descriptor(&self) -> FormatDescriptor {
        FormatDescriptor { bitrate: self.bitrate, frequency: self.frequency }
    }

    /// The settings that the client holds.
    pub closed spec fn settings(&self) -> NuanceConfig {
        self.config
    }

    /// A client at 16 bits and 22000 Hz, with its endpoints secured.
    pub fn new(config: NuanceConfig) -> (nuance: Nuance)
        ensures
            nuance.descriptor() == (FormatDescriptor {
                bitrate: Bitrate::Bits_16,
                frequency: Frequency::Freq_22000,
            }),
            nuance.settings().is_sanitized_from(&config),
    {
        Nuance {
            bitrate: Bitrate::Bits_16,
            frequency: Frequency::Freq_22000,
            config: config.sanitize(),
        }
    }

    /// A client at the given format, with its endpoints secured.
    pub fn with_bitrate_frequency(
        bitrate: Bitrate,
        frequency: Frequency,
        config: NuanceConfig,
    ) -> (nuance: Nuance)
        ensures
            nuance.descriptor() == (FormatDescriptor { bitrate, frequency }),
            nuance.settings().is_sanitized_from(&config),
    {
        Nuance { bitrate, frequency, config: config.sanitize() }
    }

    /// The bit depth that the client asks for.
    pub fn bitrate(&self) -> (bitrate: Bitrate)
        ensures
            bitrate == self.descriptor().bitrate,
    {
        self.bitrate
    }

    /// The sample rate that the client asks for.
    pub fn frequency(&self) -> (frequency: Frequency)
        ensures
            frequency == self.descriptor().frequency,
    {
        self.frequency
    }

    /// The format that the client asks for.
    pub fn format(&self) -> (descriptor: FormatDescriptor)
        ensures
            descriptor == self.descriptor(),
    {
        FormatDescriptor { bitrate: self.bitrate, frequency: self.frequency }
    }

    /// The settings of the service.
    pub fn config(&self) -> (config: &NuanceConfig)
        ensures
            *config == self.settings(),
    {
        &self.config
    }

    /// The audio content type that the client's requests carry: announced
    /// as acceptable when asking for speech, and as the body's type when
    /// sending speech.
    pub fn audio_mime(&self) -> (text: String)
        ensures
            text@ == self.descriptor().content_type_text(),
    {
        self.format().content_type()
    }
}

/// Synthesised speech as it came back: the samples and the rate to play
/// them at.
pub struct TtsResponse {
    pub sound: Sound,
    pub frequency: Frequency,
}

impl TtsResponse {
    /// What a response turns into: its body read at the bit depth that its
    /// own content type negotiates, to be played at the negotiated rate.
    /// The format asked for in the request plays no part.
    pub open spec fn interpreted(content_type: Seq<char>, body: Seq<u8>) -> Result<
        (Samples, Frequency),
        BridgeError,
    > {
        match FormatDescriptor::parsed(content_type) {
            Ok(descriptor) => match Samples::from_wire(descriptor.bitrate, body) {
                Ok(samples) => Ok((samples, descriptor.frequency)),
                Err(e) => Err(e),
            },
            Err(e) => Err(e),
        }
    }

    /// What a response turns into once its format is known.
    pub open spec fn decoded(descriptor: FormatDescriptor, body: Seq<u8>) -> Result<
        (Samples, Frequency),
        BridgeError,
    > {
        match Samples::from_wire(descriptor.bitrate, body) {
            Ok(samples) => Ok((samples, descriptor.frequency)),
            Err(e) => Err(e),
        }
    }

    /// Whether a result of reading a response is the one that the model
    /// gives.
    pub open spec fn agrees(
        r: Result<TtsResponse, BridgeError>,
        expected: Result<(Samples, Frequency), BridgeError>,
    ) -> bool {
        match expected {
            Ok((samples, frequency)) => r matches Ok(response) && response.sound@ == samples
                && response.frequency == frequency,
            Err(e) => r matches Err(found) && found == e,
        }
    }

    /// Reads the body of a response under a format that is already
    /// negotiated.
    pub fn decode(descriptor: FormatDescriptor, body: &[u8]) -> (r: Result<
        TtsResponse,
        BridgeError,
    >)
        ensures
            TtsResponse::agrees(r, TtsResponse::decoded(descriptor, body@)),
    {
        match Sound::from_bytes(descriptor.bitrate, body) {
            Ok(sound) => Ok(TtsResponse { sound, frequency: descriptor.frequency }),
            Err(e) => Err(e),
        }
    }

    /// Reads a response: negotiates the format from its content type, then
    /// reads the body under that format. Fails with
    /// `FormatNegotiationFailed` where the content type names no supported
    /// format, and with `MalformedAudioData` where a 16-bit body has an odd
    /// number of bytes.
    pub fn from_response(content_type: &str, body: &[u8]) -> (r: Result<TtsResponse, BridgeError>)
        ensures
            TtsResponse::agrees(r, TtsResponse::interpreted(content_type@, body@)),
    {
        match FormatDescriptor::parse(content_type) {
            Ok(descriptor) => TtsResponse::decode(descriptor, body),
            Err(e) => Err(e),
        }
    }
}

/// Recognised speech on its way back: the consuming end of the queue on
/// which the lines of the transcript arrive.
pub struct SttResponse {
    pub text_receiver: Receiver<String>,
}

/// Where the audio of a dictation comes from.
#[derive(Debug, Clone, Copy, PartialEq, Eq, Structural, PartialOrd, Ord)]
pub enum DictationAudioSource {
    SpeakerAndMicrophone,
    HeadsetInOut,
    HeadsetBT,
    HeadPhone,
    LineOut,
}

impl DictationAudioSource {
    /// The name of the source, as it is written in a header.
    pub open spec fn name_text(self) -> Seq<char> {
        match self {
            DictationAudioSource::SpeakerAndMicrophone => "SpeakerAndMicrophone"@,
            DictationAudioSource::HeadsetInOut => "HeadsetInOut"@,
            DictationAudioSource::HeadsetBT => "HeadsetBT"@,
            DictationAudioSource::HeadPhone => "HeadPhone"@,
            DictationAudioSource::LineOut => "LineOut"@,
        }
    }

    /// The source that a text names, if it names one.
    pub open spec fn of_name(text: Seq<char>) -> Option<DictationAudioSource> {
        if text == "SpeakerAndMicrophone"@ {
            Some(DictationAudioSource::SpeakerAndMicrophone)
        } else if text == "HeadsetInOut"@ {
            Some(DictationAudioSource::HeadsetInOut)
        } else if text == "HeadsetBT"@ {
            Some(DictationAudioSource::HeadsetBT)
        } else if text == "HeadPhone"@ {
            Some(DictationAudioSource::HeadPhone)
        } else if text == "LineOut"@ {
            Some(DictationAudioSource::LineOut)
        } else {
            None
        }
    }

    /// The name of the source, as it is written in a header.
    pub fn name(&self) -> (text: &'static str)
        ensures
            text@ == self.name_text(),
    {
        match self {
            DictationAudioSource::SpeakerAndMicrophone => "SpeakerAndMicrophone",
            DictationAudioSource::HeadsetInOut => "HeadsetInOut",
            DictationAudioSource::HeadsetBT => "HeadsetBT",
            DictationAudioSource::HeadPhone => "HeadPhone",
            DictationAudioSource::LineOut => "LineOut",
        }
    }

    /// Reads a source from its name; the name must match exactly.
    pub fn from_str(s: &str) -> (r: Result<DictationAudioSource, &'static str>)
        ensures
            match DictationAudioSource::of_name(s@) {
                Some(source) => r == Ok::<DictationAudioSource, &'static str>(source),
                None => r matches Err(message) && message@ == "Unknown DictationAudioSource"@,
            },
    {
        if same_text(s, "SpeakerAndMicrophone") {
            Ok(DictationAudioSource::SpeakerAndMicrophone)
        } else if same_text(s, "HeadsetInOut") {
            Ok(DictationAudioSource::HeadsetInOut)
        } else if same_text(s, "HeadsetBT") {
            Ok(DictationAudioSource::HeadsetBT)
        } else if same_text(s, "HeadPhone") {
            Ok(DictationAudioSource::HeadPhone)
        } else if same_text(s, "LineOut") {
            Ok(DictationAudioSource::LineOut)
        } else {
            Err("Unknown DictationAudioSource")
        }
    }

    /// Every source is read back from its own name.
    pub proof fn lemma_name_round_trip(self)
        ensures
            DictationAudioSource::of_name(self.name_text()) == Some(self),
    {
        reveal_strlit("SpeakerAndMicrophone");
        reveal_strlit("HeadsetInOut");
        reveal_strlit("HeadsetBT");
        reveal_strlit("HeadPhone");
        reveal_strlit("LineOut");
        assert("SpeakerAndMicrophone"@.len() == 20);
        assert("HeadsetInOut"@.len() == 12);
        assert("HeadsetBT"@.len() == 9);
        assert("HeadPhone"@.len() == 9);
        assert("LineOut"@.len() == 7);
        assert("HeadsetBT"@[4] == 's' && "HeadPhone"@[4] == 'P');
    }
}

} // verus!
