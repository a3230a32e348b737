//! Sample formats and the sample buffer that every component exchanges.

use vstd::prelude::*;
use crate::codec::{
    decode_i16, decode_i8, decoded_16, decoded_8, encode_i16, encode_i8, encoded_16, encoded_8,
};
use crate::codec::{
    lemma_decode_encode_16, lemma_decode_encode_8, lemma_encode_decode_16, lemma_encode_decode_8,
};
use crate::error::BridgeError;

verus! {

/// PCM sample bit depth.
#[allow(non_camel_case_types)]
#[derive(Debug, Copy, Clone, PartialEq, Eq, Structural)]
pub enum Bitrate {
    Bits_8,
    Bits_16,
}

impl Bitrate {
    /// The number of bits per sample, as it travels on the wire.
    pub open spec fn bits(self) -> u8 {
        match self {
            Bitrate::Bits_8 => 8,
            Bitrate::Bits_16 => 16,
        }
    }

    /// The bit depth that a wire value names, if it names one.
    pub open spec fn of_bits(bits: u8) -> Option<Bitrate> {
        if bits == 8 {
            Some(Bitrate::Bits_8)
        } else if bits == 16 {
            Some(Bitrate::Bits_16)
        } else {
            None
        }
    }

    /// Recovers a bit depth from its wire value; only 8 and 16 name one.
    pub fn from_u8(bitrate: u8) -> (r: Option<Bitrate>)
        ensures
            r == Bitrate::of_bits(bitrate),
    {
        match bitrate {
            8 => Some(Bitrate::Bits_8),
            16 => Some(Bitrate::Bits_16),
            _ => None,
        }
    }

    /// Going to the wire value and back names the same bit depth.
    pub proof fn lemma_bits_round_trip(self)
        ensures
            Bitrate::of_bits(self.bits()) == Some(self),
    {
    }

    /// A wire value that names a bit depth is the wire value of that depth.
    pub proof fn lemma_of_bits_sound(bits: u8)
        ensures
            Bitrate::of_bits(bits) matches Some(b) ==> b.bits() == bits,
            Bitrate::of_bits(bits) is Some <==> bits == 8 || bits == 16,
    {
    }
}

impl From<Bitrate> for u8 {
    fn from(bitrate: Bitrate) -> (bits: u8) {
        match bitrate {
            Bitrate::Bits_8 => 8,
            Bitrate::Bits_16 => 16,
        }
    }
}

impl vstd::std_specs::convert::FromSpecImpl<Bitrate> for u8 {
    open spec fn obeys_from_spec() -> bool {
        true
    }

    open spec fn from_spec(bitrate: Bitrate) -> u8 {
        bitrate.bits()
    }
}

/// Sample rate in hertz.
#[allow(non_camel_case_types)]
#[derive(Debug, Copy, Clone, PartialEq, Eq, Structural)]
pub enum Frequency {
    Freq_8000,
    Freq_16000,
    Freq_22000,
    Freq_44100,
}

impl Frequency {
    /// The rate in hertz, as it travels on the wire.
    pub open spec fn hertz(self) -> u32 {
        match self {
            Frequency::Freq_8000 => 8000,
            Frequency::Freq_16000 => 16000,
            Frequency::Freq_22000 => 22000,
            Frequency::Freq_44100 => 44100,
        }
    }

    /// The sample rate that a wire value names, if it names one.
    pub open spec fn of_hertz(hertz: u32) -> Option<Frequency> {
        if hertz == 8000 {
            Some(Frequency::Freq_8000)
        } else if hertz == 16000 {
            Some(Frequency::Freq_16000)
        } else if hertz == 22000 {
            Some(Frequency::Freq_22000)
        } else if hertz == 44100 {
            Some(Frequency::Freq_44100)
        } else {
            None
        }
    }

    /// Recovers a sample rate from its wire value; only the four listed
    /// rates name one.
    pub fn from_u32(frequency: u32) -> (r: Option<Frequency>)
        ensures
            r == Frequency::of_hertz(frequency),
    {
        match frequency {
            8000 => Some(Frequency::Freq_8000),
            16000 => Some(Frequency::Freq_16000),
            22000 => Some(Frequency::Freq_22000),
            44100 => Some(Frequency::Freq_44100),
            _ => None,
        }
    }

    /// Going to the wire value and back names the same sample rate.
    pub proof fn lemma_hertz_round_trip(self)
        ensures
            Frequency::of_hertz(self.hertz()) == Some(self),
    {
    }

    /// A wire value that names a sample rate is the wire value of that rate.
    pub proof fn lemma_of_hertz_sound(hertz: u32)
        ensures
            Frequency::of_hertz(hertz) matches Some(f) ==> f.hertz() == hertz,
            Frequency::of_hertz(hertz) is Some <==> hertz == 8000 || hertz == 16000 || hertz
                == 22000 || hertz == 44100,
    {
    }
}

impl From<Frequency> for u32 {
    fn from(frequency: Frequency) -> (hertz: u32) {
        match frequency {
            Frequency::Freq_8000 => 8000,
            Frequency::Freq_16000 => 16000,
            Frequency::Freq_22000 => 22000,
            Frequency::Freq_44100 => 44100,
        }
    }
}

impl vstd::std_specs::convert::FromSpecImpl<Frequency> for u32 {
    open spec fn obeys_from_spec() -> bool {
        true
    }

    open spec fn from_spec(frequency: Frequency) -> u32 {
        frequency.hertz()
    }
}

/// What a sample buffer holds: a run of samples of one bit depth.
#[allow(non_camel_case_types)]
pub enum Samples {
    Bits_8(Seq<i8>),
    Bits_16(Seq<i16>),
}

impl Samples {
    /// The bit depth of the samples.
    pub open spec fn bitrate(self) -> Bitrate {
        match self {
            Samples::Bits_8(_) => Bitrate::Bits_8,
            Samples::Bits_16(_) => Bitrate::Bits_16,
        }
    }

    /// The number of samples.
    pub open spec fn len(self) -> nat {
        match self {
            Samples::Bits_8(samples) => samples.len(),
            Samples::Bits_16(samples) => samples.len(),
        }
    }

    /// The bytes that carry the samples on the wire.
    pub open spec fn wire_bytes(self) -> Seq<u8> {
        match self {
            Samples::Bits_8(samples) => encoded_8(samples),
            Samples::Bits_16(samples) => encoded_16(samples),
        }
    }

    /// The samples that a run of bytes carries at a given bit depth. At 16
    /// bits a run of odd length is malformed.
    pub open spec fn from_wire(bitrate: Bitrate, bytes: Seq<u8>) -> Result<Samples, BridgeError> {
        match bitrate {
            Bitrate::Bits_8 => Ok(Samples::Bits_8(decoded_8(bytes))),
            Bitrate::Bits_16 => if bytes.len() % 2 == 0 {
                Ok(Samples::Bits_16(decoded_16(bytes)))
            } else {
                Err(BridgeError::MalformedAudioData)
            },
        }
    }

    /// Reading back the wire form of any samples, at their own bit depth,
    /// succeeds and gives the same samples.
    pub proof fn lemma_wire_round_trip(self)
        ensures
            Samples::from_wire(self.bitrate(), self.wire_bytes()) == Ok::<Samples, BridgeError>(
                self,
            ),
    {
        match self {
            Samples::Bits_8(samples) => {
                lemma_decode_encode_8(samples);
            },
            Samples::Bits_16(samples) => {
                lemma_decode_encode_16(samples);
            },
        }
    }

    /// Samples read from wire bytes have the bit depth they were read at,
    /// and their own wire form is those bytes again.
    pub proof fn lemma_from_wire_sound(bitrate: Bitrate, bytes: Seq<u8>)
        ensures
            Samples::from_wire(bitrate, bytes) matches Ok(samples) ==> samples.bitrate() == bitrate
                && samples.wire_bytes() == bytes,
            Samples::from_wire(bitrate, bytes) is Err <==> bitrate == Bitrate::Bits_16
                && bytes.len() % 2 != 0,
    {
        match bitrate {
            Bitrate::Bits_8 => {
                lemma_encode_decode_8(bytes);
            },
            Bitrate::Bits_16 => {
                if bytes.len() % 2 == 0 {
                    lemma_encode_decode_16(bytes);
                }
            },
        }
    }

    /// The wire form holds one byte per 8-bit sample and two per 16-bit
    /// sample.
    pub proof fn lemma_wire_len(self)
        ensures
            self.wire_bytes().len() == match self.bitrate() {
                Bitrate::Bits_8 => self.len(),
                Bitrate::Bits_16 => 2 * self.len(),
            },
    {
    }
}

/// A buffer of PCM samples, either 8-bit or 16-bit.
#[allow(non_camel_case_types)]
#[derive(Debug, Clone, PartialEq, Eq)]
pub enum Sound {
    Bits_8(Vec<i8>),
    Bits_16(Vec<i16>),
}

impl View for Sound {
    type V = Samples;

    open spec fn view(&self) -> Samples {
        match self {
            Sound::Bits_8(samples) => Samples::Bits_8(samples@),
            Sound::Bits_16(samples) => Samples::Bits_16(samples@),
        }
    }
}

impl Sound {
    /// Takes raw bytes as 8-bit samples, each byte read as a signed sample.
    pub fn from_vec_u8(vec: Vec<u8>) -> (sound: Sound)
        ensures
            sound@ == Samples::Bits_8(decoded_8(vec@)),
    {
        Sound::Bits_8(decode_i8(vec.as_slice()))
    }

    /// Takes 16-bit samples as they are.
    pub fn from_vec_i16(vec: Vec<i16>) -> (sound: Sound)
        ensures
            sound@ == Samples::Bits_16(vec@),
    {
        Sound::Bits_16(vec)
    }

    /// The bit depth of the buffer.
    pub fn bitrate(&self) -> (bitrate: Bitrate)
        ensures
            bitrate == self@.bitrate(),
    {
        match self {
            Sound::Bits_8(_) => Bitrate::Bits_8,
            Sound::Bits_16(_) => Bitrate::Bits_16,
        }
    }

    /// The number of samples in the buffer.
    pub fn len(&self) -> (len: usize)
        ensures
            len == self@.len(),
    {
        match self {
            Sound::Bits_8(samples) => samples.len(),
            Sound::Bits_16(samples) => samples.len(),
        }
    }

    /// The bytes that carry the buffer on the wire.
    pub fn to_bytes(&self) -> (bytes: Vec<u8>)
        ensures
            bytes@ == self@.wire_bytes(),
    {
        match self {
            Sound::Bits_8(samples) => encode_i8(samples.as_slice()),
            Sound::Bits_16(samples) => encode_i16(samples.as_slice()),
        }
    }

    /// Reads a buffer of the given bit depth from wire bytes. Fails with
    /// `MalformedAudioData` exactly when the depth is 16 bits and the number
    /// of bytes is odd.
    pub fn from_bytes(bitrate: Bitrate, bytes: &[u8]) -> (r: Result<Sound, BridgeError>)
        ensures
            match Samples::from_wire(bitrate, bytes@) {
                Ok(samples) => r matches Ok(sound) && sound@ == samples,
                Err(e) => r == Err::<Sound, BridgeError>(e),
            },
    {
        match bitrate {
            Bitrate::Bits_8 => Ok(Sound::Bits_8(decode_i8(bytes))),
            Bitrate::Bits_16 => match decode_i16(bytes) {
                Ok(samples) => Ok(Sound::Bits_16(samples)),
                Err(e) => Err(e),
            },
        }
    }
}

} // verus!
