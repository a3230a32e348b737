//! PCM samples on the wire.
//!
//! An 8-bit sample travels as the byte with the same bits. A 16-bit sample
//! travels as two bytes, low byte first. Both directions are exact inverses
//! of each other.

use vstd::prelude::*;
use byteorder::ByteOrder;
use byteorder::LittleEndian;
use crate::error::BridgeError;

verus! {

/// The byte that has the bits of a signed 8-bit sample (two's complement).
pub open spec fn byte_of_i8(sample: i8) -> u8 {
    if sample >= 0 {
        sample as u8
    } else {
        (sample + 256) as u8
    }
}

/// The signed 8-bit sample that has the bits of a byte.
pub open spec fn i8_of_byte(byte: u8) -> i8 {
    if byte < 128 {
        byte as i8
    } else {
        (byte - 256) as i8
    }
}

/// The unsigned 16-bit word that has the bits of a signed 16-bit sample.
pub open spec fn word_of_i16(sample: i16) -> u16 {
    if sample >= 0 {
        sample as u16
    } else {
        (sample + 65536) as u16
    }
}

/// The signed 16-bit sample that has the bits of an unsigned word.
pub open spec fn i16_of_word(word: u16) -> i16 {
    if word < 32768 {
        word as i16
    } else {
        (word - 65536) as i16
    }
}

/// The two bytes of a 16-bit sample in little-endian order.
pub open spec fn le_bytes_of_i16(sample: i16) -> Seq<u8> {
    seq![(word_of_i16(sample) % 256) as u8, (word_of_i16(sample) / 256) as u8]
}

/// The 16-bit sample whose little-endian bytes are `low`, `high`.
pub open spec fn i16_of_le_bytes(low: u8, high: u8) -> i16 {
    i16_of_word((low + 256 * high) as u16)
}

/// The wire form of a run of 8-bit samples: one byte each, in order.
pub open spec fn encoded_8(samples: Seq<i8>) -> Seq<u8> {
    Seq::new(samples.len(), |i: int| byte_of_i8(samples[i]))
}

/// The 8-bit samples that a run of bytes carries: one per byte, in order.
pub open spec fn decoded_8(bytes: Seq<u8>) -> Seq<i8> {
    Seq::new(bytes.len(), |i: int| i8_of_byte(bytes[i]))
}

/// The wire form of a run of 16-bit samples: two bytes each, low byte
/// first, in order.
pub open spec fn encoded_16(samples: Seq<i16>) -> Seq<u8> {
    Seq::new(2 * samples.len(), |i: int| le_bytes_of_i16(samples[i / 2])[i % 2])
}

/// The 16-bit samples that a run of bytes carries, pair by pair. Only
/// meaningful when the number of bytes is even.
pub open spec fn decoded_16(bytes: Seq<u8>) -> Seq<i16> {
    Seq::new(bytes.len() / 2, |i: int| i16_of_le_bytes(bytes[2 * i], bytes[2 * i + 1]))
}

/// Calls `byteorder::LittleEndian::write_i16` on a fresh two-byte buffer.
/// The contract claims what byteorder documents: the buffer then holds the
/// sample's two's-complement word, low byte first.
#[verifier::external_body]
fn write_i16_le(sample: i16) -> (bytes: [u8; 2])
    ensures
        bytes@ == le_bytes_of_i16(sample),
{
    let mut buf = [0u8; 2];
    LittleEndian::write_i16(&mut buf, sample);
    buf
}

/// Calls `byteorder::LittleEndian::read_i16` on the two bytes given. The
/// contract claims what byteorder documents: the result is the sample whose
/// two's-complement word has `low` as its low byte and `high` as its high
/// byte.
#[verifier::external_body]
fn read_i16_le(low: u8, high: u8) -> (sample: i16)
    ensures
        sample == i16_of_le_bytes(low, high),
{
    LittleEndian::read_i16(&[low, high])
}

/// Encodes 8-bit samples for the wire.
pub fn encode_i8(samples: &[i8]) -> (bytes: Vec<u8>)
    ensures
        bytes@ == encoded_8(samples@),
{
    let mut bytes: Vec<u8> = Vec::new();
    let mut i: usize = 0;
    while i < samples.len()
        invariant
            i <= samples.len(),
            bytes@ == encoded_8(samples@.take(i as int)),
        decreases samples.len() - i,
    {
        let sample: i8 = samples[i];
        let byte: u8 = if sample >= 0 {
            sample as u8
        } else {
            (sample as i16 + 256) as u8
        };
        bytes.push(byte);
        i += 1;
        assert(bytes@ =~= encoded_8(samples@.take(i as int)));
    }
    assert(samples@.take(i as int) =~= samples@);
    bytes
}

/// Decodes 8-bit samples from the wire. Every run of bytes is valid.
pub fn decode_i8(bytes: &[u8]) -> (samples: Vec<i8>)
    ensures
        samples@ == decoded_8(bytes@),
{
    let mut samples: Vec<i8> = Vec::new();
    let mut i: usize = 0;
    while i < bytes.len()
        invariant
            i <= bytes.len(),
            samples@ == decoded_8(bytes@.take(i as int)),
        decreases bytes.len() - i,
    {
        let byte: u8 = bytes[i];
        let sample: i8 = if byte < 128 {
            byte as i8
        } else {
            (byte as i16 - 256) as i8
        };
        samples.push(sample);
        i += 1;
        assert(samples@ =~= decoded_8(bytes@.take(i as int)));
    }
    assert(bytes@.take(i as int) =~= bytes@);
    samples
}

/// Encodes 16-bit samples for the wire, little-endian.
pub fn encode_i16(samples: &[i16]) -> (bytes: Vec<u8>)
    ensures
        bytes@ == encoded_16(samples@),
{
    let mut bytes: Vec<u8> = Vec::new();
    let mut i: usize = 0;
    while i < samples.len()
        invariant
            i <= samples.len(),
            bytes@ == encoded_16(samples@.take(i as int)),
        decreases samples.len() - i,
    {
        let pair: [u8; 2] = write_i16_le(samples[i]);
        bytes.push(pair[0]);
        bytes.push(pair[1]);
        i += 1;
        assert(bytes@ =~= encoded_16(samples@.take(i as int)));
    }
    assert(samples@.take(i as int) =~= samples@);
    bytes
}

/// Decodes 16-bit little-endian samples from the wire. A run of bytes of
/// odd length ends in the middle of a sample and is refused.
pub fn decode_i16(bytes: &[u8]) -> (r: Result<Vec<i16>, BridgeError>)
    ensures
        bytes@.len() % 2 == 0 ==> (r matches Ok(samples) && samples@ == decoded_16(bytes@)),
        bytes@.len() % 2 != 0 ==> r == Err::<Vec<i16>, BridgeError>(
            BridgeError::MalformedAudioData,
        ),
{
    if bytes.len() % 2 != 0 {
        return Err(BridgeError::MalformedAudioData);
    }
    let count: usize = bytes.len() / 2;
    let mut samples: Vec<i16> = Vec::new();
    let mut i: usize = 0;
    while i < count
        invariant
            i <= count,
            bytes.len() == 2 * count,
            samples@ == decoded_16(bytes@.take(2 * i as int)),
        decreases count - i,
    {
        let sample: i16 = read_i16_le(bytes[2 * i], bytes[2 * i + 1]);
        samples.push(sample);
        i += 1;
        assert(samples@ =~= decoded_16(bytes@.take(2 * i as int)));
    }
    assert(bytes@.take(2 * i as int) =~= bytes@);
    Ok(samples)
}

/// A signed 8-bit sample is recovered from the byte that has its bits.
pub proof fn lemma_i8_of_its_byte(sample: i8)
    ensures
        i8_of_byte(byte_of_i8(sample)) == sample,
{
}

/// A byte is recovered from the signed 8-bit sample that has its bits.
pub proof fn lemma_byte_of_its_i8(byte: u8)
    ensures
        byte_of_i8(i8_of_byte(byte)) == byte,
{
}

/// A 16-bit sample is recovered from its two little-endian bytes.
pub proof fn lemma_i16_of_its_le_bytes(sample: i16)
    ensures
        le_bytes_of_i16(sample).len() == 2,
        i16_of_le_bytes(le_bytes_of_i16(sample)[0], le_bytes_of_i16(sample)[1]) == sample,
{
}

/// Two bytes are recovered from the 16-bit sample that they spell.
pub proof fn lemma_le_bytes_of_their_i16(low: u8, high: u8)
    ensures
        le_bytes_of_i16(i16_of_le_bytes(low, high)) == seq![low, high],
{
    assert(le_bytes_of_i16(i16_of_le_bytes(low, high)) =~= seq![low, high]);
}

/// Decoding the wire form of any run of 8-bit samples gives the samples
/// back.
pub proof fn lemma_decode_encode_8(samples: Seq<i8>)
    ensures
        decoded_8(encoded_8(samples)) == samples,
{
    assert(decoded_8(encoded_8(samples)) =~= samples);
}

/// Encoding the 8-bit samples that any run of bytes carries gives the bytes
/// back.
pub proof fn lemma_encode_decode_8(bytes: Seq<u8>)
    ensures
        encoded_8(decoded_8(bytes)) == bytes,
{
    assert(encoded_8(decoded_8(bytes)) =~= bytes);
}

/// Decoding the wire form of any run of 16-bit samples gives the samples
/// back, and the wire form always has an even number of bytes.
pub proof fn lemma_decode_encode_16(samples: Seq<i16>)
    ensures
        encoded_16(samples).len() == 2 * samples.len(),
        encoded_16(samples).len() % 2 == 0,
        decoded_16(encoded_16(samples)) == samples,
{
    let bytes = encoded_16(samples);
    assert forall|i: int| 0 <= i < samples.len() implies #[trigger] decoded_16(bytes)[i]
        == samples[i] by {
        lemma_i16_of_its_le_bytes(samples[i]);
        assert((2 * i) / 2 == i && (2 * i) % 2 == 0);
        assert((2 * i + 1) / 2 == i && (2 * i + 1) % 2 == 1);
    }
    assert(decoded_16(bytes) =~= samples);
}

/// Encoding the 16-bit samples that a run of bytes of even length carries
/// gives the bytes back.
pub proof fn lemma_encode_decode_16(bytes: Seq<u8>)
    requires
        bytes.len() % 2 == 0,
    ensures
        encoded_16(decoded_16(bytes)) == bytes,
{
    let samples = decoded_16(bytes);
    assert forall|i: int| 0 <= i < bytes.len() implies #[trigger] encoded_16(samples)[i]
        == bytes[i] by {
        let k = i / 2;
        lemma_le_bytes_of_their_i16(bytes[2 * k], bytes[2 * k + 1]);
        assert(i == 2 * k || i == 2 * k + 1);
    }
    assert(encoded_16(samples) =~= bytes);
}

} // verus!
