//! Format negotiation: bit depth and sample rate as parameters of an
//! `audio/x-wav` content type.
//!
//! A descriptor is sent as `audio/x-wav;codec=pcm;bit=<bits>;rate=<hertz>`
//! and recovered from the `bit` and `rate` parameters of the content type
//! that comes back. A response that lacks either parameter, or carries a
//! value outside the supported formats, fails negotiation: nothing is ever
//! played under a guessed format.

use vstd::prelude::*;
use hyper::mime::Mime;
use crate::decimal::{decimal_text, decimal_u32, format_u32, lemma_decimal_round_trip, parse_u32};
use crate::error::BridgeError;
use crate::types::{Bitrate, Frequency};

verus! {

/// One `name=value` parameter of a content type.
#[derive(Debug, Clone, PartialEq, Eq)]
pub struct Param {
    pub name: String,
    pub value: String,
}

impl View for Param {
    type V = (Seq<char>, Seq<char>);

    open spec fn view(&self) -> (Seq<char>, Seq<char>) {
        (self.name@, self.value@)
    }
}

/// A parameter list as pairs of texts.
pub open spec fn params_view(params: Seq<Param>) -> Seq<(Seq<char>, Seq<char>)> {
    params.map_values(|p: Param| p@)
}

/// The value of the first parameter with the given name, if there is one.
pub open spec fn param_value(params: Seq<(Seq<char>, Seq<char>)>, name: Seq<char>) -> Option<
    Seq<char>,
>
    decreases params.len(),
{
    if params.len() == 0 {
        None
    } else if params[0].0 == name {
        Some(params[0].1)
    } else {
        param_value(params.skip(1), name)
    }
}

/// A media type followed by its parameters, each written as `;name=value`.
pub open spec fn with_params(media_type: Seq<char>, params: Seq<(Seq<char>, Seq<char>)>) -> Seq<
    char,
>
    decreases params.len(),
{
    if params.len() == 0 {
        media_type
    } else {
        with_params(media_type, params.drop_last()) + ";"@ + params.last().0 + "="@
            + params.last().1
    }
}

/// The parameter list that `hyper::mime::Mime`'s parser reads from a content
/// type, each attribute and value as text, in order; `None` where the parser
/// refuses the text.
pub uninterp spec fn mime_params(content_type: Seq<char>) -> Option<Seq<(Seq<char>, Seq<char>)>>;

/// Parses a content type with `hyper::mime::Mime`'s `FromStr` and hands out
/// its parameters as text. The contract claims only that the outcome is a
/// function of the text. The parser indexes the text by character count, so
/// text outside ASCII is kept away from it.
#[verifier::external_body]
fn parse_mime_params(content_type: &str) -> (r: Option<Vec<Param>>)
    requires
        content_type.is_ascii(),
    ensures
        match mime_params(content_type@) {
            Some(params) => r matches Some(found) && params_view(found@) == params,
            None => r is None,
        },
{
    let mime: Mime = match content_type.parse() {
        Ok(mime) => mime,
        Err(_) => return None,
    };
    let mut params: Vec<Param> = Vec::new();
    for param in mime.2.iter() {
        params.push(Param { name: param.0.to_string(), value: param.1.to_string() });
    }
    Some(params)
}

/// Finds the value of the first parameter with the given name.
pub fn find_param<'a>(params: &'a [Param], name: &str) -> (r: Option<&'a String>)
    ensures
        match param_value(params_view(params@), name@) {
            Some(value) => r matches Some(found) && found@ == value,
            None => r is None,
        },
{
    let wanted: String = String::from_str(name);
    let ghost all = params_view(params@);
    assert(all.skip(0) =~= all);
    let mut i: usize = 0;
    while i < params.len()
        invariant
            i <= params.len(),
            wanted@ == name@,
            all == params_view(params@),
            param_value(all, name@) == param_value(all.skip(i as int), name@),
        decreases params.len() - i,
    {
        let ghost rest = all.skip(i as int);
        assert(rest[0] == params@[i as int]@);
        if params[i].name == wanted {
            return Some(&params[i].value);
        }
        assert(rest.skip(1) =~= all.skip(i + 1));
        i += 1;
    }
    None
}

/// The bit depth and sample rate under which a byte stream is to be read.
#[derive(Debug, Copy, Clone, PartialEq, Eq, Structural)]
pub struct FormatDescriptor {
    pub bitrate: Bitrate,
    pub frequency: Frequency,
}

/// The bit depth that a `bit` parameter value names.
pub open spec fn bitrate_of_text(text: Seq<char>) -> Option<Bitrate> {
    match decimal_u32(text) {
        Some(bits) => if bits <= u8::MAX {
            Bitrate::of_bits(bits as u8)
        } else {
            None
        },
        None => None,
    }
}

/// The sample rate that a `rate` parameter value names.
pub open spec fn frequency_of_text(text: Seq<char>) -> Option<Frequency> {
    match decimal_u32(text) {
        Some(hertz) => Frequency::of_hertz(hertz),
        None => None,
    }
}

/// The bit depth that a parameter list carries.
pub open spec fn negotiated_bitrate(params: Seq<(Seq<char>, Seq<char>)>) -> Option<Bitrate> {
    match param_value(params, "bit"@) {
        Some(text) => bitrate_of_text(text),
        None => None,
    }
}

/// The sample rate that a parameter list carries.
pub open spec fn negotiated_frequency(params: Seq<(Seq<char>, Seq<char>)>) -> Option<Frequency> {
    match param_value(params, "rate"@) {
        Some(text) => frequency_of_text(text),
        None => None,
    }
}

impl FormatDescriptor {
    /// The parameters that announce this format.
    pub open spec fn params(self) -> Seq<(Seq<char>, Seq<char>)> {
        seq![
            ("codec"@, "pcm"@),
            ("bit"@, decimal_text(self.bitrate.bits() as nat)),
            ("rate"@, decimal_text(self.frequency.hertz() as nat)),
        ]
    }

    /// The content type that announces this format.
    pub open spec fn content_type_text(self) -> Seq<char> {
        "audio/x-wav;codec=pcm;bit="@ + decimal_text(self.bitrate.bits() as nat) + ";rate="@
            + decimal_text(self.frequency.hertz() as nat)
    }

    /// What a parameter list negotiates: the format named by its `bit` and
    /// `rate` parameters, or failure where either is missing or names no
    /// supported value.
    pub open spec fn negotiated(params: Seq<(Seq<char>, Seq<char>)>) -> Result<
        FormatDescriptor,
        BridgeError,
    > {
        match (negotiated_bitrate(params), negotiated_frequency(params)) {
            (Some(bitrate), Some(frequency)) => Ok(FormatDescriptor { bitrate, frequency }),
            _ => Err(BridgeError::FormatNegotiationFailed),
        }
    }

    /// What a content type negotiates: what its parameter list does, where
    /// the text is ASCII and parses as a media type; failure otherwise.
    pub open spec fn parsed(content_type: Seq<char>) -> Result<FormatDescriptor, BridgeError> {
        if !vstd::utf8::is_ascii_chars(content_type) {
            Err(BridgeError::FormatNegotiationFailed)
        } else {
            match mime_params(content_type) {
                Some(params) => FormatDescriptor::negotiated(params),
                None => Err(BridgeError::FormatNegotiationFailed),
            }
        }
    }

    /// A descriptor for the given bit depth and sample rate.
    pub fn new(bitrate: Bitrate, frequency: Frequency) -> (descriptor: FormatDescriptor)
        ensures
            descriptor == (FormatDescriptor { bitrate, frequency }),
    {
        FormatDescriptor { bitrate, frequency }
    }

    /// Writes the content type that announces this format.
    pub fn content_type(&self) -> (text: String)
        ensures
            text@ == self.content_type_text(),
    {
        let mut text: String = String::from_str("audio/x-wav;codec=pcm;bit=");
        let bits: String = format_u32(u8::from(self.bitrate) as u32);
        text.append(bits.as_str());
        text.append(";rate=");
        let hertz: String = format_u32(u32::from(self.frequency));
        text.append(hertz.as_str());
        text
    }

    /// Recovers the format from the parameters of a content type.
    pub fn from_params(params: &[Param]) -> (r: Result<FormatDescriptor, BridgeError>)
        ensures
            r == FormatDescriptor::negotiated(params_view(params@)),
    {
        let bitrate: Option<Bitrate> = match find_param(params, "bit") {
            Some(text) => match parse_u32(text.as_str()) {
                Some(bits) => if bits <= 255 {
                    Bitrate::from_u8(bits as u8)
                } else {
                    None
                },
                None => None,
            },
            None => None,
        };
        let frequency: Option<Frequency> = match find_param(params, "rate") {
            Some(text) => match parse_u32(text.as_str()) {
                Some(hertz) => Frequency::from_u32(hertz),
                None => None,
            },
            None => None,
        };
        match (bitrate, frequency) {
            (Some(bitrate), Some(frequency)) => Ok(FormatDescriptor { bitrate, frequency }),
            _ => Err(BridgeError::FormatNegotiationFailed),
        }
    }

    /// Recovers the format from a content type.
    pub fn parse(content_type: &str) -> (r: Result<FormatDescriptor, BridgeError>)
        ensures
            r == FormatDescriptor::parsed(content_type@),
    {
        if !content_type.is_ascii() {
            return Err(BridgeError::FormatNegotiationFailed);
        }
        match parse_mime_params(content_type) {
            Some(params) => FormatDescriptor::from_params(params.as_slice()),
            None => Err(BridgeError::FormatNegotiationFailed),
        }
    }

    /// The parameters that announce a format negotiate that same format.
    pub proof fn lemma_params_round_trip(self)
        ensures
            FormatDescriptor::negotiated(self.params()) == Ok::<FormatDescriptor, BridgeError>(
                self,
            ),
    {
        let params = self.params();
        reveal_strlit("codec");
        reveal_strlit("bit");
        reveal_strlit("rate");
        assert("codec"@ != "bit"@) by {
            assert("codec"@.len() != "bit"@.len());
        }
        assert("codec"@ != "rate"@) by {
            assert("codec"@.len() != "rate"@.len());
        }
        assert("bit"@ != "rate"@) by {
            assert("bit"@.len() != "rate"@.len());
        }
        assert(params.skip(1)[0] == params[1]);
        assert(params.skip(1).skip(1)[0] == params[2]);
        assert(param_value(params, "bit"@) == Some(params[1].1)) by {
            reveal_with_fuel(param_value, 3);
        }
        assert(param_value(params, "rate"@) == Some(params[2].1)) by {
            reveal_with_fuel(param_value, 4);
        }
        lemma_decimal_round_trip(self.bitrate.bits() as nat);
        lemma_decimal_round_trip(self.frequency.hertz() as nat);
        self.bitrate.lemma_bits_round_trip();
        self.frequency.lemma_hertz_round_trip();
    }

    /// The content type that announces a format is `audio/x-wav` followed
    /// by the parameters that announce it.
    pub proof fn lemma_content_type_carries_params(self)
        ensures
            self.content_type_text() == with_params("audio/x-wav"@, self.params()),
    {
        let params = self.params();
        let bits = decimal_text(self.bitrate.bits() as nat);
        let hertz = decimal_text(self.frequency.hertz() as nat);
        let two = params.drop_last();
        let one = two.drop_last();
        assert(one.drop_last().len() == 0);
        assert(with_params("audio/x-wav"@, one) == "audio/x-wav"@ + ";"@ + "codec"@ + "="@ + "pcm"@)
            by {
            reveal_with_fuel(with_params, 2);
        }
        assert(with_params("audio/x-wav"@, two) == with_params("audio/x-wav"@, one) + ";"@ + "bit"@
            + "="@ + bits);
        assert(with_params("audio/x-wav"@, params) == with_params("audio/x-wav"@, two) + ";"@
            + "rate"@ + "="@ + hertz);
        reveal_strlit("audio/x-wav;codec=pcm;bit=");
        reveal_strlit(";rate=");
        reveal_strlit("audio/x-wav");
        reveal_strlit(";");
        reveal_strlit("=");
        reveal_strlit("codec");
        reveal_strlit("pcm");
        reveal_strlit("bit");
        reveal_strlit("rate");
        assert("audio/x-wav"@ + ";"@ + "codec"@ + "="@ + "pcm"@ + ";"@ + "bit"@ + "="@
            =~= "audio/x-wav;codec=pcm;bit="@);
        assert(";"@ + "rate"@ + "="@ =~= ";rate="@);
        assert(self.content_type_text() =~= with_params("audio/x-wav"@, params));
    }

    /// A parameter list without a `bit` parameter, or without a `rate`
    /// parameter, fails negotiation.
    pub proof fn lemma_missing_parameter_fails(params: Seq<(Seq<char>, Seq<char>)>)
        requires
            param_value(params, "bit"@) is None || param_value(params, "rate"@) is None,
        ensures
            FormatDescriptor::negotiated(params) == Err::<FormatDescriptor, BridgeError>(
                BridgeError::FormatNegotiationFailed,
            ),
    {
    }

    /// Whatever negotiation yields is what the `bit` and `rate` parameters
    /// spell: success needs both to be present and to spell the wire values
    /// of the format that comes out.
    pub proof fn lemma_negotiated_sound(params: Seq<(Seq<char>, Seq<char>)>)
        ensures
            FormatDescriptor::negotiated(params) matches Ok(d) ==> {
                &&& param_value(params, "bit"@) matches Some(bit)
                &&& param_value(params, "rate"@) matches Some(rate)
                &&& decimal_u32(bit) == Some(d.bitrate.bits() as u32)
                &&& decimal_u32(rate) == Some(d.frequency.hertz())
            },
    {
    }
}

} // verus!
