use nuance::decimal::{format_u32, parse_u32};
use nuance::error::BridgeError;
use nuance::format::{find_param, FormatDescriptor, Param};
use nuance::types::{Bitrate, Frequency};

fn param(name: &str, value: &str) -> Param {
    Param { name: name.to_string(), value: value.to_string() }
}

fn all_formats() -> Vec<FormatDescriptor> {
    let mut formats = Vec::new();
    for bitrate in [Bitrate::Bits_8, Bitrate::Bits_16] {
        for frequency in [
            Frequency::Freq_8000,
            Frequency::Freq_16000,
            Frequency::Freq_22000,
            Frequency::Freq_44100,
        ] {
            formats.push(FormatDescriptor::new(bitrate, frequency));
        }
    }
    formats
}

#[test]
fn wire_values_of_bitrate() {
    assert_eq!(u8::from(Bitrate::Bits_8), 8);
    assert_eq!(u8::from(Bitrate::Bits_16), 16);
    assert_eq!(Bitrate::from_u8(8), Some(Bitrate::Bits_8));
    assert_eq!(Bitrate::from_u8(16), Some(Bitrate::Bits_16));
    assert_eq!(Bitrate::from_u8(0), None);
    assert_eq!(Bitrate::from_u8(24), None);
    assert_eq!(Bitrate::from_u8(255), None);
}

#[test]
fn wire_values_of_frequency() {
    assert_eq!(u32::from(Frequency::Freq_8000), 8000);
    assert_eq!(u32::from(Frequency::Freq_16000), 16000);
    assert_eq!(u32::from(Frequency::Freq_22000), 22000);
    assert_eq!(u32::from(Frequency::Freq_44100), 44100);
    assert_eq!(Frequency::from_u32(8000), Some(Frequency::Freq_8000));
    assert_eq!(Frequency::from_u32(16000), Some(Frequency::Freq_16000));
    assert_eq!(Frequency::from_u32(22000), Some(Frequency::Freq_22000));
    assert_eq!(Frequency::from_u32(44100), Some(Frequency::Freq_44100));
    assert_eq!(Frequency::from_u32(22050), None);
    assert_eq!(Frequency::from_u32(0), None);
}

#[test]
fn every_wire_value_names_at_most_its_own_format() {
    for bits in 0..=255u8 {
        match Bitrate::from_u8(bits) {
            Some(bitrate) => assert_eq!(u8::from(bitrate), bits),
            None => assert!(bits != 8 && bits != 16),
        }
    }
    for hertz in 0..50000u32 {
        if let Some(frequency) = Frequency::from_u32(hertz) {
            assert_eq!(u32::from(frequency), hertz);
        }
    }
}

#[test]
fn content_type_is_spelled_exactly() {
    let wide = FormatDescriptor::new(Bitrate::Bits_16, Frequency::Freq_22000);
    assert_eq!(wide.content_type(), "audio/x-wav;codec=pcm;bit=16;rate=22000");
    let narrow = FormatDescriptor::new(Bitrate::Bits_8, Frequency::Freq_8000);
    assert_eq!(narrow.content_type(), "audio/x-wav;codec=pcm;bit=8;rate=8000");
    let high = FormatDescriptor::new(Bitrate::Bits_16, Frequency::Freq_44100);
    assert_eq!(high.content_type(), "audio/x-wav;codec=pcm;bit=16;rate=44100");
}

#[test]
fn descriptor_survives_encoding_and_parsing() {
    let descriptor = FormatDescriptor::new(Bitrate::Bits_16, Frequency::Freq_22000);
    let text = descriptor.content_type();
    assert_eq!(FormatDescriptor::parse(&text), Ok(descriptor));
}

#[test]
fn every_descriptor_survives_encoding_and_parsing() {
    for descriptor in all_formats() {
        let text = descriptor.content_type();
        assert_eq!(FormatDescriptor::parse(&text), Ok(descriptor));
    }
}

#[test]
fn missing_bit_fails_negotiation() {
    assert_eq!(
        FormatDescriptor::parse("audio/x-wav;codec=pcm;rate=22000"),
        Err(BridgeError::FormatNegotiationFailed)
    );
    assert_eq!(
        FormatDescriptor::from_params(&[param("codec", "pcm"), param("rate", "22000")]),
        Err(BridgeError::FormatNegotiationFailed)
    );
}

#[test]
fn missing_rate_fails_negotiation() {
    assert_eq!(
        FormatDescriptor::parse("audio/x-wav;codec=pcm;bit=16"),
        Err(BridgeError::FormatNegotiationFailed)
    );
    assert_eq!(
        FormatDescriptor::from_params(&[param("codec", "pcm"), param("bit", "16")]),
        Err(BridgeError::FormatNegotiationFailed)
    );
}

#[test]
fn bare_media_type_fails_negotiation() {
    assert_eq!(FormatDescriptor::parse("audio/x-wav"), Err(BridgeError::FormatNegotiationFailed));
    assert_eq!(FormatDescriptor::from_params(&[]), Err(BridgeError::FormatNegotiationFailed));
}

#[test]
fn values_outside_the_formats_fail_negotiation() {
    for text in [
        "audio/x-wav;codec=pcm;bit=24;rate=22000",
        "audio/x-wav;codec=pcm;bit=16;rate=11025",
        "audio/x-wav;codec=pcm;bit=sixteen;rate=22000",
        "audio/x-wav;codec=pcm;bit=16;rate=fast",
        "audio/x-wav;codec=pcm;bit=264;rate=8000",
        "audio/x-wav;codec=pcm;bit=16;rate=4294983296",
        "audio/x-wav;codec=pcm;bit=1.6e1;rate=8000",
    ] {
        assert_eq!(FormatDescriptor::parse(text), Err(BridgeError::FormatNegotiationFailed));
    }
}

#[test]
fn text_that_is_no_media_type_fails_negotiation() {
    for text in ["", "audio", "/x-wav;bit=16;rate=8000", "bit=16;rate=8000", "audio/;bit=16"] {
        assert_eq!(FormatDescriptor::parse(text), Err(BridgeError::FormatNegotiationFailed));
    }
}

#[test]
fn text_outside_ascii_fails_negotiation() {
    assert_eq!(
        FormatDescriptor::parse("audio/x-wav;codec=pcm;bit=16;rate=8000;note=\"\u{e9}t\u{e9}\""),
        Err(BridgeError::FormatNegotiationFailed)
    );
    assert_eq!(
        FormatDescriptor::parse("audio/x-wav;n=\"\u{e9}\";bit=16;rate=8000"),
        Err(BridgeError::FormatNegotiationFailed)
    );
}

#[test]
fn response_content_type_for_eight_bits() {
    assert_eq!(
        FormatDescriptor::parse("audio/x-wav;codec=pcm;bit=8;rate=8000"),
        Ok(FormatDescriptor::new(Bitrate::Bits_8, Frequency::Freq_8000))
    );
}

#[test]
fn parameters_may_come_in_any_order_and_with_spaces() {
    let expected = Ok(FormatDescriptor::new(Bitrate::Bits_16, Frequency::Freq_16000));
    assert_eq!(FormatDescriptor::parse("audio/x-wav; rate=16000; bit=16"), expected);
    assert_eq!(FormatDescriptor::parse("audio/x-wav; codec=pcm; bit=16; rate=16000"), expected);
    assert_eq!(FormatDescriptor::parse("audio/x-wav;rate=16000;codec=pcm;bit=16"), expected);
}

#[test]
fn parameter_names_are_read_without_regard_to_case() {
    assert_eq!(
        FormatDescriptor::parse("AUDIO/X-WAV;CODEC=PCM;BIT=16;RATE=44100"),
        Ok(FormatDescriptor::new(Bitrate::Bits_16, Frequency::Freq_44100))
    );
}

#[test]
fn the_media_type_itself_is_not_examined() {
    assert_eq!(
        FormatDescriptor::parse("text/plain;bit=8;rate=22000"),
        Ok(FormatDescriptor::new(Bitrate::Bits_8, Frequency::Freq_22000))
    );
}

#[test]
fn quoted_value_is_read_when_it_comes_last() {
    assert_eq!(
        FormatDescriptor::parse("audio/x-wav;bit=16;rate=\"8000\""),
        Ok(FormatDescriptor::new(Bitrate::Bits_16, Frequency::Freq_8000))
    );
}

#[test]
fn parameters_behind_a_quoted_value_are_not_seen() {
    assert_eq!(
        FormatDescriptor::parse("audio/x-wav;bit=\"16\";rate=8000"),
        Err(BridgeError::FormatNegotiationFailed)
    );
}

#[test]
fn first_of_repeated_parameters_decides() {
    assert_eq!(
        FormatDescriptor::from_params(&[
            param("bit", "16"),
            param("bit", "8"),
            param("rate", "8000"),
            param("rate", "44100"),
        ]),
        Ok(FormatDescriptor::new(Bitrate::Bits_16, Frequency::Freq_8000))
    );
    assert_eq!(
        FormatDescriptor::from_params(&[param("bit", "x"), param("bit", "8"), param("rate", "8000")]),
        Err(BridgeError::FormatNegotiationFailed)
    );
    assert_eq!(
        FormatDescriptor::parse("audio/x-wav;bit=8;bit=16;rate=8000"),
        Ok(FormatDescriptor::new(Bitrate::Bits_8, Frequency::Freq_8000))
    );
}

#[test]
fn find_param_returns_first_match() {
    let params = [param("codec", "pcm"), param("bit", "16"), param("bit", "8")];
    assert_eq!(find_param(&params, "bit"), Some(&"16".to_string()));
    assert_eq!(find_param(&params, "codec"), Some(&"pcm".to_string()));
    assert_eq!(find_param(&params, "rate"), None);
    assert_eq!(find_param(&params, "Bit"), None);
    assert_eq!(find_param(&[], "bit"), None);
}

#[test]
fn values_may_carry_a_plus_sign_or_leading_zeros() {
    assert_eq!(
        FormatDescriptor::from_params(&[param("bit", "+16"), param("rate", "008000")]),
        Ok(FormatDescriptor::new(Bitrate::Bits_16, Frequency::Freq_8000))
    );
    assert_eq!(
        FormatDescriptor::from_params(&[param("bit", " 16"), param("rate", "8000")]),
        Err(BridgeError::FormatNegotiationFailed)
    );
    assert_eq!(
        FormatDescriptor::from_params(&[param("bit", "16"), param("rate", "-8000")]),
        Err(BridgeError::FormatNegotiationFailed)
    );
    assert_eq!(
        FormatDescriptor::from_params(&[param("bit", ""), param("rate", "8000")]),
        Err(BridgeError::FormatNegotiationFailed)
    );
}

#[test]
fn decimal_numbers_are_read() {
    assert_eq!(parse_u32("0"), Some(0));
    assert_eq!(parse_u32("7"), Some(7));
    assert_eq!(parse_u32("16"), Some(16));
    assert_eq!(parse_u32("44100"), Some(44100));
    assert_eq!(parse_u32("+44100"), Some(44100));
    assert_eq!(parse_u32("00044100"), Some(44100));
    assert_eq!(parse_u32("4294967295"), Some(u32::MAX));
    assert_eq!(parse_u32("+0000004294967295"), Some(u32::MAX));
}

#[test]
fn text_that_is_no_number_is_refused() {
    for text in [
        "", "+", "-", "-5", "++5", "5+", "5a", "a5", " 5", "5 ", "1_000", "0x10", "1.0",
        "\u{661}", "٣",
    ] {
        assert_eq!(parse_u32(text), None);
    }
}

#[test]
fn numbers_beyond_thirty_two_bits_are_refused() {
    assert_eq!(parse_u32("4294967296"), None);
    assert_eq!(parse_u32("4294967300"), None);
    assert_eq!(parse_u32("42949672950"), None);
    assert_eq!(parse_u32("99999999999999999999999999"), None);
    assert_eq!(parse_u32("99999999999x"), None);
}

#[test]
fn decimal_numbers_are_written() {
    assert_eq!(format_u32(0), "0");
    assert_eq!(format_u32(7), "7");
    assert_eq!(format_u32(10), "10");
    assert_eq!(format_u32(16), "16");
    assert_eq!(format_u32(44100), "44100");
    assert_eq!(format_u32(1000000), "1000000");
    assert_eq!(format_u32(u32::MAX), "4294967295");
}

#[test]
fn written_numbers_are_read_back() {
    for n in (0..200000u32).chain([u32::MAX - 1, u32::MAX, 1 << 31, 999_999_999, 1_000_000_000]) {
        let text = format_u32(n);
        assert_eq!(text, n.to_string());
        assert_eq!(parse_u32(&text), Some(n));
    }
}

#[test]
fn reading_agrees_with_the_standard_parser() {
    for text in ["0", "+1", "007", "", "+", "-1", "4294967295", "4294967296", "12 ", "1e3"] {
        assert_eq!(parse_u32(text), text.parse::<u32>().ok());
    }
}

/// Every text over `alphabet` of at most `max_len` characters.
fn texts_over(alphabet: &[char], max_len: usize) -> Vec<String> {
    let mut all = vec![String::new()];
    let mut last = vec![String::new()];
    for _ in 0..max_len {
        let mut next = Vec::new();
        for text in &last {
            for c in alphabet {
                let mut longer = text.clone();
                longer.push(*c);
                next.push(longer);
            }
        }
        all.extend(next.iter().cloned());
        last = next;
    }
    all
}

#[test]
fn reading_agrees_with_the_standard_parser_on_short_texts() {
    for text in texts_over(&['+', '-', '0', '1', '9', 'a', ' '], 5) {
        assert_eq!(parse_u32(&text), text.parse::<u32>().ok());
    }
}

#[test]
fn every_short_ascii_text_gets_an_answer() {
    let expected = FormatDescriptor::new(Bitrate::Bits_8, Frequency::Freq_8000);
    let mut accepted = Vec::new();
    for tail in texts_over(&['a', '8', '0', '/', ';', '=', '"', ' '], 6) {
        assert_eq!(FormatDescriptor::parse(&tail), Err(BridgeError::FormatNegotiationFailed));
        let text = format!("a/b;bit=8;rate{}", tail);
        match FormatDescriptor::parse(&text) {
            Ok(descriptor) => {
                assert_eq!(descriptor, expected);
                accepted.push(tail);
            }
            Err(e) => assert_eq!(e, BridgeError::FormatNegotiationFailed),
        }
    }
    assert!(accepted.contains(&"=8000".to_string()));
    assert!(accepted.contains(&"=08000".to_string()));
    assert!(accepted.contains(&"=8000;".to_string()));
    assert!(!accepted.contains(&"=800".to_string()));
    assert!(!accepted.contains(&"= 8000".to_string()));
    assert!(!accepted.contains(&"=8000a".to_string()));
}
