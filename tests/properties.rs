use ascii_to_bool::ascii_byte::{AsciiByteToBool, AsciiByteToBoolPair};
use ascii_to_bool::ascii_bytes::{AsciiBytesToBool, AsciiBytesToBoolPair};
use ascii_to_bool::error::{ConvertError, ErrorKind};

#[test]
fn distinct_configured_bytes_read_true_and_false() {
    let pair = AsciiByteToBoolPair::new_custom(b'+', b'-');
    assert_eq!(pair.convert(b'+'), Ok(true));
    assert_eq!(pair.convert(b'-'), Ok(false));
}

#[test]
fn equal_configured_bytes_read_true() {
    let pair = AsciiByteToBoolPair::new_custom(b'a', b'a');
    assert_eq!(pair.convert(b'a'), Ok(true));
    assert_eq!(pair.convert(b'b'), Err(ConvertError::InvalidRepresentation));
}

#[test]
fn other_bytes_are_rejected() {
    let pair = AsciiByteToBoolPair::default();
    for x in 0u8..=255 {
        let r = pair.convert(x);
        if x == b'1' {
            assert_eq!(r, Ok(true));
        } else if x == b'0' {
            assert_eq!(r, Ok(false));
        } else {
            assert_eq!(r, Err(ConvertError::InvalidRepresentation));
        }
    }
}

#[test]
fn default_byte_scenario() {
    let pair = AsciiByteToBoolPair::default();
    assert_eq!(pair.convert(b'1'), Ok(true));
    assert_eq!(pair.convert(b'0'), Ok(false));
    assert_eq!(pair.convert(b'2').unwrap_err().kind(), ErrorKind::InvalidInput);
}

#[test]
fn presence_pair_reads_zero_as_false() {
    let pair = AsciiByteToBoolPair::new_from_true_value(b'o');
    assert_eq!(pair.convert(b'o'), Ok(true));
    assert_eq!(pair.convert(0), Ok(false));
    assert_eq!(pair.convert(b'O'), Err(ConvertError::InvalidRepresentation));
    assert_eq!(pair.convert(b'1'), Err(ConvertError::InvalidRepresentation));
}

#[test]
fn o_capital_byte_scenario() {
    let pair = AsciiByteToBoolPair::new_o_capital();
    assert_eq!(pair.convert(b'O'), Ok(true));
    assert_eq!(pair.convert(0), Ok(false));
    assert!(pair.convert(b'o').is_err());
}

#[test]
fn case_folding_is_idempotent() {
    let pair = AsciiByteToBoolPair::new_custom(b'Q', b'7');
    let lower = pair.into_lower();
    assert_eq!(lower.true_value, b'q');
    assert_eq!(lower.false_value, b'7');
    assert_eq!(lower.into_lower(), lower);
    let upper = lower.into_upper();
    assert_eq!(upper.true_value, b'Q');
    assert_eq!(upper.into_upper(), upper);
    assert_eq!(upper.into_lower(), lower);
}

#[test]
fn tf_into_upper_scenario() {
    let pair = AsciiByteToBoolPair::new_tf().into_upper();
    assert_eq!(pair.convert(b'T'), Ok(true));
    assert_eq!(pair.convert(b'F'), Ok(false));
    assert!(pair.convert(b't').is_err());
}

#[test]
fn convert_lower_of_uppercase_matches_convert_of_lowercase() {
    let pair = AsciiByteToBoolPair::new_yn();
    assert_eq!(pair.convert_lower(b'Y'), pair.convert(b'y'));
    assert_eq!(pair.convert_lower(b'N'), pair.convert(b'n'));
    assert_eq!(pair.convert_lower(b'Q'), Err(ConvertError::InvalidRepresentation));
    assert!(pair.convert(b'Y').is_err());
    assert_eq!(pair.convert_lower(b'['), Err(ConvertError::InvalidRepresentation));
}

#[test]
fn wide_char_is_rejected_with_its_message() {
    let pair = AsciiByteToBoolPair::new_custom(0xC4, 0xE4);
    let err = pair.convert_ascii_char('\u{100}').unwrap_err();
    assert_eq!(err, ConvertError::InvalidChar('\u{100}'));
    assert_eq!(err.kind(), ErrorKind::InvalidInput);
    assert_eq!(err.message(), "Invalid boolean representation: \u{100}");
    assert_eq!(pair.convert_ascii_char('\u{C4}'), Ok(true));
    assert_eq!(pair.convert_ascii_char('\u{E4}'), Ok(false));
}

#[test]
fn byte_mismatch_message_is_fixed() {
    let err = AsciiByteToBoolPair::new_yn().convert(b'?').unwrap_err();
    assert_eq!(err.message(), "Invalid boolean representation");
}

#[test]
fn char_lowercase_is_unicode_aware() {
    let pair = AsciiByteToBoolPair::new_custom(0xE4, b'n');
    assert_eq!(pair.convert_ascii_char_lower('\u{C4}'), Ok(true));
    assert_eq!(pair.convert_ascii_char_lower('N'), Ok(false));
    let kelvin = AsciiByteToBoolPair::new_custom(b'k', b'n');
    assert_eq!(kelvin.convert_ascii_char_lower('\u{212A}'), Ok(true));
    assert_eq!(
        kelvin.convert_ascii_char_lower('\u{130}'),
        Err(ConvertError::InvalidChar('\u{130}'))
    );
    assert_eq!(
        kelvin.convert_ascii_char_lower('\u{100}'),
        Err(ConvertError::InvalidChar('\u{101}'))
    );
}

#[test]
fn lowered_char_with_several_chars_is_rejected() {
    let pair = AsciiByteToBoolPair::new_yn();
    assert_eq!(pair.convert_lowered_char('Y', &['y']), Ok(true));
    assert_eq!(
        pair.convert_lowered_char('Y', &['y', 'y']),
        Err(ConvertError::InvalidChar('Y'))
    );
}

#[test]
fn distinct_configured_tokens_read_true_and_false() {
    let pair = AsciiBytesToBoolPair::new_custom(b"enabled", b"disabled");
    assert_eq!(pair.convert(b"enabled"), Ok(true));
    assert_eq!(pair.convert(b"disabled"), Ok(false));
    assert_eq!(pair.convert(b"Enabled"), Err(ConvertError::InvalidRepresentation));
}

#[test]
fn yes_no_token_scenario() {
    let pair = AsciiBytesToBoolPair::new_yes_no();
    assert_eq!(pair.convert(b"yes"), Ok(true));
    assert_eq!(pair.convert(b"no"), Ok(false));
    assert_eq!(pair.convert(b"maybe"), Err(ConvertError::InvalidRepresentation));
}

#[test]
fn t_f_token_scenario() {
    let pair = AsciiBytesToBoolPair::new_t_f();
    assert_eq!(pair.convert(b"t"), Ok(true));
    assert_eq!(pair.convert(b"tt"), Err(ConvertError::InvalidRepresentation));
    assert_eq!(pair.convert(b""), Err(ConvertError::InvalidRepresentation));
}

#[test]
fn same_length_token_with_one_byte_off_is_rejected() {
    let pair = AsciiBytesToBoolPair::new_on_off();
    assert_eq!(pair.convert(b"of"), Err(ConvertError::InvalidRepresentation));
    assert_eq!(pair.convert(b"ofg"), Err(ConvertError::InvalidRepresentation));
    assert_eq!(pair.convert(b"off"), Ok(false));
}

#[test]
fn presence_token_reads_empty_as_false() {
    let pair = AsciiBytesToBoolPair::new_x_capital();
    assert_eq!(pair.convert(b"X"), Ok(true));
    assert_eq!(pair.convert(b""), Ok(false));
    assert_eq!(pair.convert(b"XX"), Err(ConvertError::InvalidRepresentation));
}

#[test]
fn token_constructors_hold_their_words() {
    assert_eq!(AsciiBytesToBoolPair::new_true_false().true_value, b"true");
    assert_eq!(AsciiBytesToBoolPair::new_true_false().false_value, b"false");
    assert_eq!(AsciiBytesToBoolPair::new_on_off_capitalised().false_value, b"Off");
    assert_eq!(AsciiBytesToBoolPair::new_yes_no_capitalised().true_value, b"Yes");
    assert_eq!(AsciiBytesToBoolPair::new_true_false_capitalised().false_value, b"False");
}
