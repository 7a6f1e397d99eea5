use isolator::web::{decoded_or_error, op_base64_decode, op_base64_encode};

#[test]
fn base64_decodes_standard_text() {
    assert_eq!(op_base64_decode("aGVsbG8gd29ybGQ=").unwrap(), b"hello world".to_vec());
    assert_eq!(op_base64_decode("aGVsbG8gd29ybGQ").unwrap(), b"hello world".to_vec());
    assert_eq!(op_base64_decode("").unwrap(), Vec::<u8>::new());
    assert_eq!(op_base64_decode("YQ==").unwrap(), b"a".to_vec());
    assert_eq!(op_base64_decode("YQ").unwrap(), b"a".to_vec());
    assert_eq!(op_base64_decode("YWI=").unwrap(), b"ab".to_vec());
    assert_eq!(op_base64_decode("+/+/").unwrap(), vec![0xfb, 0xff, 0xbf]);
}

#[test]
fn base64_decode_ignores_ascii_whitespace() {
    assert_eq!(op_base64_decode(" aGVs\tbG8g\nd29y\x0CbGQ=\r").unwrap(), b"hello world".to_vec());
    assert_eq!(op_base64_decode(" \n\t ").unwrap(), Vec::<u8>::new());
    assert_eq!(op_base64_decode("Y Q = =").unwrap(), b"a".to_vec());
}

#[test]
fn base64_decode_allows_trailing_bits() {
    assert_eq!(op_base64_decode("YR").unwrap(), b"a".to_vec());
}

#[test]
fn base64_decode_refuses_a_length_of_one_over_whole_groups() {
    assert_eq!(op_base64_decode("a").unwrap_err().msg, "Failed to decode base64.");
    assert_eq!(op_base64_decode("aGVsb").unwrap_err().msg, "Failed to decode base64.");
    assert_eq!(op_base64_decode("=").unwrap_err().msg, "Failed to decode base64.");
    assert_eq!(op_base64_decode("a b c d e").unwrap_err().msg, "Failed to decode base64.");
}

#[test]
fn base64_decode_refuses_forbidden_characters() {
    let text = "Failed to decode base64: invalid character";
    assert_eq!(op_base64_decode("a-bc").unwrap_err().msg, text);
    assert_eq!(op_base64_decode("ab=c").unwrap_err().msg, text);
    assert_eq!(op_base64_decode("YQ=").unwrap_err().msg, text);
    assert_eq!(op_base64_decode("=abc").unwrap_err().msg, text);
    assert_eq!(op_base64_decode("a===").unwrap_err().msg, text);
    assert_eq!(op_base64_decode("ab\u{a0}").unwrap_err().msg, text);
    assert_eq!(op_base64_decode("ab_c").unwrap_err().msg, text);
}

#[test]
fn base64_decode_passes_the_decoders_failure_on() {
    // a letter outside ASCII counts as alphanumeric and reaches the decoder
    let error = op_base64_decode("a\u{e9}b").unwrap_err();
    assert_eq!(error.msg, "Failed to decode base64: InvalidByte(1, 195)");
    let error = op_base64_decode("\u{e9}\u{e9}").unwrap_err();
    assert_eq!(error.msg, "Failed to decode base64: InvalidByte(0, 195)");
}

#[test]
fn decoder_result_becomes_the_call_result() {
    assert_eq!(decoded_or_error(Ok(vec![1, 2])).unwrap(), vec![1, 2]);
    assert_eq!(
        decoded_or_error(Err("InvalidLength".to_string())).unwrap_err().msg,
        "Failed to decode base64: InvalidLength"
    );
}

#[test]
fn base64_encodes_with_padding() {
    assert_eq!(op_base64_encode(&b"hello world".to_vec()), "aGVsbG8gd29ybGQ=");
    assert_eq!(op_base64_encode(&Vec::new()), "");
    assert_eq!(op_base64_encode(&b"a".to_vec()), "YQ==");
    assert_eq!(op_base64_encode(&vec![0xfb, 0xff, 0xbf]), "+/+/");
}

#[test]
fn base64_round_trip() {
    let bytes: Vec<u8> = (0..=255u8).collect();
    let text = op_base64_encode(&bytes);
    assert_eq!(text.len(), 344);
    assert_eq!(op_base64_decode(&text).unwrap(), bytes);
}

#[test]
fn invalid_character_error_keeps_its_text() {
    let error = isolator::web::DomExceptionInvalidCharacterError::new("Failed to decode base64.");
    assert_eq!(error.msg, "Failed to decode base64.");
    assert_eq!(error.message(), "Failed to decode base64.");
}
