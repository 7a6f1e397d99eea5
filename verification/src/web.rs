//! The web extension of the guest: base64 in both directions, forgiving
//! on the way in as the web platform asks.

use vstd::prelude::*;
use vstd::string::*;
use vstd::utf8::{encode_scalar, encode_utf8};
use vstd::std_specs::iter::IteratorSpec;

verus! {

broadcast use vstd::string::group_string_axioms;

/// The guest handed over text that holds a character it may not hold.
#[derive(Debug)]
pub struct DomExceptionInvalidCharacterError {
    pub msg: String,
}

impl DomExceptionInvalidCharacterError {
    /// The error with `msg` as its text.
    pub fn new(msg: &str) -> (error: Self)
        ensures
            error.msg@ == msg@,
    {
        DomExceptionInvalidCharacterError { msg: msg.to_owned() }
    }

    /// The text of the error.
    pub fn message(&self) -> (text: String)
        ensures
            text@ == self.msg@,
    {
        self.msg.clone()
    }
}

/// Whether `c` is alphabetic or numeric in the sense of Unicode, as
/// `char::is_alphanumeric` tells it.
pub uninterp spec fn alphanumeric(c: char) -> bool;

/// What decoding `bytes` as standard base64 with padding gives, trailing
/// bits allowed: the decoded bytes, or the description of what is wrong
/// with the input.
pub uninterp spec fn base64_decoded(bytes: Seq<u8>) -> Result<Seq<u8>, Seq<char>>;

/// The standard base64 text, with padding, of `bytes`.
pub uninterp spec fn base64_encoded(bytes: Seq<u8>) -> Seq<char>;

/// Asks `char::is_alphanumeric` whether `c` is alphabetic or numeric.
#[verifier::external_body]
fn is_alphanumeric(c: char) -> (yes: bool)
    ensures
        yes == alphanumeric(c),
{
    c.is_alphanumeric()
}

/// Appends `c` to `text` with `String::push`.
#[verifier::external_body]
fn push_char(text: &mut String, c: char)
    ensures
        final(text)@ == old(text)@.push(c),
{
    text.push(c)
}

/// Decodes `bytes` with `base64::decode_config`, in the standard alphabet
/// with padding and with trailing bits allowed. A failure comes back as
/// the crate's description of it.
#[verifier::external_body]
fn decode_standard(bytes: &Vec<u8>) -> (outcome: Result<Vec<u8>, String>)
    requires
        bytes@.len() + 7 <= usize::MAX,
    ensures
        match outcome {
            Ok(decoded) => base64_decoded(bytes@) == Ok::<Seq<u8>, Seq<char>>(decoded@),
            Err(text) => base64_decoded(bytes@) == Err::<Seq<u8>, Seq<char>>(text@),
        },
{
    let config =
        base64::Config::new(base64::CharacterSet::Standard, true).decode_allow_trailing_bits(true);
    base64::decode_config(bytes, config).map_err(|err| format!("{:?}", err))
}

/// The length of the base64 text of `len` bytes, with padding.
pub open spec fn encoded_len(len: nat) -> nat {
    (len / 3) * 4 + if len % 3 > 0 {
        4nat
    } else {
        0nat
    }
}

/// Encodes `bytes` with `base64::encode_config`, in the standard alphabet
/// with padding. The length of the text has to fit the machine.
#[verifier::external_body]
fn encode_standard(bytes: &Vec<u8>) -> (text: String)
    requires
        encoded_len(bytes@.len()) <= usize::MAX,
    ensures
        text@ == base64_encoded(bytes@),
{
    let config =
        base64::Config::new(base64::CharacterSet::Standard, true).decode_allow_trailing_bits(true);
    base64::encode_config(bytes, config)
}

/// Whether `c` is ASCII whitespace: space, tab, line feed, form feed or
/// carriage return.
pub open spec fn is_whitespace(c: char) -> bool {
    c == ' ' || c == '\t' || c == '\n' || c == '\x0C' || c == '\r'
}

/// Whether `c` may stand in base64 text once padding is off.
pub open spec fn allowed(c: char) -> bool {
    c == '+' || c == '/' || alphanumeric(c)
}

/// The text without its ASCII whitespace.
pub open spec fn stripped(text: Seq<char>) -> Seq<char>
    decreases text.len(),
{
    if text.len() == 0 {
        Seq::empty()
    } else if is_whitespace(text.last()) {
        stripped(text.drop_last())
    } else {
        stripped(text.drop_last()).push(text.last())
    }
}

/// How many `=` are taken off the end of whitespace-free text: up to two,
/// and only where the text is a whole number of four-byte groups long.
pub open spec fn padding(text: Seq<char>) -> nat {
    if encode_utf8(text).len() % 4 != 0 {
        0
    } else if text.len() >= 2 && text[text.len() - 1] == '=' && text[text.len() - 2] == '=' {
        2
    } else if text.len() >= 1 && text[text.len() - 1] == '=' {
        1
    } else {
        0
    }
}

/// Whether a character that may not stand in base64 text is among the
/// first `upto` of `text`.
pub open spec fn has_forbidden(text: Seq<char>, upto: int) -> bool {
    exists|i: int| 0 <= i < upto && i < text.len() && !allowed(#[trigger] text[i])
}

/// The text of the error for input of a length that no base64 text has.
pub open spec fn bad_length_text() -> Seq<char> {
    "Failed to decode base64."@
}

/// The text of the error for input with a character that may not stand
/// in base64 text.
pub open spec fn bad_character_text() -> Seq<char> {
    "Failed to decode base64: invalid character"@
}

/// What stands in front of the decoder's description of a failure.
pub open spec fn decode_failure_prefix() -> Seq<char> {
    "Failed to decode base64: "@
}

/// What forgiving base64 decoding makes of `input`: whitespace is taken
/// out, then the padding; text that is one byte longer than whole groups
/// is refused, then text with a forbidden character; the rest goes to the
/// decoder, whose failure is passed on with its description.
pub open spec fn decode_outcome(input: Seq<char>) -> Result<Seq<u8>, Seq<char>> {
    let text = stripped(input);
    let pad = padding(text);
    let bytes = encode_utf8(text);
    if (bytes.len() - pad) % 4 == 1 {
        Err(bad_length_text())
    } else if has_forbidden(text, text.len() - pad) {
        Err(bad_character_text())
    } else {
        match base64_decoded(bytes.take(bytes.len() - pad)) {
            Ok(decoded) => Ok(decoded),
            Err(description) => Err(decode_failure_prefix() + description),
        }
    }
}

/// The last characters of the text that was kept so far, and whether a
/// forbidden character stands before them.
struct Tail {
    before_last: Option<char>,
    last: Option<char>,
    forbidden_earlier: bool,
}

impl Tail {
    /// Whether the tail describes `text`.
    spec fn describes(&self, text: Seq<char>) -> bool {
        &&& self.last == (if text.len() >= 1 {
            Some(text[text.len() - 1])
        } else {
            None
        })
        &&& self.before_last == (if text.len() >= 2 {
            Some(text[text.len() - 2])
        } else {
            None
        })
        &&& self.forbidden_earlier == has_forbidden(text, text.len() - 2)
    }
}

/// Whether `c` may stand in base64 text once padding is off.
fn is_allowed(c: char) -> (yes: bool)
    ensures
        yes == allowed(c),
{
    c == '+' || c == '/' || is_alphanumeric(c)
}

/// Decodes base64 text the forgiving way of the web platform: see
/// [`decode_outcome`]. The input has to leave the decoder room for its
/// own arithmetic, seven bytes below the largest length.
pub fn op_base64_decode(input: &str) -> (outcome: Result<Vec<u8>, DomExceptionInvalidCharacterError>)
    requires
        encode_utf8(input@).len() + 7 <= usize::MAX,
    ensures
        match outcome {
            Ok(decoded) => decode_outcome(input@) == Ok::<Seq<u8>, Seq<char>>(decoded@),
            Err(error) => decode_outcome(input@) == Err::<Seq<u8>, Seq<char>>(error.msg@),
        },
{
    let mut text = String::new();
    let mut tail = Tail { before_last: None, last: None, forbidden_earlier: false };
    let mut chars = input.chars();
    let ghost mut seen: Seq<char> = Seq::empty();
    loop
        invariant
            seen + chars.remaining() == input@,
            text@ == stripped(seen),
            tail.describes(text@),
        ensures
            seen == input@,
        decreases input@.len() - seen.len(),
    {
        let ghost before = chars;
        let next = chars.next();
        match next {
            None => {
                assert(seen =~= input@);
                break;
            },
            Some(c) => {
                proof {
                    assert(c == before.remaining()[0]);
                    assert(seen.push(c) + chars.remaining() =~= input@);
                    assert(seen.push(c).drop_last() =~= seen);
                }
                let ghost kept = text@;
                if !(c == ' ' || c == '\t' || c == '\n' || c == '\x0C' || c == '\r') {
                    let leaves_tail_forbidden: bool = match tail.before_last {
                        Some(b) => !is_allowed(b),
                        None => false,
                    };
                    push_char(&mut text, c);
                    proof {
                        let grown = text@;
                        if has_forbidden(grown, grown.len() - 2) {
                            let i = choose|i: int|
                                0 <= i < grown.len() - 2 && i < grown.len() && !allowed(
                                    #[trigger] grown[i],
                                );
                            assert(grown[i] == kept[i]);
                            if i < kept.len() - 2 {
                                assert(has_forbidden(kept, kept.len() - 2));
                            }
                        }
                        if tail.forbidden_earlier {
                            let i = choose|i: int|
                                0 <= i < kept.len() - 2 && i < kept.len() && !allowed(
                                    #[trigger] kept[i],
                                );
                            assert(grown[i] == kept[i]);
                        }
                        if leaves_tail_forbidden {
                            assert(grown[kept.len() - 2] == kept[kept.len() - 2]);
                        }
                    }
                    tail = Tail {
                        before_last: tail.last,
                        last: Some(c),
                        forbidden_earlier: tail.forbidden_earlier || leaves_tail_forbidden,
                    };
                }
                proof {
                    seen = seen.push(c);
                }
            },
        }
    }
    let len: usize = text.as_str().len();
    let pad: usize = if len % 4 != 0 {
        0
    } else if tail.last == Some('=') && tail.before_last == Some('=') {
        2
    } else if tail.last == Some('=') {
        1
    } else {
        0
    };
    proof {
        lemma_encoding_is_no_shorter(text@);
        lemma_stripped_is_no_longer(input@);
    }
    if (len - pad) % 4 == 1 {
        return Err(DomExceptionInvalidCharacterError::new("Failed to decode base64."));
    }
    let forbidden_before_last: bool = pad < 2 && match tail.before_last {
        Some(b) => !is_allowed(b),
        None => false,
    };
    let forbidden_last: bool = pad < 1 && match tail.last {
        Some(l) => !is_allowed(l),
        None => false,
    };
    let forbidden: bool = tail.forbidden_earlier || forbidden_before_last || forbidden_last;
    proof {
        let t = text@;
        let upto = t.len() - pad;
        if has_forbidden(t, upto) {
            let i = choose|i: int| 0 <= i < upto && i < t.len() && !allowed(#[trigger] t[i]);
            if i < t.len() - 2 {
                assert(has_forbidden(t, t.len() - 2));
            }
        }
        if tail.forbidden_earlier {
            let i = choose|i: int| 0 <= i < t.len() - 2 && i < t.len() && !allowed(#[trigger] t[i]);
            assert(!allowed(t[i]) && i < upto);
        }
        if forbidden_before_last {
            assert(!allowed(t[t.len() - 2]));
        }
        if forbidden_last {
            assert(!allowed(t[t.len() - 1]));
        }
        assert(forbidden == has_forbidden(t, upto));
    }
    if forbidden {
        return Err(
            DomExceptionInvalidCharacterError::new("Failed to decode base64: invalid character"),
        );
    }
    let mut bytes: Vec<u8> = text.as_str().as_bytes_vec();
    bytes.truncate(len - pad);
    assert(bytes@ =~= encode_utf8(text@).take(len - pad));
    decoded_or_error(decode_standard(&bytes))
}

/// Makes the result of the guest's call from what the decoder returned:
/// its bytes, or an error whose text ends in the decoder's description.
pub fn decoded_or_error(outcome: Result<Vec<u8>, String>) -> (result: Result<
    Vec<u8>,
    DomExceptionInvalidCharacterError,
>)
    ensures
        match outcome {
            Ok(decoded) => result == Ok::<Vec<u8>, DomExceptionInvalidCharacterError>(decoded),
            Err(description) => result is Err && result->Err_0.msg@ == decode_failure_prefix()
                + description@,
        },
{
    match outcome {
        Ok(decoded) => Ok(decoded),
        Err(description) => {
            let prefix: String = "Failed to decode base64: ".to_owned();
            Err(DomExceptionInvalidCharacterError { msg: prefix.concat(description.as_str()) })
        },
    }
}

/// Encodes `bytes` as standard base64 text with padding. The length of
/// the text has to fit the machine.
pub fn op_base64_encode(bytes: &Vec<u8>) -> (text: String)
    requires
        encoded_len(bytes@.len()) <= usize::MAX,
    ensures
        text@ == base64_encoded(bytes@),
{
    encode_standard(bytes)
}

/// The UTF-8 encoding of a text with one more character at its end is
/// the encoding of the text with that of the character at its end.
proof fn lemma_encoding_of_push(text: Seq<char>, c: char)
    ensures
        encode_utf8(text.push(c)) == encode_utf8(text) + encode_scalar(c as u32),
    decreases text.len(),
{
    let longer = text.push(c);
    if text.len() == 0 {
        assert(longer.drop_first() =~= Seq::<char>::empty());
        assert(encode_utf8(longer.drop_first()) =~= Seq::<u8>::empty());
        assert(encode_utf8(longer) =~= encode_utf8(text) + encode_scalar(c as u32));
    } else {
        assert(longer.drop_first() =~= text.drop_first().push(c));
        assert(longer[0] == text[0]);
        lemma_encoding_of_push(text.drop_first(), c);
        assert(encode_utf8(longer) =~= encode_utf8(text) + encode_scalar(c as u32));
    }
}

/// Taking the whitespace out of a text does not make its UTF-8 encoding
/// longer.
proof fn lemma_stripped_is_no_longer(text: Seq<char>)
    ensures
        encode_utf8(stripped(text)).len() <= encode_utf8(text).len(),
    decreases text.len(),
{
    if text.len() > 0 {
        let init = text.drop_last();
        lemma_stripped_is_no_longer(init);
        assert(text =~= init.push(text.last()));
        lemma_encoding_of_push(init, text.last());
        if !is_whitespace(text.last()) {
            lemma_encoding_of_push(stripped(init), text.last());
        }
    }
}

/// The UTF-8 encoding of a text has at least as many bytes as the text
/// has characters.
proof fn lemma_encoding_is_no_shorter(text: Seq<char>)
    ensures
        encode_utf8(text).len() >= text.len(),
    decreases text.len(),
{
    if text.len() > 0 {
        lemma_encoding_is_no_shorter(text.drop_first());
        assert(encode_scalar(text[0] as u32).len() >= 1);
    }
}

} // verus!
