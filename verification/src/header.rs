//! The header types of the HTTP client, and what this library relies on of them.

use reqwest::header::{HeaderMap, HeaderValue, InvalidHeaderValue};
use vstd::prelude::*;
use vstd::string::*;
use vstd::utf8::*;

verus! {

/// `reqwest::header::HeaderMap`, a multimap from header names to header values.
/// Its inside is not visible here: `header_fields` stands for what it holds.
#[verifier::external_type_specification]
#[verifier::external_body]
#[verifier::reject_recursive_types(T)]
pub struct ExHeaderMap<T>(HeaderMap<T>);

/// `reqwest::header::HeaderValue`, the bytes of one header value.
/// Its inside is not visible here: `header_value_bytes` stands for what it holds.
#[verifier::external_type_specification]
#[verifier::external_body]
pub struct ExHeaderValue(HeaderValue);

/// `reqwest::header::InvalidHeaderValue`, the error of a refused header value.
/// It carries no information.
#[verifier::external_type_specification]
#[verifier::external_body]
pub struct ExInvalidHeaderValue(InvalidHeaderValue);

/// The bytes that a header value holds, as `HeaderValue::as_bytes` gives them.
pub uninterp spec fn header_value_bytes(value: HeaderValue) -> Seq<u8>;

/// What a header map holds: under each header name, written in lower case,
/// the values stored for it, the first one first.
pub uninterp spec fn header_fields(map: HeaderMap) -> Map<Seq<char>, Seq<Seq<u8>>>;

/// A byte that may stand in a header value: anything from the space upwards
/// except DEL, and the tabulator.
pub open spec fn is_value_byte(b: u8) -> bool {
    (b >= 32 && b != 127) || b == 9
}

/// A byte of visible ASCII: from the space to `~`, and the tabulator.
pub open spec fn is_visible_byte(b: u8) -> bool {
    (32 <= b < 127) || b == 9
}

/// Every byte of `bytes` may stand in a header value.
pub open spec fn is_value_text(bytes: Seq<u8>) -> bool {
    forall|i: int| 0 <= i < bytes.len() ==> is_value_byte(#[trigger] bytes[i])
}

/// Every byte of `bytes` is visible ASCII.
pub open spec fn is_visible_text(bytes: Seq<u8>) -> bool {
    forall|i: int| 0 <= i < bytes.len() ==> is_visible_byte(#[trigger] bytes[i])
}

/// A character of the header names this library writes: a lower case letter,
/// a digit or a hyphen.
pub open spec fn is_name_char(c: char) -> bool {
    ('a' <= c <= 'z') || ('0' <= c <= '9') || c == '-'
}

/// A header name as this library writes it: between 1 and 63 name characters.
pub open spec fn is_header_name(name: Seq<char>) -> bool {
    &&& 0 < name.len() < 64
    &&& forall|i: int| 0 <= i < name.len() ==> is_name_char(#[trigger] name[i])
}

/// The fields of a map that holds nothing.
pub open spec fn no_headers() -> Map<Seq<char>, Seq<Seq<u8>>> {
    Map::empty()
}

/// The fields `fields` with `value` as the only value under `name`.
pub open spec fn with_header(
    fields: Map<Seq<char>, Seq<Seq<u8>>>,
    name: Seq<char>,
    value: Seq<u8>,
) -> Map<Seq<char>, Seq<Seq<u8>>> {
    fields.insert(name, seq![value])
}

/// The most names a header map takes.
pub open spec fn max_header_names() -> nat {
    32768
}

/// `HeaderMap::new`: a map that holds nothing.
#[verifier::external_body]
pub(crate) fn new_header_map() -> (map: HeaderMap)
    ensures
        header_fields(map) == no_headers(),
{
    HeaderMap::new()
}

/// `HeaderMap::insert` with a static text as the key. The key keeps its spelling,
/// being in lower case already. Afterwards `value` is the only value under `name`,
/// whatever was stored there before, and every other name holds what it held.
/// The call panics on a text that is no header name and on a full map, which
/// the precondition leaves out.
#[verifier::external_body]
pub(crate) fn insert_header(map: &mut HeaderMap, name: &'static str, value: HeaderValue)
    requires
        is_header_name(name@),
        header_fields(*old(map)).dom().finite(),
        header_fields(*old(map)).dom().len() < max_header_names(),
    ensures
        header_fields(*final(map)) == with_header(
            header_fields(*old(map)),
            name@,
            header_value_bytes(value),
        ),
{
    map.insert(name, value);
}

/// `HeaderValue::from_static`: the value holds the bytes of `text`.
/// The call panics on a byte that is not visible ASCII, which the precondition
/// leaves out.
#[verifier::external_body]
pub(crate) fn static_header_value(text: &'static str) -> (value: HeaderValue)
    requires
        is_visible_text(text.spec_bytes()),
    ensures
        header_value_bytes(value) == text.spec_bytes(),
{
    HeaderValue::from_static(text)
}

/// `HeaderValue::from_str`: accepted exactly when every byte of `text` may stand
/// in a header value, and the value then holds the bytes of `text`.
#[verifier::external_body]
pub(crate) fn parse_header_value(text: &str) -> (parsed: Result<HeaderValue, InvalidHeaderValue>)
    ensures
        parsed is Ok <==> is_value_text(text.spec_bytes()),
        parsed is Ok ==> header_value_bytes(parsed->Ok_0) == text.spec_bytes(),
{
    HeaderValue::from_str(text)
}

/// A character of visible ASCII: from the space to `~`, and the tabulator.
pub open spec fn is_visible_char(c: char) -> bool {
    (' ' <= c <= '~') || c == '\t'
}

/// A character whose UTF-8 bytes may all stand in a header value: any but the
/// ASCII control characters, of which only the tabulator is let through.
pub open spec fn is_value_char(c: char) -> bool {
    (c >= ' ' && c != '\u{7f}') || c == '\t'
}

/// Every character of `text` is visible ASCII.
pub open spec fn is_visible_chars(text: Seq<char>) -> bool {
    forall|i: int| 0 <= i < text.len() ==> is_visible_char(#[trigger] text[i])
}

/// Every character of `text` can stand in a header value.
pub open spec fn is_value_chars(text: Seq<char>) -> bool {
    forall|i: int| 0 <= i < text.len() ==> is_value_char(#[trigger] text[i])
}

/// A text of visible ASCII characters is encoded byte for character, in visible
/// bytes.
pub proof fn lemma_visible_text(text: Seq<char>)
    requires
        is_visible_chars(text),
    ensures
        is_visible_text(encode_utf8(text)),
        is_value_text(encode_utf8(text)),
        encode_utf8(text).len() == text.len(),
{
    is_ascii_chars_encode_utf8(text);
    assert forall|i: int| 0 <= i < text.len() implies is_visible_byte(
        #[trigger] encode_utf8(text)[i],
    ) by {
        assert(is_visible_char(text[i]));
    }
}

/// The bytes of one encoded character may stand in a header value exactly when
/// the character is no ASCII control character but the tabulator.
pub proof fn lemma_value_char(c: char)
    ensures
        is_value_text(encode_scalar(c as u32)) <==> is_value_char(c),
{
    let s = c as u32;
    let bytes = encode_scalar(s);
    if has_width_1_encoding(s) {
        assert(leading_byte_width_1(s) == s) by (bit_vector)
            requires
                s <= 0x7F,
        ;
        assert(is_value_byte(bytes[0]) <==> is_value_char(c));
    } else {
        assert(leading_byte_width_2(s) >= 0x80) by (bit_vector);
        assert(leading_byte_width_3(s) >= 0x80) by (bit_vector);
        assert(leading_byte_width_4(s) >= 0x80) by (bit_vector);
        assert(last_continuation_byte(s) >= 0x80) by (bit_vector);
        assert(second_last_continuation_byte(s) >= 0x80) by (bit_vector);
        assert(third_last_continuation_byte(s) >= 0x80) by (bit_vector);
        assert forall|i: int| 0 <= i < bytes.len() implies bytes[i] >= 0x80 by {}
    }
}

/// Two byte texts in a row may stand in a header value exactly when each may.
pub proof fn lemma_value_text_of_parts(first: Seq<u8>, second: Seq<u8>)
    ensures
        is_value_text(first + second) <==> is_value_text(first) && is_value_text(second),
{
    let whole = first + second;
    if is_value_text(whole) {
        assert forall|i: int| 0 <= i < first.len() implies is_value_byte(#[trigger] first[i]) by {
            assert(first[i] == whole[i]);
        }
        assert forall|i: int| 0 <= i < second.len() implies is_value_byte(#[trigger] second[i]) by {
            assert(second[i] == whole[i + first.len()]);
        }
    }
}

/// Two texts in a row can stand in a header value exactly when each can.
pub proof fn lemma_value_chars_of_parts(first: Seq<char>, second: Seq<char>)
    ensures
        is_value_chars(first + second) <==> is_value_chars(first) && is_value_chars(second),
{
    let whole = first + second;
    if is_value_chars(whole) {
        assert forall|i: int| 0 <= i < first.len() implies is_value_char(#[trigger] first[i]) by {
            assert(first[i] == whole[i]);
        }
        assert forall|i: int| 0 <= i < second.len() implies is_value_char(#[trigger] second[i]) by {
            assert(second[i] == whole[i + first.len()]);
        }
    }
}

/// A header value can hold a text exactly when none of its characters is an
/// ASCII control character other than the tabulator.
pub proof fn lemma_value_text(text: Seq<char>)
    ensures
        is_value_text(encode_utf8(text)) <==> is_value_chars(text),
    decreases text.len(),
{
    if text.len() > 0 {
        let first = text.take(1);
        let rest = text.drop_first();
        assert(text =~= first + rest);
        lemma_value_char(text[0]);
        lemma_value_text(rest);
        lemma_value_text_of_parts(encode_scalar(text[0] as u32), encode_utf8(rest));
        lemma_value_chars_of_parts(first, rest);
        assert(is_value_chars(first) <==> is_value_char(text[0])) by {
            assert(first[0] == text[0]);
        }
    }
}

} // verus!
