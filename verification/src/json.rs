//! JSON values, and the text that stands for them.

use vstd::prelude::*;
use vstd::utf8::{encode_utf8, is_ascii_chars, is_ascii_chars_encode_utf8};

verus! {

/// A JSON value as a mathematical tree.
pub enum JsonValue {
    Null,
    Bool(bool),
    /// A number. Of a number only this is kept: the value, where it is written
    /// as an integer from 0 to 2^64 - 1, and nothing otherwise.
    Number(Option<u64>),
    Text(Seq<char>),
    Array(Seq<JsonValue>),
    /// The members of an object, each a name and a value.
    Object(Seq<(Seq<char>, JsonValue)>),
}

/// A member of a JSON object.
#[derive(Debug, PartialEq, Eq)]
pub struct Member {
    pub name: String,
    pub value: Json,
}

/// A JSON value.
#[derive(Debug, PartialEq, Eq)]
pub enum Json {
    Null,
    Bool(bool),
    /// A number: its value, where it is written as an integer from 0 to
    /// 2^64 - 1, and `None` for every other number.
    Number(Option<u64>),
    Text(String),
    Array(Vec<Json>),
    Object(Vec<Member>),
}

/// The tree that a `Json` stands for.
pub open spec fn value_of(json: Json) -> JsonValue
    decreases json,
{
    match json {
        Json::Null => JsonValue::Null,
        Json::Bool(b) => JsonValue::Bool(b),
        Json::Number(n) => JsonValue::Number(n),
        Json::Text(s) => JsonValue::Text(s@),
        Json::Array(items) => JsonValue::Array(
            Seq::new(
                items@.len(),
                |i: int|
                    if 0 <= i < items@.len() {
                        value_of(items@[i])
                    } else {
                        JsonValue::Null
                    },
            ),
        ),
        Json::Object(members) => JsonValue::Object(
            Seq::new(
                members@.len(),
                |i: int|
                    if 0 <= i < members@.len() {
                        (members@[i].name@, value_of(members@[i].value))
                    } else {
                        (Seq::empty(), JsonValue::Null)
                    },
            ),
        ),
    }
}

impl View for Member {
    type V = (Seq<char>, JsonValue);

    open spec fn view(&self) -> (Seq<char>, JsonValue) {
        (self.name@, value_of(self.value))
    }
}

impl View for Json {
    type V = JsonValue;

    open spec fn view(&self) -> JsonValue {
        value_of(*self)
    }
}

/// Whether a string is written without any escape and one byte for each
/// character: every character is ASCII, none is a control character, a quote
/// or a backslash.
pub open spec fn is_plain(text: Seq<char>) -> bool {
    forall|i: int|
        0 <= i < text.len() ==> ' ' <= #[trigger] text[i] <= '\u{7f}' && text[i] != '"' && text[i]
            != '\\'
}

/// Bytes that need no escape stand for themselves.
pub proof fn lemma_escaped_bytes_plain(bytes: Seq<u8>)
    requires
        forall|i: int| 0 <= i < bytes.len() ==> escaped(#[trigger] bytes[i]) == seq![bytes[i]],
    ensures
        escaped_bytes(bytes) == bytes,
    decreases bytes.len(),
{
    if bytes.len() > 0 {
        let rest = bytes.skip(1);
        assert forall|i: int| 0 <= i < rest.len() implies escaped(#[trigger] rest[i]) == seq![
            rest[i],
        ] by {
            assert(rest[i] == bytes[i + 1]);
        }
        lemma_escaped_bytes_plain(rest);
        assert(seq![bytes[0]] + rest =~= bytes);
    } else {
        assert(bytes =~= Seq::empty());
    }
}

/// A plain string is written as its characters between two quotes, and a list
/// of one plain string as that between two square brackets.
pub proof fn lemma_plain_text(text: Seq<char>)
    requires
        is_plain(text),
    ensures
        quoted(text) == seq!['"' as u8] + Seq::new(text.len(), |i: int| text[i] as u8) + seq![
            '"' as u8,
        ],
        list_text(seq![text]) == seq!['[' as u8] + quoted(text) + seq![']' as u8],
{
    let bytes = encode_utf8(text);
    assert(is_ascii_chars(text));
    is_ascii_chars_encode_utf8(text);
    assert(bytes =~= Seq::new(text.len(), |i: int| text[i] as u8));
    assert forall|i: int| 0 <= i < bytes.len() implies escaped(#[trigger] bytes[i]) == seq![
        bytes[i],
    ] by {
        let c = text[i];
        assert(' ' <= c <= '\u{7f}' && c != '"' && c != '\\');
        assert(bytes[i] == c as u8);
    }
    lemma_escaped_bytes_plain(bytes);
}

/// What `serde_json` holds in a `Value`.
#[verifier::external_type_specification]
#[verifier::external_body]
pub struct ExValue(serde_json::Value);

/// The tree that `serde_json::from_slice` reads from `text`, or `None` where it
/// rejects the text.
pub uninterp spec fn parsed(text: Seq<u8>) -> Option<JsonValue>;

/// The tree that a `serde_json::Value` holds.
pub uninterp spec fn content(value: serde_json::Value) -> JsonValue;

/// The digit for `v` in lower-case hexadecimal.
pub open spec fn hex_digit(v: int) -> u8 {
    if v < 10 {
        (48 + v) as u8
    } else {
        (87 + v) as u8
    }
}

/// How one byte of a string stands in a JSON text: the quote and the backslash
/// behind a backslash, the control characters as `\b`, `\t`, `\n`, `\f`,
/// `\r` or `\u00` and two hexadecimal digits, and every other byte as it is.
pub open spec fn escaped(byte: u8) -> Seq<u8> {
    if byte == '"' as u8 {
        seq!['\\' as u8, '"' as u8]
    } else if byte == '\\' as u8 {
        seq!['\\' as u8, '\\' as u8]
    } else if byte == 8 {
        seq!['\\' as u8, 'b' as u8]
    } else if byte == 9 {
        seq!['\\' as u8, 't' as u8]
    } else if byte == 10 {
        seq!['\\' as u8, 'n' as u8]
    } else if byte == 12 {
        seq!['\\' as u8, 'f' as u8]
    } else if byte == 13 {
        seq!['\\' as u8, 'r' as u8]
    } else if byte < 32 {
        seq![
            '\\' as u8,
            'u' as u8,
            '0' as u8,
            '0' as u8,
            hex_digit(byte as int / 16),
            hex_digit(byte as int % 16),
        ]
    } else {
        seq![byte]
    }
}

/// The bytes of a string, each as it stands in a JSON text.
pub open spec fn escaped_bytes(bytes: Seq<u8>) -> Seq<u8>
    decreases bytes.len(),
{
    if bytes.len() == 0 {
        Seq::empty()
    } else {
        escaped(bytes[0]) + escaped_bytes(bytes.skip(1))
    }
}

/// A string as a JSON text: its UTF-8 bytes, escaped, between two quotes.
pub open spec fn quoted(text: Seq<char>) -> Seq<u8> {
    seq!['"' as u8] + escaped_bytes(encode_utf8(text)) + seq!['"' as u8]
}

/// The strings `items` as JSON texts with a comma between every two.
pub open spec fn joined(items: Seq<Seq<char>>) -> Seq<u8>
    decreases items.len(),
{
    if items.len() == 0 {
        Seq::empty()
    } else if items.len() == 1 {
        quoted(items[0])
    } else {
        quoted(items[0]) + seq![',' as u8] + joined(items.skip(1))
    }
}

/// A list of strings as a JSON text: an array without white space.
pub open spec fn list_text(items: Seq<Seq<char>>) -> Seq<u8> {
    seq!['[' as u8] + joined(items) + seq![']' as u8]
}

/// The array whose elements are the strings `items`, in their order.
pub open spec fn list_value(items: Seq<Seq<char>>) -> JsonValue {
    JsonValue::Array(Seq::new(items.len(), |i: int| JsonValue::Text(items[i])))
}

/// Calls `serde_json::from_slice` for a `serde_json::Value`. The outcome is a
/// function of the bytes alone: `parsed` names it. `None` stands for a text
/// that is rejected, whatever the error says.
#[verifier::external_body]
fn value_of_text(text: &[u8]) -> (outcome: Option<serde_json::Value>)
    ensures
        match outcome {
            Some(value) => parsed(text@) == Some(content(value)),
            None => parsed(text@) is None,
        },
{
    serde_json::from_slice::<serde_json::Value>(text).ok()
}

/// Moves what a `serde_json::Value` holds into a `Json`, variant by variant. Of
/// a number it keeps what `serde_json::Number::as_u64` returns. `content` names
/// the tree that comes out.
#[verifier::external_body]
fn json_of_value(value: serde_json::Value) -> (json: Json)
    ensures
        json@ == content(value),
{
    match value {
        serde_json::Value::Null => Json::Null,
        serde_json::Value::Bool(b) => Json::Bool(b),
        serde_json::Value::Number(n) => Json::Number(n.as_u64()),
        serde_json::Value::String(s) => Json::Text(s),
        serde_json::Value::Array(a) => Json::Array(a.into_iter().map(json_of_value).collect()),
        serde_json::Value::Object(m) => Json::Object(
            m.into_iter().map(|(name, v)| Member { name, value: json_of_value(v) }).collect(),
        ),
    }
}

/// Calls `serde_json::to_vec` on a list of strings. It cannot fail on such a
/// list: serialization fails only on a map with keys that are no strings, or
/// where a type's own `Serialize` fails. What it writes is `list_text`: the
/// compact form, with the escapes of `escaped` and no others. And
/// `serde_json::from_slice` reads that text back as the array of the same
/// strings.
#[verifier::external_body]
fn text_of_list(items: &[String]) -> (outcome: Option<Vec<u8>>)
    ensures
        outcome is Some,
        outcome matches Some(text) ==> text@ == list_text(items.deep_view()),
        outcome matches Some(text) ==> parsed(text@) == Some(list_value(items.deep_view())),
{
    serde_json::to_vec(items).ok()
}

/// Reads a JSON text.
pub fn parse(text: &[u8]) -> (json: Option<Json>)
    ensures
        match json {
            Some(j) => parsed(text@) == Some(j@),
            None => parsed(text@) is None,
        },
{
    match value_of_text(text) {
        Some(value) => Some(json_of_value(value)),
        None => None,
    }
}

/// Writes a list of strings as a JSON array. Read back, the text gives the
/// strings again, in their order.
pub fn encode_list(items: &[String]) -> (text: Vec<u8>)
    ensures
        text@ == list_text(items.deep_view()),
        parsed(text@) == Some(list_value(items.deep_view())),
{
    match text_of_list(items) {
        Some(text) => text,
        None => {
            // a list of strings is always written
            Vec::new()
        },
    }
}

} // verus!
