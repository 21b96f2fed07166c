//! Wire-level JSON values and the canonical rendering of a string-keyed
//! object, as the transport serializer emits it.
//!
//! The body of a task message is a string-keyed mapping whose values are
//! strings, lists of strings, or explicit nulls.  `json_object` states, down
//! to the character, the compact JSON text of such a mapping; the one
//! serializer call of the crate is trusted to produce exactly that text.

use vstd::prelude::*;

verus! {

/// A value of the wire mapping: an explicit null, a string, or a list of
/// strings.
#[derive(Clone, Debug)]
pub enum BodyValue {
    Null,
    Text(String),
    TextList(Vec<String>),
}

/// Mathematical model of a [`BodyValue`].
pub ghost enum WireValue {
    Null,
    Text(Seq<char>),
    TextList(Seq<Seq<char>>),
}

impl View for BodyValue {
    type V = WireValue;

    open spec fn view(&self) -> WireValue {
        match self {
            BodyValue::Null => WireValue::Null,
            BodyValue::Text(s) => WireValue::Text(s@),
            BodyValue::TextList(items) => WireValue::TextList(items.deep_view()),
        }
    }
}

/// The lower-case hexadecimal digit of `n`.
pub open spec fn hex_digit_char(n: u32) -> char
    recommends
        n < 16,
{
    if n == 0 {
        '0'
    } else if n == 1 {
        '1'
    } else if n == 2 {
        '2'
    } else if n == 3 {
        '3'
    } else if n == 4 {
        '4'
    } else if n == 5 {
        '5'
    } else if n == 6 {
        '6'
    } else if n == 7 {
        '7'
    } else if n == 8 {
        '8'
    } else if n == 9 {
        '9'
    } else if n == 10 {
        'a'
    } else if n == 11 {
        'b'
    } else if n == 12 {
        'c'
    } else if n == 13 {
        'd'
    } else if n == 14 {
        'e'
    } else {
        'f'
    }
}

/// How one character appears inside a JSON string: `"` and `\` are escaped,
/// control characters get their short escape or a `\u00xx` form, and every
/// other character stands as itself.
pub open spec fn json_escape_char(c: char) -> Seq<char> {
    if c == '"' {
        seq!['\\', '"']
    } else if c == '\\' {
        seq!['\\', '\\']
    } else if c == '\u{8}' {
        seq!['\\', 'b']
    } else if c == '\u{9}' {
        seq!['\\', 't']
    } else if c == '\u{A}' {
        seq!['\\', 'n']
    } else if c == '\u{C}' {
        seq!['\\', 'f']
    } else if c == '\u{D}' {
        seq!['\\', 'r']
    } else if (c as u32) < 0x20 {
        seq!['\\', 'u', '0', '0', hex_digit_char((c as u32) / 16), hex_digit_char((c as u32) % 16)]
    } else {
        seq![c]
    }
}

/// The escaped form of a whole string, character by character.
pub open spec fn json_escape(s: Seq<char>) -> Seq<char>
    decreases s.len(),
{
    if s.len() == 0 {
        Seq::empty()
    } else {
        json_escape_char(s[0]) + json_escape(s.drop_first())
    }
}

/// A JSON string literal: the escaped text between double quotes.
pub open spec fn json_string(s: Seq<char>) -> Seq<char> {
    seq!['"'] + json_escape(s) + seq!['"']
}

/// The comma-separated items of a JSON array of strings.
pub open spec fn json_string_items(items: Seq<Seq<char>>) -> Seq<char>
    decreases items.len(),
{
    if items.len() == 0 {
        Seq::empty()
    } else if items.len() == 1 {
        json_string(items[0])
    } else {
        json_string(items[0]) + seq![','] + json_string_items(items.drop_first())
    }
}

/// The JSON text of one wire value.
pub open spec fn json_value(v: WireValue) -> Seq<char> {
    match v {
        WireValue::Null => seq!['n', 'u', 'l', 'l'],
        WireValue::Text(s) => json_string(s),
        WireValue::TextList(items) => seq!['['] + json_string_items(items) + seq![']'],
    }
}

/// The comma-separated `"key":value` members of a JSON object.
pub open spec fn json_members(entries: Seq<(Seq<char>, WireValue)>) -> Seq<char>
    decreases entries.len(),
{
    if entries.len() == 0 {
        Seq::empty()
    } else if entries.len() == 1 {
        json_string(entries[0].0) + seq![':'] + json_value(entries[0].1)
    } else {
        json_string(entries[0].0) + seq![':'] + json_value(entries[0].1) + seq![',']
            + json_members(entries.drop_first())
    }
}

/// The compact JSON text of a string-keyed object, members in the given
/// order.
pub open spec fn json_object(entries: Seq<(Seq<char>, WireValue)>) -> Seq<char> {
    seq!['{'] + json_members(entries) + seq!['}']
}

/// Strict lexicographic order on strings, by character code.
pub open spec fn str_lt(a: Seq<char>, b: Seq<char>) -> bool
    decreases a.len(),
{
    if b.len() == 0 {
        false
    } else if a.len() == 0 {
        true
    } else if a[0] != b[0] {
        (a[0] as u32) < (b[0] as u32)
    } else {
        str_lt(a.drop_first(), b.drop_first())
    }
}

/// The keys of the entries are strictly ascending (so also pairwise
/// distinct), as the keys of an ordered map are when walked in order.
pub open spec fn keys_strictly_ascending(entries: Seq<(Seq<char>, WireValue)>) -> bool {
    forall|i: int, j: int| 0 <= i < j < entries.len() ==> str_lt(entries[i].0, entries[j].0)
}

/// The model of an executable entry list.
pub open spec fn entries_view(entries: Seq<(String, BodyValue)>) -> Seq<(Seq<char>, WireValue)> {
    entries.map_values(|p: (String, BodyValue)| (p.0@, p.1@))
}

/// Relies on `serde_json::to_string` over a `serde_json::Map` holding the
/// given entries: the map keeps its keys in ascending order, so with the
/// entries already ascending the serializer emits the compact JSON object of
/// exactly these members in this order, escaping characters as `json_escape`
/// states; serializing a string-keyed map of these values cannot fail.
#[verifier::external_body]
pub(crate) fn entries_to_json(entries: &Vec<(String, BodyValue)>) -> (r: String)
    requires
        keys_strictly_ascending(entries_view(entries@)),
    ensures
        r@ == json_object(entries_view(entries@)),
{
    let mut m = serde_json::Map::new();
    for (k, v) in entries.iter() {
        let jv = match v {
            BodyValue::Null => serde_json::Value::Null,
            BodyValue::Text(s) => serde_json::Value::from(s.clone()),
            BodyValue::TextList(items) => serde_json::Value::from(items.clone()),
        };
        m.insert(k.clone(), jv);
    }
    serde_json::to_string(&serde_json::Value::Object(m)).expect("string-keyed map")
}

} // verus!
