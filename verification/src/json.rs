//! JSON text: the encoding of string values inside request bodies, and the
//! parsing of reply bodies into `serde_json::Value`.
use vstd::prelude::*;

verus! {

#[verifier::external_type_specification]
#[verifier::external_body]
pub struct ExJsonValue(serde_json::Value);

/// Lower-case hexadecimal digit for `d < 16`.
pub open spec fn hex_digit(d: int) -> char {
    if d == 0 { '0' } else if d == 1 { '1' } else if d == 2 { '2' } else if d == 3 { '3' }
    else if d == 4 { '4' } else if d == 5 { '5' } else if d == 6 { '6' } else if d == 7 { '7' }
    else if d == 8 { '8' } else if d == 9 { '9' } else if d == 10 { 'a' } else if d == 11 { 'b' }
    else if d == 12 { 'c' } else if d == 13 { 'd' } else if d == 14 { 'e' } else { 'f' }
}

/// How one character is written inside a JSON string literal: quote and
/// backslash are escaped, the control characters below U+0020 use their short
/// escape where JSON has one and `\u00XX` otherwise; every other character is
/// written as it is.
pub open spec fn escape_char(c: char) -> Seq<char> {
    if c == '"' {
        seq!['\\', '"']
    } else if c == '\\' {
        seq!['\\', '\\']
    } else if c == '\u{8}' {
        seq!['\\', 'b']
    } else if c == '\u{c}' {
        seq!['\\', 'f']
    } else if c == '\n' {
        seq!['\\', 'n']
    } else if c == '\r' {
        seq!['\\', 'r']
    } else if c == '\t' {
        seq!['\\', 't']
    } else if (c as int) < 0x20 {
        seq!['\\', 'u', '0', '0', hex_digit((c as int) / 16), hex_digit((c as int) % 16)]
    } else {
        seq![c]
    }
}

/// The characters of `s`, each escaped as inside a JSON string literal.
pub open spec fn json_escape(s: Seq<char>) -> Seq<char>
    decreases s.len(),
{
    if s.len() == 0 {
        Seq::empty()
    } else {
        json_escape(s.drop_last()) + escape_char(s.last())
    }
}

/// The JSON string literal whose value is `s`.
pub open spec fn json_quoted(s: Seq<char>) -> Seq<char> {
    seq!['"'] + json_escape(s) + seq!['"']
}

/// The one-character string of the hexadecimal digit `d`.
fn hex_str(d: u32) -> (r: &'static str)
    requires
        d < 16,
    ensures
        r@ == seq![hex_digit(d as int)],
{
    proof {
        reveal_strlit("0");
        reveal_strlit("1");
        reveal_strlit("2");
        reveal_strlit("3");
        reveal_strlit("4");
        reveal_strlit("5");
        reveal_strlit("6");
        reveal_strlit("7");
        reveal_strlit("8");
        reveal_strlit("9");
        reveal_strlit("a");
        reveal_strlit("b");
        reveal_strlit("c");
        reveal_strlit("d");
        reveal_strlit("e");
        reveal_strlit("f");
    }
    match d {
        0 => "0",
        1 => "1",
        2 => "2",
        3 => "3",
        4 => "4",
        5 => "5",
        6 => "6",
        7 => "7",
        8 => "8",
        9 => "9",
        10 => "a",
        11 => "b",
        12 => "c",
        13 => "d",
        14 => "e",
        _ => "f",
    }
}

/// Appends the escaped form of the character of `s` at position `i`.
fn append_escaped(out: &mut String, s: &str, i: usize, n: usize)
    requires
        n == s@.len(),
        i < n,
    ensures
        final(out)@ == old(out)@ + escape_char(s@[i as int]),
{
    let c = s.get_char(i);
    proof {
        reveal_strlit("\\\"");
        reveal_strlit("\\\\");
        reveal_strlit("\\b");
        reveal_strlit("\\f");
        reveal_strlit("\\n");
        reveal_strlit("\\r");
        reveal_strlit("\\t");
        reveal_strlit("\\u00");
    }
    if c == '"' {
        out.append("\\\"");
    } else if c == '\\' {
        out.append("\\\\");
    } else if c == '\u{8}' {
        out.append("\\b");
    } else if c == '\u{c}' {
        out.append("\\f");
    } else if c == '\n' {
        out.append("\\n");
    } else if c == '\r' {
        out.append("\\r");
    } else if c == '\t' {
        out.append("\\t");
    } else if (c as u32) < 0x20 {
        let code = c as u32;
        out.append("\\u00");
        out.append(hex_str(code / 16));
        out.append(hex_str(code % 16));
    } else {
        out.append(s.substring_char(i, i + 1));
    }
}

/// `s` written as a JSON string literal, as `serde_json` writes it.
pub fn quote(s: &str) -> (r: String)
    ensures
        r@ == json_quoted(s@),
{
    proof {
        reveal_strlit("\"");
    }
    let n = s.unicode_len();
    let mut out = String::from_str("\"");
    let mut i: usize = 0;
    assert(s@.subrange(0, 0) =~= Seq::<char>::empty());
    while i < n
        invariant
            n == s@.len(),
            i <= n,
            out@ == seq!['"'] + json_escape(s@.subrange(0, i as int)),
        decreases n - i,
    {
        append_escaped(&mut out, s, i, n);
        assert(s@.subrange(0, i + 1).drop_last() =~= s@.subrange(0, i as int));
        i = i + 1;
    }
    assert(s@.subrange(0, n as int) =~= s@);
    out.append("\"");
    out
}

/// What `serde_json` reports when `text` is not one JSON value (with nothing
/// but whitespace around it): the message of its error, or `None` when the
/// text parses.
pub uninterp spec fn json_syntax_error(text: Seq<char>) -> Option<Seq<char>>;

/// The value that `serde_json` parses from `text`, where it parses.
pub uninterp spec fn json_value(text: Seq<char>) -> serde_json::Value;

/// Calls `serde_json::from_str::<serde_json::Value>`. Trusted: the call fails
/// exactly when `json_syntax_error(text)` holds a message, the error's
/// `Display` text is that message, and on success the value is
/// `json_value(text)`.
#[verifier::external_body]
pub(crate) fn parse_json(text: &str) -> (r: std::result::Result<serde_json::Value, String>)
    ensures
        r is Err <==> json_syntax_error(text@) is Some,
        r matches Err(m) ==> json_syntax_error(text@) == Some(m@),
        r matches Ok(v) ==> v == json_value(text@),
{
    match serde_json::from_str::<serde_json::Value>(text) {
        Ok(v) => Ok(v),
        Err(e) => Err(e.to_string()),
    }
}

/// Builds `serde_json::Value::Null`. Trusted: that is the value `serde_json`
/// parses from the text `null`.
#[verifier::external_body]
pub(crate) fn json_null() -> (r: serde_json::Value)
    ensures
        r == json_value("null"@),
{
    serde_json::Value::Null
}

/// The compact JSON text that `serde_json` writes for `v`.
pub uninterp spec fn json_text(v: serde_json::Value) -> Seq<char>;

/// Calls `serde_json::Value`'s `Display` (through `to_string`), which writes
/// the value as compact JSON, as `serde_json::to_string` does. Trusted: the
/// text is `json_text(v)`. Writing a `Value` does not fail: its map keys are
/// strings.
#[verifier::external_body]
pub(crate) fn write_json(v: &serde_json::Value) -> (r: String)
    ensures
        r@ == json_text(*v),
{
    v.to_string()
}

/// One member of a JSON object: the key as a string literal, a colon, and
/// the value's text.
pub open spec fn json_member(key: Seq<char>, value_text: Seq<char>) -> Seq<char> {
    json_quoted(key) + ":"@ + value_text
}

/// `a` comes before `b` when strings are ordered character by character by
/// code point, a proper prefix first; this is the order of Rust's `String`.
pub open spec fn key_less(a: Seq<char>, b: Seq<char>) -> bool {
    exists|k: int|
        0 <= k <= a.len() && k <= b.len() && #[trigger] a.subrange(0, k) == b.subrange(0, k) && {
            ||| k == a.len() && k < b.len()
            ||| k < a.len() && k < b.len() && (a[k] as u32) < (b[k] as u32)
        }
}

/// The keys of `entries` are in strictly increasing order.
pub open spec fn keys_ascending(entries: Seq<(Seq<char>, serde_json::Value)>) -> bool {
    forall|i: int, j: int| 0 <= i < j < entries.len() ==> key_less(#[trigger] entries[i].0, #[trigger] entries[j].0)
}

/// The members of an object, in the given order and separated by commas.
pub open spec fn json_members(entries: Seq<(Seq<char>, serde_json::Value)>) -> Seq<char>
    decreases entries.len(),
{
    if entries.len() == 0 {
        Seq::empty()
    } else if entries.len() == 1 {
        json_member(entries[0].0, json_text(entries[0].1))
    } else {
        json_members(entries.drop_last()) + ","@ + json_member(entries.last().0, json_text(entries.last().1))
    }
}

/// The value `serde_json::Value::String(s)`.
pub uninterp spec fn json_string_value(s: Seq<char>) -> serde_json::Value;

/// Builds `serde_json::Value::String`. Trusted: the value is written as the
/// JSON string literal of `s` (serde_json escapes quote, backslash and the
/// control characters as `escape_char` says).
#[verifier::external_body]
pub(crate) fn string_value(s: &str) -> (r: serde_json::Value)
    ensures
        r == json_string_value(s@),
        json_text(r) == json_quoted(s@),
{
    serde_json::Value::String(s.to_string())
}

/// Object entries as plain values.
pub open spec fn entries_view(entries: Seq<(String, serde_json::Value)>) -> Seq<(Seq<char>, serde_json::Value)> {
    entries.map_values(|e: (String, serde_json::Value)| (e.0@, e.1))
}

/// The object that `serde_json::Map`'s `FromIterator` builds from `entries`.
pub uninterp spec fn json_object_value(entries: Seq<(Seq<char>, serde_json::Value)>) -> serde_json::Value;

/// Builds a `serde_json::Value::Object` from a `serde_json::Map` collected
/// from `entries`. Trusted: when the keys are strictly increasing, the
/// object is written as `{`, its members in that order separated by commas,
/// and `}` (the map keeps its keys in `String` order).
#[verifier::external_body]
pub(crate) fn object_value(entries: Vec<(String, serde_json::Value)>) -> (r: serde_json::Value)
    ensures
        r == json_object_value(entries_view(entries@)),
        keys_ascending(entries_view(entries@)) ==> json_text(r) == "{"@ + json_members(entries_view(entries@)) + "}"@,
{
    serde_json::Value::Object(entries.into_iter().collect())
}

} // verus!
