//! JSON values as the OCPP-J layer sees them: a value is held as its compact
//! serialized text, read through `serde_json` and framed by this library.

use vstd::prelude::*;
use crate::text::decimal;

verus! {

/// Reading `text` as JSON: the compact text `serde_json` produces for the
/// value it denotes, or the message of the error it reports.
pub uninterp spec fn json_read(text: Seq<char>) -> Result<Seq<char>, Seq<char>>;

/// The compact texts of the elements of the JSON array that `text` denotes,
/// or `None` when `text` is not a JSON array.
pub uninterp spec fn json_array_items(text: Seq<char>) -> Option<Seq<Seq<char>>>;

/// The value of the JSON number that `text` denotes, when it is an integer
/// that fits `u64`.
pub uninterp spec fn json_as_u64(text: Seq<char>) -> Option<u64>;

/// The value of the JSON number that `text` denotes, when it is an integer
/// that fits `i64`.
pub uninterp spec fn json_as_i64(text: Seq<char>) -> Option<i64>;

/// The contents of the JSON string that `text` denotes.
pub uninterp spec fn json_as_string(text: Seq<char>) -> Option<Seq<char>>;

/// The compact text of the member `key` of the JSON object that `text` denotes.
pub uninterp spec fn json_member(text: Seq<char>, key: Seq<char>) -> Option<Seq<char>>;

/// The view of an optional string.
pub open spec fn opt_text(s: Option<String>) -> Option<Seq<char>> {
    match s {
        Some(t) => Some(t@),
        None => None,
    }
}

/// The two hexadecimal digits, lower case, of a byte value.
pub open spec fn hex_digit(d: nat) -> char {
    if d < 10 {
        crate::text::digit_char(d)
    } else if d == 10 { 'a' }
    else if d == 11 { 'b' }
    else if d == 12 { 'c' }
    else if d == 13 { 'd' }
    else if d == 14 { 'e' }
    else { 'f' }
}

/// How one character is written inside a JSON string literal by `serde_json`:
/// quote and backslash are escaped, the five named controls use their short
/// escapes, other controls below U+0020 use `\u00XX`, everything else is kept.
pub open spec fn json_escape_char(c: char) -> Seq<char> {
    if c == '"' {
        seq!['\\', '"']
    } else if c == '\\' {
        seq!['\\', '\\']
    } else if c == '\u{8}' {
        seq!['\\', 'b']
    } else if c == '\t' {
        seq!['\\', 't']
    } else if c == '\n' {
        seq!['\\', 'n']
    } else if c == '\u{c}' {
        seq!['\\', 'f']
    } else if c == '\r' {
        seq!['\\', 'r']
    } else if (c as u32) < 0x20 {
        seq!['\\', 'u', '0', '0', hex_digit((c as u32 / 16) as nat), hex_digit((c as u32 % 16) as nat)]
    } else {
        seq![c]
    }
}

/// The escaped form of a whole character sequence.
pub open spec fn json_escape(s: Seq<char>) -> Seq<char>
    decreases s.len(),
{
    if s.len() == 0 {
        seq![]
    } else {
        json_escape(s.drop_last()) + json_escape_char(s.last())
    }
}

/// The JSON string literal of a character sequence.
pub open spec fn json_quoted(s: Seq<char>) -> Seq<char> {
    seq!['"'] + json_escape(s) + seq!['"']
}

/// Comma-separated concatenation of texts.
pub open spec fn join_with_commas(items: Seq<Seq<char>>) -> Seq<char>
    decreases items.len(),
{
    if items.len() == 0 {
        seq![]
    } else if items.len() == 1 {
        items[0]
    } else {
        join_with_commas(items.drop_last()) + seq![','] + items.last()
    }
}

/// Appending a text to a comma-separated list adds a comma and the text.
pub proof fn lemma_join_push(s: Seq<Seq<char>>, x: Seq<char>)
    ensures
        join_with_commas(s.push(x)) == (if s.len() == 0 { x } else { join_with_commas(s) + seq![','] + x }),
{
    assert(s.push(x).drop_last() =~= s);
}

/// The texts of a sequence with one more value end with that value's text.
pub proof fn lemma_texts_push(v: Seq<JsonValue>, x: JsonValue)
    ensures
        texts_of(v.push(x)) == texts_of(v).push(x@),
{
    assert(texts_of(v.push(x)) =~= texts_of(v).push(x@));
}

/// The text of a JSON array whose elements have the given texts.
pub open spec fn array_text(items: Seq<Seq<char>>) -> Seq<char> {
    seq!['['] + join_with_commas(items) + seq![']']
}

/// `serde_json::from_str` into a `serde_json::Value` followed by `Display`:
/// the compact text of the value that `text` denotes, or the `Display` text
/// of the parse error. The result is named `json_read`.
#[verifier::external_body]
fn canonical_text(text: &str) -> (r: Result<String, String>)
    ensures
        match r {
            Ok(t) => json_read(text@) == Ok::<Seq<char>, Seq<char>>(t@),
            Err(e) => json_read(text@) == Err::<Seq<char>, Seq<char>>(e@),
        },
{
    match serde_json::from_str::<serde_json::Value>(text) {
        Ok(v) => Ok(v.to_string()),
        Err(e) => Err(e.to_string()),
    }
}

/// `serde_json::from_str` into a `serde_json::Value`, then the array's
/// elements, each in its compact `Display` text. The result is named
/// `json_array_items`.
#[verifier::external_body]
fn array_item_texts(text: &str) -> (r: Option<Vec<String>>)
    ensures
        match r {
            Some(v) => json_array_items(text@) == Some(v@.map_values(|s: String| s@)),
            None => json_array_items(text@) is None,
        },
{
    match serde_json::from_str::<serde_json::Value>(text) {
        Ok(serde_json::Value::Array(items)) => Some(items.iter().map(|e| e.to_string()).collect()),
        _ => None,
    }
}

/// `serde_json::from_str` into a `serde_json::Value`, then `Value::as_u64`.
/// The result is named `json_as_u64`.
#[verifier::external_body]
fn text_as_u64(text: &str) -> (r: Option<u64>)
    ensures
        r == json_as_u64(text@),
{
    match serde_json::from_str::<serde_json::Value>(text) {
        Ok(v) => v.as_u64(),
        Err(_) => None,
    }
}

/// `serde_json::from_str` into a `serde_json::Value`, then `Value::as_i64`.
/// The result is named `json_as_i64`.
#[verifier::external_body]
fn text_as_i64(text: &str) -> (r: Option<i64>)
    ensures
        r == json_as_i64(text@),
{
    match serde_json::from_str::<serde_json::Value>(text) {
        Ok(v) => v.as_i64(),
        Err(_) => None,
    }
}

/// `serde_json::from_str` into a `serde_json::Value`, then `Value::as_str`.
/// The result is named `json_as_string`.
#[verifier::external_body]
fn text_as_string(text: &str) -> (r: Option<String>)
    ensures
        opt_text(r) == json_as_string(text@),
{
    match serde_json::from_str::<serde_json::Value>(text) {
        Ok(serde_json::Value::String(s)) => Some(s),
        _ => None,
    }
}

/// `serde_json::from_str` into a `serde_json::Value`, then `Value::get` with a
/// string key, the member in its compact `Display` text. The result is named
/// `json_member`.
#[verifier::external_body]
fn member_text(text: &str, key: &str) -> (r: Option<String>)
    ensures
        opt_text(r) == json_member(text@, key@),
{
    match serde_json::from_str::<serde_json::Value>(text) {
        Ok(v) => v.get(key).map(|m| m.to_string()),
        Err(_) => None,
    }
}

/// `serde_json::to_string` on a string: the JSON string literal, with the
/// escapes of `serde_json`'s escape table (see `json_escape_char`). Writing
/// to memory cannot fail, so the `Err` arm is never taken.
#[verifier::external_body]
fn quote_text(s: &str) -> (r: String)
    ensures
        r@ == json_quoted(s@),
{
    match serde_json::to_string(s) {
        Ok(t) => t,
        Err(_) => String::new(),
    }
}

/// A JSON value, held as its compact text.
#[derive(Debug, PartialEq, Eq)]
pub struct JsonValue {
    text: String,
}

impl Clone for JsonValue {
    fn clone(&self) -> (r: Self)
        ensures
            r == *self,
    {
        JsonValue { text: self.text.clone() }
    }
}

impl View for JsonValue {
    type V = Seq<char>;

    closed spec fn view(&self) -> Seq<char> {
        self.text@
    }
}

/// The texts of a sequence of JSON values.
pub open spec fn texts_of(values: Seq<JsonValue>) -> Seq<Seq<char>> {
    values.map_values(|v: JsonValue| v@)
}

impl JsonValue {
    /// Reads a JSON text; the error is the reader's message when it is not
    /// JSON. The value is held in `serde_json`'s compact form.
    pub fn parse(text: &str) -> (r: Result<JsonValue, String>)
        ensures
            match r {
                Ok(v) => json_read(text@) == Ok::<Seq<char>, Seq<char>>(v@),
                Err(e) => json_read(text@) == Err::<Seq<char>, Seq<char>>(e@),
            },
    {
        match canonical_text(text) {
            Ok(t) => Ok(JsonValue { text: t }),
            Err(e) => Err(e),
        }
    }

    /// JSON `null`.
    pub fn null() -> (r: JsonValue)
        ensures
            r@ == "null"@,
    {
        JsonValue { text: String::from_str("null") }
    }

    /// The empty JSON object `{}`.
    pub fn empty_object() -> (r: JsonValue)
        ensures
            r@ == "{}"@,
    {
        JsonValue { text: String::from_str("{}") }
    }

    /// The JSON string with the given contents.
    pub fn string(s: &str) -> (r: JsonValue)
        ensures
            r@ == json_quoted(s@),
    {
        JsonValue { text: quote_text(s) }
    }

    /// The JSON number with the given value.
    pub fn number(n: u64) -> (r: JsonValue)
        ensures
            r@ == decimal(n as nat),
    {
        JsonValue { text: crate::text::u64_to_text(n) }
    }

    /// The JSON array of the given elements, in order.
    pub fn array(items: Vec<JsonValue>) -> (r: JsonValue)
        ensures
            r@ == array_text(texts_of(items@)),
    {
        let mut text = String::from_str("[");
        let n = items.len();
        let mut i: usize = 0;
        proof {
            reveal_strlit("[");
            assert(texts_of(items@.take(0)) =~= Seq::<Seq<char>>::empty());
        }
        while i < n
            invariant
                n == items.len(),
                0 <= i <= n,
                text@ == seq!['['] + join_with_commas(texts_of(items@.take(i as int))),
            decreases n - i,
        {
            proof {
                reveal_strlit("[");
                reveal_strlit(",");
                assert(items@.take(i as int + 1).drop_last() =~= items@.take(i as int));
            }
            if i > 0 {
                text.append(",");
            }
            text.append(items[i].text.as_str());
            proof {
                let t = texts_of(items@.take(i as int + 1));
                assert(t.drop_last() =~= texts_of(items@.take(i as int)));
                assert(t.last() == items@[i as int]@);
            }
            i = i + 1;
        }
        text.append("]");
        proof {
            reveal_strlit("[");
            reveal_strlit("]");
            assert(items@.take(n as int) =~= items@);
        }
        JsonValue { text }
    }

    /// The JSON object with the given members, written in the given order.
    pub fn object(members: Vec<(String, JsonValue)>) -> (r: JsonValue)
        ensures
            r@ == seq!['{'] + join_with_commas(members@.map_values(
                |m: (String, JsonValue)| json_quoted(m.0@) + seq![':'] + m.1@,
            )) + seq!['}'],
    {
        let ghost f = |m: (String, JsonValue)| json_quoted(m.0@) + seq![':'] + m.1@;
        let mut text = String::from_str("{");
        let n = members.len();
        let mut i: usize = 0;
        proof {
            reveal_strlit("{");
            assert(members@.take(0).map_values(f) =~= Seq::<Seq<char>>::empty());
        }
        while i < n
            invariant
                n == members.len(),
                0 <= i <= n,
                f == (|m: (String, JsonValue)| json_quoted(m.0@) + seq![':'] + m.1@),
                text@ == seq!['{'] + join_with_commas(members@.take(i as int).map_values(f)),
            decreases n - i,
        {
            proof {
                reveal_strlit("{");
                reveal_strlit(",");
                reveal_strlit(":");
            }
            if i > 0 {
                text.append(",");
            }
            let q = quote_text(members[i].0.as_str());
            text.append(q.as_str());
            text.append(":");
            text.append(members[i].1.text.as_str());
            proof {
                let t = members@.take(i as int + 1).map_values(f);
                assert(t.drop_last() =~= members@.take(i as int).map_values(f));
                assert(t.last() == f(members@[i as int]));
            }
            i = i + 1;
        }
        text.append("}");
        proof {
            reveal_strlit("{");
            reveal_strlit("}");
            assert(members@.take(n as int) =~= members@);
        }
        JsonValue { text }
    }

    /// The compact text of the value.
    pub fn to_string(&self) -> (r: String)
        ensures
            r@ == self@,
    {
        self.text.clone()
    }

    /// The value as `u64`, when it is an integer that fits.
    pub fn as_u64(&self) -> (r: Option<u64>)
        ensures
            r == json_as_u64(self@),
    {
        text_as_u64(self.text.as_str())
    }

    /// The value as `i64`, when it is an integer that fits.
    pub fn as_i64(&self) -> (r: Option<i64>)
        ensures
            r == json_as_i64(self@),
    {
        text_as_i64(self.text.as_str())
    }

    /// The contents of the value, when it is a string.
    pub fn as_str(&self) -> (r: Option<String>)
        ensures
            opt_text(r) == json_as_string(self@),
    {
        text_as_string(self.text.as_str())
    }

    /// The elements of the value, when it is an array.
    pub fn as_array(&self) -> (r: Option<Vec<JsonValue>>)
        ensures
            match r {
                Some(v) => json_array_items(self@) == Some(texts_of(v@)),
                None => json_array_items(self@) is None,
            },
    {
        match array_item_texts(self.text.as_str()) {
            None => None,
            Some(texts) => {
                let n = texts.len();
                let mut out: Vec<JsonValue> = Vec::new();
                let mut i: usize = 0;
                while i < n
                    invariant
                        n == texts.len(),
                        0 <= i <= n,
                        out@.len() == i,
                        forall|j: int| 0 <= j < i ==> #[trigger] out@[j]@ == texts@[j]@,
                    decreases n - i,
                {
                    out.push(JsonValue { text: texts[i].clone() });
                    i = i + 1;
                }
                proof {
                    assert(texts_of(out@) =~= texts@.map_values(|s: String| s@));
                }
                Some(out)
            },
        }
    }

    /// The member `key`, when the value is an object that has it.
    pub fn get(&self, key: &str) -> (r: Option<JsonValue>)
        ensures
            match r {
                Some(v) => json_member(self@, key@) == Some(v@),
                None => json_member(self@, key@) is None,
            },
    {
        match member_text(self.text.as_str(), key) {
            Some(t) => Some(JsonValue { text: t }),
            None => None,
        }
    }
}

} // verus!
