//! Utility functions for OCPP-J frames: reading a frame into an
//! `OcppMessage`, writing one back, and message identifiers.

use vstd::prelude::*;
use crate::client::OcppMessage;
use crate::json::{JsonValue, array_text, json_read, json_array_items, json_as_u64, json_as_string, json_member, json_quoted};
use crate::text::decimal;

verus! {

/// Why a frame could not be read or written.
#[derive(Debug, Clone)]
pub enum FrameError {
    /// The text is not JSON; the message is the JSON reader's.
    Json(String),
    /// The JSON value is not an array.
    NotAnArray,
    /// The array has fewer than three elements.
    InsufficientElements,
    /// The message type number is not 2, 3 or 4.
    InvalidMessageType(u8),
}

impl FrameError {
    /// The text the error is displayed with.
    pub open spec fn display(self) -> Seq<char> {
        match self {
            FrameError::Json(m) => m@,
            FrameError::NotAnArray => "Invalid OCPP message format: not an array"@,
            FrameError::InsufficientElements => "Invalid OCPP message format: insufficient array elements"@,
            FrameError::InvalidMessageType(t) => "Invalid message type: "@ + decimal(t as nat),
        }
    }

    /// The text the error is displayed with.
    pub fn to_string(&self) -> (r: String)
        ensures
            r@ == self.display(),
    {
        match self {
            FrameError::Json(m) => m.clone(),
            FrameError::NotAnArray => String::from_str("Invalid OCPP message format: not an array"),
            FrameError::InsufficientElements => {
                String::from_str("Invalid OCPP message format: insufficient array elements")
            },
            FrameError::InvalidMessageType(t) => {
                let n = crate::text::u64_to_text(*t as u64);
                crate::text::concat2("Invalid message type: ", n.as_str())
            },
        }
    }
}

/// The contents of a JSON string element, or the empty string for any other value.
pub open spec fn str_or_empty(item: Seq<char>) -> Seq<char> {
    match json_as_string(item) {
        Some(s) => s,
        None => seq![],
    }
}

/// The message type number of a frame: its first element as an unsigned
/// integer (0 when it is none) reduced to a byte.
pub open spec fn type_number(item: Seq<char>) -> u8 {
    match json_as_u64(item) {
        Some(n) => (n % 256) as u8,
        None => 0,
    }
}

/// Element `i` of a frame, or JSON `null` when the frame is shorter.
pub open spec fn item_or_null(items: Seq<Seq<char>>, i: int) -> Seq<char> {
    if i < items.len() { items[i] } else { "null"@ }
}

/// The payload a CALLERROR frame is read into:
/// `{"errorDescription": description, "errorDetails": details}`.
pub open spec fn error_payload_text(description: Seq<char>, details: Seq<char>) -> Seq<char> {
    seq!['{'] + json_quoted("errorDescription"@) + seq![':'] + json_quoted(description)
        + seq![','] + json_quoted("errorDetails"@) + seq![':'] + details + seq!['}']
}

/// A frame that would be read as a CALLERROR but has no description element.
pub open spec fn is_truncated_call_error(text: Seq<char>) -> bool {
    match json_read(text) {
        Ok(canon) => match json_array_items(canon) {
            Some(items) => items.len() == 3 && type_number(items[0]) == 4,
            None => false,
        },
        Err(_) => false,
    }
}

/// `r` is what reading the frame `text` gives.
pub open spec fn reads_as(text: Seq<char>, r: Result<OcppMessage, FrameError>) -> bool {
    match json_read(text) {
        Err(e) => r matches Err(FrameError::Json(m)) && m@ == e,
        Ok(canon) => match json_array_items(canon) {
            None => r matches Err(FrameError::NotAnArray),
            Some(items) => if items.len() < 3 {
                r matches Err(FrameError::InsufficientElements)
            } else {
                let t = type_number(items[0]);
                let id = str_or_empty(items[1]);
                if t == 2 {
                    r matches Ok(m) && m.message_type == 2 && m.message_id@ == id
                        && m.action@ == str_or_empty(items[2]) && m.payload@ == item_or_null(items, 3)
                } else if t == 3 {
                    r matches Ok(m) && m.message_type == 3 && m.message_id@ == id
                        && m.action@ == "CallResult"@ && m.payload@ == items[2]
                } else if t == 4 {
                    r matches Ok(m) && m.message_type == 4 && m.message_id@ == id
                        && m.action@ == str_or_empty(items[2])
                        && m.payload@ == error_payload_text(str_or_empty(items[3]), item_or_null(items, 4))
                } else {
                    r matches Err(FrameError::InvalidMessageType(n)) && n == t
                }
            },
        },
    }
}

/// The text a message is written as: `[2,id,action,payload]`,
/// `[3,id,payload]` or `[4,id,code,description,details]`, where for errors the
/// description and details are taken from the payload's `errorDescription`
/// (a string, else empty) and `errorDetails` (else `null`) members.
pub open spec fn writes_as(m: OcppMessage, r: Result<String, FrameError>) -> bool {
    if m.message_type == 2 {
        r matches Ok(s) && s@ == seq!['['] + decimal(2) + seq![','] + json_quoted(m.message_id@) + seq![',']
            + json_quoted(m.action@) + seq![','] + m.payload@ + seq![']']
    } else if m.message_type == 3 {
        r matches Ok(s) && s@ == seq!['['] + decimal(3) + seq![','] + json_quoted(m.message_id@) + seq![',']
            + m.payload@ + seq![']']
    } else if m.message_type == 4 {
        let description = match json_member(m.payload@, "errorDescription"@) {
            Some(d) => str_or_empty(d),
            None => seq![],
        };
        let details = match json_member(m.payload@, "errorDetails"@) {
            Some(d) => d,
            None => "null"@,
        };
        r matches Ok(s) && s@ == seq!['['] + decimal(4) + seq![','] + json_quoted(m.message_id@) + seq![',']
            + json_quoted(m.action@) + seq![','] + json_quoted(description) + seq![','] + details + seq![']']
    } else {
        r matches Err(FrameError::InvalidMessageType(n)) && n == m.message_type
    }
}

/// What a written frame holds, element by element: a CALL is the JSON array
/// `[2, id, action, payload]`, a CALLRESULT `[3, id, payload]`, and a
/// CALLERROR `[4, id, code, description, details]`, whose description is
/// the payload's `errorDescription` string (empty when the payload has no
/// such string) and whose details are the payload's `errorDetails` (`null`
/// when it has none). Any other message type is refused, naming the type.
pub proof fn lemma_written_frame(m: OcppMessage, r: Result<String, FrameError>, description: Seq<char>)
    requires
        writes_as(m, r),
    ensures
        m.message_type == 2 ==> (r matches Ok(t) && t@ == array_text(
            seq![seq!['2'], json_quoted(m.message_id@), json_quoted(m.action@), m.payload@],
        )),
        m.message_type == 3 ==> (r matches Ok(t) && t@ == array_text(
            seq![seq!['3'], json_quoted(m.message_id@), m.payload@],
        )),
        m.message_type == 4 && (json_member(m.payload@, "errorDescription"@) matches Some(x)
            && json_as_string(x) == Some(description)) ==> (r matches Ok(t) && t@ == array_text(
            seq![
                seq!['4'],
                json_quoted(m.message_id@),
                json_quoted(m.action@),
                json_quoted(description),
                match json_member(m.payload@, "errorDetails"@) { Some(x) => x, None => "null"@ },
            ],
        )),
        m.message_type == 4 && !(json_member(m.payload@, "errorDescription"@) matches Some(x)
            && json_as_string(x) is Some) ==> (r matches Ok(t) && t@ == array_text(
            seq![
                seq!['4'],
                json_quoted(m.message_id@),
                json_quoted(m.action@),
                json_quoted(seq![]),
                match json_member(m.payload@, "errorDetails"@) { Some(x) => x, None => "null"@ },
            ],
        )),
        m.message_type != 2 && m.message_type != 3 && m.message_type != 4
            ==> (r matches Err(FrameError::InvalidMessageType(n)) && n == m.message_type),
{
    reveal_with_fuel(crate::json::join_with_commas, 6);
    reveal_with_fuel(decimal, 2);
    let q = json_quoted(m.message_id@);
    let a = json_quoted(m.action@);
    assert(decimal(2) =~= seq!['2']);
    assert(decimal(3) =~= seq!['3']);
    assert(decimal(4) =~= seq!['4']);
    if m.message_type == 2 {
        let items = seq![seq!['2'], q, a, m.payload@];
        assert(items.drop_last().drop_last().drop_last() =~= seq![seq!['2']]);
        assert(items.drop_last().drop_last() =~= seq![seq!['2'], q]);
        assert(items.drop_last() =~= seq![seq!['2'], q, a]);
    } else if m.message_type == 3 {
        let items = seq![seq!['3'], q, m.payload@];
        assert(items.drop_last().drop_last() =~= seq![seq!['3']]);
        assert(items.drop_last() =~= seq![seq!['3'], q]);
    } else if m.message_type == 4 {
        let d = match json_member(m.payload@, "errorDescription"@) {
            Some(x) => str_or_empty(x),
            None => seq![],
        };
        let det = match json_member(m.payload@, "errorDetails"@) { Some(x) => x, None => "null"@ };
        let items = seq![seq!['4'], q, a, json_quoted(d), det];
        assert(items.drop_last().drop_last().drop_last().drop_last() =~= seq![seq!['4']]);
        assert(items.drop_last().drop_last().drop_last() =~= seq![seq!['4'], q]);
        assert(items.drop_last().drop_last() =~= seq![seq!['4'], q, a]);
        assert(items.drop_last() =~= seq![seq!['4'], q, a, json_quoted(d)]);
    }
}

fn str_or_empty_of(v: &JsonValue) -> (r: String)
    ensures
        r@ == str_or_empty(v@),
{
    match v.as_str() {
        Some(s) => s,
        None => String::new(),
    }
}

/// Parse an OCPP message from a JSON frame. A CALLERROR frame of three
/// elements has no description to read and is not accepted here.
pub fn parse_ocpp_message(json: &str) -> (r: Result<OcppMessage, FrameError>)
    requires
        !is_truncated_call_error(json@),
    ensures
        reads_as(json@, r),
{
    let value = match JsonValue::parse(json) {
        Ok(v) => v,
        Err(e) => return Err(FrameError::Json(e)),
    };
    let mut array = match value.as_array() {
        Some(a) => a,
        None => return Err(FrameError::NotAnArray),
    };
    let ghost items = crate::json::texts_of(array@);
    if array.len() < 3 {
        return Err(FrameError::InsufficientElements);
    }
    let message_type: u8 = match array[0].as_u64() {
        Some(n) => (n % 256) as u8,
        None => 0,
    };
    let message_id = str_or_empty_of(&array[1]);
    proof {
        assert(items[0] == array@[0]@);
        assert(items[1] == array@[1]@);
        assert(items[2] == array@[2]@);
    }
    if message_type == 2 {
        let action = str_or_empty_of(&array[2]);
        let payload = if array.len() > 3 {
            proof { assert(items[3] == array@[3]@); }
            array.swap_remove(3)
        } else {
            proof { reveal_strlit("null"); }
            JsonValue::null()
        };
        Ok(OcppMessage { message_type, message_id, action, payload })
    } else if message_type == 3 {
        let payload = array.swap_remove(2);
        proof { reveal_strlit("CallResult"); }
        Ok(OcppMessage { message_type, message_id, action: String::from_str("CallResult"), payload })
    } else if message_type == 4 {
        let action = str_or_empty_of(&array[2]);
        proof { assert(items[3] == array@[3]@); }
        let description = str_or_empty_of(&array[3]);
        let details = if array.len() > 4 {
            proof { assert(items[4] == array@[4]@); }
            array.swap_remove(4)
        } else {
            proof { reveal_strlit("null"); }
            JsonValue::null()
        };
        let mut members: Vec<(String, JsonValue)> = Vec::new();
        members.push((String::from_str("errorDescription"), JsonValue::string(description.as_str())));
        members.push((String::from_str("errorDetails"), details));
        let payload = JsonValue::object(members);
        proof {
            let f = |m: (String, JsonValue)| json_quoted(m.0@) + seq![':'] + m.1@;
            let s = members@.map_values(f);
            assert(s =~= seq![f(members@[0])].push(f(members@[1])));
            crate::json::lemma_join_push(seq![f(members@[0])], f(members@[1]));
            crate::json::lemma_join_push(Seq::<Seq<char>>::empty(), f(members@[0]));
            assert(seq![f(members@[0])] =~= Seq::<Seq<char>>::empty().push(f(members@[0])));
            assert(payload@ =~= error_payload_text(description@, details@));
        }
        Ok(OcppMessage { message_type, message_id, action, payload })
    } else {
        Err(FrameError::InvalidMessageType(message_type))
    }
}

/// Convert an OCPP message to its JSON frame.
pub fn format_ocpp_message(message: &OcppMessage) -> (r: Result<String, FrameError>)
    ensures
        writes_as(*message, r),
{
    let t = message.message_type;
    if t != 2 && t != 3 && t != 4 {
        return Err(FrameError::InvalidMessageType(t));
    }
    let mut items: Vec<JsonValue> = Vec::new();
    let first = JsonValue::number(t as u64);
    let second = JsonValue::string(message.message_id.as_str());
    items.push(first);
    items.push(second);
    proof {
        crate::json::lemma_texts_push(Seq::<JsonValue>::empty(), first);
        crate::json::lemma_texts_push(seq![first], second);
        assert(Seq::<JsonValue>::empty().push(first) =~= seq![first]);
        assert(seq![first].push(second) =~= items@);
        assert(crate::json::texts_of(Seq::<JsonValue>::empty()) =~= Seq::<Seq<char>>::empty());
        crate::json::lemma_join_push(Seq::<Seq<char>>::empty(), first@);
        assert(Seq::<Seq<char>>::empty().push(first@) =~= seq![first@]);
        crate::json::lemma_join_push(seq![first@], second@);
        assert(crate::json::join_with_commas(crate::json::texts_of(items@)) == first@ + seq![','] + second@);
    }
    let ghost mut gdesc: Seq<char> = seq![];
    let ghost mut gdet: Seq<char> = seq![];
    if t == 2 {
        let third = JsonValue::string(message.action.as_str());
        let fourth = message.payload.clone();
        proof { push_lemma(items@, third); }
        items.push(third);
        proof { push_lemma(items@, fourth); }
        items.push(fourth);
    } else if t == 3 {
        let third = message.payload.clone();
        proof { push_lemma(items@, third); }
        items.push(third);
    } else {
        let description = match message.payload.get("errorDescription") {
            Some(d) => str_or_empty_of(&d),
            None => String::new(),
        };
        let details = match message.payload.get("errorDetails") {
            Some(d) => d,
            None => JsonValue::null(),
        };
        let third = JsonValue::string(message.action.as_str());
        let fourth = JsonValue::string(description.as_str());
        proof { push_lemma(items@, third); }
        items.push(third);
        proof { push_lemma(items@, fourth); }
        items.push(fourth);
        proof {
            push_lemma(items@, details);
            gdesc = description@;
            gdet = details@;
        }
        items.push(details);
    }
    let ghost texts = crate::json::texts_of(items@);
    let ghost joined = crate::json::join_with_commas(texts);
    let array = JsonValue::array(items);
    proof {
        reveal_strlit("null");
        assert(array@ == seq!['['] + joined + seq![']']);
        if t == 2 {
            assert(array@ =~= seq!['['] + decimal(2) + seq![','] + json_quoted(message.message_id@) + seq![',']
                + json_quoted(message.action@) + seq![','] + message.payload@ + seq![']']);
        } else if t == 3 {
            assert(array@ =~= seq!['['] + decimal(3) + seq![','] + json_quoted(message.message_id@) + seq![',']
                + message.payload@ + seq![']']);
        } else {
            assert(array@ =~= seq!['['] + decimal(4) + seq![','] + json_quoted(message.message_id@) + seq![',']
                + json_quoted(message.action@) + seq![','] + json_quoted(gdesc) + seq![','] + gdet + seq![']']);
        }
    }
    Ok(array.to_string())
}

proof fn push_lemma(v: Seq<JsonValue>, x: JsonValue)
    requires
        v.len() > 0,
    ensures
        crate::json::join_with_commas(crate::json::texts_of(v.push(x)))
            == crate::json::join_with_commas(crate::json::texts_of(v)) + seq![','] + x@,
{
    crate::json::lemma_texts_push(v, x);
    crate::json::lemma_join_push(crate::json::texts_of(v), x@);
}

/// Generate a unique message ID: a random version-4 UUID in hyphenated form.
pub fn generate_message_id() -> (r: String)
    ensures
        crate::ids::is_v4_uuid_text(r@),
{
    crate::ids::new_uuid_text()
}

/// Why a frame is not a valid OCPP message.
#[derive(Debug, Clone)]
pub enum FormatError {
    /// The frame could not be read.
    Frame(FrameError),
    /// A CALLERROR frame of three elements: it has no description.
    MissingErrorDescription,
}

/// Validate the OCPP message format: the frame must read as a message.
pub fn validate_message_format(json: &str) -> (r: Result<(), FormatError>)
    ensures
        is_truncated_call_error(json@) ==> r matches Err(FormatError::MissingErrorDescription),
        !is_truncated_call_error(json@) ==> (r is Ok <==> exists|m: OcppMessage| reads_as(json@, Ok(m))),
        !is_truncated_call_error(json@) ==> match r {
            Ok(_) => true,
            Err(FormatError::Frame(f)) => reads_as(json@, Err(f)),
            Err(FormatError::MissingErrorDescription) => false,
        },
{
    let value = match JsonValue::parse(json) {
        Ok(v) => v,
        Err(e) => return Err(FormatError::Frame(FrameError::Json(e))),
    };
    if let Some(array) = value.as_array() {
        if array.len() == 3 {
            let t: u8 = match array[0].as_u64() {
                Some(n) => (n % 256) as u8,
                None => 0,
            };
            if t == 4 {
                return Err(FormatError::MissingErrorDescription);
            }
        }
    }
    match parse_ocpp_message(json) {
        Ok(_) => Ok(()),
        Err(f) => Err(FormatError::Frame(f)),
    }
}

} // verus!
