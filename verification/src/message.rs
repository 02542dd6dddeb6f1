//! The OCPP-J message envelope: typed CALL / CALLRESULT / CALLERROR messages
//! and their raw wire-array form, with the conversions between the two.

use vstd::prelude::*;
use crate::json::JsonValue;
use crate::types::{CallErrorCode, MessageType, OcppError};
use crate::ids::{new_uuid_text, is_v4_uuid_text};
use crate::text::str_eq;

verus! {

/// OCPP Call message (request).
#[derive(Debug, Clone, PartialEq)]
pub struct CallMessage {
    /// Message type identifier (always Call)
    pub message_type: MessageType,
    /// Unique message identifier
    pub unique_id: String,
    /// Action name (e.g. "Authorize", "StartTransaction")
    pub action: String,
    /// Message payload
    pub payload: JsonValue,
}

/// OCPP CallResult message (successful response).
#[derive(Debug, Clone, PartialEq)]
pub struct CallResultMessage {
    /// Message type identifier (always CallResult)
    pub message_type: MessageType,
    /// Unique message identifier (same as the corresponding Call)
    pub unique_id: String,
    /// Response payload
    pub payload: JsonValue,
}

/// OCPP CallError message (error response).
#[derive(Debug, Clone, PartialEq)]
pub struct CallErrorMessage {
    /// Message type identifier (always CallError)
    pub message_type: MessageType,
    /// Unique message identifier (same as the corresponding Call)
    pub unique_id: String,
    /// Error code
    pub error_code: CallErrorCode,
    /// Human-readable error description
    pub error_description: String,
    /// Additional error details
    pub error_details: JsonValue,
}

/// OCPP message envelope that wraps all message types.
#[derive(Debug, Clone, PartialEq)]
pub enum Message {
    /// Call message (request)
    Call(CallMessage),
    /// CallResult message (successful response)
    CallResult(CallResultMessage),
    /// CallError message (error response)
    CallError(CallErrorMessage),
}

/// Raw OCPP message as received over the wire (array form).
#[derive(Debug, Clone, PartialEq)]
pub enum RawMessage {
    /// `[2, "unique_id", "action", payload]`
    Call(u8, String, String, JsonValue),
    /// `[3, "unique_id", payload]`
    CallResult(u8, String, JsonValue),
    /// `[4, "unique_id", "error_code", "error_description", error_details]`
    CallError(u8, String, String, String, JsonValue),
}

/// The CALLERROR code whose wire name is `name`, if there is one.
pub open spec fn error_code_named(name: Seq<char>) -> Option<CallErrorCode> {
    if name == CallErrorCode::NotImplemented.name() { Some(CallErrorCode::NotImplemented) }
    else if name == CallErrorCode::NotSupported.name() { Some(CallErrorCode::NotSupported) }
    else if name == CallErrorCode::InternalError.name() { Some(CallErrorCode::InternalError) }
    else if name == CallErrorCode::ProtocolError.name() { Some(CallErrorCode::ProtocolError) }
    else if name == CallErrorCode::SecurityError.name() { Some(CallErrorCode::SecurityError) }
    else if name == CallErrorCode::FormationViolation.name() { Some(CallErrorCode::FormationViolation) }
    else if name == CallErrorCode::PropertyConstraintViolation.name() { Some(CallErrorCode::PropertyConstraintViolation) }
    else if name == CallErrorCode::OccurrenceConstraintViolation.name() { Some(CallErrorCode::OccurrenceConstraintViolation) }
    else if name == CallErrorCode::TypeConstraintViolation.name() { Some(CallErrorCode::TypeConstraintViolation) }
    else if name == CallErrorCode::GenericError.name() { Some(CallErrorCode::GenericError) }
    else { None }
}

/// The CALLERROR code whose wire name is `name`, if there is one.
pub fn parse_error_code(name: &str) -> (r: Option<CallErrorCode>)
    ensures
        r == error_code_named(name@),
{
    if str_eq(name, "NotImplemented") { Some(CallErrorCode::NotImplemented) }
    else if str_eq(name, "NotSupported") { Some(CallErrorCode::NotSupported) }
    else if str_eq(name, "InternalError") { Some(CallErrorCode::InternalError) }
    else if str_eq(name, "ProtocolError") { Some(CallErrorCode::ProtocolError) }
    else if str_eq(name, "SecurityError") { Some(CallErrorCode::SecurityError) }
    else if str_eq(name, "FormationViolation") { Some(CallErrorCode::FormationViolation) }
    else if str_eq(name, "PropertyConstraintViolation") { Some(CallErrorCode::PropertyConstraintViolation) }
    else if str_eq(name, "OccurrenceConstraintViolation") { Some(CallErrorCode::OccurrenceConstraintViolation) }
    else if str_eq(name, "TypeConstraintViolation") { Some(CallErrorCode::TypeConstraintViolation) }
    else if str_eq(name, "GenericError") { Some(CallErrorCode::GenericError) }
    else { None }
}

/// Every code is found again from its wire name.
pub proof fn lemma_error_code_name_roundtrip(code: CallErrorCode)
    ensures
        error_code_named(code.name()) == Some(code),
{
    reveal_strlit("NotImplemented");
    reveal_strlit("NotSupported");
    reveal_strlit("InternalError");
    reveal_strlit("ProtocolError");
    reveal_strlit("SecurityError");
    reveal_strlit("FormationViolation");
    reveal_strlit("PropertyConstraintViolation");
    reveal_strlit("OccurrenceConstraintViolation");
    reveal_strlit("TypeConstraintViolation");
    reveal_strlit("GenericError");
    assert("NotImplemented"@.len() == 14 && "NotImplemented"@[0] == 'N');
    assert("NotSupported"@.len() == 12 && "NotSupported"@[0] == 'N');
    assert("InternalError"@.len() == 13 && "InternalError"@[0] == 'I');
    assert("ProtocolError"@.len() == 13 && "ProtocolError"@[0] == 'P');
    assert("SecurityError"@.len() == 13 && "SecurityError"@[0] == 'S');
    assert("FormationViolation"@.len() == 18 && "FormationViolation"@[0] == 'F');
    assert("PropertyConstraintViolation"@.len() == 27 && "PropertyConstraintViolation"@[0] == 'P');
    assert("OccurrenceConstraintViolation"@.len() == 29 && "OccurrenceConstraintViolation"@[0] == 'O');
    assert("TypeConstraintViolation"@.len() == 23 && "TypeConstraintViolation"@[0] == 'T');
    assert("GenericError"@.len() == 12 && "GenericError"@[0] == 'G');
}

/// `r` is what `into_message` yields for `raw`: a typed message when the type
/// number fits the frame's shape (2, 3, 4) and, for errors, the code is
/// known; `InvalidMessageType` with the number otherwise, and a protocol
/// violation naming an unknown error code.
pub open spec fn decodes_to(raw: RawMessage, r: Result<Message, OcppError>) -> bool {
    match raw {
        RawMessage::Call(t, id, action, payload) => if t == 2 {
            r == Ok::<Message, OcppError>(Message::Call(CallMessage {
                message_type: MessageType::Call, unique_id: id, action, payload,
            }))
        } else {
            r == Err::<Message, OcppError>(OcppError::InvalidMessageType(t))
        },
        RawMessage::CallResult(t, id, payload) => if t == 3 {
            r == Ok::<Message, OcppError>(Message::CallResult(CallResultMessage {
                message_type: MessageType::CallResult, unique_id: id, payload,
            }))
        } else {
            r == Err::<Message, OcppError>(OcppError::InvalidMessageType(t))
        },
        RawMessage::CallError(t, id, code, description, details) => if t != 4 {
            r == Err::<Message, OcppError>(OcppError::InvalidMessageType(t))
        } else {
            match error_code_named(code@) {
                Some(c) => r == Ok::<Message, OcppError>(Message::CallError(CallErrorMessage {
                    message_type: MessageType::CallError,
                    unique_id: id,
                    error_code: c,
                    error_description: description,
                    error_details: details,
                })),
                None => r matches Err(OcppError::ProtocolViolation { message })
                    && message@ == "Unknown error code: "@ + code@,
            }
        },
    }
}

/// `raw` is the wire form of `m`: the variant's number, the same identifier,
/// action, description and payloads, and the error code by its name.
pub open spec fn encodes(raw: RawMessage, m: Message) -> bool {
    match m {
        Message::Call(c) => raw == RawMessage::Call(2, c.unique_id, c.action, c.payload),
        Message::CallResult(c) => raw == RawMessage::CallResult(3, c.unique_id, c.payload),
        Message::CallError(c) => raw matches RawMessage::CallError(t, id, code, description, details)
            && t == 4 && id == c.unique_id && code@ == c.error_code.name()
            && description == c.error_description && details == c.error_details,
    }
}

/// The message carries the type tag that matches its variant.
pub open spec fn well_tagged(m: Message) -> bool {
    match m {
        Message::Call(c) => c.message_type == MessageType::Call,
        Message::CallResult(c) => c.message_type == MessageType::CallResult,
        Message::CallError(c) => c.message_type == MessageType::CallError,
    }
}

impl Message {
    /// The identifier of the message, whatever its kind.
    pub open spec fn id_of(self) -> Seq<char> {
        match self {
            Message::Call(m) => m.unique_id@,
            Message::CallResult(m) => m.unique_id@,
            Message::CallError(m) => m.unique_id@,
        }
    }

    /// Get the message type.
    pub fn message_type(&self) -> (r: MessageType)
        ensures
            r == (match self {
                Message::Call(_) => MessageType::Call,
                Message::CallResult(_) => MessageType::CallResult,
                Message::CallError(_) => MessageType::CallError,
            }),
    {
        match self {
            Message::Call(_) => MessageType::Call,
            Message::CallResult(_) => MessageType::CallResult,
            Message::CallError(_) => MessageType::CallError,
        }
    }

    /// Get the unique message ID.
    pub fn unique_id(&self) -> (r: &str)
        ensures
            r@ == self.id_of(),
    {
        match self {
            Message::Call(msg) => msg.unique_id.as_str(),
            Message::CallResult(msg) => msg.unique_id.as_str(),
            Message::CallError(msg) => msg.unique_id.as_str(),
        }
    }

    /// Create a new Call message with a fresh random identifier.
    pub fn call(action: String, payload: JsonValue) -> (r: Result<Self, OcppError>)
        ensures
            r matches Ok(Message::Call(m)) && m.message_type == MessageType::Call
                && m.action == action && m.payload == payload && is_v4_uuid_text(m.unique_id@),
    {
        Ok(Message::Call(CallMessage {
            message_type: MessageType::Call,
            unique_id: new_uuid_text(),
            action,
            payload,
        }))
    }

    /// Create a CallResult message in response to a Call.
    pub fn call_result(unique_id: String, payload: JsonValue) -> (r: Result<Self, OcppError>)
        ensures
            r == Ok::<Message, OcppError>(Message::CallResult(CallResultMessage {
                message_type: MessageType::CallResult, unique_id, payload,
            })),
    {
        Ok(Message::CallResult(CallResultMessage {
            message_type: MessageType::CallResult,
            unique_id,
            payload,
        }))
    }

    /// Create a CallError message in response to a Call; missing details
    /// become the empty object.
    pub fn call_error(
        unique_id: String,
        error_code: CallErrorCode,
        error_description: String,
        error_details: Option<JsonValue>,
    ) -> (r: Self)
        ensures
            r matches Message::CallError(m) && m.message_type == MessageType::CallError
                && m.unique_id == unique_id && m.error_code == error_code
                && m.error_description == error_description
                && (match error_details {
                    Some(d) => m.error_details == d,
                    None => m.error_details@ == "{}"@,
                }),
    {
        Message::CallError(CallErrorMessage::new(unique_id, error_code, error_description, error_details))
    }
}

impl CallMessage {
    /// Create a new Call message with a fresh random identifier.
    pub fn new(action: String, payload: JsonValue) -> (r: Result<Self, OcppError>)
        ensures
            r matches Ok(m) && m.message_type == MessageType::Call && m.action == action
                && m.payload == payload && is_v4_uuid_text(m.unique_id@),
    {
        Ok(CallMessage {
            message_type: MessageType::Call,
            unique_id: new_uuid_text(),
            action,
            payload,
        })
    }
}

impl CallResultMessage {
    /// Create a new CallResult message.
    pub fn new(unique_id: String, payload: JsonValue) -> (r: Result<Self, OcppError>)
        ensures
            r == Ok::<CallResultMessage, OcppError>(CallResultMessage {
                message_type: MessageType::CallResult, unique_id, payload,
            }),
    {
        Ok(CallResultMessage { message_type: MessageType::CallResult, unique_id, payload })
    }
}

impl CallErrorMessage {
    /// Create a new CallError message; missing details become the empty object.
    pub fn new(
        unique_id: String,
        error_code: CallErrorCode,
        error_description: String,
        error_details: Option<JsonValue>,
    ) -> (r: Self)
        ensures
            r.message_type == MessageType::CallError && r.unique_id == unique_id
                && r.error_code == error_code && r.error_description == error_description
                && (match error_details {
                    Some(d) => r.error_details == d,
                    None => r.error_details@ == "{}"@,
                }),
    {
        let details = match error_details {
            Some(d) => d,
            None => JsonValue::empty_object(),
        };
        CallErrorMessage {
            message_type: MessageType::CallError,
            unique_id,
            error_code,
            error_description,
            error_details: details,
        }
    }
}

impl RawMessage {
    /// Convert a raw message to a typed message.
    pub fn into_message(self) -> (r: Result<Message, OcppError>)
        ensures
            decodes_to(self, r),
    {
        match self {
            RawMessage::Call(msg_type, unique_id, action, payload) => {
                if msg_type != 2 {
                    return Err(OcppError::InvalidMessageType(msg_type));
                }
                Ok(Message::Call(CallMessage {
                    message_type: MessageType::Call,
                    unique_id,
                    action,
                    payload,
                }))
            },
            RawMessage::CallResult(msg_type, unique_id, payload) => {
                if msg_type != 3 {
                    return Err(OcppError::InvalidMessageType(msg_type));
                }
                Ok(Message::CallResult(CallResultMessage {
                    message_type: MessageType::CallResult,
                    unique_id,
                    payload,
                }))
            },
            RawMessage::CallError(msg_type, unique_id, error_code_str, error_description, error_details) => {
                if msg_type != 4 {
                    return Err(OcppError::InvalidMessageType(msg_type));
                }
                match parse_error_code(error_code_str.as_str()) {
                    Some(error_code) => Ok(Message::CallError(CallErrorMessage {
                        message_type: MessageType::CallError,
                        unique_id,
                        error_code,
                        error_description,
                        error_details,
                    })),
                    None => {
                        let mut message = String::from_str("Unknown error code: ");
                        message.append(error_code_str.as_str());
                        Err(OcppError::ProtocolViolation { message })
                    },
                }
            },
        }
    }

    /// The wire form of a typed message.
    pub fn from_message(message: Message) -> (r: RawMessage)
        ensures
            encodes(r, message),
    {
        match message {
            Message::Call(msg) => RawMessage::Call(2, msg.unique_id, msg.action, msg.payload),
            Message::CallResult(msg) => RawMessage::CallResult(3, msg.unique_id, msg.payload),
            Message::CallError(msg) => RawMessage::CallError(
                4,
                msg.unique_id,
                String::from_str(msg.error_code.as_str()),
                msg.error_description,
                msg.error_details,
            ),
        }
    }
}

impl From<Message> for RawMessage {
    fn from(message: Message) -> RawMessage {
        RawMessage::from_message(message)
    }
}

impl vstd::std_specs::convert::FromSpecImpl<Message> for RawMessage {
    open spec fn obeys_from_spec() -> bool {
        false
    }

    open spec fn from_spec(v: Message) -> RawMessage {
        arbitrary()
    }
}

/// Writing a well-tagged message to its wire form and reading it back gives
/// the same message.
pub proof fn lemma_wire_roundtrip(m: Message, raw: RawMessage, back: Result<Message, OcppError>)
    requires
        well_tagged(m),
        encodes(raw, m),
        decodes_to(raw, back),
    ensures
        back == Ok::<Message, OcppError>(m),
{
    if let Message::CallError(c) = m {
        lemma_error_code_name_roundtrip(c.error_code);
    }
}

/// Every message that a wire form is read into is well tagged, and writing it
/// out again gives that wire form back, up to how the error code string is
/// held.
pub proof fn lemma_read_then_write(raw: RawMessage, m: Message, raw2: RawMessage)
    requires
        decodes_to(raw, Ok(m)),
        encodes(raw2, m),
    ensures
        well_tagged(m),
        match (raw, raw2) {
            (RawMessage::CallError(t, id, code, d, x), RawMessage::CallError(t2, id2, code2, d2, x2)) =>
                t == t2 && id == id2 && code@ == code2@ && d == d2 && x == x2,
            _ => raw == raw2,
        },
{
    if let RawMessage::CallError(t, id, code, d, x) = raw {
        reveal_strlit("NotImplemented");
        reveal_strlit("NotSupported");
        reveal_strlit("InternalError");
        reveal_strlit("ProtocolError");
        reveal_strlit("SecurityError");
        reveal_strlit("FormationViolation");
        reveal_strlit("PropertyConstraintViolation");
        reveal_strlit("OccurrenceConstraintViolation");
        reveal_strlit("TypeConstraintViolation");
        reveal_strlit("GenericError");
    }
}

} // verus!
