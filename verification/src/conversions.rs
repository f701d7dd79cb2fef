//! Passing protocol messages between Python and the runtime. Both sides hold a
//! message as its protobuf encoding: Python's generated classes serialize it and
//! parse it back; the runtime decodes and encodes it. This module names the
//! Python classes and turns failures on the way into Python exceptions.
use vstd::prelude::*;
use vstd::string::*;

use crate::errors::{join2, BindingError, PyErrorClass};

verus! {

/// The protocol messages that cross between Python and the runtime.
#[derive(Clone, Copy, Debug, PartialEq, Eq, Structural)]
pub enum ProtoMessage {
    ActrId,
    ActrType,
    DataStream,
}

/// The message's name, as the protocol and the Python classes spell it.
pub open spec fn message_name(m: ProtoMessage) -> Seq<char> {
    match m {
        ProtoMessage::ActrId => "ActrId"@,
        ProtoMessage::ActrType => "ActrType"@,
        ProtoMessage::DataStream => "DataStream"@,
    }
}

/// The Python module that holds the message's generated class.
pub open spec fn message_module(m: ProtoMessage) -> Seq<char> {
    match m {
        ProtoMessage::ActrId | ProtoMessage::ActrType => "generated.actr_pb2"@,
        ProtoMessage::DataStream => "generated.package_pb2"@,
    }
}

/// The message of the error raised when Python cannot serialize a message.
pub open spec fn serialize_failure_text(m: ProtoMessage, detail: Seq<char>) -> Seq<char> {
    "Failed to serialize "@ + message_name(m) + ": "@ + detail
}

/// The message of the error raised when bytes do not decode as a message.
pub open spec fn decode_failure_text(m: ProtoMessage, detail: Seq<char>) -> Seq<char> {
    "Failed to decode "@ + message_name(m) + ": "@ + detail
}

impl ProtoMessage {
    /// The message's name.
    pub fn name(self) -> (r: &'static str)
        ensures
            r@ == message_name(self),
    {
        match self {
            ProtoMessage::ActrId => "ActrId",
            ProtoMessage::ActrType => "ActrType",
            ProtoMessage::DataStream => "DataStream",
        }
    }

    /// Where the message's Python class lives: module path and class name.
    pub fn python_class_path(self) -> (r: (&'static str, &'static str))
        ensures
            r.0@ == message_module(self),
            r.1@ == message_name(self),
    {
        let module = match self {
            ProtoMessage::ActrId | ProtoMessage::ActrType => "generated.actr_pb2",
            ProtoMessage::DataStream => "generated.package_pb2",
        };
        (module, self.name())
    }
}

fn failure_text(prefix: &str, m: ProtoMessage, detail: &str) -> (r: String)
    ensures
        r@ == prefix@ + message_name(m) + ": "@ + detail@,
{
    let mut r = join2(prefix, m.name());
    r.append(": ");
    r.append(detail);
    r
}

/// The error raised when Python cannot serialize the message.
pub fn serialize_failure(m: ProtoMessage, detail: &str) -> (r: BindingError)
    ensures
        r.class == PyErrorClass::ValueError,
        r.message@ == serialize_failure_text(m, detail@),
{
    BindingError { class: PyErrorClass::ValueError, message: failure_text("Failed to serialize ", m, detail) }
}

/// The error raised when bytes do not decode as the message.
pub fn decode_failure(m: ProtoMessage, detail: &str) -> (r: BindingError)
    ensures
        r.class == PyErrorClass::ValueError,
        r.message@ == decode_failure_text(m, detail@),
{
    BindingError { class: PyErrorClass::ValueError, message: failure_text("Failed to decode ", m, detail) }
}

/// Accepts the bytes that Python serialized a message to, or raises the
/// serialization error with the reason that Python gave.
pub fn serialized_outcome(m: ProtoMessage, outcome: Result<Vec<u8>, String>) -> (r: Result<Vec<u8>, BindingError>)
    ensures
        match outcome {
            Ok(bytes) => r matches Ok(b) && b@ == bytes@,
            Err(detail) => r matches Err(e) && e.class == PyErrorClass::ValueError
                && e.message@ == serialize_failure_text(m, detail@),
        },
{
    match outcome {
        Ok(bytes) => Ok(bytes),
        Err(detail) => Err(serialize_failure(m, detail.as_str())),
    }
}

/// Accepts a decoded message, or raises the decode error with the reason that
/// the decoder gave.
pub fn decoded_outcome<T>(m: ProtoMessage, outcome: Result<T, String>) -> (r: Result<T, BindingError>)
    ensures
        match outcome {
            Ok(v) => r == Ok::<T, BindingError>(v),
            Err(detail) => r matches Err(e) && e.class == PyErrorClass::ValueError
                && e.message@ == decode_failure_text(m, detail@),
        },
{
    match outcome {
        Ok(v) => Ok(v),
        Err(detail) => Err(decode_failure(m, detail.as_str())),
    }
}

} // verus!
