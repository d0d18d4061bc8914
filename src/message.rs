//! Raw message bodies and the errors met while decoding them.
use vstd::prelude::*;
use vstd::string::StringSliceAdditionalSpecFns;
use vstd::utf8::{decode_utf8, valid_utf8};

verus! {

/// The bytes of a message body.
#[derive(Debug)]
pub struct MqMessageBytes(pub Vec<u8>);

/// A message taken from a queue: its id and its decoded body.
#[derive(Debug)]
pub struct MqMessage<E> {
    pub id: String,
    pub data: E,
}

/// Why a message could not be handled.
#[derive(Debug)]
pub enum MqError {
    /// The body could not be decoded; these are its bytes.
    CannotDecodeMessage(Vec<u8>),
}

/// Relies on `String::from_utf8`: the text the bytes encode when they are
/// valid UTF-8, else an error that gives the bytes back.
#[verifier::external_body]
fn utf8_to_string(bytes: Vec<u8>) -> (r: Result<String, Vec<u8>>)
    ensures
        match r {
            Ok(s) => valid_utf8(bytes@) && s@ == decode_utf8(bytes@),
            Err(b) => !valid_utf8(bytes@) && b@ == bytes@,
        },
{
    String::from_utf8(bytes).map_err(|e| e.into_bytes())
}

impl MqMessageBytes {
    /// The bytes.
    pub fn into_bytes(self) -> (r: Vec<u8>)
        ensures
            r@ == self.0@,
    {
        self.0
    }

    /// The UTF-8 encoding of `text`.
    pub fn from_text(text: &str) -> (r: MqMessageBytes)
        ensures
            r.0@ == text.spec_bytes(),
    {
        MqMessageBytes(vstd::slice::slice_to_vec(text.as_bytes()))
    }

    /// A copy of `bytes`.
    pub fn from_slice(bytes: &[u8]) -> (r: MqMessageBytes)
        ensures
            r.0@ == bytes@,
    {
        MqMessageBytes(vstd::slice::slice_to_vec(bytes))
    }

    /// The text the bytes encode, or the bytes themselves when they are not
    /// valid UTF-8.
    pub fn into_text(self) -> (r: Result<String, Vec<u8>>)
        ensures
            match r {
                Ok(s) => valid_utf8(self.0@) && s@ == decode_utf8(self.0@),
                Err(b) => !valid_utf8(self.0@) && b@ == self.0@,
            },
    {
        utf8_to_string(self.0)
    }
}

impl From<Vec<u8>> for MqMessageBytes {
    fn from(bytes: Vec<u8>) -> (r: MqMessageBytes) {
        MqMessageBytes(bytes)
    }
}

impl vstd::std_specs::convert::FromSpecImpl<Vec<u8>> for MqMessageBytes {
    open spec fn obeys_from_spec() -> bool {
        true
    }

    open spec fn from_spec(bytes: Vec<u8>) -> MqMessageBytes {
        MqMessageBytes(bytes)
    }
}

} // verus!
