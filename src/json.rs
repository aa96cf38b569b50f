//! Encoding of result values with serde_json, written into a bounded buffer.
use vstd::prelude::*;
use crate::buffer::{
    BoundedBuffer, EncodeError, OVERFLOW_LEN, law_overflow_reads_payload,
    law_stored_encoding_reads_back, no_nul, overflow_payload, stored, terminated,
};

verus! {

#[verifier::external_type_specification]
#[verifier::external_body]
pub struct ExJsonValue(serde_json::Value);

#[verifier::external_type_specification]
#[verifier::external_body]
pub struct ExJsonError(serde_json::Error);

/// The JSON text serde_json writes for a value: keys of an object in
/// ascending order, no whitespace.
pub uninterp spec fn json_text_of(v: serde_json::Value) -> Seq<u8>;

/// Relies on serde_json::to_vec: the JSON text of the value, which depends on
/// the value alone. A `Value` has only string keys and the output is a `Vec`,
/// so encoding never fails; every control byte inside a string is escaped, so
/// the text never holds a zero byte.
#[verifier::external_body]
fn encode_json(value: &serde_json::Value) -> (r: Result<Vec<u8>, serde_json::Error>)
    ensures
        r is Ok,
        r matches Ok(b) ==> b@ == json_text_of(*value),
        r matches Ok(b) ==> no_nul(b@),
{
    serde_json::to_vec(value)
}

/// Encodes `value` as JSON into `buf`: its text when it fits (terminated when
/// room is left), else the overflow payload. The buffer keeps its capacity.
pub fn export_json(buf: &mut BoundedBuffer, value: &serde_json::Value)
    requires
        old(buf).wf(),
    ensures
        final(buf).wf(),
        final(buf)@ == stored(old(buf)@, Some(json_text_of(*value))),
        no_nul(json_text_of(*value)),
{
    let encoded = match encode_json(value) {
        Ok(b) => Ok(b),
        Err(_) => Err(EncodeError),
    };
    buf.store(encoded);
}

/// What a reader of the buffer sees after `export_json`: the value's JSON
/// text, byte for byte, when it fits the capacity, and the overflow payload
/// otherwise.
pub proof fn law_exported_value_reads_back(buf: Seq<u8>, value: serde_json::Value)
    requires
        buf.len() > OVERFLOW_LEN,
        no_nul(json_text_of(value)),
    ensures
        json_text_of(value).len() <= buf.len() ==> terminated(stored(buf, Some(json_text_of(value))))
            == json_text_of(value),
        json_text_of(value).len() > buf.len() ==> terminated(stored(buf, Some(json_text_of(value))))
            == overflow_payload(),
{
    if json_text_of(value).len() <= buf.len() {
        law_stored_encoding_reads_back(buf, json_text_of(value));
    } else {
        law_overflow_reads_payload(buf, Some(json_text_of(value)));
    }
}

} // verus!
