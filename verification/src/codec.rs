//! The record codec: from a loosely typed record to the key and payload
//! bytes that the broker takes.

use crate::error::SinkError;
use crate::value::{render, rendering, Shape, Value};
use vstd::prelude::*;

verus! {

/// Whether a record is exactly a pair of byte strings.
///
/// Nothing is converted: a pair of text strings, a list of two byte strings
/// or a tuple of another length is no such pair.
pub open spec fn is_key_payload(record: Shape) -> bool {
    record matches Shape::Tuple(items) && items.len() == 2 && items[0] is Bytes && items[1] is Bytes
}

/// The key of a pair of byte strings: its first item.
pub open spec fn key_of(record: Shape) -> Seq<u8>
    recommends
        is_key_payload(record),
{
    record->Tuple_0[0]->Bytes_0
}

/// The payload of a pair of byte strings: its second item.
pub open spec fn payload_of(record: Shape) -> Seq<u8>
    recommends
        is_key_payload(record),
{
    record->Tuple_0[1]->Bytes_0
}

/// Reads a record as a `(key, payload)` pair of byte strings.
///
/// Any other record is refused as [`SinkError::InvalidRecord`], with the
/// record's printed form.
pub fn decode<'a>(record: &'a Value) -> (decoded: Result<(&'a [u8], &'a [u8]), SinkError>)
    ensures
        match decoded {
            Ok((key, payload)) => {
                &&& is_key_payload(record@)
                &&& key@ == key_of(record@)
                &&& payload@ == payload_of(record@)
            },
            Err(e) => {
                &&& !is_key_payload(record@)
                &&& e matches SinkError::InvalidRecord { got }
                &&& got@ == rendering(record@)
            },
        },
{
    if let Value::Tuple(items) = record {
        if items.len() == 2 {
            proof {
                assert(record@->Tuple_0[0] == items[0]@);
                assert(record@->Tuple_0[1] == items[1]@);
            }
            if let Value::Bytes(key) = &items[0] {
                if let Value::Bytes(payload) = &items[1] {
                    return Ok((key.as_slice(), payload.as_slice()));
                }
            }
        }
    }
    Err(SinkError::InvalidRecord { got: render(record) })
}

} // verus!
