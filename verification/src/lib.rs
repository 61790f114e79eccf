//! Decoding of bencode buffers into a host-native value tree.
//!
//! A raw bencode buffer is first parsed into a typed tree by an outside
//! parser, then the tree is mapped, dictionary by dictionary, into host
//! values: text for byte strings that are valid UTF-8, opaque binary buffers
//! otherwise, integers narrowed to 32 bits, and nested objects for nested
//! dictionaries. List values are deliberately collapsed to an absent marker,
//! matching the long-standing behaviour this library preserves.

pub mod laws;
pub mod mapper;
pub mod num;
pub mod parse;
pub mod text;
pub mod value;

use crate::mapper::map_entries;
use crate::mapper::map_entries_spec;
use crate::parse::parse_bytes;
use crate::parse::parse_of;
use crate::value::object_model;
use crate::value::BencodeValue;
use crate::value::DecodeError;
use crate::value::HostModel;
use crate::value::HostValue;
use vstd::prelude::*;

verus! {

/// What decoding a buffer yields: the parser must accept the buffer, its
/// top-level term must be a dictionary, and every key in the tree must be
/// valid UTF-8 text; the result is that dictionary's entries, mapped.
pub open spec fn decode_spec(bytes: Seq<u8>) -> Result<
    Seq<(Seq<char>, HostModel)>,
    DecodeError,
> {
    if parse_of(bytes) is None {
        Err(DecodeError::Parse)
    } else if !(parse_of(bytes)->Some_0 is Dict) {
        Err(DecodeError::NotADictionary)
    } else if map_entries_spec(parse_of(bytes)->Some_0->Dict_0) is None {
        Err(DecodeError::InvalidKey)
    } else {
        Ok(map_entries_spec(parse_of(bytes)->Some_0->Dict_0)->Some_0)
    }
}

/// Decode a bencode buffer into a host object, exactly as `decode_spec`
/// says: the whole buffer decodes to a complete object, or the call fails
/// with no partial output.
pub fn decode(bytes: &[u8]) -> (r: Result<Vec<(String, HostValue)>, DecodeError>)
    ensures
        r matches Ok(obj) ==> (decode_spec(bytes@) matches Ok(m) && object_model(obj@) == m),
        r matches Err(e) ==> (decode_spec(bytes@) matches Err(e2) && e == e2),
{
    match parse_bytes(bytes) {
        None => Err(DecodeError::Parse),
        Some(v) => match v {
            BencodeValue::Dict(entries) => match map_entries(&entries) {
                Ok(out) => Ok(out),
                Err(e) => Err(e),
            },
            _ => {
                proof {
                    assert(!(v@ is Dict));
                }
                Err(DecodeError::NotADictionary)
            },
        },
    }
}

} // verus!
