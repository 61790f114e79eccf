//! The bencode parser, an outside collaborator: `bip_bencode` turns a raw
//! byte buffer into a typed tree, which is copied node by node into the
//! library's own tree so the mapper can walk it.

use crate::value::BValueModel;
use crate::value::BencodeValue;
use vstd::prelude::*;

use bip_bencode::BDictAccess;
use bip_bencode::BRefAccess;

verus! {

/// The outside parser's tree-node type, opaque to this library: every node
/// is read through `copy_node` alone.
#[verifier::external_type_specification]
#[verifier::external_body]
pub struct ExBencodeRef<'a>(bip_bencode::BencodeRef<'a>);

/// What parsing a buffer yields: the parsed tree when the buffer is
/// well-formed bencode (under the parser's default options: full-buffer
/// decode, bounded nesting), nothing otherwise. A function of the bytes
/// alone.
pub uninterp spec fn parse_of(bytes: Seq<u8>) -> Option<BValueModel>;

/// Relies on bip_bencode's tree accessors (`BRefAccess::kind`,
/// `BDictAccess::to_list`, `BListAccess` indexing): reads each node of the
/// parsed tree once and copies it, byte strings verbatim, dictionary entries
/// in the order `to_list` hands them out.
#[verifier::external_body]
fn copy_node(node: &bip_bencode::BencodeRef<'_>) -> BencodeValue {
    match node.kind() {
        bip_bencode::BencodeRefKind::Bytes(b) => BencodeValue::Bytes(b.to_vec()),
        bip_bencode::BencodeRefKind::Int(n) => BencodeValue::Int(n),
        bip_bencode::BencodeRefKind::List(items) => BencodeValue::List(
            items.into_iter().map(|item| copy_node(item)).collect(),
        ),
        bip_bencode::BencodeRefKind::Dict(dict) => BencodeValue::Dict(
            dict.to_list().into_iter().map(|(k, v)| (k.to_vec(), copy_node(v))).collect(),
        ),
    }
}

/// Relies on bip_bencode::BencodeRef::decode with default options: parsing
/// is a pure function of the input buffer that either yields a typed tree
/// or fails, with no side effects.
#[verifier::external_body]
pub(crate) fn parse_bytes(bytes: &[u8]) -> (r: Option<BencodeValue>)
    ensures
        r matches Some(v) ==> parse_of(bytes@) == Some(v@),
        r is None ==> parse_of(bytes@) is None,
{
    match bip_bencode::BencodeRef::decode(bytes, bip_bencode::BDecodeOpt::default()) {
        Ok(tree) => Some(copy_node(&tree)),
        Err(_) => None,
    }
}

} // verus!
