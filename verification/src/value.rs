//! The two value trees: the parsed bencode tree and the host value tree,
//! together with their mathematical models and the error taxonomy.

use vstd::prelude::*;

verus! {

/// A parsed bencode term: a byte string, an integer, a list, or a
/// dictionary of byte-string keys in encoding order.
#[derive(Debug, PartialEq, Eq)]
pub enum BencodeValue {
    Bytes(Vec<u8>),
    Int(i64),
    List(Vec<BencodeValue>),
    Dict(Vec<(Vec<u8>, BencodeValue)>),
}

/// Mathematical model of a parsed bencode term.
pub enum BValueModel {
    Bytes(Seq<u8>),
    Int(i64),
    List(Seq<BValueModel>),
    Dict(Seq<(Seq<u8>, BValueModel)>),
}

/// The host-native value a bencode term maps to: text for byte strings that
/// decode as UTF-8, an opaque binary buffer otherwise, a 32-bit integer, an
/// explicit absent marker (the image of every list), or an object of
/// key/value associations for a dictionary.
#[derive(Debug, PartialEq, Eq)]
pub enum HostValue {
    Text(String),
    Binary(Vec<u8>),
    Num(i32),
    Absent,
    Object(Vec<(String, HostValue)>),
}

/// Mathematical model of a host value.
pub enum HostModel {
    Text(Seq<char>),
    Binary(Seq<u8>),
    Num(i32),
    Absent,
    Object(Seq<(Seq<char>, HostModel)>),
}

/// Why a decode call failed, each condition fatal for the whole call.
#[derive(Clone, Copy, Debug, PartialEq, Eq, Structural)]
pub enum DecodeError {
    /// The buffer is not well-formed bencode.
    Parse,
    /// The buffer parsed, but its top-level term is not a dictionary.
    NotADictionary,
    /// A dictionary key's bytes are not valid UTF-8 text.
    InvalidKey,
}

/// The model of a parsed bencode term: views lift pointwise into the tree.
pub open spec fn bencode_model(v: BencodeValue) -> BValueModel
    decreases v, 2int,
{
    match v {
        BencodeValue::Bytes(b) => BValueModel::Bytes(b@),
        BencodeValue::Int(n) => BValueModel::Int(n),
        BencodeValue::List(items) => BValueModel::List(list_model(items@)),
        BencodeValue::Dict(entries) => BValueModel::Dict(entry_list_model(entries@)),
    }
}

/// Pointwise model of a sequence of bencode terms.
pub open spec fn list_model(items: Seq<BencodeValue>) -> Seq<BValueModel>
    decreases items, 1int,
{
    if items.len() == 0 {
        Seq::empty()
    } else {
        seq![bencode_model(items[0])] + list_model(items.drop_first())
    }
}

/// Pointwise model of a sequence of dictionary entries.
pub open spec fn entry_list_model(entries: Seq<(Vec<u8>, BencodeValue)>) -> Seq<(Seq<u8>, BValueModel)>
    decreases entries, 1int,
{
    if entries.len() == 0 {
        Seq::empty()
    } else {
        seq![(entries[0].0@, bencode_model(entries[0].1))] + entry_list_model(entries.drop_first())
    }
}

impl View for BencodeValue {
    type V = BValueModel;

    open spec fn view(&self) -> BValueModel {
        bencode_model(*self)
    }
}

/// The model of a host value: views lift pointwise into the tree.
pub open spec fn host_model(h: HostValue) -> HostModel
    decreases h, 2int,
{
    match h {
        HostValue::Text(s) => HostModel::Text(s@),
        HostValue::Binary(b) => HostModel::Binary(b@),
        HostValue::Num(n) => HostModel::Num(n),
        HostValue::Absent => HostModel::Absent,
        HostValue::Object(entries) => HostModel::Object(object_model(entries@)),
    }
}

/// Pointwise model of a sequence of host object entries.
pub open spec fn object_model(entries: Seq<(String, HostValue)>) -> Seq<(Seq<char>, HostModel)>
    decreases entries, 1int,
{
    if entries.len() == 0 {
        Seq::empty()
    } else {
        seq![(entries[0].0@, host_model(entries[0].1))] + object_model(entries.drop_first())
    }
}

impl View for HostValue {
    type V = HostModel;

    open spec fn view(&self) -> HostModel {
        host_model(*self)
    }
}

/// `entry_list_model` maps each entry in place: the key bytes to their view,
/// the value to its model.
pub proof fn lemma_entry_list_model(entries: Seq<(Vec<u8>, BencodeValue)>)
    ensures
        entry_list_model(entries).len() == entries.len(),
        forall|i: int|
            0 <= i < entries.len() ==> entry_list_model(entries)[i] == (
            entries[i].0@,
            bencode_model(entries[i].1),
            ),
    decreases entries.len(),
{
    if entries.len() > 0 {
        lemma_entry_list_model(entries.drop_first());
    }
}

/// `object_model` maps each entry in place.
pub proof fn lemma_object_model(entries: Seq<(String, HostValue)>)
    ensures
        object_model(entries).len() == entries.len(),
        forall|i: int|
            0 <= i < entries.len() ==> object_model(entries)[i] == (
            entries[i].0@,
            host_model(entries[i].1),
            ),
    decreases entries.len(),
{
    if entries.len() > 0 {
        lemma_object_model(entries.drop_first());
    }
}

} // verus!
