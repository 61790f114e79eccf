//! The mapping's stated laws, each proved against the specs the public
//! functions are verified against.

use crate::decode_spec;
use crate::mapper::map_entries_spec;
use crate::mapper::map_value_spec;
use crate::num::wrap_i32;
use crate::parse::parse_of;
use crate::text::utf8_decode;
use crate::value::BValueModel;
use crate::value::DecodeError;
use crate::value::HostModel;
use vstd::prelude::*;

verus! {

/// A dictionary of one entry maps to an object of one entry: the decoded
/// key paired with the mapped value.
pub proof fn lemma_singleton_dict(k: Seq<u8>, v: BValueModel)
    requires
        utf8_decode(k) is Some,
        map_value_spec(v) is Some,
    ensures
        map_value_spec(BValueModel::Dict(seq![(k, v)])) == Some(
            HostModel::Object(seq![(utf8_decode(k)->Some_0, map_value_spec(v)->Some_0)]),
        ),
{
    reveal_with_fuel(map_entries_spec, 2);
    let es = seq![(k, v)];
    assert(map_entries_spec(es.drop_first()) == Some(Seq::<(Seq<char>, HostModel)>::empty()));
    assert(seq![(utf8_decode(k)->Some_0, map_value_spec(v)->Some_0)] + Seq::empty() =~= seq![
        (utf8_decode(k)->Some_0, map_value_spec(v)->Some_0),
    ]);
}

/// A byte-string value of valid UTF-8 decodes, under any valid key, to the
/// text it spells, bit for bit.
pub proof fn lemma_text_value(k: Seq<u8>, b: Seq<u8>)
    requires
        utf8_decode(k) is Some,
        utf8_decode(b) is Some,
    ensures
        map_value_spec(BValueModel::Dict(seq![(k, BValueModel::Bytes(b))])) == Some(
            HostModel::Object(
                seq![(utf8_decode(k)->Some_0, HostModel::Text(utf8_decode(b)->Some_0))],
            ),
        ),
{
    lemma_singleton_dict(k, BValueModel::Bytes(b));
}

/// A byte-string value that is not valid UTF-8 decodes, under any valid
/// key, to a binary buffer holding exactly those octets, length preserved.
pub proof fn lemma_binary_value(k: Seq<u8>, b: Seq<u8>)
    requires
        utf8_decode(k) is Some,
        utf8_decode(b) is None,
    ensures
        map_value_spec(BValueModel::Dict(seq![(k, BValueModel::Bytes(b))])) == Some(
            HostModel::Object(seq![(utf8_decode(k)->Some_0, HostModel::Binary(b))]),
        ),
        map_value_spec(BValueModel::Bytes(b))->Some_0->Binary_0.len() == b.len(),
{
    lemma_singleton_dict(k, BValueModel::Bytes(b));
}

/// An integer value decodes, under any valid key, to its 32-bit narrowing;
/// a value already inside the 32-bit signed range is kept exactly.
pub proof fn lemma_int_value(k: Seq<u8>, n: i64)
    requires
        utf8_decode(k) is Some,
    ensures
        map_value_spec(BValueModel::Dict(seq![(k, BValueModel::Int(n))])) == Some(
            HostModel::Object(seq![(utf8_decode(k)->Some_0, HostModel::Num(wrap_i32(n)))]),
        ),
        i32::MIN <= n <= i32::MAX ==> wrap_i32(n) == n,
{
    lemma_singleton_dict(k, BValueModel::Int(n));
    crate::num::lemma_wrap_i32(n);
}

/// Every list value collapses to the absent marker, whatever its items:
/// the deliberate gap this library preserves.
pub proof fn lemma_list_value(items: Seq<BValueModel>)
    ensures
        map_value_spec(BValueModel::List(items)) == Some(HostModel::Absent),
{
}

/// How deep dictionaries nest in a parsed term: a dictionary is one level
/// deeper than the deepest dictionary among its values; anything else,
/// lists included, counts no levels.
pub open spec fn dict_depth(v: BValueModel) -> nat
    decreases v, 1int,
{
    match v {
        BValueModel::Dict(es) => 1 + dict_entries_depth(es),
        _ => 0,
    }
}

/// The deepest dictionary nesting among a dictionary's values.
pub open spec fn dict_entries_depth(es: Seq<(Seq<u8>, BValueModel)>) -> nat
    decreases es, 0int,
{
    if es.len() == 0 {
        0
    } else {
        let d0 = dict_depth(es[0].1);
        let dr = dict_entries_depth(es.drop_first());
        if d0 > dr {
            d0
        } else {
            dr
        }
    }
}

/// How deep objects nest in a host value, counted the same way.
pub open spec fn object_depth(h: HostModel) -> nat
    decreases h, 1int,
{
    match h {
        HostModel::Object(out) => 1 + object_entries_depth(out),
        _ => 0,
    }
}

/// The deepest object nesting among an object's values.
pub open spec fn object_entries_depth(out: Seq<(Seq<char>, HostModel)>) -> nat
    decreases out, 0int,
{
    if out.len() == 0 {
        0
    } else {
        let d0 = object_depth(out[0].1);
        let dr = object_entries_depth(out.drop_first());
        if d0 > dr {
            d0
        } else {
            dr
        }
    }
}

/// Nesting is preserved: a term that maps at all maps to a host value whose
/// object nesting depth equals the term's dictionary nesting depth, so
/// dictionaries of depth `d` decode to objects of depth `d`.
pub proof fn lemma_depth_preserved(v: BValueModel)
    requires
        map_value_spec(v) is Some,
    ensures
        object_depth(map_value_spec(v)->Some_0) == dict_depth(v),
    decreases v, 1int,
{
    match v {
        BValueModel::Dict(es) => {
            lemma_entries_depth_preserved(es);
        },
        _ => {},
    }
}

/// Nesting is preserved entry by entry across a dictionary's values.
pub proof fn lemma_entries_depth_preserved(es: Seq<(Seq<u8>, BValueModel)>)
    requires
        map_entries_spec(es) is Some,
    ensures
        object_entries_depth(map_entries_spec(es)->Some_0) == dict_entries_depth(es),
    decreases es, 0int,
{
    if es.len() > 0 {
        let key = utf8_decode(es[0].0);
        let val = map_value_spec(es[0].1);
        let rest = map_entries_spec(es.drop_first());
        lemma_depth_preserved(es[0].1);
        lemma_entries_depth_preserved(es.drop_first());
        assert((seq![(key->Some_0, val->Some_0)] + rest->Some_0).drop_first() =~= rest->Some_0);
        assert((seq![(key->Some_0, val->Some_0)] + rest->Some_0)[0] == (
            key->Some_0,
            val->Some_0,
        ));
    }
}

/// A buffer whose top-level term parses as anything but a dictionary fails
/// to decode, whatever stands inside it.
pub proof fn lemma_top_level_not_dict(bytes: Seq<u8>)
    requires
        parse_of(bytes) matches Some(t) && !(t is Dict),
    ensures
        decode_spec(bytes) == Err::<Seq<(Seq<char>, HostModel)>, DecodeError>(
            DecodeError::NotADictionary,
        ),
{
}

} // verus!
