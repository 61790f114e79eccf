//! The value mapper: the recursive conversion of a parsed bencode tree into
//! the host value tree.
//!
//! Per dictionary entry, the key must decode as UTF-8 text (fatal for the
//! whole call otherwise), and the value maps by kind: byte strings to text
//! or binary depending on UTF-8 validity, integers narrowed to 32 bits,
//! lists to the absent marker, and dictionaries recursively.

use crate::num::narrow_int;
use crate::num::wrap_i32;
use crate::text::utf8_decode;
use crate::text::utf8_to_text;
use crate::value::lemma_entry_list_model;
use crate::value::lemma_object_model;
use crate::value::BValueModel;
use crate::value::BencodeValue;
use crate::value::DecodeError;
use crate::value::HostModel;
use crate::value::HostValue;
use crate::value::entry_list_model;
use crate::value::object_model;
use vstd::prelude::*;

verus! {

/// What one bencode term maps to, or nothing if a dictionary key somewhere
/// inside it is not valid UTF-8 text.
pub open spec fn map_value_spec(v: BValueModel) -> Option<HostModel>
    decreases v, 2int,
{
    match v {
        BValueModel::Bytes(b) => match utf8_decode(b) {
            Some(t) => Some(HostModel::Text(t)),
            None => Some(HostModel::Binary(b)),
        },
        BValueModel::Int(n) => Some(HostModel::Num(wrap_i32(n))),
        BValueModel::List(_) => Some(HostModel::Absent),
        BValueModel::Dict(es) => match map_entries_spec(es) {
            Some(out) => Some(HostModel::Object(out)),
            None => None,
        },
    }
}

/// What a dictionary's entries map to, in order, or nothing if some key is
/// not valid UTF-8 text or some value fails to map.
pub open spec fn map_entries_spec(es: Seq<(Seq<u8>, BValueModel)>) -> Option<
    Seq<(Seq<char>, HostModel)>,
>
    decreases es, 1int,
{
    if es.len() == 0 {
        Some(Seq::empty())
    } else {
        let key = utf8_decode(es[0].0);
        let val = map_value_spec(es[0].1);
        let rest = map_entries_spec(es.drop_first());
        if key is Some && val is Some && rest is Some {
            Some(seq![(key->Some_0, val->Some_0)] + rest->Some_0)
        } else {
            None
        }
    }
}

/// Entry `i` of a dictionary maps on its own: its key decodes as text and
/// its value maps.
pub open spec fn entry_maps(e: (Seq<u8>, BValueModel)) -> bool {
    utf8_decode(e.0) is Some && map_value_spec(e.1) is Some
}

/// The entry mapping seen by index: it succeeds exactly when every entry
/// maps on its own, and then pairs each decoded key with its mapped value,
/// in order.
pub proof fn lemma_map_entries_index(es: Seq<(Seq<u8>, BValueModel)>)
    ensures
        (map_entries_spec(es) is Some) <==> (forall|i: int|
            0 <= i < es.len() ==> entry_maps(#[trigger] es[i])),
        map_entries_spec(es) is Some ==> map_entries_spec(es)->Some_0.len() == es.len(),
        map_entries_spec(es) is Some ==> forall|i: int|
            0 <= i < es.len() ==> (#[trigger] map_entries_spec(es)->Some_0[i]) == (
            utf8_decode(es[i].0)->Some_0,
            map_value_spec(es[i].1)->Some_0,
            ),
    decreases es.len(),
{
    if es.len() > 0 {
        lemma_map_entries_index(es.drop_first());
        assert(forall|j: int|
            0 <= j < es.drop_first().len() ==> #[trigger] es.drop_first()[j] == es[j + 1]);
        if entry_maps(es[0]) && map_entries_spec(es.drop_first()) is Some {
            assert forall|i: int| 1 <= i < es.len() implies entry_maps(#[trigger] es[i]) by {
                assert(es.drop_first()[i - 1] == es[i]);
            }
        }
    }
}

/// Copy a byte string verbatim: same octets, same length.
fn copy_bytes(b: &Vec<u8>) -> (r: Vec<u8>)
    ensures
        r@ == b@,
{
    let mut r: Vec<u8> = Vec::new();
    let mut i: usize = 0;
    while i < b.len()
        invariant
            i <= b@.len(),
            r@ == b@.subrange(0, i as int),
        decreases b@.len() - i,
    {
        r.push(b[i]);
        proof {
            assert(r@ =~= b@.subrange(0, i + 1));
        }
        i += 1;
    }
    proof {
        assert(r@ =~= b@);
    }
    r
}

/// Map one parsed bencode term to its host value, exactly as
/// `map_value_spec` says; the only failure is a dictionary key somewhere
/// inside it that is not valid UTF-8 text.
pub fn map_value(v: &BencodeValue) -> (r: Result<HostValue, DecodeError>)
    ensures
        map_value_spec(v@) is Some ==> (r matches Ok(h) && h@ == map_value_spec(v@)->Some_0),
        map_value_spec(v@) is None ==> (r matches Err(e) && e == DecodeError::InvalidKey),
    decreases *v, 1int,
{
    match v {
        BencodeValue::Bytes(b) => match utf8_to_text(b) {
            Some(s) => Ok(HostValue::Text(s)),
            None => Ok(HostValue::Binary(copy_bytes(b))),
        },
        BencodeValue::Int(n) => Ok(HostValue::Num(narrow_int(*n))),
        BencodeValue::List(_) => Ok(HostValue::Absent),
        BencodeValue::Dict(entries) => match map_entries(entries) {
            Ok(out) => Ok(HostValue::Object(out)),
            Err(e) => Err(e),
        },
    }
}

/// Map a dictionary's entries in order, exactly as `map_entries_spec` says;
/// the call fails, with nothing kept, as soon as a key is not valid UTF-8
/// text or a value fails to map.
pub fn map_entries(entries: &Vec<(Vec<u8>, BencodeValue)>) -> (r: Result<
    Vec<(String, HostValue)>,
    DecodeError,
>)
    ensures
        map_entries_spec(entry_list_model(entries@)) is Some ==> (r matches Ok(out)
            && object_model(out@) == map_entries_spec(entry_list_model(entries@))->Some_0),
        map_entries_spec(entry_list_model(entries@)) is None ==> (r matches Err(e) && e
            == DecodeError::InvalidKey),
    decreases *entries, 0int,
{
    let ghost es = entry_list_model(entries@);
    proof {
        lemma_entry_list_model(entries@);
    }
    let mut out: Vec<(String, HostValue)> = Vec::new();
    let mut i: usize = 0;
    while i < entries.len()
        invariant
            es == entry_list_model(entries@),
            es.len() == entries@.len(),
            forall|j: int|
                0 <= j < entries@.len() ==> #[trigger] es[j] == (
                entries@[j].0@,
                crate::value::bencode_model(entries@[j].1),
                ),
            i <= entries@.len(),
            out@.len() == i,
            forall|j: int| 0 <= j < i ==> entry_maps(#[trigger] es[j]),
            forall|j: int|
                0 <= j < i ==> (#[trigger] out@[j]).0@ == utf8_decode(es[j].0)->Some_0 && out@[j].1@
                    == map_value_spec(es[j].1)->Some_0,
        decreases entries@.len() - i,
    {
        match utf8_to_text(&entries[i].0) {
            None => {
                proof {
                    lemma_map_entries_index(es);
                    assert(!entry_maps(es[i as int]));
                }
                return Err(DecodeError::InvalidKey);
            },
            Some(k) => {
                match map_value(&entries[i].1) {
                    Err(e) => {
                        proof {
                            lemma_map_entries_index(es);
                            assert(!entry_maps(es[i as int]));
                        }
                        return Err(e);
                    },
                    Ok(h) => {
                        out.push((k, h));
                    },
                }
            },
        }
        i += 1;
    }
    proof {
        lemma_map_entries_index(es);
        lemma_object_model(out@);
        assert(object_model(out@) =~= map_entries_spec(es)->Some_0);
    }
    Ok(out)
}

} // verus!
