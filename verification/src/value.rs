//! The structured-value model shared by both sides of the dispatcher.
//!
//! `WireValue` is the executable value that travels between the caller and
//! the daemon; `Jv` is its mathematical shape, used by every contract.  An
//! object is an association list of key/value pairs; a lookup returns the
//! first pair whose key matches.

use vstd::prelude::*;

verus! {

broadcast use vstd::std_specs::vec::group_vec_axioms, vstd::seq::group_seq_axioms;

/// The mathematical shape of a structured value.
pub enum Jv {
    Null,
    Bool(bool),
    Int(i64),
    UInt(u64),
    Str(Seq<char>),
    Arr(Seq<Jv>),
    Obj(Seq<(Seq<char>, Jv)>),
}

/// A structured value: the closed set of shapes that the wire protocol
/// carries below the method level.
#[derive(Debug, PartialEq, Eq)]
pub enum WireValue {
    Null,
    Bool(bool),
    Int(i64),
    UInt(u64),
    Str(String),
    Arr(Vec<WireValue>),
    Obj(Vec<(String, WireValue)>),
}

pub open spec fn wire_view(v: WireValue) -> Jv
    decreases v, 1int,
    via wire_view_decreases
{
    match v {
        WireValue::Null => Jv::Null,
        WireValue::Bool(b) => Jv::Bool(b),
        WireValue::Int(i) => Jv::Int(i),
        WireValue::UInt(u) => Jv::UInt(u),
        WireValue::Str(s) => Jv::Str(s@),
        WireValue::Arr(items) => Jv::Arr(arr_view(items@)),
        WireValue::Obj(fields) => Jv::Obj(obj_view(fields@)),
    }
}

/// Element-wise view of an array's items.
pub open spec fn arr_view(items: Seq<WireValue>) -> Seq<Jv>
    decreases items, 0int,
{
    if items.len() == 0 {
        Seq::empty()
    } else {
        arr_view(items.drop_last()).push(wire_view(items[items.len() - 1]))
    }
}

/// Pair-wise view of an object's fields.
pub open spec fn obj_view(fields: Seq<(String, WireValue)>) -> Seq<(Seq<char>, Jv)>
    decreases fields, 0int,
{
    if fields.len() == 0 {
        Seq::empty()
    } else {
        obj_view(fields.drop_last()).push(
            (fields[fields.len() - 1].0@, wire_view(fields[fields.len() - 1].1)),
        )
    }
}

#[via_fn]
proof fn wire_view_decreases(v: WireValue) {
    match v {
        WireValue::Arr(items) => {
            assert(decreases_to!(v => items));
            assert(decreases_to!(items => items@));
        },
        WireValue::Obj(fields) => {
            assert(decreases_to!(v => fields));
            assert(decreases_to!(fields => fields@));
        },
        _ => {},
    }
}

pub broadcast proof fn lemma_arr_view_len(items: Seq<WireValue>)
    ensures
        (#[trigger] arr_view(items)).len() == items.len(),
        forall|i: int| 0 <= i < items.len() ==> arr_view(items)[i] == wire_view(items[i]),
    decreases items.len(),
{
    if items.len() > 0 {
        lemma_arr_view_len(items.drop_last());
    }
}

pub broadcast proof fn lemma_obj_view_len(fields: Seq<(String, WireValue)>)
    ensures
        (#[trigger] obj_view(fields)).len() == fields.len(),
        forall|i: int| 0 <= i < fields.len()
            ==> obj_view(fields)[i] == (fields[i].0@, wire_view(fields[i].1)),
    decreases fields.len(),
{
    if fields.len() > 0 {
        lemma_obj_view_len(fields.drop_last());
    }
}

impl View for WireValue {
    type V = Jv;

    open spec fn view(&self) -> Jv {
        wire_view(*self)
    }
}

/// First value bound to `key` in the association list, if any.
pub open spec fn assoc_get(fields: Seq<(Seq<char>, Jv)>, key: Seq<char>) -> Option<Jv>
    decreases fields.len(),
{
    if fields.len() == 0 {
        None
    } else if fields[0].0 == key {
        Some(fields[0].1)
    } else {
        assoc_get(fields.drop_first(), key)
    }
}

/// Field lookup on a structured value: objects answer, every other shape has
/// no fields.
pub open spec fn jv_get(v: Jv, key: Seq<char>) -> Option<Jv> {
    match v {
        Jv::Obj(fields) => assoc_get(fields, key),
        _ => None,
    }
}

/// String equality by contents.
pub fn str_eq(a: &str, b: &str) -> (r: bool)
    ensures
        r == (a@ == b@),
{
    let sa = a.to_owned();
    let sb = b.to_owned();
    sa == sb
}

proof fn lemma_assoc_get_step(fields: Seq<(Seq<char>, Jv)>, key: Seq<char>, i: int)
    requires
        0 <= i < fields.len(),
        fields[i].0 != key,
    ensures
        assoc_get(fields.skip(i), key) == assoc_get(fields.skip(i + 1), key),
{
    assert(fields.skip(i).drop_first() =~= fields.skip(i + 1));
    assert(fields.skip(i)[0] == fields[i]);
}

impl WireValue {
    /// Reference to the first field named `key`, when this value is an
    /// object that has one.
    pub fn get_field<'a>(&'a self, key: &str) -> (r: Option<&'a WireValue>)
        ensures
            match r {
                Some(f) => jv_get(self@, key@) == Some(f@),
                None => jv_get(self@, key@) is None,
            },
    {
        match *self {
            WireValue::Obj(ref fields) => {
                let ghost all = obj_view(fields@);
                proof {
                    lemma_obj_view_len(fields@);
                    assert(all.skip(0) =~= all);
                }
                let n = fields.len();
                let mut i: usize = 0;
                while i < n
                    invariant
                        *self == WireValue::Obj(*fields),
                        n == fields@.len(),
                        all == obj_view(fields@),
                        all.len() == n,
                        forall|k: int| 0 <= k < n ==> all[k] == (fields@[k].0@, wire_view(fields@[k].1)),
                        0 <= i <= n,
                        assoc_get(all, key@) == assoc_get(all.skip(i as int), key@),
                    decreases n - i,
                {
                    let kv = &fields[i];
                    if str_eq(kv.0.as_str(), key) {
                        proof {
                            assert(all.skip(i as int)[0] == all[i as int]);
                            assert(assoc_get(all.skip(i as int), key@) == Some(all[i as int].1));
                        }
                        return Some(&kv.1);
                    }
                    proof {
                        lemma_assoc_get_step(all, key@, i as int);
                    }
                    i = i + 1;
                }
                proof {
                    assert(all.skip(n as int) =~= Seq::<(Seq<char>, Jv)>::empty());
                }
                None
            },
            _ => None,
        }
    }
}

} // verus!
