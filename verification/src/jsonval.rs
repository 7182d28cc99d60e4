//! The crate's model of a JSON document.
//!
//! Webhook payloads arrive as JSON text. The crate parses them with its
//! own verified parser (see `jsonparse`) into the executable tree `Json`,
//! whose mathematical meaning is the ghost tree `JsonM` produced by
//! `json_view`. Integer values are kept exactly as integers — amounts are
//! smallest-currency-unit values and must never pass through floating
//! point. Numeric literals with a fraction or exponent part are carried
//! as the opaque `NumOther` so that a payload containing them still
//! parses; the webhook logic never reads such a value.

use vstd::prelude::*;

verus! {

broadcast use vstd::seq::axiom_seq_index_decreases, vstd::std_specs::vec::axiom_vec_decreases_to_view;

/// Mathematical JSON tree: what a `Json` value denotes.
pub enum JsonM {
    Null,
    Bool(bool),
    Int(int),
    NumOther,
    Str(Seq<char>),
    Arr(Seq<JsonM>),
    Obj(Seq<(Seq<char>, JsonM)>),
}

/// Executable JSON tree.
pub enum Json {
    Null,
    Bool(bool),
    Int(i64),
    NumOther,
    Str(String),
    Arr(Vec<Json>),
    Obj(Vec<(String, Json)>),
}

/// Meaning of an executable JSON tree.
pub open spec fn json_view(j: Json) -> JsonM
    decreases j, 1int,
{
    match j {
        Json::Null => JsonM::Null,
        Json::Bool(b) => JsonM::Bool(b),
        Json::Int(n) => JsonM::Int(n as int),
        Json::NumOther => JsonM::NumOther,
        Json::Str(s) => JsonM::Str(s@),
        Json::Arr(items) => {
            proof {
                assert(decreases_to!(j => items));
                assert(decreases_to!(items => items@));
            }
            JsonM::Arr(arr_view(items@))
        },
        Json::Obj(items) => {
            proof {
                assert(decreases_to!(j => items));
                assert(decreases_to!(items => items@));
            }
            JsonM::Obj(obj_view(items@))
        },
    }
}

pub open spec fn arr_view(s: Seq<Json>) -> Seq<JsonM>
    decreases s, 0int,
{
    if s.len() == 0 {
        Seq::empty()
    } else {
        proof {
            assert(decreases_to!(s => s[0]));
            assert(decreases_to!(s => s.drop_first()));
        }
        seq![json_view(s[0])] + arr_view(s.drop_first())
    }
}

pub open spec fn obj_view(s: Seq<(String, Json)>) -> Seq<(Seq<char>, JsonM)>
    decreases s, 0int,
{
    if s.len() == 0 {
        Seq::empty()
    } else {
        proof {
            assert(decreases_to!(s => s[0]));
            assert(decreases_to!(s[0] => s[0].1));
            assert(decreases_to!(s => s.drop_first()));
        }
        seq![(s[0].0@, json_view(s[0].1))] + obj_view(s.drop_first())
    }
}

pub proof fn lemma_obj_view_index(s: Seq<(String, Json)>)
    ensures
        obj_view(s).len() == s.len(),
        forall|i: int| 0 <= i < s.len() ==> obj_view(s)[i] == (s[i].0@, json_view(s[i].1)),
    decreases s.len(),
{
    if s.len() > 0 {
        lemma_obj_view_index(s.drop_first());
    }
}

/// Value bound to `key` in an object's member list; the first binding
/// wins when a key is repeated.
pub open spec fn obj_get(items: Seq<(Seq<char>, JsonM)>, key: Seq<char>) -> Option<JsonM>
    decreases items.len(),
{
    if items.len() == 0 {
        None
    } else if items[0].0 == key {
        Some(items[0].1)
    } else {
        obj_get(items.drop_first(), key)
    }
}

/// Field lookup on a whole JSON value: `None` unless the value is an
/// object with the field.
pub open spec fn m_field(m: JsonM, key: Seq<char>) -> Option<JsonM> {
    match m {
        JsonM::Obj(items) => obj_get(items, key),
        _ => None,
    }
}

/// The field's text when it is present and a string.
pub open spec fn m_str_field(m: JsonM, key: Seq<char>) -> Option<Seq<char>> {
    match m_field(m, key) {
        Some(JsonM::Str(s)) => Some(s),
        _ => None,
    }
}

/// The field's value when it is present and an integer.
pub open spec fn m_int_field(m: JsonM, key: Seq<char>) -> Option<int> {
    match m_field(m, key) {
        Some(JsonM::Int(n)) => Some(n),
        _ => None,
    }
}

impl Json {
    /// Field lookup; `None` unless `self` is an object with the field.
    pub fn field<'a>(&'a self, key: &str) -> (r: Option<&'a Json>)
        ensures
            match r {
                Some(v) => m_field(json_view(*self), key@) == Some(json_view(*v)),
                None => m_field(json_view(*self), key@) is None,
            },
    {
        match self {
            Json::Obj(items) => {
                proof {
                    lemma_obj_view_index(items@);
                    assert(obj_view(items@).skip(0) =~= obj_view(items@));
                }
                let n = items.len();
                let mut i: usize = 0;
                while i < n
                    invariant
                        json_view(*self) == JsonM::Obj(obj_view(items@)),
                        n == items@.len(),
                        i <= n,
                        obj_view(items@).len() == n,
                        forall|k: int| 0 <= k < n ==> obj_view(items@)[k] == (
                        items@[k].0@,
                        json_view(items@[k].1),
                        ),
                        forall|k: int| 0 <= k < i ==> items@[k].0@ != key@,
                        obj_get(obj_view(items@), key@) == obj_get(
                            obj_view(items@).skip(i as int),
                            key@,
                        ),
                    decreases n - i,
                {
                    proof {
                        assert(obj_view(items@).skip(i as int)[0] == obj_view(items@)[i as int]);
                    }
                    if crate::strutil::str_eq(items[i].0.as_str(), key) {
                        proof {
                            let sk = obj_view(items@).skip(i as int);
                            assert(sk.len() > 0);
                            assert(sk[0].0 == key@);
                            assert(obj_get(sk, key@) == Some(json_view(items@[i as int].1)));
                        }
                        return Some(&items[i].1);
                    }
                    proof {
                        assert(obj_view(items@).skip(i as int).drop_first() =~= obj_view(
                            items@,
                        ).skip(i as int + 1));
                    }
                    i += 1;
                }
                proof {
                    assert(obj_view(items@).skip(n as int) =~= Seq::<(Seq<char>, JsonM)>::empty());
                }
                None
            },
            _ => None,
        }
    }

    /// The field's text when it is present and a string.
    pub fn str_field<'a>(&'a self, key: &str) -> (r: Option<&'a String>)
        ensures
            match r {
                Some(s) => m_str_field(json_view(*self), key@) == Some(s@),
                None => m_str_field(json_view(*self), key@) is None,
            },
    {
        match self.field(key) {
            Some(Json::Str(s)) => Some(s),
            _ => None,
        }
    }

    /// The field's value when it is present and an integer.
    pub fn int_field(&self, key: &str) -> (r: Option<i64>)
        ensures
            match r {
                Some(n) => m_int_field(json_view(*self), key@) == Some(n as int),
                None => m_int_field(json_view(*self), key@) is None,
            },
    {
        match self.field(key) {
            Some(Json::Int(n)) => Some(*n),
            _ => None,
        }
    }
}

} // verus!
