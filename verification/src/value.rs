//! The model of engine values.
//!
//! An engine value is dynamically typed: undefined, null, a boolean, a
//! number, a string, an array, or an object with named properties.  The
//! codec only ever inspects these shapes, so the model keeps exactly
//! them, as plain data.  A number carries a signed 64-bit payload;
//! narrowing conversions in the codec follow two's-complement
//! truncation.  An object's entries are its own enumerable properties in
//! insertion order.

use vstd::prelude::*;

verus! {

/// The mathematical shape of an engine value, used in specifications.
pub enum JsVal {
    Undefined,
    Null,
    Bool(bool),
    Num(i64),
    Str(Seq<char>),
    Arr(Seq<JsVal>),
    Obj(Seq<(Seq<char>, JsVal)>),
}

/// An engine value as the library holds it.
#[derive(Debug, PartialEq, Eq)]
pub enum JsValue {
    Undefined,
    Null,
    Bool(bool),
    Num(i64),
    Str(String),
    Array(Vec<JsValue>),
    Object(Vec<(String, JsValue)>),
}

/// The views of the elements of an array value, in order.
pub closed spec fn view_elems(s: Seq<JsValue>) -> Seq<JsVal>
    decreases s,
{
    if s.len() == 0 {
        Seq::empty()
    } else {
        seq![s[0]@] + view_elems(s.drop_first())
    }
}

/// The views of the entries of an object value, in order.
pub closed spec fn view_entries(s: Seq<(String, JsValue)>) -> Seq<(Seq<char>, JsVal)>
    decreases s,
{
    if s.len() == 0 {
        Seq::empty()
    } else {
        seq![(s[0].0@, s[0].1@)] + view_entries(s.drop_first())
    }
}

impl View for JsValue {
    type V = JsVal;

    open spec fn view(&self) -> JsVal
        decreases self,
    {
        match self {
            JsValue::Undefined => JsVal::Undefined,
            JsValue::Null => JsVal::Null,
            JsValue::Bool(b) => JsVal::Bool(*b),
            JsValue::Num(n) => JsVal::Num(*n),
            JsValue::Str(s) => JsVal::Str(s@),
            JsValue::Array(elems) => JsVal::Arr(view_elems(elems@)),
            JsValue::Object(entries) => JsVal::Obj(view_entries(entries@)),
        }
    }
}

/// `view_elems` maps the element views pointwise.
pub broadcast proof fn lemma_view_elems(s: Seq<JsValue>)
    ensures
        (#[trigger] view_elems(s)).len() == s.len(),
        forall|i: int| 0 <= i < s.len() ==> view_elems(s)[i] == #[trigger] s[i]@,
    decreases s,
{
    if s.len() > 0 {
        lemma_view_elems(s.drop_first());
        assert(view_elems(s) == seq![s[0]@] + view_elems(s.drop_first()));
        assert forall|i: int| 0 <= i < s.len() implies view_elems(s)[i] == #[trigger] s[i]@ by {
            if i > 0 {
                assert(view_elems(s)[i] == view_elems(s.drop_first())[i - 1]);
                assert(s.drop_first()[i - 1] == s[i]);
            }
        }
    }
}

/// `view_entries` maps the entry views pointwise.
pub broadcast proof fn lemma_view_entries(s: Seq<(String, JsValue)>)
    ensures
        (#[trigger] view_entries(s)).len() == s.len(),
        forall|i: int|
            0 <= i < s.len() ==> view_entries(s)[i] == (#[trigger] s[i].0@, s[i].1@),
    decreases s,
{
    if s.len() > 0 {
        lemma_view_entries(s.drop_first());
        assert(view_entries(s) == seq![(s[0].0@, s[0].1@)] + view_entries(s.drop_first()));
        assert forall|i: int|
            0 <= i < s.len() implies view_entries(s)[i] == (#[trigger] s[i].0@, s[i].1@) by {
            if i > 0 {
                assert(view_entries(s)[i] == view_entries(s.drop_first())[i - 1]);
                assert(s.drop_first()[i - 1] == s[i]);
            }
        }
    }
}

impl JsValue {
    /// Structural copy of an engine value.
    #[verifier::loop_isolation(false)]
    pub fn deep_clone(&self) -> (r: JsValue)
        ensures
            r@ == self@,
        decreases self,
    {
        match self {
            JsValue::Undefined => JsValue::Undefined,
            JsValue::Null => JsValue::Null,
            JsValue::Bool(b) => JsValue::Bool(*b),
            JsValue::Num(n) => JsValue::Num(*n),
            JsValue::Str(s) => JsValue::Str(s.clone()),
            JsValue::Array(elems) => {
                let mut out: Vec<JsValue> = Vec::new();
                let mut i: usize = 0;
                while i < elems.len()
                    invariant
                        i <= elems.len(),
                        out.len() == i,
                        forall|j: int| 0 <= j < i ==> out[j]@ == #[trigger] elems[j]@,
                    decreases elems.len() - i,
                {
                    out.push(elems[i].deep_clone());
                    i = i + 1;
                }
                proof {
                    lemma_view_elems(out@);
                    lemma_view_elems(elems@);
                    assert forall|k: int|
                        0 <= k < elems@.len() implies view_elems(out@)[k] == view_elems(
                        elems@,
                    )[k] by {
                        assert(out@[k]@ == elems@[k]@);
                    }
                    assert(view_elems(out@) =~= view_elems(elems@));
                }
                JsValue::Array(out)
            },
            JsValue::Object(entries) => {
                let mut out: Vec<(String, JsValue)> = Vec::new();
                let mut i: usize = 0;
                while i < entries.len()
                    invariant
                        i <= entries.len(),
                        out.len() == i,
                        forall|j: int|
                            0 <= j < i ==> out[j].0@ == #[trigger] entries[j].0@
                                && out[j].1@ == entries[j].1@,
                    decreases entries.len() - i,
                {
                    let key = entries[i].0.clone();
                    let val = entries[i].1.deep_clone();
                    out.push((key, val));
                    i = i + 1;
                }
                proof {
                    lemma_view_entries(out@);
                    lemma_view_entries(entries@);
                    assert forall|k: int|
                        0 <= k < entries@.len() implies view_entries(out@)[k] == view_entries(
                        entries@,
                    )[k] by {
                        assert(out@[k].0@ == entries@[k].0@ && out@[k].1@ == entries@[k].1@);
                    }
                    assert(view_entries(out@) =~= view_entries(entries@));
                }
                JsValue::Object(out)
            },
        }
    }
}

/// Make an engine string value.
pub fn make_str(value: &str) -> (r: JsValue)
    ensures
        r@ == JsVal::Str(value@),
{
    JsValue::Str(value.to_owned())
}

/// Make an engine number value.
pub fn make_num(value: i64) -> (r: JsValue)
    ensures
        r@ == JsVal::Num(value),
{
    JsValue::Num(value)
}

/// Make an engine boolean value.
pub fn make_bool(value: bool) -> (r: JsValue)
    ensures
        r@ == JsVal::Bool(value),
{
    JsValue::Bool(value)
}

} // verus!
