//! The JSON-mappable object path.
//!
//! A native type opts into this path by implementing [`FFIObject`]:
//! a structural mapping between the type and a generic JSON tree
//! ([`Json`]).  Decoding converts the engine value into that tree —
//! recursively walking arrays by index and objects by their own
//! enumerable properties — and then hands the tree to the type's
//! schema mapping; encoding serialises to the tree and rebuilds engine
//! values recursively.
//!
//! Every modelled engine value has a JSON image: arrays map to JSON
//! arrays, objects to JSON objects, strings, numbers and booleans map
//! directly, and both undefined and null map to JSON null.  Engine
//! value kinds outside the model (functions, symbols) are rejected by
//! the host at the boundary before they reach this module.
//!
//! [`Json`] itself implements [`FFICompat`], so a JSON tree can cross
//! the boundary like any other codec type; its round trip is proved.

use vstd::prelude::*;

use crate::codec::FFICompat;
use crate::value::JsVal;
use crate::value::JsValue;

verus! {

/// The mathematical shape of a JSON tree, used in specifications.
pub enum JsonV {
    Null,
    Bool(bool),
    Num(i64),
    Str(Seq<char>),
    Arr(Seq<JsonV>),
    Obj(Seq<(Seq<char>, JsonV)>),
}

/// A generic JSON tree: the intermediate form between engine values
/// and JSON-mappable native types.
#[derive(Debug, PartialEq, Eq)]
pub enum Json {
    Null,
    Bool(bool),
    Num(i64),
    Str(String),
    Arr(Vec<Json>),
    Obj(Vec<(String, Json)>),
}

/// The views of the elements of a JSON array, in order.
pub closed spec fn json_view_elems(s: Seq<Json>) -> Seq<JsonV>
    decreases s,
{
    if s.len() == 0 {
        Seq::empty()
    } else {
        seq![s[0]@] + json_view_elems(s.drop_first())
    }
}

/// The views of the entries of a JSON object, in order.
pub closed spec fn json_view_entries(s: Seq<(String, Json)>) -> Seq<(Seq<char>, JsonV)>
    decreases s,
{
    if s.len() == 0 {
        Seq::empty()
    } else {
        seq![(s[0].0@, s[0].1@)] + json_view_entries(s.drop_first())
    }
}

impl View for Json {
    type V = JsonV;

    open spec fn view(&self) -> JsonV
        decreases self,
    {
        match self {
            Json::Null => JsonV::Null,
            Json::Bool(b) => JsonV::Bool(*b),
            Json::Num(n) => JsonV::Num(*n),
            Json::Str(s) => JsonV::Str(s@),
            Json::Arr(elems) => JsonV::Arr(json_view_elems(elems@)),
            Json::Obj(entries) => JsonV::Obj(json_view_entries(entries@)),
        }
    }
}

/// `json_view_elems` maps the element views pointwise.
pub broadcast proof fn lemma_json_view_elems(s: Seq<Json>)
    ensures
        (#[trigger] json_view_elems(s)).len() == s.len(),
        forall|i: int| 0 <= i < s.len() ==> json_view_elems(s)[i] == #[trigger] s[i]@,
    decreases s,
{
    if s.len() > 0 {
        lemma_json_view_elems(s.drop_first());
        assert(json_view_elems(s) == seq![s[0]@] + json_view_elems(s.drop_first()));
        assert forall|i: int| 0 <= i < s.len() implies json_view_elems(s)[i] == #[trigger] s[i]@ by {
            if i > 0 {
                assert(json_view_elems(s)[i] == json_view_elems(s.drop_first())[i - 1]);
                assert(s.drop_first()[i - 1] == s[i]);
            }
        }
    }
}

/// `json_view_entries` maps the entry views pointwise.
pub broadcast proof fn lemma_json_view_entries(s: Seq<(String, Json)>)
    ensures
        (#[trigger] json_view_entries(s)).len() == s.len(),
        forall|i: int|
            0 <= i < s.len() ==> json_view_entries(s)[i] == (#[trigger] s[i].0@, s[i].1@),
    decreases s,
{
    if s.len() > 0 {
        lemma_json_view_entries(s.drop_first());
        assert(json_view_entries(s) == seq![(s[0].0@, s[0].1@)] + json_view_entries(
            s.drop_first(),
        ));
        assert forall|i: int|
            0 <= i < s.len() implies json_view_entries(s)[i] == (#[trigger] s[i].0@, s[i].1@) by {
            if i > 0 {
                assert(json_view_entries(s)[i] == json_view_entries(s.drop_first())[i - 1]);
                assert(s.drop_first()[i - 1] == s[i]);
            }
        }
    }
}

/// The JSON image of an engine value.
pub open spec fn spec_json_of_js(v: JsVal) -> JsonV
    decreases v,
{
    match v {
        JsVal::Undefined => JsonV::Null,
        JsVal::Null => JsonV::Null,
        JsVal::Bool(b) => JsonV::Bool(b),
        JsVal::Num(n) => JsonV::Num(n),
        JsVal::Str(s) => JsonV::Str(s),
        JsVal::Arr(s) => JsonV::Arr(spec_json_of_js_elems(s)),
        JsVal::Obj(entries) => JsonV::Obj(spec_json_of_js_entries(entries)),
    }
}

/// The JSON images of the elements of an engine array, in order.
pub open spec fn spec_json_of_js_elems(s: Seq<JsVal>) -> Seq<JsonV>
    decreases s,
{
    if s.len() == 0 {
        Seq::empty()
    } else {
        seq![spec_json_of_js(s[0])] + spec_json_of_js_elems(s.drop_first())
    }
}

/// The JSON images of the entries of an engine object, in order.
pub open spec fn spec_json_of_js_entries(s: Seq<(Seq<char>, JsVal)>) -> Seq<(Seq<char>, JsonV)>
    decreases s,
{
    if s.len() == 0 {
        Seq::empty()
    } else {
        seq![(s[0].0, spec_json_of_js(s[0].1))] + spec_json_of_js_entries(s.drop_first())
    }
}

/// The engine value rebuilt from a JSON tree.
pub open spec fn spec_js_of_json(j: JsonV) -> JsVal
    decreases j,
{
    match j {
        JsonV::Null => JsVal::Null,
        JsonV::Bool(b) => JsVal::Bool(b),
        JsonV::Num(n) => JsVal::Num(n),
        JsonV::Str(s) => JsVal::Str(s),
        JsonV::Arr(s) => JsVal::Arr(spec_js_of_json_elems(s)),
        JsonV::Obj(entries) => JsVal::Obj(spec_js_of_json_entries(entries)),
    }
}

/// The engine values rebuilt from the elements of a JSON array.
pub open spec fn spec_js_of_json_elems(s: Seq<JsonV>) -> Seq<JsVal>
    decreases s,
{
    if s.len() == 0 {
        Seq::empty()
    } else {
        seq![spec_js_of_json(s[0])] + spec_js_of_json_elems(s.drop_first())
    }
}

/// The engine values rebuilt from the entries of a JSON object.
pub open spec fn spec_js_of_json_entries(s: Seq<(Seq<char>, JsonV)>) -> Seq<(Seq<char>, JsVal)>
    decreases s,
{
    if s.len() == 0 {
        Seq::empty()
    } else {
        seq![(s[0].0, spec_js_of_json(s[0].1))] + spec_js_of_json_entries(s.drop_first())
    }
}

/// `spec_json_of_js_elems` maps `spec_json_of_js` pointwise.
pub broadcast proof fn lemma_spec_json_of_js_elems(s: Seq<JsVal>)
    ensures
        (#[trigger] spec_json_of_js_elems(s)).len() == s.len(),
        forall|i: int|
            0 <= i < s.len() ==> spec_json_of_js_elems(s)[i] == spec_json_of_js(#[trigger] s[i]),
    decreases s,
{
    if s.len() > 0 {
        lemma_spec_json_of_js_elems(s.drop_first());
        assert forall|i: int|
            0 <= i < s.len() implies spec_json_of_js_elems(s)[i] == spec_json_of_js(
            #[trigger] s[i],
        ) by {
            if i > 0 {
                assert(spec_json_of_js_elems(s)[i] == spec_json_of_js_elems(s.drop_first())[i
                    - 1]);
                assert(s.drop_first()[i - 1] == s[i]);
            }
        }
    }
}

/// `spec_json_of_js_entries` maps keys unchanged and values pointwise.
pub broadcast proof fn lemma_spec_json_of_js_entries(s: Seq<(Seq<char>, JsVal)>)
    ensures
        (#[trigger] spec_json_of_js_entries(s)).len() == s.len(),
        forall|i: int|
            0 <= i < s.len() ==> spec_json_of_js_entries(s)[i] == (
                (#[trigger] s[i]).0,
                spec_json_of_js(s[i].1),
            ),
    decreases s,
{
    if s.len() > 0 {
        lemma_spec_json_of_js_entries(s.drop_first());
        assert forall|i: int|
            0 <= i < s.len() implies spec_json_of_js_entries(s)[i] == (
            (#[trigger] s[i]).0,
            spec_json_of_js(s[i].1),
        ) by {
            if i > 0 {
                assert(spec_json_of_js_entries(s)[i] == spec_json_of_js_entries(s.drop_first())[i
                    - 1]);
                assert(s.drop_first()[i - 1] == s[i]);
            }
        }
    }
}

/// `spec_js_of_json_elems` maps `spec_js_of_json` pointwise.
pub broadcast proof fn lemma_spec_js_of_json_elems(s: Seq<JsonV>)
    ensures
        (#[trigger] spec_js_of_json_elems(s)).len() == s.len(),
        forall|i: int|
            0 <= i < s.len() ==> spec_js_of_json_elems(s)[i] == spec_js_of_json(#[trigger] s[i]),
    decreases s,
{
    if s.len() > 0 {
        lemma_spec_js_of_json_elems(s.drop_first());
        assert forall|i: int|
            0 <= i < s.len() implies spec_js_of_json_elems(s)[i] == spec_js_of_json(
            #[trigger] s[i],
        ) by {
            if i > 0 {
                assert(spec_js_of_json_elems(s)[i] == spec_js_of_json_elems(s.drop_first())[i
                    - 1]);
                assert(s.drop_first()[i - 1] == s[i]);
            }
        }
    }
}

/// `spec_js_of_json_entries` maps keys unchanged and values pointwise.
pub broadcast proof fn lemma_spec_js_of_json_entries(s: Seq<(Seq<char>, JsonV)>)
    ensures
        (#[trigger] spec_js_of_json_entries(s)).len() == s.len(),
        forall|i: int|
            0 <= i < s.len() ==> spec_js_of_json_entries(s)[i] == (
                (#[trigger] s[i]).0,
                spec_js_of_json(s[i].1),
            ),
    decreases s,
{
    if s.len() > 0 {
        lemma_spec_js_of_json_entries(s.drop_first());
        assert forall|i: int|
            0 <= i < s.len() implies spec_js_of_json_entries(s)[i] == (
            (#[trigger] s[i]).0,
            spec_js_of_json(s[i].1),
        ) by {
            if i > 0 {
                assert(spec_js_of_json_entries(s)[i] == spec_js_of_json_entries(s.drop_first())[i
                    - 1]);
                assert(s.drop_first()[i - 1] == s[i]);
            }
        }
    }
}

/// Rebuilding an engine value from a JSON tree and converting it back
/// to JSON restores the tree exactly.
pub proof fn lemma_json_js_json(j: JsonV)
    ensures
        spec_json_of_js(spec_js_of_json(j)) == j,
    decreases j,
{
    match j {
        JsonV::Arr(s) => {
            lemma_spec_js_of_json_elems(s);
            lemma_spec_json_of_js_elems(spec_js_of_json_elems(s));
            assert forall|i: int|
                0 <= i < s.len() implies spec_json_of_js_elems(spec_js_of_json_elems(s))[i]
                == #[trigger] s[i] by {
                lemma_json_js_json(s[i]);
            }
            assert(spec_json_of_js_elems(spec_js_of_json_elems(s)) =~= s);
        },
        JsonV::Obj(entries) => {
            lemma_spec_js_of_json_entries(entries);
            lemma_spec_json_of_js_entries(spec_js_of_json_entries(entries));
            assert forall|i: int|
                0 <= i < entries.len() implies spec_json_of_js_entries(
                spec_js_of_json_entries(entries),
            )[i] == #[trigger] entries[i] by {
                lemma_json_js_json(entries[i].1);
            }
            assert(spec_json_of_js_entries(spec_js_of_json_entries(entries)) =~= entries);
        },
        _ => {},
    }
}

/// Convert an engine value into its JSON image, walking arrays by
/// index and objects by their own enumerable properties.
#[verifier::loop_isolation(false)]
pub fn json_of_js(v: &JsValue) -> (r: Json)
    ensures
        r@ == spec_json_of_js(v@),
    decreases v,
{
    match v {
        JsValue::Undefined => Json::Null,
        JsValue::Null => Json::Null,
        JsValue::Bool(b) => Json::Bool(*b),
        JsValue::Num(n) => Json::Num(*n),
        JsValue::Str(s) => Json::Str(s.clone()),
        JsValue::Array(elems) => {
            proof {
                crate::value::lemma_view_elems(elems@);
                lemma_spec_json_of_js_elems(crate::value::view_elems(elems@));
            }
            let ghost vs = crate::value::view_elems(elems@);
            let mut out: Vec<Json> = Vec::new();
            let mut i: usize = 0;
            while i < elems.len()
                invariant
                    i <= elems.len(),
                    out.len() == i,
                    forall|j: int|
                        0 <= j < i ==> #[trigger] out[j]@ == spec_json_of_js(vs[j]),
                decreases elems.len() - i,
            {
                out.push(json_of_js(&elems[i]));
                i = i + 1;
            }
            proof {
                lemma_json_view_elems(out@);
                assert forall|k: int|
                    0 <= k < out@.len() implies json_view_elems(out@)[k]
                    == spec_json_of_js_elems(vs)[k] by {
                    assert(out@[k]@ == spec_json_of_js(vs[k]));
                }
                assert(json_view_elems(out@) =~= spec_json_of_js_elems(vs));
            }
            Json::Arr(out)
        },
        JsValue::Object(entries) => {
            proof {
                crate::value::lemma_view_entries(entries@);
                lemma_spec_json_of_js_entries(crate::value::view_entries(entries@));
            }
            let ghost vs = crate::value::view_entries(entries@);
            let mut out: Vec<(String, Json)> = Vec::new();
            let mut i: usize = 0;
            while i < entries.len()
                invariant
                    i <= entries.len(),
                    out.len() == i,
                    forall|j: int|
                        0 <= j < i ==> out[j].0@ == #[trigger] entries[j].0@ && out[j].1@
                            == spec_json_of_js(entries[j].1@),
                decreases entries.len() - i,
            {
                let key = entries[i].0.clone();
                let val = json_of_js(&entries[i].1);
                proof {
                    assert(key@ == entries@[i as int].0@);
                    assert(val@ == spec_json_of_js(entries@[i as int].1@));
                }
                out.push((key, val));
                i = i + 1;
            }
            proof {
                lemma_json_view_entries(out@);
                assert forall|k: int|
                    0 <= k < out@.len() implies json_view_entries(out@)[k]
                    == spec_json_of_js_entries(vs)[k] by {
                    assert(out@[k].0@ == entries@[k].0@ && out@[k].1@ == spec_json_of_js(
                        entries@[k].1@,
                    ));
                    assert(vs[k] == (entries@[k].0@, entries@[k].1@));
                }
                assert(json_view_entries(out@) =~= spec_json_of_js_entries(vs));
            }
            Json::Obj(out)
        },
    }
}

/// Rebuild an engine value from a JSON tree: an engine array for a
/// JSON array, an engine object with string keys for a JSON object,
/// and the direct engine kind for each leaf.
#[verifier::loop_isolation(false)]
pub fn js_of_json(j: &Json) -> (r: JsValue)
    ensures
        r@ == spec_js_of_json(j@),
    decreases j,
{
    match j {
        Json::Null => JsValue::Null,
        Json::Bool(b) => JsValue::Bool(*b),
        Json::Num(n) => JsValue::Num(*n),
        Json::Str(s) => JsValue::Str(s.clone()),
        Json::Arr(elems) => {
            proof {
                lemma_json_view_elems(elems@);
                lemma_spec_js_of_json_elems(json_view_elems(elems@));
            }
            let ghost vs = json_view_elems(elems@);
            let mut out: Vec<JsValue> = Vec::new();
            let mut i: usize = 0;
            while i < elems.len()
                invariant
                    i <= elems.len(),
                    out.len() == i,
                    forall|j2: int|
                        0 <= j2 < i ==> #[trigger] out[j2]@ == spec_js_of_json(vs[j2]),
                decreases elems.len() - i,
            {
                out.push(js_of_json(&elems[i]));
                i = i + 1;
            }
            proof {
                crate::value::lemma_view_elems(out@);
                assert forall|k: int|
                    0 <= k < out@.len() implies crate::value::view_elems(out@)[k]
                    == spec_js_of_json_elems(vs)[k] by {
                    assert(out@[k]@ == spec_js_of_json(vs[k]));
                }
                assert(crate::value::view_elems(out@) =~= spec_js_of_json_elems(vs));
            }
            JsValue::Array(out)
        },
        Json::Obj(entries) => {
            proof {
                lemma_json_view_entries(entries@);
                lemma_spec_js_of_json_entries(json_view_entries(entries@));
            }
            let ghost vs = json_view_entries(entries@);
            let mut out: Vec<(String, JsValue)> = Vec::new();
            let mut i: usize = 0;
            while i < entries.len()
                invariant
                    i <= entries.len(),
                    out.len() == i,
                    forall|j2: int|
                        0 <= j2 < i ==> out[j2].0@ == #[trigger] entries[j2].0@ && out[j2].1@
                            == spec_js_of_json(entries[j2].1@),
                decreases entries.len() - i,
            {
                let key = entries[i].0.clone();
                let val = js_of_json(&entries[i].1);
                out.push((key, val));
                i = i + 1;
            }
            proof {
                crate::value::lemma_view_entries(out@);
                assert forall|k: int|
                    0 <= k < out@.len() implies crate::value::view_entries(out@)[k]
                    == spec_js_of_json_entries(vs)[k] by {
                    assert(out@[k].0@ == entries@[k].0@ && out@[k].1@ == spec_js_of_json(
                        entries@[k].1@,
                    ));
                    assert(vs[k] == (entries@[k].0@, entries@[k].1@));
                }
                assert(crate::value::view_entries(out@) =~= spec_js_of_json_entries(vs));
            }
            JsValue::Object(out)
        },
    }
}

impl FFICompat for Json {
    type Model = JsonV;

    open spec fn model(&self) -> JsonV {
        self@
    }

    open spec fn spec_decode(v: JsVal) -> Result<JsonV, Seq<char>> {
        Ok(spec_json_of_js(v))
    }

    open spec fn spec_encode(m: JsonV) -> Result<JsVal, Seq<char>> {
        Ok(spec_js_of_json(m))
    }

    open spec fn lossless() -> bool {
        true
    }

    open spec fn strict() -> bool {
        false
    }

    fn from_value(value: &JsValue) -> (r: Result<Self, String>) {
        Ok(json_of_js(value))
    }

    fn to_value(self) -> (r: Result<JsValue, String>) {
        Ok(js_of_json(&self))
    }

    proof fn round_trip(m: JsonV) {
        lemma_json_js_json(m);
    }

    proof fn strict_rejects_nullish(v: JsVal) {
    }
}

/// A native type that maps to and from a JSON tree: the opt-in
/// capability for the JSON object path.  The mapping is the type's own
/// schema logic; `from_json` fails when the tree does not match the
/// schema, for instance when a required field is missing.
///
/// A type implements either this capability or a primitive codec path,
/// never both.
pub trait FFIObject: Sized {
    /// Serialise this value to a JSON tree.
    fn to_json(self) -> Json;

    /// Deserialise a value from a JSON tree, or describe the
    /// structural mismatch.
    fn from_json(j: Json) -> Result<Self, String>;
}

/// Convert an engine value to a JSON-mappable native value: the value
/// is first converted to its JSON image, then handed to the type's
/// schema mapping, whose outcome is returned unchanged.  The result is
/// whatever the schema mapping makes of exactly that image; whether it
/// succeeds is the mapping's decision, for instance failing when a
/// required field is missing.
pub fn decode_object<T: FFIObject>(value: &JsValue) -> (r: Result<T, String>)
    ensures
        exists|j: Json|
            #[trigger] call_ensures(T::from_json, (j,), r) && j@ == spec_json_of_js(value@),
{
    let j = json_of_js(value);
    let ghost jw = j;
    let r = T::from_json(j);
    proof {
        assert(call_ensures(T::from_json, (jw,), r) && jw@ == spec_json_of_js(value@));
    }
    r
}

/// Convert a JSON-mappable native value to an engine value: the value
/// is serialised to its JSON tree by the type's schema mapping, and
/// the engine value is rebuilt from exactly that tree.
pub fn encode_object<T: FFIObject>(x: T) -> (r: JsValue)
    ensures
        exists|jt: Json|
            #[trigger] call_ensures(T::to_json, (x,), jt) && r@ == spec_js_of_json(jt@),
{
    let jt = x.to_json();
    let r = js_of_json(&jt);
    proof {
        assert(call_ensures(T::to_json, (x,), jt) && r@ == spec_js_of_json(jt@));
    }
    r
}

} // verus!
