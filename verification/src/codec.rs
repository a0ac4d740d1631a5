//! The value codec: conversion between native typed values and engine
//! values.
//!
//! Every supported native type implements [`FFICompat`].  Decoding is
//! always fallible, because engine values are dynamically typed; the
//! exact outcome of decoding and encoding is pinned by the spec
//! functions `spec_decode` and `spec_encode`, stated over the
//! mathematical model of the native type ([`FFICompat::Model`]) and of
//! engine values ([`JsVal`]).
//!
//! Conversion rules:
//! * numbers carry a signed 64-bit payload; the sized integer types
//!   narrow and widen by two's-complement truncation, with no range
//!   validation;
//! * `Option` decoding never fails: a value that does not decode as the
//!   inner type yields absent, and encoding absent (or a failed inner
//!   encode) yields null;
//! * `Result` decoding is unsupported and fails unconditionally;
//!   encoding a failure yields an error that the call adapter surfaces
//!   as a thrown exception;
//! * sequences decode from arrays, element by element, the first
//!   element error aborting the whole decode; a non-array decodes as
//!   the empty sequence;
//! * fixed tuples of arity 2 to 5 decode from arrays of exactly the
//!   matching length; a length mismatch is an error naming the arity.

use vstd::prelude::*;

use crate::value::JsVal;
use crate::value::JsValue;

verus! {

/// Decode failure: the engine value was not a string.
pub open spec fn msg_expected_string() -> Seq<char> {
    "invalid type for argument in ffi call, expected string"@
}

/// Decode failure: the engine value was not a number.
pub open spec fn msg_expected_number() -> Seq<char> {
    "invalid type for argument in ffi call, expected number"@
}

/// Decode failure: the engine value was not a boolean.
pub open spec fn msg_expected_boolean() -> Seq<char> {
    "invalid type for argument in ffi call, expected boolean"@
}

/// Decode failure: a result type cannot be decoded from an engine value.
pub open spec fn msg_result_decode() -> Seq<char> {
    "cannot decode a result type in ffi call"@
}

/// How an executable encode result relates to its specification: same
/// success or failure, the value's view agreeing with the specified
/// engine value, the error agreeing with the specified message.
pub open spec fn encode_agrees(r: Result<JsValue, String>, s: Result<JsVal, Seq<char>>) -> bool {
    match (r, s) {
        (Ok(jv), Ok(j)) => jv@ == j,
        (Err(e), Err(msg)) => e@ == msg,
        _ => false,
    }
}

/// A native type that can cross the engine boundary.
///
/// `spec_decode` and `spec_encode` say exactly what `from_value` and
/// `to_value` yield, over the type's mathematical model.  `lossless`
/// marks the types for which decoding inverts encoding; `strict` marks
/// the types whose decode rejects null and undefined.  Both are backed
/// by proof obligations that every implementation discharges.
pub trait FFICompat: Sized {
    /// The mathematical model of a native value of this type.
    type Model;

    /// The model of this value.
    spec fn model(&self) -> Self::Model;

    /// What decoding an engine value as this type yields.
    spec fn spec_decode(v: JsVal) -> Result<Self::Model, Seq<char>>;

    /// What encoding a value of this type yields.
    spec fn spec_encode(m: Self::Model) -> Result<JsVal, Seq<char>>;

    /// Whether decoding inverts encoding for this type.
    spec fn lossless() -> bool;

    /// Whether decoding rejects null and undefined for this type.
    spec fn strict() -> bool;

    /// Convert an engine value to a native value.  The outcome agrees
    /// with `spec_decode`: same success or failure, the value's model
    /// agreeing with the specified model, the error text agreeing with
    /// the specified message.
    fn from_value(value: &JsValue) -> (r: Result<Self, String>)
        ensures
            (match (r, Self::spec_decode(value@)) {
                (Ok(x), Ok(m)) => x.model() == m,
                (Err(e), Err(msg)) => e@ == msg,
                _ => false,
            }),
    ;

    /// Convert a native value to an engine value.
    fn to_value(self) -> (r: Result<JsValue, String>)
        ensures
            encode_agrees(r, Self::spec_encode(self.model())),
    ;

    /// Encoding a model value always succeeds for a lossless type, and
    /// decoding the encoded value yields the model back.
    proof fn round_trip(m: Self::Model)
        requires
            Self::lossless(),
        ensures
            Self::spec_encode(m) matches Ok(j) && Self::spec_decode(j) == Ok::<
                Self::Model,
                Seq<char>,
            >(m),
    ;

    /// A strict type fails to decode null and undefined.
    proof fn strict_rejects_nullish(v: JsVal)
        requires
            Self::strict(),
            v is Null || v is Undefined,
        ensures
            Self::spec_decode(v) is Err,
    ;
}

impl FFICompat for String {
    type Model = Seq<char>;

    open spec fn model(&self) -> Seq<char> {
        self@
    }

    open spec fn spec_decode(v: JsVal) -> Result<Seq<char>, Seq<char>> {
        match v {
            JsVal::Str(s) => Ok(s),
            _ => Err(msg_expected_string()),
        }
    }

    open spec fn spec_encode(m: Seq<char>) -> Result<JsVal, Seq<char>> {
        Ok(JsVal::Str(m))
    }

    open spec fn lossless() -> bool {
        true
    }

    open spec fn strict() -> bool {
        true
    }

    fn from_value(value: &JsValue) -> (r: Result<Self, String>) {
        match value {
            JsValue::Str(s) => Ok(s.clone()),
            _ => Err(String::from_str("invalid type for argument in ffi call, expected string")),
        }
    }

    fn to_value(self) -> (r: Result<JsValue, String>) {
        Ok(JsValue::Str(self))
    }

    proof fn round_trip(m: Seq<char>) {
    }

    proof fn strict_rejects_nullish(v: JsVal) {
    }
}

impl FFICompat for bool {
    type Model = bool;

    open spec fn model(&self) -> bool {
        *self
    }

    open spec fn spec_decode(v: JsVal) -> Result<bool, Seq<char>> {
        match v {
            JsVal::Bool(b) => Ok(b),
            _ => Err(msg_expected_boolean()),
        }
    }

    open spec fn spec_encode(m: bool) -> Result<JsVal, Seq<char>> {
        Ok(JsVal::Bool(m))
    }

    open spec fn lossless() -> bool {
        true
    }

    open spec fn strict() -> bool {
        true
    }

    fn from_value(value: &JsValue) -> (r: Result<Self, String>) {
        match value {
            JsValue::Bool(b) => Ok(*b),
            _ => Err(String::from_str("invalid type for argument in ffi call, expected boolean")),
        }
    }

    fn to_value(self) -> (r: Result<JsValue, String>) {
        Ok(JsValue::Bool(self))
    }

    proof fn round_trip(m: bool) {
    }

    proof fn strict_rejects_nullish(v: JsVal) {
    }
}

impl FFICompat for i64 {
    type Model = i64;

    open spec fn model(&self) -> i64 {
        *self
    }

    open spec fn spec_decode(v: JsVal) -> Result<i64, Seq<char>> {
        match v {
            JsVal::Num(n) => Ok(n),
            _ => Err(msg_expected_number()),
        }
    }

    open spec fn spec_encode(m: i64) -> Result<JsVal, Seq<char>> {
        Ok(JsVal::Num(m))
    }

    open spec fn lossless() -> bool {
        true
    }

    open spec fn strict() -> bool {
        true
    }

    fn from_value(value: &JsValue) -> (r: Result<Self, String>) {
        match value {
            JsValue::Num(n) => Ok(*n),
            _ => Err(String::from_str("invalid type for argument in ffi call, expected number")),
        }
    }

    fn to_value(self) -> (r: Result<JsValue, String>) {
        Ok(JsValue::Num(self))
    }

    proof fn round_trip(m: i64) {
    }

    proof fn strict_rejects_nullish(v: JsVal) {
    }
}

impl FFICompat for () {
    type Model = ();

    open spec fn model(&self) -> () {
        ()
    }

    open spec fn spec_decode(v: JsVal) -> Result<(), Seq<char>> {
        Ok(())
    }

    open spec fn spec_encode(m: ()) -> Result<JsVal, Seq<char>> {
        Ok(JsVal::Undefined)
    }

    open spec fn lossless() -> bool {
        true
    }

    open spec fn strict() -> bool {
        false
    }

    fn from_value(value: &JsValue) -> (r: Result<Self, String>) {
        Ok(())
    }

    fn to_value(self) -> (r: Result<JsValue, String>) {
        Ok(JsValue::Undefined)
    }

    proof fn round_trip(m: ()) {
    }

    proof fn strict_rejects_nullish(v: JsVal) {
    }
}

impl FFICompat for JsValue {
    type Model = JsVal;

    open spec fn model(&self) -> JsVal {
        self@
    }

    open spec fn spec_decode(v: JsVal) -> Result<JsVal, Seq<char>> {
        Ok(v)
    }

    open spec fn spec_encode(m: JsVal) -> Result<JsVal, Seq<char>> {
        Ok(m)
    }

    open spec fn lossless() -> bool {
        true
    }

    open spec fn strict() -> bool {
        false
    }

    fn from_value(value: &JsValue) -> (r: Result<Self, String>) {
        Ok(value.deep_clone())
    }

    fn to_value(self) -> (r: Result<JsValue, String>) {
        Ok(self)
    }

    proof fn round_trip(m: JsVal) {
    }

    proof fn strict_rejects_nullish(v: JsVal) {
    }
}


impl FFICompat for i32 {
    type Model = i32;

    open spec fn model(&self) -> i32 {
        *self
    }

    open spec fn spec_decode(v: JsVal) -> Result<i32, Seq<char>> {
        match v {
            JsVal::Num(n) => Ok(n as i32),
            _ => Err(msg_expected_number()),
        }
    }

    open spec fn spec_encode(m: i32) -> Result<JsVal, Seq<char>> {
        Ok(JsVal::Num(m as i64))
    }

    open spec fn lossless() -> bool {
        true
    }

    open spec fn strict() -> bool {
        true
    }

    fn from_value(value: &JsValue) -> (r: Result<Self, String>) {
        match value {
            JsValue::Num(n) => Ok(*n as i32),
            _ => Err(String::from_str("invalid type for argument in ffi call, expected number")),
        }
    }

    fn to_value(self) -> (r: Result<JsValue, String>) {
        Ok(JsValue::Num(self as i64))
    }

    proof fn round_trip(m: i32) {
        assert((m as i64) as i32 == m) by (bit_vector);
    }

    proof fn strict_rejects_nullish(v: JsVal) {
    }
}

impl FFICompat for u32 {
    type Model = u32;

    open spec fn model(&self) -> u32 {
        *self
    }

    open spec fn spec_decode(v: JsVal) -> Result<u32, Seq<char>> {
        match v {
            JsVal::Num(n) => Ok(n as u32),
            _ => Err(msg_expected_number()),
        }
    }

    open spec fn spec_encode(m: u32) -> Result<JsVal, Seq<char>> {
        Ok(JsVal::Num(m as i64))
    }

    open spec fn lossless() -> bool {
        true
    }

    open spec fn strict() -> bool {
        true
    }

    fn from_value(value: &JsValue) -> (r: Result<Self, String>) {
        match value {
            JsValue::Num(n) => Ok(*n as u32),
            _ => Err(String::from_str("invalid type for argument in ffi call, expected number")),
        }
    }

    fn to_value(self) -> (r: Result<JsValue, String>) {
        Ok(JsValue::Num(self as i64))
    }

    proof fn round_trip(m: u32) {
        assert((m as i64) as u32 == m) by (bit_vector);
    }

    proof fn strict_rejects_nullish(v: JsVal) {
    }
}

impl FFICompat for u64 {
    type Model = u64;

    open spec fn model(&self) -> u64 {
        *self
    }

    open spec fn spec_decode(v: JsVal) -> Result<u64, Seq<char>> {
        match v {
            JsVal::Num(n) => Ok(n as u64),
            _ => Err(msg_expected_number()),
        }
    }

    open spec fn spec_encode(m: u64) -> Result<JsVal, Seq<char>> {
        Ok(JsVal::Num(m as i64))
    }

    open spec fn lossless() -> bool {
        true
    }

    open spec fn strict() -> bool {
        true
    }

    fn from_value(value: &JsValue) -> (r: Result<Self, String>) {
        match value {
            JsValue::Num(n) => Ok(*n as u64),
            _ => Err(String::from_str("invalid type for argument in ffi call, expected number")),
        }
    }

    fn to_value(self) -> (r: Result<JsValue, String>) {
        Ok(JsValue::Num(self as i64))
    }

    proof fn round_trip(m: u64) {
        assert((m as i64) as u64 == m) by (bit_vector);
    }

    proof fn strict_rejects_nullish(v: JsVal) {
    }
}

impl<T: FFICompat> FFICompat for Option<T> {
    type Model = Option<T::Model>;

    open spec fn model(&self) -> Option<T::Model> {
        match self {
            Option::None => None,
            Option::Some(x) => Some(x.model()),
        }
    }

    open spec fn spec_decode(v: JsVal) -> Result<Option<T::Model>, Seq<char>> {
        match T::spec_decode(v) {
            Ok(m) => Ok(Some(m)),
            Err(_) => Ok(None),
        }
    }

    open spec fn spec_encode(m: Option<T::Model>) -> Result<JsVal, Seq<char>> {
        match m {
            Option::None => Ok(JsVal::Null),
            Option::Some(im) => match T::spec_encode(im) {
                Ok(j) => Ok(j),
                Err(_) => Ok(JsVal::Null),
            },
        }
    }

    open spec fn lossless() -> bool {
        T::lossless() && T::strict()
    }

    open spec fn strict() -> bool {
        false
    }

    fn from_value(value: &JsValue) -> (r: Result<Self, String>) {
        match T::from_value(value) {
            Ok(x) => Ok(Some(x)),
            Err(_) => Ok(None),
        }
    }

    fn to_value(self) -> (r: Result<JsValue, String>) {
        match self {
            Option::None => Ok(JsValue::Null),
            Option::Some(x) => match x.to_value() {
                Ok(jv) => Ok(jv),
                Err(_) => Ok(JsValue::Null),
            },
        }
    }

    proof fn round_trip(m: Option<T::Model>) {
        match m {
            Option::None => {
                T::strict_rejects_nullish(JsVal::Null);
            },
            Option::Some(im) => {
                T::round_trip(im);
            },
        }
    }

    proof fn strict_rejects_nullish(v: JsVal) {
    }
}

impl<T: FFICompat> FFICompat for Result<T, String> {
    type Model = Result<T::Model, Seq<char>>;

    open spec fn model(&self) -> Result<T::Model, Seq<char>> {
        match self {
            Result::Ok(x) => Ok(x.model()),
            Result::Err(e) => Err(e@),
        }
    }

    open spec fn spec_decode(v: JsVal) -> Result<Result<T::Model, Seq<char>>, Seq<char>> {
        Err(msg_result_decode())
    }

    open spec fn spec_encode(m: Result<T::Model, Seq<char>>) -> Result<JsVal, Seq<char>> {
        match m {
            Result::Ok(im) => T::spec_encode(im),
            Result::Err(s) => Err(s),
        }
    }

    open spec fn lossless() -> bool {
        false
    }

    open spec fn strict() -> bool {
        true
    }

    fn from_value(value: &JsValue) -> (r: Result<Self, String>) {
        Err(String::from_str("cannot decode a result type in ffi call"))
    }

    fn to_value(self) -> (r: Result<JsValue, String>) {
        match self {
            Result::Ok(x) => x.to_value(),
            Result::Err(e) => Err(e),
        }
    }

    proof fn round_trip(m: Result<T::Model, Seq<char>>) {
    }

    proof fn strict_rejects_nullish(v: JsVal) {
    }
}


/// The models of a sequence of native values, pointwise.
pub open spec fn seq_models<T: FFICompat>(s: Seq<T>) -> Seq<T::Model> {
    Seq::new(s.len(), |i: int| s[i].model())
}

/// What decoding the elements of an array yields: each element decodes
/// independently via `T`, in order, and the first element failure
/// aborts the whole decode with that element's error.
pub open spec fn decode_elems<T: FFICompat>(s: Seq<JsVal>) -> Result<Seq<T::Model>, Seq<char>>
    decreases s.len(),
{
    if s.len() == 0 {
        Ok(Seq::empty())
    } else {
        match T::spec_decode(s[0]) {
            Err(e) => Err(e),
            Ok(m) => match decode_elems::<T>(s.drop_first()) {
                Err(e) => Err(e),
                Ok(rest) => Ok(seq![m] + rest),
            },
        }
    }
}

/// What encoding a sequence of models yields: each element encodes via
/// `T`, in order, and the first element failure aborts the whole
/// encode with that element's error.
pub open spec fn encode_elems<T: FFICompat>(ms: Seq<T::Model>) -> Result<Seq<JsVal>, Seq<char>>
    decreases ms.len(),
{
    if ms.len() == 0 {
        Ok(Seq::empty())
    } else {
        match T::spec_encode(ms[0]) {
            Err(e) => Err(e),
            Ok(j) => match encode_elems::<T>(ms.drop_first()) {
                Err(e) => Err(e),
                Ok(rest) => Ok(seq![j] + rest),
            },
        }
    }
}

/// Element decoding, resolved from a prefix of successful elements: if
/// the first `k` elements decode, the whole decode is determined by
/// what the elements from `k` on do.
pub proof fn lemma_decode_elems_prefix<T: FFICompat>(s: Seq<JsVal>, k: int, ms: Seq<T::Model>)
    requires
        0 <= k <= s.len(),
        ms.len() == k,
        forall|j: int| 0 <= j < k ==> T::spec_decode(s[j]) == Ok::<T::Model, Seq<char>>(ms[j]),
    ensures
        k == s.len() ==> decode_elems::<T>(s) == Ok::<Seq<T::Model>, Seq<char>>(ms),
        forall|e: Seq<char>|
            k < s.len() && T::spec_decode(s[k as int]) == Err::<T::Model, Seq<char>>(e)
                ==> decode_elems::<T>(s) == Err::<Seq<T::Model>, Seq<char>>(e),
    decreases k,
{
    if k == 0 {
        if k == s.len() {
            assert(ms =~= Seq::<T::Model>::empty());
        }
    } else {
        let s2 = s.drop_first();
        let ms2 = ms.drop_first();
        assert forall|j: int| 0 <= j < k - 1 implies T::spec_decode(s2[j]) == Ok::<
            T::Model,
            Seq<char>,
        >(ms2[j]) by {
            assert(s2[j] == s[j + 1]);
            assert(ms2[j] == ms[j + 1]);
        }
        lemma_decode_elems_prefix::<T>(s2, k - 1, ms2);
        assert(T::spec_decode(s[0]) == Ok::<T::Model, Seq<char>>(ms[0]));
        if k == s.len() {
            assert(decode_elems::<T>(s2) == Ok::<Seq<T::Model>, Seq<char>>(ms2));
            assert(seq![ms[0]] + ms2 =~= ms);
        } else {
            assert(s2[k - 1] == s[k as int]);
        }
    }
}

/// Element encoding, resolved from a prefix of successful elements.
pub proof fn lemma_encode_elems_prefix<T: FFICompat>(ms: Seq<T::Model>, k: int, js: Seq<JsVal>)
    requires
        0 <= k <= ms.len(),
        js.len() == k,
        forall|j: int| 0 <= j < k ==> T::spec_encode(ms[j]) == Ok::<JsVal, Seq<char>>(js[j]),
    ensures
        k == ms.len() ==> encode_elems::<T>(ms) == Ok::<Seq<JsVal>, Seq<char>>(js),
        forall|e: Seq<char>|
            k < ms.len() && T::spec_encode(ms[k as int]) == Err::<JsVal, Seq<char>>(e)
                ==> encode_elems::<T>(ms) == Err::<Seq<JsVal>, Seq<char>>(e),
    decreases k,
{
    if k == 0 {
        if k == ms.len() {
            assert(js =~= Seq::<JsVal>::empty());
        }
    } else {
        let ms2 = ms.drop_first();
        let js2 = js.drop_first();
        assert forall|j: int| 0 <= j < k - 1 implies T::spec_encode(ms2[j]) == Ok::<
            JsVal,
            Seq<char>,
        >(js2[j]) by {
            assert(ms2[j] == ms[j + 1]);
            assert(js2[j] == js[j + 1]);
        }
        lemma_encode_elems_prefix::<T>(ms2, k - 1, js2);
        assert(T::spec_encode(ms[0]) == Ok::<JsVal, Seq<char>>(js[0]));
        if k == ms.len() {
            assert(encode_elems::<T>(ms2) == Ok::<Seq<JsVal>, Seq<char>>(js2));
            assert(seq![js[0]] + js2 =~= js);
        } else {
            assert(ms2[k - 1] == ms[k as int]);
        }
    }
}

impl<T: FFICompat> FFICompat for Vec<T> {
    type Model = Seq<T::Model>;

    open spec fn model(&self) -> Seq<T::Model> {
        seq_models(self@)
    }

    open spec fn spec_decode(v: JsVal) -> Result<Seq<T::Model>, Seq<char>> {
        match v {
            JsVal::Arr(s) => decode_elems::<T>(s),
            _ => Ok(Seq::empty()),
        }
    }

    open spec fn spec_encode(m: Seq<T::Model>) -> Result<JsVal, Seq<char>> {
        match encode_elems::<T>(m) {
            Ok(js) => Ok(JsVal::Arr(js)),
            Err(e) => Err(e),
        }
    }

    open spec fn lossless() -> bool {
        T::lossless()
    }

    open spec fn strict() -> bool {
        false
    }

    #[verifier::loop_isolation(false)]
    fn from_value(value: &JsValue) -> (r: Result<Self, String>) {
        match value {
            JsValue::Array(elems) => {
                proof {
                    crate::value::lemma_view_elems(elems@);
                }
                let ghost vs = crate::value::view_elems(elems@);
                let mut out: Vec<T> = Vec::new();
                let mut i: usize = 0;
                while i < elems.len()
                    invariant
                        i <= elems.len(),
                        out.len() == i,
                        forall|j: int|
                            0 <= j < i ==> T::spec_decode(vs[j]) == Ok::<T::Model, Seq<char>>(
                                #[trigger] out[j].model(),
                            ),
                    decreases elems.len() - i,
                {
                    match T::from_value(&elems[i]) {
                        Ok(x) => {
                            out.push(x);
                        },
                        Err(e) => {
                            proof {
                                lemma_decode_elems_prefix::<T>(vs, i as int, seq_models(out@));
                            }
                            return Err(e);
                        },
                    }
                    i = i + 1;
                }
                proof {
                    lemma_decode_elems_prefix::<T>(vs, elems.len() as int, seq_models(out@));
                }
                Ok(out)
            },
            _ => {
                let out: Vec<T> = Vec::new();
                proof {
                    assert(seq_models(out@) =~= Seq::<T::Model>::empty());
                }
                Ok(out)
            },
        }
    }

    #[verifier::loop_isolation(false)]
    fn to_value(self) -> (r: Result<JsValue, String>) {
        let ghost ms = seq_models(self@);
        let mut rest = self;
        let mut out: Vec<JsValue> = Vec::new();
        let ghost n = ms.len();
        while rest.len() > 0
            invariant
                out.len() + rest.len() == n,
                seq_models(rest@) =~= ms.skip(out.len() as int),
                forall|j: int|
                    0 <= j < out.len() ==> T::spec_encode(ms[j]) == Ok::<JsVal, Seq<char>>(
                        #[trigger] out[j]@,
                    ),
            decreases rest.len(),
        {
            let ghost k = out.len() as int;
            let ghost prev = rest@;
            let x = rest.remove(0);
            proof {
                assert(seq_models(prev)[0] == x.model());
                assert(x.model() == ms[k]);
                assert forall|j: int| 0 <= j < rest@.len() implies #[trigger] seq_models(rest@)[j]
                    == ms.skip(k + 1)[j] by {
                    assert(rest@[j] == prev[j + 1]);
                    assert(seq_models(prev)[j + 1] == prev[j + 1].model());
                    assert(ms.skip(k)[j + 1] == ms[k + 1 + j]);
                    assert(ms.skip(k + 1)[j] == ms[k + 1 + j]);
                }
                assert(seq_models(rest@) =~= ms.skip(k + 1));
            }
            match x.to_value() {
                Ok(jv) => {
                    out.push(jv);
                },
                Err(e) => {
                    proof {
                        crate::value::lemma_view_elems(out@);
                        assert forall|j: int|
                            0 <= j < k implies T::spec_encode(ms[j]) == Ok::<JsVal, Seq<char>>(
                            crate::value::view_elems(out@)[j],
                        ) by {
                            assert(crate::value::view_elems(out@)[j] == out@[j]@);
                        }
                        lemma_encode_elems_prefix::<T>(ms, k, crate::value::view_elems(out@));
                    }
                    return Err(e);
                },
            }
        }
        proof {
            crate::value::lemma_view_elems(out@);
            assert forall|j: int|
                0 <= j < n implies T::spec_encode(ms[j]) == Ok::<JsVal, Seq<char>>(
                crate::value::view_elems(out@)[j],
            ) by {
                assert(crate::value::view_elems(out@)[j] == out@[j]@);
            }
            lemma_encode_elems_prefix::<T>(ms, n as int, crate::value::view_elems(out@));
        }
        Ok(JsValue::Array(out))
    }

    proof fn round_trip(m: Seq<T::Model>) {
        lemma_elems_round_trip::<T>(m);
    }

    proof fn strict_rejects_nullish(v: JsVal) {
    }
}

/// Round trip for element sequences: if `T` is lossless, encoding a
/// sequence of models succeeds and decoding the result restores it.
pub proof fn lemma_elems_round_trip<T: FFICompat>(ms: Seq<T::Model>)
    requires
        T::lossless(),
    ensures
        encode_elems::<T>(ms) matches Ok(js) && decode_elems::<T>(js) == Ok::<
            Seq<T::Model>,
            Seq<char>,
        >(ms),
    decreases ms.len(),
{
    if ms.len() == 0 {
        assert(ms =~= Seq::<T::Model>::empty());
        assert(encode_elems::<T>(ms) == Ok::<Seq<JsVal>, Seq<char>>(Seq::empty()));
        assert(decode_elems::<T>(Seq::<JsVal>::empty()) == Ok::<Seq<T::Model>, Seq<char>>(
            Seq::empty(),
        ));
    } else {
        T::round_trip(ms[0]);
        lemma_elems_round_trip::<T>(ms.drop_first());
        let j0 = match T::spec_encode(ms[0]) {
            Ok(j) => j,
            Err(_) => JsVal::Undefined,
        };
        let rest = match encode_elems::<T>(ms.drop_first()) {
            Ok(js) => js,
            Err(_) => Seq::empty(),
        };
        let js = seq![j0] + rest;
        assert(encode_elems::<T>(ms) == Ok::<Seq<JsVal>, Seq<char>>(js));
        assert(js[0] == j0);
        assert(js.drop_first() =~= rest);
        assert(T::spec_decode(js[0]) == Ok::<T::Model, Seq<char>>(ms[0]));
        assert(decode_elems::<T>(js.drop_first()) == Ok::<Seq<T::Model>, Seq<char>>(
            ms.drop_first(),
        ));
        assert(decode_elems::<T>(js) == Ok::<Seq<T::Model>, Seq<char>>(
            seq![ms[0]] + ms.drop_first(),
        ));
        assert(seq![ms[0]] + ms.drop_first() =~= ms);
    }
}


/// Decode failure: a tuple expects an array value.
pub open spec fn msg_tuple_expected_array() -> Seq<char> {
    "expected array for tuple ffi"@
}

/// Decode failure: a tuple of arity 2 expects an array of length 2.
pub open spec fn msg_tuple_arity_2() -> Seq<char> {
    "expected 2-length array for tuple ffi"@
}

/// Decode failure: a tuple of arity 3 expects an array of length 3.
pub open spec fn msg_tuple_arity_3() -> Seq<char> {
    "expected 3-length array for tuple ffi"@
}

/// Decode failure: a tuple of arity 4 expects an array of length 4.
pub open spec fn msg_tuple_arity_4() -> Seq<char> {
    "expected 4-length array for tuple ffi"@
}

/// Decode failure: a tuple of arity 5 expects an array of length 5.
pub open spec fn msg_tuple_arity_5() -> Seq<char> {
    "expected 5-length array for tuple ffi"@
}

impl<A: FFICompat, B: FFICompat> FFICompat for (A, B) {
    type Model = (A::Model, B::Model);

    open spec fn model(&self) -> (A::Model, B::Model) {
        (self.0.model(), self.1.model())
    }

    open spec fn spec_decode(v: JsVal) -> Result<(A::Model, B::Model), Seq<char>> {
        match v {
            JsVal::Arr(s) => if s.len() != 2 {
                Err(msg_tuple_arity_2())
            } else {
                match A::spec_decode(s[0]) {
                        Err(e) => Err(e),
                        Ok(a) => match B::spec_decode(s[1]) {
                        Err(e) => Err(e),
                        Ok(b) => Ok((a, b)),
                    },
                    }
            },
            _ => Err(msg_tuple_expected_array()),
        }
    }

    open spec fn spec_encode(m: (A::Model, B::Model)) -> Result<JsVal, Seq<char>> {
        match A::spec_encode(m.0) {
                Err(e) => Err(e),
                Ok(j0) => match B::spec_encode(m.1) {
                Err(e) => Err(e),
                Ok(j1) => Ok(JsVal::Arr(seq![j0, j1])),
            },
            }
    }

    open spec fn lossless() -> bool {
        A::lossless() && B::lossless()
    }

    open spec fn strict() -> bool {
        true
    }

    fn from_value(value: &JsValue) -> (r: Result<Self, String>) {
        match value {
            JsValue::Array(elems) => {
                proof {
                    crate::value::lemma_view_elems(elems@);
                }
                if elems.len() != 2 {
                    return Err(String::from_str("expected 2-length array for tuple ffi"));
                }
                let v0 = match A::from_value(&elems[0]) {
                    Ok(x) => x,
                    Err(e) => {
                        return Err(e);
                    },
                };
                let v1 = match B::from_value(&elems[1]) {
                    Ok(x) => x,
                    Err(e) => {
                        return Err(e);
                    },
                };
                Ok((v0, v1))
            },
            _ => Err(String::from_str("expected array for tuple ffi")),
        }
    }

    fn to_value(self) -> (r: Result<JsValue, String>) {
        let (x0, x1) = self;
        let j0 = match x0.to_value() {
            Ok(j) => j,
            Err(e) => {
                return Err(e);
            },
        };
        let j1 = match x1.to_value() {
            Ok(j) => j,
            Err(e) => {
                return Err(e);
            },
        };
        let out = vec![j0, j1];
        proof {
            crate::value::lemma_view_elems(out@);
            assert(crate::value::view_elems(out@) =~= seq![j0@, j1@]);
        }
        Ok(JsValue::Array(out))
    }

    proof fn round_trip(m: (A::Model, B::Model)) {
        A::round_trip(m.0);
        B::round_trip(m.1);
        assert((m.0, m.1) == m);
    }

    proof fn strict_rejects_nullish(v: JsVal) {
    }
}

impl<A: FFICompat, B: FFICompat, C: FFICompat> FFICompat for (A, B, C) {
    type Model = (A::Model, B::Model, C::Model);

    open spec fn model(&self) -> (A::Model, B::Model, C::Model) {
        (self.0.model(), self.1.model(), self.2.model())
    }

    open spec fn spec_decode(v: JsVal) -> Result<(A::Model, B::Model, C::Model), Seq<char>> {
        match v {
            JsVal::Arr(s) => if s.len() != 3 {
                Err(msg_tuple_arity_3())
            } else {
                match A::spec_decode(s[0]) {
                        Err(e) => Err(e),
                        Ok(a) => match B::spec_decode(s[1]) {
                        Err(e) => Err(e),
                        Ok(b) => match C::spec_decode(s[2]) {
                        Err(e) => Err(e),
                        Ok(c) => Ok((a, b, c)),
                    },
                    },
                    }
            },
            _ => Err(msg_tuple_expected_array()),
        }
    }

    open spec fn spec_encode(m: (A::Model, B::Model, C::Model)) -> Result<JsVal, Seq<char>> {
        match A::spec_encode(m.0) {
                Err(e) => Err(e),
                Ok(j0) => match B::spec_encode(m.1) {
                Err(e) => Err(e),
                Ok(j1) => match C::spec_encode(m.2) {
                Err(e) => Err(e),
                Ok(j2) => Ok(JsVal::Arr(seq![j0, j1, j2])),
            },
            },
            }
    }

    open spec fn lossless() -> bool {
        A::lossless() && B::lossless() && C::lossless()
    }

    open spec fn strict() -> bool {
        true
    }

    fn from_value(value: &JsValue) -> (r: Result<Self, String>) {
        match value {
            JsValue::Array(elems) => {
                proof {
                    crate::value::lemma_view_elems(elems@);
                }
                if elems.len() != 3 {
                    return Err(String::from_str("expected 3-length array for tuple ffi"));
                }
                let v0 = match A::from_value(&elems[0]) {
                    Ok(x) => x,
                    Err(e) => {
                        return Err(e);
                    },
                };
                let v1 = match B::from_value(&elems[1]) {
                    Ok(x) => x,
                    Err(e) => {
                        return Err(e);
                    },
                };
                let v2 = match C::from_value(&elems[2]) {
                    Ok(x) => x,
                    Err(e) => {
                        return Err(e);
                    },
                };
                Ok((v0, v1, v2))
            },
            _ => Err(String::from_str("expected array for tuple ffi")),
        }
    }

    fn to_value(self) -> (r: Result<JsValue, String>) {
        let (x0, x1, x2) = self;
        let j0 = match x0.to_value() {
            Ok(j) => j,
            Err(e) => {
                return Err(e);
            },
        };
        let j1 = match x1.to_value() {
            Ok(j) => j,
            Err(e) => {
                return Err(e);
            },
        };
        let j2 = match x2.to_value() {
            Ok(j) => j,
            Err(e) => {
                return Err(e);
            },
        };
        let out = vec![j0, j1, j2];
        proof {
            crate::value::lemma_view_elems(out@);
            assert(crate::value::view_elems(out@) =~= seq![j0@, j1@, j2@]);
        }
        Ok(JsValue::Array(out))
    }

    proof fn round_trip(m: (A::Model, B::Model, C::Model)) {
        A::round_trip(m.0);
        B::round_trip(m.1);
        C::round_trip(m.2);
        assert((m.0, m.1, m.2) == m);
    }

    proof fn strict_rejects_nullish(v: JsVal) {
    }
}

impl<A: FFICompat, B: FFICompat, C: FFICompat, D: FFICompat> FFICompat for (A, B, C, D) {
    type Model = (A::Model, B::Model, C::Model, D::Model);

    open spec fn model(&self) -> (A::Model, B::Model, C::Model, D::Model) {
        (self.0.model(), self.1.model(), self.2.model(), self.3.model())
    }

    open spec fn spec_decode(v: JsVal) -> Result<(A::Model, B::Model, C::Model, D::Model), Seq<char>> {
        match v {
            JsVal::Arr(s) => if s.len() != 4 {
                Err(msg_tuple_arity_4())
            } else {
                match A::spec_decode(s[0]) {
                        Err(e) => Err(e),
                        Ok(a) => match B::spec_decode(s[1]) {
                        Err(e) => Err(e),
                        Ok(b) => match C::spec_decode(s[2]) {
                        Err(e) => Err(e),
                        Ok(c) => match D::spec_decode(s[3]) {
                        Err(e) => Err(e),
                        Ok(d) => Ok((a, b, c, d)),
                    },
                    },
                    },
                    }
            },
            _ => Err(msg_tuple_expected_array()),
        }
    }

    open spec fn spec_encode(m: (A::Model, B::Model, C::Model, D::Model)) -> Result<JsVal, Seq<char>> {
        match A::spec_encode(m.0) {
                Err(e) => Err(e),
                Ok(j0) => match B::spec_encode(m.1) {
                Err(e) => Err(e),
                Ok(j1) => match C::spec_encode(m.2) {
                Err(e) => Err(e),
                Ok(j2) => match D::spec_encode(m.3) {
                Err(e) => Err(e),
                Ok(j3) => Ok(JsVal::Arr(seq![j0, j1, j2, j3])),
            },
            },
            },
            }
    }

    open spec fn lossless() -> bool {
        A::lossless() && B::lossless() && C::lossless() && D::lossless()
    }

    open spec fn strict() -> bool {
        true
    }

    fn from_value(value: &JsValue) -> (r: Result<Self, String>) {
        match value {
            JsValue::Array(elems) => {
                proof {
                    crate::value::lemma_view_elems(elems@);
                }
                if elems.len() != 4 {
                    return Err(String::from_str("expected 4-length array for tuple ffi"));
                }
                let v0 = match A::from_value(&elems[0]) {
                    Ok(x) => x,
                    Err(e) => {
                        return Err(e);
                    },
                };
                let v1 = match B::from_value(&elems[1]) {
                    Ok(x) => x,
                    Err(e) => {
                        return Err(e);
                    },
                };
                let v2 = match C::from_value(&elems[2]) {
                    Ok(x) => x,
                    Err(e) => {
                        return Err(e);
                    },
                };
                let v3 = match D::from_value(&elems[3]) {
                    Ok(x) => x,
                    Err(e) => {
                        return Err(e);
                    },
                };
                Ok((v0, v1, v2, v3))
            },
            _ => Err(String::from_str("expected array for tuple ffi")),
        }
    }

    fn to_value(self) -> (r: Result<JsValue, String>) {
        let (x0, x1, x2, x3) = self;
        let j0 = match x0.to_value() {
            Ok(j) => j,
            Err(e) => {
                return Err(e);
            },
        };
        let j1 = match x1.to_value() {
            Ok(j) => j,
            Err(e) => {
                return Err(e);
            },
        };
        let j2 = match x2.to_value() {
            Ok(j) => j,
            Err(e) => {
                return Err(e);
            },
        };
        let j3 = match x3.to_value() {
            Ok(j) => j,
            Err(e) => {
                return Err(e);
            },
        };
        let out = vec![j0, j1, j2, j3];
        proof {
            crate::value::lemma_view_elems(out@);
            assert(crate::value::view_elems(out@) =~= seq![j0@, j1@, j2@, j3@]);
        }
        Ok(JsValue::Array(out))
    }

    proof fn round_trip(m: (A::Model, B::Model, C::Model, D::Model)) {
        A::round_trip(m.0);
        B::round_trip(m.1);
        C::round_trip(m.2);
        D::round_trip(m.3);
        assert((m.0, m.1, m.2, m.3) == m);
    }

    proof fn strict_rejects_nullish(v: JsVal) {
    }
}

impl<A: FFICompat, B: FFICompat, C: FFICompat, D: FFICompat, E: FFICompat> FFICompat for (A, B, C, D, E) {
    type Model = (A::Model, B::Model, C::Model, D::Model, E::Model);

    open spec fn model(&self) -> (A::Model, B::Model, C::Model, D::Model, E::Model) {
        (self.0.model(), self.1.model(), self.2.model(), self.3.model(), self.4.model())
    }

    open spec fn spec_decode(v: JsVal) -> Result<(A::Model, B::Model, C::Model, D::Model, E::Model), Seq<char>> {
        match v {
            JsVal::Arr(s) => if s.len() != 5 {
                Err(msg_tuple_arity_5())
            } else {
                match A::spec_decode(s[0]) {
                        Err(e) => Err(e),
                        Ok(a) => match B::spec_decode(s[1]) {
                        Err(e) => Err(e),
                        Ok(b) => match C::spec_decode(s[2]) {
                        Err(e) => Err(e),
                        Ok(c) => match D::spec_decode(s[3]) {
                        Err(e) => Err(e),
                        Ok(d) => match E::spec_decode(s[4]) {
                        Err(e) => Err(e),
                        Ok(e) => Ok((a, b, c, d, e)),
                    },
                    },
                    },
                    },
                    }
            },
            _ => Err(msg_tuple_expected_array()),
        }
    }

    open spec fn spec_encode(m: (A::Model, B::Model, C::Model, D::Model, E::Model)) -> Result<JsVal, Seq<char>> {
        match A::spec_encode(m.0) {
                Err(e) => Err(e),
                Ok(j0) => match B::spec_encode(m.1) {
                Err(e) => Err(e),
                Ok(j1) => match C::spec_encode(m.2) {
                Err(e) => Err(e),
                Ok(j2) => match D::spec_encode(m.3) {
                Err(e) => Err(e),
                Ok(j3) => match E::spec_encode(m.4) {
                Err(e) => Err(e),
                Ok(j4) => Ok(JsVal::Arr(seq![j0, j1, j2, j3, j4])),
            },
            },
            },
            },
            }
    }

    open spec fn lossless() -> bool {
        A::lossless() && B::lossless() && C::lossless() && D::lossless() && E::lossless()
    }

    open spec fn strict() -> bool {
        true
    }

    fn from_value(value: &JsValue) -> (r: Result<Self, String>) {
        match value {
            JsValue::Array(elems) => {
                proof {
                    crate::value::lemma_view_elems(elems@);
                }
                if elems.len() != 5 {
                    return Err(String::from_str("expected 5-length array for tuple ffi"));
                }
                let v0 = match A::from_value(&elems[0]) {
                    Ok(x) => x,
                    Err(e) => {
                        return Err(e);
                    },
                };
                let v1 = match B::from_value(&elems[1]) {
                    Ok(x) => x,
                    Err(e) => {
                        return Err(e);
                    },
                };
                let v2 = match C::from_value(&elems[2]) {
                    Ok(x) => x,
                    Err(e) => {
                        return Err(e);
                    },
                };
                let v3 = match D::from_value(&elems[3]) {
                    Ok(x) => x,
                    Err(e) => {
                        return Err(e);
                    },
                };
                let v4 = match E::from_value(&elems[4]) {
                    Ok(x) => x,
                    Err(e) => {
                        return Err(e);
                    },
                };
                Ok((v0, v1, v2, v3, v4))
            },
            _ => Err(String::from_str("expected array for tuple ffi")),
        }
    }

    fn to_value(self) -> (r: Result<JsValue, String>) {
        let (x0, x1, x2, x3, x4) = self;
        let j0 = match x0.to_value() {
            Ok(j) => j,
            Err(e) => {
                return Err(e);
            },
        };
        let j1 = match x1.to_value() {
            Ok(j) => j,
            Err(e) => {
                return Err(e);
            },
        };
        let j2 = match x2.to_value() {
            Ok(j) => j,
            Err(e) => {
                return Err(e);
            },
        };
        let j3 = match x3.to_value() {
            Ok(j) => j,
            Err(e) => {
                return Err(e);
            },
        };
        let j4 = match x4.to_value() {
            Ok(j) => j,
            Err(e) => {
                return Err(e);
            },
        };
        let out = vec![j0, j1, j2, j3, j4];
        proof {
            crate::value::lemma_view_elems(out@);
            assert(crate::value::view_elems(out@) =~= seq![j0@, j1@, j2@, j3@, j4@]);
        }
        Ok(JsValue::Array(out))
    }

    proof fn round_trip(m: (A::Model, B::Model, C::Model, D::Model, E::Model)) {
        A::round_trip(m.0);
        B::round_trip(m.1);
        C::round_trip(m.2);
        D::round_trip(m.3);
        E::round_trip(m.4);
        assert((m.0, m.1, m.2, m.3, m.4) == m);
    }

    proof fn strict_rejects_nullish(v: JsVal) {
    }
}


/// Decoding an optional never fails, whatever the engine value: a
/// value that does not decode as the inner type yields absent rather
/// than an error.
pub proof fn lemma_option_decode_total<T: FFICompat>(v: JsVal)
    ensures
        <Option<T> as FFICompat>::spec_decode(v) is Ok,
{
}

/// For an inner type whose decode rejects null and undefined, decoding
/// null or undefined as an optional yields absent, never an error.
pub proof fn lemma_option_nullish_absent<T: FFICompat>(v: JsVal)
    requires
        T::strict(),
        v is Null || v is Undefined,
    ensures
        <Option<T> as FFICompat>::spec_decode(v) == Ok::<Option<T::Model>, Seq<char>>(None),
{
    T::strict_rejects_nullish(v);
}

/// Decoding a non-array value as a sequence yields the empty sequence,
/// not an error.
pub proof fn lemma_sequence_non_array_empty<T: FFICompat>(v: JsVal)
    requires
        !(v is Arr),
    ensures
        <Vec<T> as FFICompat>::spec_decode(v) == Ok::<Seq<T::Model>, Seq<char>>(Seq::empty()),
{
}

/// Decoding a pair checks the arity: an array of length other than 2
/// is an error naming that arity, an array of length 2 decodes each
/// slot independently with the first slot error winning, and a
/// non-array value is an error.
pub proof fn lemma_pair_decode_by_arity<A: FFICompat, B: FFICompat>(v: JsVal)
    ensures
        v matches JsVal::Arr(s) ==> <(A, B) as FFICompat>::spec_decode(v) == (if s.len() != 2 {
            Err(msg_tuple_arity_2())
        } else {
            match (A::spec_decode(s[0]), B::spec_decode(s[1])) {
                (Err(e), _) => Err(e),
                (Ok(_), Err(e)) => Err(e),
                (Ok(a), Ok(b)) => Ok((a, b)),
            }
        }),
        !(v is Arr) ==> <(A, B) as FFICompat>::spec_decode(v) == Err::<
            (A::Model, B::Model),
            Seq<char>,
        >(msg_tuple_expected_array()),
{
}


/// Encoding an optional never fails: absent encodes as null, and an
/// inner encode failure degrades to null as well.
pub proof fn lemma_option_encode_total<T: FFICompat>(m: Option<T::Model>)
    ensures
        <Option<T> as FFICompat>::spec_encode(m) is Ok,
        m is None ==> <Option<T> as FFICompat>::spec_encode(m) == Ok::<JsVal, Seq<char>>(
            JsVal::Null,
        ),
        (m matches Some(im) && T::spec_encode(im) is Err) ==> <Option<T> as FFICompat>::spec_encode(
            m,
        ) == Ok::<JsVal, Seq<char>>(JsVal::Null),
{
}

} // verus!
