//! Call adapters: translating an engine-invoked call into a native
//! call.
//!
//! The host registers native functions behind the `NativeFn` /
//! `NativeMethod` traits.  An adapter extracts the call's raw engine
//! values, decodes each parameter through the codec — failing fast on
//! the first error — runs the native body (resolving the receiver
//! through the object wrapper when one is requested), and encodes the
//! return value.  The call ends in a [`CallOutcome`]: a value for the
//! engine's return slot, or an exception with a message.
//! [`complete_call`] delivers that outcome to the engine.

use vstd::prelude::*;

use crate::codec::FFICompat;
use crate::value::JsVal;
use crate::value::JsValue;
use crate::value::lemma_view_elems;
use crate::value::view_elems;
use crate::wrap::Engine;
use crate::wrap::ObjectWrap;
use crate::wrap::spec_resolvable;

verus! {

/// The mathematical shape of a call outcome.
pub enum CallOutcomeV {
    /// A value stored in the engine's return slot.
    Return(JsVal),
    /// An exception raised with a message; no value is returned.
    Threw(Seq<char>),
}

/// How an engine-invoked call ends.
#[derive(Debug, PartialEq, Eq)]
pub enum CallOutcome {
    /// A value stored in the engine's return slot.
    Return(JsValue),
    /// An exception raised with a message; no value is returned.
    Threw(String),
}

impl View for CallOutcome {
    type V = CallOutcomeV;

    open spec fn view(&self) -> CallOutcomeV {
        match self {
            CallOutcome::Return(jv) => CallOutcomeV::Return(jv@),
            CallOutcome::Threw(m) => CallOutcomeV::Threw(m@),
        }
    }
}

/// The message raised when a call's receiver does not resolve to the
/// requested native type.
pub open spec fn msg_invalid_this() -> Seq<char> {
    "invalid 'this' for ffi call"@
}

/// What the adapter does with a native return value: encode it into
/// the return slot, or raise the encode failure as an exception.
pub open spec fn spec_finish<R: FFICompat>(m: R::Model) -> CallOutcomeV {
    match R::spec_encode(m) {
        Ok(j) => CallOutcomeV::Return(j),
        Err(e) => CallOutcomeV::Threw(e),
    }
}

/// Encode a native return value into a call outcome.
pub fn finish_call<R: FFICompat>(ret: R) -> (out: CallOutcome)
    ensures
        out@ == spec_finish::<R>(ret.model()),
{
    match ret.to_value() {
        Ok(jv) => CallOutcome::Return(jv),
        Err(e) => CallOutcome::Threw(e),
    }
}

/// The raw value of a call parameter: the argument the script passed
/// at that position, or undefined beyond the argument list.
pub open spec fn spec_arg(args: Seq<JsVal>, i: int) -> JsVal {
    if 0 <= i < args.len() {
        args[i]
    } else {
        JsVal::Undefined
    }
}

/// Decode one call parameter from the raw argument list.
pub fn decode_arg<A: FFICompat>(args: &Vec<JsValue>, i: usize) -> (r: Result<A, String>)
    ensures
        (match (r, A::spec_decode(spec_arg(view_elems(args@), i as int))) {
            (Ok(x), Ok(m)) => x.model() == m,
            (Err(e), Err(msg)) => e@ == msg,
            _ => false,
        }),
{
    proof {
        lemma_view_elems(args@);
    }
    if i < args.len() {
        A::from_value(&args[i])
    } else {
        A::from_value(&JsValue::Undefined)
    }
}

/// A native function of no parameters, as the host registers it.
pub trait NativeFn0 {
    /// The native return type.
    type Ret: FFICompat;

    /// The native body.
    fn call(&mut self) -> Self::Ret;
}

/// A native function of one parameter.
pub trait NativeFn1 {
    /// The native parameter type.
    type Arg: FFICompat;

    /// The native return type.
    type Ret: FFICompat;

    /// The native body.
    fn call(&mut self, arg: Self::Arg) -> Self::Ret;
}

/// A native function of two parameters.
pub trait NativeFn2 {
    /// The first native parameter type.
    type Arg1: FFICompat;

    /// The second native parameter type.
    type Arg2: FFICompat;

    /// The native return type.
    type Ret: FFICompat;

    /// The native body.
    fn call(&mut self, arg1: Self::Arg1, arg2: Self::Arg2) -> Self::Ret;
}

/// A native method of no further parameters on a wrapped receiver.
pub trait NativeMethod0<T> {
    /// The native return type.
    type Ret: FFICompat;

    /// The native body, given the resolved receiver.
    fn call(&mut self, this: &T) -> Self::Ret;
}

/// Invoke a native function of no parameters: run the body and encode
/// its return value.
pub fn invoke0<F: NativeFn0>(f: &mut F) -> (out: CallOutcome)
    ensures
        exists|rm: <F::Ret as FFICompat>::Model| out@ == spec_finish::<F::Ret>(rm),
{
    let ret = f.call();
    let ghost rm = ret.model();
    let out = finish_call::<F::Ret>(ret);
    proof {
        assert(out@ == spec_finish::<F::Ret>(rm));
    }
    out
}

/// Invoke a native function of one parameter: decode the parameter —
/// raising its error on failure, with the native function untouched —
/// then run the body and encode its return value.
pub fn invoke1<F: NativeFn1>(f: &mut F, args: &Vec<JsValue>) -> (out: CallOutcome)
    ensures
        (match <F::Arg as FFICompat>::spec_decode(spec_arg(view_elems(args@), 0)) {
            Err(m) => out@ == CallOutcomeV::Threw(m) && *final(f) == *old(f),
            Ok(_) => exists|rm: <F::Ret as FFICompat>::Model| out@ == spec_finish::<F::Ret>(rm),
        }),
{
    let arg = match decode_arg::<F::Arg>(args, 0) {
        Ok(x) => x,
        Err(e) => {
            return CallOutcome::Threw(e);
        },
    };
    let ret = f.call(arg);
    let ghost rm = ret.model();
    let out = finish_call::<F::Ret>(ret);
    proof {
        assert(out@ == spec_finish::<F::Ret>(rm));
    }
    out
}

/// Invoke a native function of two parameters: decode each parameter
/// in order, the first failure aborting the call with its error and
/// the native function untouched, then run the body and encode its
/// return value.
pub fn invoke2<F: NativeFn2>(f: &mut F, args: &Vec<JsValue>) -> (out: CallOutcome)
    ensures
        (match (
            <F::Arg1 as FFICompat>::spec_decode(spec_arg(view_elems(args@), 0)),
            <F::Arg2 as FFICompat>::spec_decode(spec_arg(view_elems(args@), 1)),
        ) {
            (Err(m), _) => out@ == CallOutcomeV::Threw(m) && *final(f) == *old(f),
            (Ok(_), Err(m)) => out@ == CallOutcomeV::Threw(m) && *final(f) == *old(f),
            (Ok(_), Ok(_)) => exists|rm: <F::Ret as FFICompat>::Model|
                out@ == spec_finish::<F::Ret>(rm),
        }),
{
    let arg1 = match decode_arg::<F::Arg1>(args, 0) {
        Ok(x) => x,
        Err(e) => {
            return CallOutcome::Threw(e);
        },
    };
    let arg2 = match decode_arg::<F::Arg2>(args, 1) {
        Ok(x) => x,
        Err(e) => {
            return CallOutcome::Threw(e);
        },
    };
    let ret = f.call(arg1, arg2);
    let ghost rm = ret.model();
    let out = finish_call::<F::Ret>(ret);
    proof {
        assert(out@ == spec_finish::<F::Ret>(rm));
    }
    out
}

/// Invoke a native method on a wrapped receiver: resolve the receiver
/// through the object wrapper's type-tag check — raising an exception
/// when it does not resolve, with the native function untouched —
/// then run the body against the payload and encode its return value.
/// The receiver share acquired for the call is released when the call
/// ends, so the engine's payload counts are unchanged.
pub fn invoke_method0<T, F: NativeMethod0<T>>(
    f: &mut F,
    eng: &mut Engine<T>,
    this_obj: usize,
    this_tag: u64,
) -> (out: CallOutcome)
    requires
        old(eng).wf(),
    ensures
        final(eng).wf(),
        final(eng).objects@ == old(eng).objects@,
        final(eng).payloads@ == old(eng).payloads@,
        final(eng).pending_exception == old(eng).pending_exception,
        (if spec_resolvable(old(eng), this_obj, this_tag) {
            exists|rm: <F::Ret as FFICompat>::Model| out@ == spec_finish::<F::Ret>(rm)
        } else {
            out@ == CallOutcomeV::Threw(msg_invalid_this()) && *final(f) == *old(f)
        }),
{
    let this_ref = match ObjectWrap::from_object(eng, this_obj, this_tag) {
        Some(r) => r,
        None => {
            return CallOutcome::Threw(String::from_str("invalid 'this' for ffi call"));
        },
    };
    let ret = f.call(eng.read_ref(&this_ref));
    let ghost rm = ret.model();
    let ghost p = this_ref.idx as int;
    eng.drop_ref(this_ref);
    proof {
        assert forall|i: int|
            0 <= i < old(eng).payloads@.len() implies eng.payloads@[i] == old(eng).payloads@[i] by {
            if i == p {
                assert(eng.payloads@[i].count == old(eng).payloads@[i].count);
                assert(eng.payloads@[i].value == old(eng).payloads@[i].value);
            }
        }
        assert(eng.payloads@ =~= old(eng).payloads@);
    }
    let out = finish_call::<F::Ret>(ret);
    proof {
        assert(out@ == spec_finish::<F::Ret>(rm));
    }
    out
}

/// Deliver a call outcome to the engine: store a returned value in
/// the return slot, or raise the exception on the current scope and
/// leave the return slot untouched.
pub fn complete_call<T>(eng: &mut Engine<T>, out: CallOutcome, rv: &mut Option<JsValue>)
    ensures
        final(eng).objects@ == old(eng).objects@,
        final(eng).payloads@ == old(eng).payloads@,
        (match out {
            CallOutcome::Return(jv) => {
                &&& (*final(rv)) matches Some(v) && v@ == jv@
                &&& final(eng).pending_exception == old(eng).pending_exception
            },
            CallOutcome::Threw(m) => {
                &&& *final(rv) == *old(rv)
                &&& final(eng).pending_exception matches Some(e) && e@ == m@
            },
        }),
{
    match out {
        CallOutcome::Return(jv) => {
            *rv = Some(jv);
        },
        CallOutcome::Threw(m) => {
            eng.throw_exception(m.as_str());
        },
    }
}

/// A native failure result surfaces as a thrown exception carrying
/// the failure's text; nothing reaches the return slot.
pub proof fn lemma_result_error_throws<T: FFICompat>(e: Seq<char>)
    ensures
        spec_finish::<Result<T, String>>(Err(e)) == CallOutcomeV::Threw(e),
{
}

} // verus!
