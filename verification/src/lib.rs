//! Glue layer between native code and an embedded JavaScript engine.
//!
//! The crate has three parts:
//!
//! * a value codec ([`codec::FFICompat`]) that converts between native
//!   typed values and engine values, covering primitives, optionals,
//!   results, sequences, fixed tuples and JSON-mappable objects;
//! * a native-object wrapper ([`wrap::ObjectWrap`]) that ties a
//!   reference-counted native payload to an engine-side object through a
//!   type-tagged internal slot, and follows the engine's weak-reference
//!   finalization through a three-state lifecycle;
//! * call adapters ([`adapter`]) that turn an engine-invoked call into a
//!   native call by decoding each argument, running the native body, and
//!   encoding the return value or raising an exception.
//!
//! The engine itself is an opaque collaborator.  Engine values that the
//! codec reads are modelled by [`value::JsValue`]; the engine-heap state
//! that the wrapper depends on (objects with internal slots, weak
//! references, reference-counted payloads) is modelled by
//! [`wrap::Engine`].  Host code that embeds a real engine converts at the
//! boundary between the engine's handles and these models.

pub mod adapter;
pub mod codec;
pub mod json;
pub mod value;
pub mod wrap;
