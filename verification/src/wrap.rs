//! The native-object wrapper: binding reference-counted native
//! payloads to engine-side objects.
//!
//! The engine's heap, as far as wrapping is concerned, is modelled by
//! [`Engine`]: a table of objects, each with a fixed number of internal
//! slots (slot 0 holds a type tag, slot 1 a payload reference), a
//! liveness flag and a weakness flag; and a payload store of
//! reference-counted cells, one per wrapped native value.  A
//! [`SharedRef`] is one counted share of such a cell; every share is
//! acquired and released exactly once.
//!
//! An [`ObjectWrap`] follows a three-state lifecycle: live-strong (the
//! engine holds the object strongly, the payload is kept alive),
//! live-weak (the collector may reclaim the object), and empty (the
//! object was reclaimed or the wrapper explicitly detached; the
//! wrapper's payload share has been released and every operation
//! yields absent).
//!
//! After an explicit detach the engine object itself stays alive, and
//! its slots still name the released payload cell.  Resolving such an
//! object fails the cell's liveness check and yields absent instead of
//! reaching freed state.

use vstd::prelude::*;
use vstd::pervasive::VecAdditionalExecFns;

verus! {

/// A reference-counted payload cell: the value is present exactly
/// while some logical owner holds a share.
pub struct PayloadCell<T> {
    /// The payload, present while the reference count is positive.
    pub value: Option<T>,
    /// The number of outstanding logical owners.
    pub count: u64,
}

/// One engine-heap object: its internal slots and collector state.
#[derive(Clone, Copy)]
pub struct ObjRecord {
    /// Whether the engine still holds the object.
    pub alive: bool,
    /// How many internal slots the object reserves for native use.
    pub slot_count: usize,
    /// Slot 0: the type tag stamped when the object was wrapped.
    pub tag: u64,
    /// Slot 1: the payload cell stamped when the object was wrapped.
    pub payload: Option<usize>,
    /// Whether the collector is permitted to reclaim the object.
    pub weak: bool,
}

/// The modelled engine heap: objects with internal slots, the payload
/// store, and the pending-exception slot of the current scope.
pub struct Engine<T> {
    /// The engine-side objects, addressed by index.
    pub objects: Vec<ObjRecord>,
    /// The reference-counted native payloads, addressed by index.
    pub payloads: Vec<PayloadCell<T>>,
    /// The exception raised on the current scope, if any.
    pub pending_exception: Option<String>,
}

/// One counted share of a payload cell.
#[derive(Debug, PartialEq, Eq)]
pub struct SharedRef {
    /// The payload cell this share owns a unit of.
    pub idx: usize,
}

impl<T> Engine<T> {
    /// Well-formedness of the heap model: a payload cell holds a value
    /// exactly while it is owned, and object slots refer into the
    /// payload store.
    pub open spec fn wf(&self) -> bool {
        &&& forall|i: int|
            0 <= i < self.payloads@.len() ==> ((#[trigger] self.payloads@[i]).count > 0
                <==> self.payloads@[i].value is Some)
        &&& forall|i: int|
            0 <= i < self.objects@.len() ==> ((#[trigger] self.objects@[i]).payload matches Some(
                p,
            ) ==> p < self.payloads@.len())
    }

    /// Whether `r` is a live share: its cell exists and is owned.
    pub open spec fn owns(&self, r: SharedRef) -> bool {
        r.idx < self.payloads@.len() && self.payloads@[r.idx as int].count > 0
    }

    /// The value held by the cell of a live share.
    pub open spec fn value_of(&self, r: SharedRef) -> T
        recommends
            self.owns(r),
            self.wf(),
    {
        match self.payloads@[r.idx as int].value {
            Some(v) => v,
            None => arbitrary(),
        }
    }

    /// A fresh engine with no objects, no payloads and no pending
    /// exception.
    pub fn new() -> (eng: Engine<T>)
        ensures
            eng.wf(),
            eng.objects@.len() == 0,
            eng.payloads@.len() == 0,
            eng.pending_exception is None,
    {
        Engine { objects: Vec::new(), payloads: Vec::new(), pending_exception: None }
    }

    /// Allocate a fresh engine object with the given number of
    /// internal slots, as an object template instance would.
    pub fn alloc_object(&mut self, slot_count: usize) -> (obj: usize)
        requires
            old(self).wf(),
        ensures
            final(self).wf(),
            obj == old(self).objects@.len(),
            final(self).objects@ == old(self).objects@.push(
                (ObjRecord {
                    alive: true,
                    slot_count: slot_count,
                    tag: 0,
                    payload: None,
                    weak: false,
                }),
            ),
            final(self).payloads@ == old(self).payloads@,
            final(self).pending_exception == old(self).pending_exception,
    {
        let obj = self.objects.len();
        self.objects.push(
            ObjRecord { alive: true, slot_count, tag: 0, payload: None, weak: false },
        );
        obj
    }

    /// Raise an exception on the current scope, carrying the message.
    pub fn throw_exception(&mut self, message: &str)
        ensures
            final(self).objects@ == old(self).objects@,
            final(self).payloads@ == old(self).payloads@,
            final(self).pending_exception matches Some(m) && m@ == message@,
    {
        self.pending_exception = Some(message.to_owned());
    }

    /// Acquire one more share of a payload cell.
    pub fn clone_ref(&mut self, r: &SharedRef) -> (r2: SharedRef)
        requires
            old(self).wf(),
            old(self).owns(*r),
            old(self).payloads@[r.idx as int].count < u64::MAX,
        ensures
            final(self).wf(),
            r2.idx == r.idx,
            final(self).payloads@ == old(self).payloads@.update(
                r.idx as int,
                (PayloadCell {
                    value: old(self).payloads@[r.idx as int].value,
                    count: (old(self).payloads@[r.idx as int].count + 1) as u64,
                }),
            ),
            final(self).objects@ == old(self).objects@,
            final(self).pending_exception == old(self).pending_exception,
    {
        let cell = &mut self.payloads[r.idx];
        cell.count = cell.count + 1;
        SharedRef { idx: r.idx }
    }

    /// Release one share of a payload cell.  When the last share is
    /// released the payload is destroyed.
    pub fn drop_ref(&mut self, r: SharedRef)
        requires
            old(self).wf(),
            old(self).owns(r),
        ensures
            final(self).wf(),
            final(self).payloads@.len() == old(self).payloads@.len(),
            final(self).payloads@[r.idx as int].count == old(self).payloads@[r.idx as int].count
                - 1,
            old(self).payloads@[r.idx as int].count > 1 ==> final(self).payloads@ == old(self).payloads@.update(
                r.idx as int,
                (PayloadCell {
                    value: old(self).payloads@[r.idx as int].value,
                    count: (old(self).payloads@[r.idx as int].count - 1) as u64,
                }),
            ),
            old(self).payloads@[r.idx as int].count == 1 ==> final(self).payloads@ == old(self).payloads@.update(r.idx as int, (PayloadCell { value: None, count: 0 })),
            final(self).objects@ == old(self).objects@,
            final(self).pending_exception == old(self).pending_exception,
    {
        let cell = &mut self.payloads[r.idx];
        cell.count = cell.count - 1;
        if cell.count == 0 {
            cell.value = None;
        }
    }

    /// Read the payload through a live share.
    pub fn read_ref(&self, r: &SharedRef) -> (v: &T)
        requires
            self.wf(),
            self.owns(*r),
        ensures
            *v == self.value_of(*r),
    {
        match &self.payloads[r.idx].value {
            Some(v) => v,
            None => unreached(),
        }
    }
}

/// Whether an object can be resolved for a given type tag: it exists,
/// is alive, reserves exactly two internal slots, carries the expected
/// tag in slot 0, and slot 1 names a payload cell that is still owned
/// (and whose count has room for one more share).
pub open spec fn spec_resolvable<T>(eng: &Engine<T>, obj: usize, expected_tag: u64) -> bool {
    &&& obj < eng.objects@.len()
    &&& eng.objects@[obj as int].alive
    &&& eng.objects@[obj as int].slot_count == 2
    &&& eng.objects@[obj as int].tag == expected_tag
    &&& (match eng.objects@[obj as int].payload {
        Some(p) => p < eng.payloads@.len() && eng.payloads@[p as int].count > 0
            && eng.payloads@[p as int].count < u64::MAX,
        None => false,
    })
}

/// The native-side handle to a wrapped object.
///
/// While live, the wrapper owns one share of the payload cell named by
/// the object's slot 1, and is registered with the engine's
/// weak-reference machinery so the finalization callback can reach it.
pub struct ObjectWrap {
    /// The engine object, while the wrapper is live.
    pub handle: Option<usize>,
    /// The payload cell the wrapper owns a share of, while live.
    pub wrapping: Option<usize>,
    /// Whether the weak-callback registration holds the wrapper.
    pub registered: bool,
}

impl ObjectWrap {
    /// Whether the wrapper is in a live state (strong or weak).
    pub open spec fn spec_live(&self) -> bool {
        self.handle is Some
    }

    /// The wrapped engine object, meaningful while live.
    pub open spec fn spec_obj(&self) -> usize {
        match self.handle {
            Some(h) => h,
            None => 0,
        }
    }

    /// The owned payload cell, meaningful while live.
    pub open spec fn spec_payload(&self) -> usize {
        match self.wrapping {
            Some(p) => p,
            None => 0,
        }
    }

    /// Well-formedness against the engine: a live wrapper names a
    /// live two-slot object whose slot 1 agrees with the wrapper's
    /// owned payload cell, and is registered for finalization; an
    /// empty wrapper names nothing and is unregistered.
    pub open spec fn wf<T>(&self, eng: &Engine<T>) -> bool {
        match (self.handle, self.wrapping) {
            (Some(h), Some(p)) => {
                &&& h < eng.objects@.len()
                &&& eng.objects@[h as int].alive
                &&& eng.objects@[h as int].slot_count == 2
                &&& eng.objects@[h as int].payload == Some(p)
                &&& p < eng.payloads@.len()
                &&& eng.payloads@[p as int].count > 0
                &&& self.registered
            },
            (None, None) => !self.registered,
            _ => false,
        }
    }

    /// Wrap a fresh payload onto an engine object that reserves two
    /// internal slots: stamp slot 0 with the type tag, store the
    /// payload reference in slot 1, and register the wrapper with the
    /// weak-reference machinery.  The wrapper starts live-strong and
    /// the payload cell starts with the wrapper's single share.
    pub fn new<T>(eng: &mut Engine<T>, obj: usize, tag: u64, wrap: T) -> (w: ObjectWrap)
        requires
            old(eng).wf(),
            obj < old(eng).objects@.len(),
            old(eng).objects@[obj as int].alive,
            old(eng).objects@[obj as int].slot_count == 2,
        ensures
            final(eng).wf(),
            w.wf(final(eng)),
            w.handle == Some(obj),
            w.wrapping matches Some(p) && p == old(eng).payloads@.len(),
            w.registered,
            final(eng).payloads@ == old(eng).payloads@.push(
                (PayloadCell { value: Some(wrap), count: 1 }),
            ),
            final(eng).objects@ == old(eng).objects@.update(
                obj as int,
                (ObjRecord {
                    alive: true,
                    slot_count: 2,
                    tag: tag,
                    payload: Some(old(eng).payloads@.len() as usize),
                    weak: false,
                }),
            ),
            final(eng).pending_exception == old(eng).pending_exception,
            !final(eng).objects@[obj as int].weak,
    {
        let p = eng.payloads.len();
        eng.payloads.push(PayloadCell { value: Some(wrap), count: 1 });
        eng.objects.set(
            obj,
            ObjRecord { alive: true, slot_count: 2, tag, payload: Some(p), weak: false },
        );
        ObjectWrap { handle: Some(obj), wrapping: Some(p), registered: true }
    }

    /// Wrap an already-shared payload onto an engine object.  The
    /// caller's share is consumed: its unit of ownership transfers to
    /// the wrapper, so no reference count changes.
    pub fn new_rc<T>(eng: &mut Engine<T>, obj: usize, tag: u64, wrap: SharedRef) -> (w: ObjectWrap)
        requires
            old(eng).wf(),
            obj < old(eng).objects@.len(),
            old(eng).objects@[obj as int].alive,
            old(eng).objects@[obj as int].slot_count == 2,
            old(eng).owns(wrap),
        ensures
            final(eng).wf(),
            w.wf(final(eng)),
            w.handle == Some(obj),
            w.wrapping == Some(wrap.idx),
            w.registered,
            final(eng).payloads@ == old(eng).payloads@,
            final(eng).objects@ == old(eng).objects@.update(
                obj as int,
                (ObjRecord {
                    alive: true,
                    slot_count: 2,
                    tag: tag,
                    payload: Some(wrap.idx),
                    weak: false,
                }),
            ),
            final(eng).pending_exception == old(eng).pending_exception,
    {
        eng.objects.set(
            obj,
            ObjRecord { alive: true, slot_count: 2, tag, payload: Some(wrap.idx), weak: false },
        );
        ObjectWrap { handle: Some(obj), wrapping: Some(wrap.idx), registered: true }
    }

    /// Resolve an arbitrary engine object to a payload share, checking
    /// the slot count, the type tag in slot 0, and the liveness of the
    /// payload cell named by slot 1.  On a match, a new share is
    /// acquired (a borrow-and-clone, not a move); otherwise absent.
    pub fn from_object<T>(eng: &mut Engine<T>, obj: usize, expected_tag: u64) -> (r: Option<
        SharedRef,
    >)
        requires
            old(eng).wf(),
        ensures
            final(eng).wf(),
            final(eng).objects@ == old(eng).objects@,
            final(eng).pending_exception == old(eng).pending_exception,
            r is Some <==> spec_resolvable(old(eng), obj, expected_tag),
            (match r {
                Some(s) => {
                    &&& old(eng).objects@[obj as int].payload == Some(s.idx)
                    &&& final(eng).owns(s)
                    &&& final(eng).payloads@ == old(eng).payloads@.update(
                        s.idx as int,
                        (PayloadCell {
                            value: old(eng).payloads@[s.idx as int].value,
                            count: (old(eng).payloads@[s.idx as int].count + 1) as u64,
                        }),
                    )
                },
                None => final(eng).payloads@ == old(eng).payloads@,
            }),
    {
        if obj >= eng.objects.len() {
            return None;
        }
        let rec = eng.objects[obj];
        if !rec.alive || rec.slot_count != 2 || rec.tag != expected_tag {
            return None;
        }
        match rec.payload {
            None => None,
            Some(p) => {
                let count = eng.payloads[p].count;
                if count == 0 || count == u64::MAX {
                    return None;
                }
                let cell = &mut eng.payloads[p];
                cell.count = cell.count + 1;
                Some(SharedRef { idx: p })
            },
        }
    }

    /// The engine object this wrapper represents, if still live.
    pub fn get<T>(&self, eng: &Engine<T>) -> (r: Option<usize>)
        requires
            eng.wf(),
            self.wf(eng),
        ensures
            r == (if self.spec_live() {
                Some(self.spec_obj())
            } else {
                None::<usize>
            }),
    {
        match self.handle {
            Some(h) => Some(h),
            None => None,
        }
    }

    /// Acquire a share of the wrapped payload, if the wrapper is
    /// live; absent once it is empty.
    pub fn unwrap<T>(&self, eng: &mut Engine<T>) -> (r: Option<SharedRef>)
        requires
            old(eng).wf(),
            self.wf(old(eng)),
            self.spec_live() ==> old(eng).payloads@[self.spec_payload() as int].count < u64::MAX,
        ensures
            final(eng).wf(),
            self.wf(final(eng)),
            final(eng).objects@ == old(eng).objects@,
            final(eng).pending_exception == old(eng).pending_exception,
            !self.spec_live() ==> r is None && final(eng).payloads@ == old(eng).payloads@,
            self.spec_live() ==> (match r {
                Some(s) => {
                    &&& s.idx == self.spec_payload()
                    &&& final(eng).owns(s)
                    &&& final(eng).value_of(s) == old(eng).value_of(s)
                    &&& final(eng).payloads@ == old(eng).payloads@.update(
                        s.idx as int,
                        (PayloadCell {
                            value: old(eng).payloads@[s.idx as int].value,
                            count: (old(eng).payloads@[s.idx as int].count + 1) as u64,
                        }),
                    )
                },
                None => false,
            }),
    {
        match self.handle {
            None => None,
            Some(h) => {
                let rec = eng.objects[h];
                match rec.payload {
                    Some(p) => {
                        let cell = &mut eng.payloads[p];
                        cell.count = cell.count + 1;
                        Some(SharedRef { idx: p })
                    },
                    None => unreached(),
                }
            },
        }
    }

    /// Replace the wrapped payload with a fresh one, returning the
    /// previous payload as a still-valid share: the unit of ownership
    /// the wrapper held on the old payload moves to the returned
    /// share, so holders of earlier shares remain valid and the old
    /// payload's count is unchanged.
    pub fn swap<T>(&mut self, eng: &mut Engine<T>, wrap: T) -> (r: Option<SharedRef>)
        requires
            old(eng).wf(),
            old(self).wf(old(eng)),
        ensures
            final(eng).wf(),
            final(self).wf(final(eng)),
            final(eng).pending_exception == old(eng).pending_exception,
            !old(self).spec_live() ==> r is None && *final(self) == *old(self) && final(eng).objects@ == old(eng).objects@ && final(eng).payloads@ == old(eng).payloads@,
            old(self).spec_live() ==> (match r {
                Some(s) => {
                    &&& s.idx == old(self).spec_payload()
                    &&& final(eng).owns(s)
                    &&& final(eng).value_of(s) == old(eng).value_of(s)
                    &&& final(eng).payloads@ == old(eng).payloads@.push(
                        (PayloadCell { value: Some(wrap), count: 1 }),
                    )
                    &&& final(self).handle == old(self).handle
                    &&& final(self).wrapping matches Some(p2) && p2 == old(eng).payloads@.len()
                    &&& final(self).registered
                    &&& final(eng).objects@ == old(eng).objects@.update(
                        old(self).spec_obj() as int,
                        (ObjRecord {
                            alive: true,
                            slot_count: 2,
                            tag: old(eng).objects@[old(self).spec_obj() as int].tag,
                            payload: Some(old(eng).payloads@.len() as usize),
                            weak: old(eng).objects@[old(self).spec_obj() as int].weak,
                        }),
                    )
                },
                None => false,
            }),
    {
        match self.handle {
            None => None,
            Some(h) => {
                let rec = eng.objects[h];
                match rec.payload {
                    Some(p) => {
                        let p2 = eng.payloads.len();
                        eng.payloads.push(PayloadCell { value: Some(wrap), count: 1 });
                        eng.objects.set(
                            h,
                            ObjRecord {
                                alive: rec.alive,
                                slot_count: rec.slot_count,
                                tag: rec.tag,
                                payload: Some(p2),
                                weak: rec.weak,
                            },
                        );
                        self.wrapping = Some(p2);
                        Some(SharedRef { idx: p })
                    },
                    None => unreached(),
                }
            },
        }
    }

    /// Permit the collector to reclaim the wrapped object.  A no-op
    /// once the wrapper is empty.
    pub fn make_weak<T>(&mut self, eng: &mut Engine<T>)
        requires
            old(eng).wf(),
            old(self).wf(old(eng)),
        ensures
            final(eng).wf(),
            final(self).wf(final(eng)),
            *final(self) == *old(self),
            final(eng).payloads@ == old(eng).payloads@,
            final(eng).pending_exception == old(eng).pending_exception,
            !old(self).spec_live() ==> final(eng).objects@ == old(eng).objects@,
            old(self).spec_live() ==> final(eng).objects@ == old(eng).objects@.update(
                old(self).spec_obj() as int,
                (ObjRecord {
                    alive: true,
                    slot_count: 2,
                    tag: old(eng).objects@[old(self).spec_obj() as int].tag,
                    payload: old(eng).objects@[old(self).spec_obj() as int].payload,
                    weak: true,
                }),
            ),
    {
        match self.handle {
            None => {},
            Some(h) => {
                let rec = eng.objects[h];
                eng.objects.set(
                    h,
                    ObjRecord {
                        alive: rec.alive,
                        slot_count: rec.slot_count,
                        tag: rec.tag,
                        payload: rec.payload,
                        weak: true,
                    },
                );
            },
        }
    }

    /// Whether the collector is permitted to reclaim the wrapped
    /// object; false once the wrapper is empty.
    pub fn is_weak<T>(&self, eng: &Engine<T>) -> (r: bool)
        requires
            eng.wf(),
            self.wf(eng),
        ensures
            r == (self.spec_live() && eng.objects@[self.spec_obj() as int].weak),
    {
        match self.handle {
            None => false,
            Some(h) => eng.objects[h].weak,
        }
    }

    /// Re-establish a strong root: forbid the collector to reclaim
    /// the wrapped object.  A no-op once the wrapper is empty.
    pub fn clear_weak<T>(&mut self, eng: &mut Engine<T>)
        requires
            old(eng).wf(),
            old(self).wf(old(eng)),
        ensures
            final(eng).wf(),
            final(self).wf(final(eng)),
            *final(self) == *old(self),
            final(eng).payloads@ == old(eng).payloads@,
            final(eng).pending_exception == old(eng).pending_exception,
            !old(self).spec_live() ==> final(eng).objects@ == old(eng).objects@,
            old(self).spec_live() ==> final(eng).objects@ == old(eng).objects@.update(
                old(self).spec_obj() as int,
                (ObjRecord {
                    alive: true,
                    slot_count: 2,
                    tag: old(eng).objects@[old(self).spec_obj() as int].tag,
                    payload: old(eng).objects@[old(self).spec_obj() as int].payload,
                    weak: false,
                }),
            ),
    {
        match self.handle {
            None => {},
            Some(h) => {
                let rec = eng.objects[h];
                eng.objects.set(
                    h,
                    ObjRecord {
                        alive: rec.alive,
                        slot_count: rec.slot_count,
                        tag: rec.tag,
                        payload: rec.payload,
                        weak: false,
                    },
                );
            },
        }
    }

    /// Whether the wrapped object has been reclaimed or detached.
    pub fn is_empty(&self) -> (r: bool)
        ensures
            r == !self.spec_live(),
    {
        match self.handle {
            None => true,
            Some(_) => false,
        }
    }

    /// The finalization callback, run when the collector reclaims the
    /// wrapped object: release the handle, release the wrapper's
    /// payload share — decrementing the payload's reference count
    /// exactly once, destroying the payload if it was the last share —
    /// and release the registration.  The wrapper is empty afterwards.
    /// Safe to run on an already-empty wrapper, where it does nothing.
    pub fn finalize<T>(&mut self, eng: &mut Engine<T>)
        requires
            old(eng).wf(),
            old(self).wf(old(eng)),
            old(self).spec_live() ==> old(eng).objects@[old(self).spec_obj() as int].weak,
        ensures
            final(eng).wf(),
            final(self).wf(final(eng)),
            !final(self).spec_live(),
            final(self).handle is None,
            final(self).wrapping is None,
            !final(self).registered,
            final(eng).pending_exception == old(eng).pending_exception,
            !old(self).spec_live() ==> final(eng).objects@ == old(eng).objects@ && final(eng).payloads@ == old(eng).payloads@,
            old(self).spec_live() ==> final(eng).objects@ == old(eng).objects@.update(
                old(self).spec_obj() as int,
                (ObjRecord {
                    alive: false,
                    slot_count: 2,
                    tag: old(eng).objects@[old(self).spec_obj() as int].tag,
                    payload: None,
                    weak: true,
                }),
            ),
            old(self).spec_live() ==> {
                &&& final(eng).payloads@.len() == old(eng).payloads@.len()
                &&& final(eng).payloads@[old(self).spec_payload() as int].count == old(eng).payloads@[old(self).spec_payload() as int].count - 1
                &&& forall|i: int|
                    0 <= i < old(eng).payloads@.len() && i != old(self).spec_payload() as int
                        ==> final(eng).payloads@[i] == old(eng).payloads@[i]
                &&& (old(eng).payloads@[old(self).spec_payload() as int].count == 1 ==> final(eng).payloads@[old(self).spec_payload() as int].value is None)
                &&& (old(eng).payloads@[old(self).spec_payload() as int].count > 1 ==> final(eng).payloads@[old(self).spec_payload() as int].value == old(eng).payloads@[old(self).spec_payload() as int].value)
            },
    {
        match (self.handle, self.wrapping) {
            (Some(h), Some(p)) => {
                let rec = eng.objects[h];
                eng.objects.set(
                    h,
                    ObjRecord {
                        alive: false,
                        slot_count: rec.slot_count,
                        tag: rec.tag,
                        payload: None,
                        weak: rec.weak,
                    },
                );
                self.handle = None;
                self.wrapping = None;
                self.registered = false;
                eng.drop_ref(SharedRef { idx: p });
            },
            _ => {
                self.handle = None;
                self.wrapping = None;
                self.registered = false;
            },
        }
    }

    /// Explicitly detach the wrapper while the engine object is still
    /// valid: clear any weakness, release the handle and the
    /// wrapper's payload share.  The engine object itself stays
    /// alive, its slots still naming the released payload cell, so a
    /// later resolution fails the liveness check and yields absent.
    /// A no-op once the wrapper is empty.
    pub fn detach<T>(&mut self, eng: &mut Engine<T>)
        requires
            old(eng).wf(),
            old(self).wf(old(eng)),
        ensures
            final(eng).wf(),
            final(self).wf(final(eng)),
            !final(self).spec_live(),
            final(self).handle is None,
            final(self).wrapping is None,
            !final(self).registered,
            final(eng).pending_exception == old(eng).pending_exception,
            !old(self).spec_live() ==> final(eng).objects@ == old(eng).objects@ && final(eng).payloads@ == old(eng).payloads@,
            old(self).spec_live() ==> {
                &&& final(eng).objects@ == old(eng).objects@.update(
                    old(self).spec_obj() as int,
                    (ObjRecord {
                        alive: true,
                        slot_count: 2,
                        tag: old(eng).objects@[old(self).spec_obj() as int].tag,
                        payload: old(eng).objects@[old(self).spec_obj() as int].payload,
                        weak: false,
                    }),
                )
                &&& final(eng).payloads@.len() == old(eng).payloads@.len()
                &&& final(eng).payloads@[old(self).spec_payload() as int].count == old(eng).payloads@[old(self).spec_payload() as int].count - 1
                &&& forall|i: int|
                    0 <= i < old(eng).payloads@.len() && i != old(self).spec_payload() as int
                        ==> final(eng).payloads@[i] == old(eng).payloads@[i]
                &&& (old(eng).payloads@[old(self).spec_payload() as int].count == 1 ==> final(eng).payloads@[old(self).spec_payload() as int].value is None)
                &&& (old(eng).payloads@[old(self).spec_payload() as int].count > 1 ==> final(eng).payloads@[old(self).spec_payload() as int].value == old(eng).payloads@[old(self).spec_payload() as int].value)
            },
    {
        match (self.handle, self.wrapping) {
            (Some(h), Some(p)) => {
                let rec = eng.objects[h];
                eng.objects.set(
                    h,
                    ObjRecord {
                        alive: rec.alive,
                        slot_count: rec.slot_count,
                        tag: rec.tag,
                        payload: rec.payload,
                        weak: false,
                    },
                );
                self.handle = None;
                self.wrapping = None;
                self.registered = false;
                eng.drop_ref(SharedRef { idx: p });
            },
            _ => {
                self.handle = None;
                self.wrapping = None;
                self.registered = false;
            },
        }
    }
}

/// Resolving an object for a tag other than the one stamped on it
/// yields absent: the request is not resolvable, whatever the
/// payload's state.
pub proof fn lemma_tag_mismatch_absent<T>(eng: &Engine<T>, obj: usize, expected_tag: u64)
    requires
        obj < eng.objects@.len() ==> eng.objects@[obj as int].tag != expected_tag,
    ensures
        !spec_resolvable(eng, obj, expected_tag),
{
}


/// Relies on std's `TypeId` for a native type's identity and
/// `DefaultHasher` for its fingerprint.  Nothing is assumed of the
/// value — it varies between builds — so resolution contracts go
/// through the tag actually stamped on the object.
#[verifier::external_body]
fn raw_type_fingerprint<T: 'static>() -> (r: u64) {
    let mut hasher = std::collections::hash_map::DefaultHasher::new();
    std::hash::Hash::hash(&std::any::TypeId::of::<T>(), &mut hasher);
    std::hash::Hasher::finish(&hasher)
}

/// A fingerprint of a native type's identity, used as the type tag in
/// slot 0 of wrapped objects: the type's hashed identity, with the
/// low bit cleared so the tag satisfies the two-byte alignment that
/// engines expect of raw internal-slot values.
pub fn type_id_to_u64<T: 'static>() -> (r: u64)
    ensures
        r & 1 == 0,
{
    let raw = raw_type_fingerprint::<T>();
    let tag = raw & 0xffff_ffff_ffff_fffe_u64;
    proof {
        assert((raw & 0xffff_ffff_ffff_fffe_u64) & 1 == 0) by (bit_vector);
    }
    tag
}

/// Allocate a fresh engine object with two internal slots and wrap a
/// fresh payload onto it, tagged with the payload type's fingerprint.
pub fn make_object_wrap<T: 'static>(eng: &mut Engine<T>, wrap: T) -> (w: ObjectWrap)
    requires
        old(eng).wf(),
    ensures
        final(eng).wf(),
        w.wf(final(eng)),
        w.handle matches Some(h) && h == old(eng).objects@.len(),
        w.wrapping matches Some(p) && p == old(eng).payloads@.len(),
        final(eng).payloads@ == old(eng).payloads@.push(
            (PayloadCell { value: Some(wrap), count: 1 }),
        ),
        final(eng).objects@.len() == old(eng).objects@.len() + 1,
        forall|i: int|
            0 <= i < old(eng).objects@.len() ==> final(eng).objects@[i] == old(eng).objects@[i],
        final(eng).objects@[w.spec_obj() as int].alive,
        final(eng).objects@[w.spec_obj() as int].slot_count == 2,
        final(eng).objects@[w.spec_obj() as int].payload == w.wrapping,
        !final(eng).objects@[w.spec_obj() as int].weak,
        final(eng).objects@[w.spec_obj() as int].tag & 1 == 0,
        final(eng).pending_exception == old(eng).pending_exception,
{
    let obj = eng.alloc_object(2);
    let tag = type_id_to_u64::<T>();
    ObjectWrap::new(eng, obj, tag, wrap)
}

/// Allocate a fresh engine object with two internal slots and wrap an
/// already-shared payload onto it, consuming the caller's share.
pub fn make_object_wrap_rc<T: 'static>(eng: &mut Engine<T>, wrap: SharedRef) -> (w: ObjectWrap)
    requires
        old(eng).wf(),
        old(eng).owns(wrap),
    ensures
        final(eng).wf(),
        w.wf(final(eng)),
        w.handle matches Some(h) && h == old(eng).objects@.len(),
        w.wrapping == Some(wrap.idx),
        final(eng).payloads@ == old(eng).payloads@,
        final(eng).objects@.len() == old(eng).objects@.len() + 1,
        forall|i: int|
            0 <= i < old(eng).objects@.len() ==> final(eng).objects@[i] == old(eng).objects@[i],
        final(eng).objects@[w.spec_obj() as int].alive,
        final(eng).objects@[w.spec_obj() as int].slot_count == 2,
        final(eng).objects@[w.spec_obj() as int].payload == Some(wrap.idx),
        !final(eng).objects@[w.spec_obj() as int].weak,
        final(eng).objects@[w.spec_obj() as int].tag & 1 == 0,
        final(eng).pending_exception == old(eng).pending_exception,
{
    let obj = eng.alloc_object(2);
    let tag = type_id_to_u64::<T>();
    ObjectWrap::new_rc(eng, obj, tag, wrap)
}

} // verus!
