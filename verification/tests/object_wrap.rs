use js_glue::wrap::Engine;
use js_glue::wrap::ObjectWrap;
use js_glue::wrap::make_object_wrap;
use js_glue::wrap::make_object_wrap_rc;
use js_glue::wrap::type_id_to_u64;

#[test]
fn lifecycle_reclamation() {
    // wrap a payload, take one extra share, let the collector reclaim
    let mut eng: Engine<String> = Engine::new();
    let mut w = make_object_wrap(&mut eng, "payload".to_string());
    assert!(!w.is_empty());
    assert!(!w.is_weak(&eng));
    let extra = w.unwrap(&mut eng).unwrap();
    let before = eng.payloads[extra.idx].count;
    assert_eq!(before, 2);
    w.make_weak(&mut eng);
    assert!(w.is_weak(&eng));
    // simulated engine reclamation: the finalization callback runs
    w.finalize(&mut eng);
    assert!(w.is_empty());
    assert_eq!(w.get(&eng), None);
    assert_eq!(w.unwrap(&mut eng), None);
    // the payload's count went down by exactly one, and the payload
    // survives through the outstanding share
    assert_eq!(eng.payloads[extra.idx].count, before - 1);
    assert_eq!(eng.read_ref(&extra), "payload");
    // releasing the last share destroys the payload
    let idx = extra.idx;
    eng.drop_ref(extra);
    assert_eq!(eng.payloads[idx].count, 0);
    assert!(eng.payloads[idx].value.is_none());
}

#[test]
fn weak_toggle() {
    let mut eng: Engine<String> = Engine::new();
    let mut w = make_object_wrap(&mut eng, "p".to_string());
    assert!(!w.is_weak(&eng));
    w.make_weak(&mut eng);
    assert!(w.is_weak(&eng));
    w.clear_weak(&mut eng);
    assert!(!w.is_weak(&eng));
    // weakness reads false once the wrapper is empty
    w.make_weak(&mut eng);
    w.finalize(&mut eng);
    assert!(!w.is_weak(&eng));
    // the callback is safe to run again on an empty wrapper
    w.finalize(&mut eng);
    assert!(w.is_empty());
}

#[test]
fn type_tag_check() {
    // an object wrapped under one tag, requested under another
    // (non-colliding) tag, yields absent rather than a payload
    let mut eng: Engine<String> = Engine::new();
    let obj = eng.alloc_object(2);
    let tag_a: u64 = 2;
    let tag_b: u64 = 4;
    let _w = ObjectWrap::new(&mut eng, obj, tag_a, "payload".to_string());
    assert!(ObjectWrap::from_object(&mut eng, obj, tag_b).is_none());
    let r = ObjectWrap::from_object(&mut eng, obj, tag_a).unwrap();
    assert_eq!(eng.read_ref(&r), "payload");
    eng.drop_ref(r);
}

#[test]
fn type_tag_fingerprint() {
    // the generic path stamps the payload type's fingerprint, an even
    // value that the same request resolves against
    let mut eng: Engine<String> = Engine::new();
    let w = make_object_wrap(&mut eng, "payload".to_string());
    let obj = w.get(&eng).unwrap();
    let tag = type_id_to_u64::<String>();
    assert_eq!(tag & 1, 0);
    assert_eq!(eng.objects[obj].tag, tag);
    let r = ObjectWrap::from_object(&mut eng, obj, tag).unwrap();
    assert_eq!(eng.read_ref(&r), "payload");
    eng.drop_ref(r);
    // an object without the two reserved slots never resolves
    let plain = eng.alloc_object(0);
    assert!(ObjectWrap::from_object(&mut eng, plain, tag).is_none());
}

#[test]
fn swap_preserves_old_shares() {
    // wrap one payload, keep a share of it, swap in another: the
    // object reflects the new payload while the old share still reads
    // the old value
    let mut eng: Engine<String> = Engine::new();
    let mut w = make_object_wrap(&mut eng, "P1".to_string());
    let r1 = w.unwrap(&mut eng).unwrap();
    let swapped = w.swap(&mut eng, "P2".to_string()).unwrap();
    let obj = w.get(&eng).unwrap();
    let tag = eng.objects[obj].tag;
    let now = ObjectWrap::from_object(&mut eng, obj, tag).unwrap();
    assert_eq!(eng.read_ref(&now), "P2");
    assert_eq!(eng.read_ref(&r1), "P1");
    assert_eq!(eng.read_ref(&swapped), "P1");
    eng.drop_ref(now);
    eng.drop_ref(swapped);
    eng.drop_ref(r1);
}

#[test]
fn detach_leaves_object_unresolvable() {
    // an explicit detach releases the wrapper's share; the engine
    // object stays alive but a resolution then fails the payload
    // liveness check
    let mut eng: Engine<String> = Engine::new();
    let mut w = make_object_wrap(&mut eng, "p".to_string());
    let obj = w.get(&eng).unwrap();
    let tag = eng.objects[obj].tag;
    w.detach(&mut eng);
    assert!(w.is_empty());
    assert!(eng.objects[obj].alive);
    assert!(ObjectWrap::from_object(&mut eng, obj, tag).is_none());
}

#[test]
fn wrap_existing_share() {
    // wrapping an already-shared payload consumes the caller's share
    // without changing the reference count
    let mut eng: Engine<String> = Engine::new();
    let w0 = make_object_wrap(&mut eng, "p".to_string());
    let r = w0.unwrap(&mut eng).unwrap();
    let idx = r.idx;
    assert_eq!(eng.payloads[idx].count, 2);
    let w1 = make_object_wrap_rc(&mut eng, r);
    assert_eq!(eng.payloads[idx].count, 2);
    let r2 = w1.unwrap(&mut eng).unwrap();
    assert_eq!(r2.idx, idx);
    assert_eq!(eng.read_ref(&r2), "p");
    eng.drop_ref(r2);
}
