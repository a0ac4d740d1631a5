use js_glue::adapter::CallOutcome;
use js_glue::adapter::NativeFn0;
use js_glue::adapter::NativeFn1;
use js_glue::adapter::NativeMethod0;
use js_glue::adapter::complete_call;
use js_glue::adapter::finish_call;
use js_glue::adapter::invoke0;
use js_glue::adapter::invoke1;
use js_glue::adapter::invoke_method0;
use js_glue::codec::FFICompat;
use js_glue::json::FFIObject;
use js_glue::json::Json;
use js_glue::json::decode_object;
use js_glue::json::encode_object;
use js_glue::value::JsValue;
use js_glue::value::make_bool;
use js_glue::value::make_num;
use js_glue::value::make_str;
use js_glue::wrap::Engine;
use js_glue::wrap::make_object_wrap;
use js_glue::wrap::type_id_to_u64;
use std::sync::Mutex;

struct TestWrapper(String);

#[derive(Debug)]
struct TestObj {
    value: String,
}

impl FFIObject for TestObj {
    fn to_json(self) -> Json {
        Json::Obj(vec![("value".to_string(), Json::Str(self.value))])
    }

    fn from_json(j: Json) -> Result<TestObj, String> {
        match j {
            Json::Obj(entries) => {
                for (key, val) in entries {
                    if key == "value" {
                        return match val {
                            Json::Str(s) => Ok(TestObj { value: s }),
                            _ => Err("field `value` must be a string".to_string()),
                        };
                    }
                }
                Err("missing field `value`".to_string())
            }
            _ => Err("expected an object".to_string()),
        }
    }
}

struct FfiBasic {
    response: u64,
}

impl NativeFn0 for FfiBasic {
    type Ret = ();
    fn call(&mut self) {
        self.response = 1;
    }
}

struct FfiArg {
    response: u64,
}

impl NativeFn1 for FfiArg {
    type Arg = String;
    type Ret = ();
    fn call(&mut self, arg: String) {
        if arg == "test1" {
            self.response = 2;
        } else if arg == "test2" {
            self.response = 3;
        }
    }
}

struct FfiOptArg {
    response: u64,
}

impl NativeFn1 for FfiOptArg {
    type Arg = Option<String>;
    type Ret = ();
    fn call(&mut self, arg: Option<String>) {
        match arg {
            None => self.response = 4,
            Some(_) => self.response = 5,
        }
    }
}

struct FfiReturn;

impl NativeFn0 for FfiReturn {
    type Ret = String;
    fn call(&mut self) -> String {
        "test".to_string()
    }
}

struct FfiRoundtrip;

impl NativeFn1 for FfiRoundtrip {
    type Arg = String;
    type Ret = String;
    fn call(&mut self, arg: String) -> String {
        arg
    }
}

struct FfiRoundtripCheck {
    response: u64,
}

impl NativeFn1 for FfiRoundtripCheck {
    type Arg = String;
    type Ret = ();
    fn call(&mut self, arg: String) {
        if arg == "test" {
            self.response = 6;
        }
    }
}

struct FfiResult;

impl NativeFn1 for FfiResult {
    type Arg = String;
    type Ret = Result<String, String>;
    fn call(&mut self, arg: String) -> Result<String, String> {
        if arg == "success" { Ok(arg) } else { Err(arg) }
    }
}

struct FfiVec {
    response: u64,
}

impl NativeFn1 for FfiVec {
    type Arg = Vec<String>;
    type Ret = Vec<String>;
    fn call(&mut self, arg: Vec<String>) -> Vec<String> {
        if arg.len() == 1 {
            self.response = 7;
            vec!["test1".to_string(), "test2".to_string()]
        } else if arg.len() == 2 {
            self.response = 8;
            vec![]
        } else {
            vec![]
        }
    }
}

struct FfiWrap {
    response: u64,
}

impl NativeMethod0<TestWrapper> for FfiWrap {
    type Ret = ();
    fn call(&mut self, this: &TestWrapper) {
        if this.0 == "test1" {
            self.response = 9;
        } else if this.0 == "test2" {
            self.response = 10;
        }
    }
}

struct FfiWrapMut;

impl NativeMethod0<Mutex<TestWrapper>> for FfiWrapMut {
    type Ret = ();
    fn call(&mut self, this: &Mutex<TestWrapper>) {
        // the payload's own guard serialises mutable access; the
        // wrapper itself only hands out the shared payload
        let mut guard = this.lock().unwrap();
        if guard.0 == "test1" {
            guard.0 = "test3".to_string();
        } else if guard.0 == "test3" {
            guard.0 = "test4".to_string();
        }
    }
}

fn ret_of(out: CallOutcome) -> JsValue {
    match out {
        CallOutcome::Return(jv) => jv,
        CallOutcome::Threw(m) => panic!("call threw: {}", m),
    }
}

#[test]
fn exec_tests() {
    // basic
    let mut basic = FfiBasic { response: 0 };
    assert_eq!(invoke0(&mut basic), CallOutcome::Return(JsValue::Undefined));
    assert_eq!(basic.response, 1);
    // arg
    let mut arg = FfiArg { response: 0 };
    invoke1(&mut arg, &vec![make_str("test1")]);
    assert_eq!(arg.response, 2);
    invoke1(&mut arg, &vec![make_str("test2")]);
    assert_eq!(arg.response, 3);
    // optional arg
    let mut opt = FfiOptArg { response: 0 };
    invoke1(&mut opt, &vec![JsValue::Null]);
    assert_eq!(opt.response, 4);
    invoke1(&mut opt, &vec![make_str("test")]);
    assert_eq!(opt.response, 5);
    invoke1(&mut opt, &vec![JsValue::Undefined]);
    assert_eq!(opt.response, 4);
    invoke1(&mut opt, &vec![make_str("test")]);
    assert_eq!(opt.response, 5);
    invoke1(&mut opt, &vec![make_num(77)]);
    assert_eq!(opt.response, 4);
    invoke1(&mut opt, &vec![make_str("test")]);
    assert_eq!(opt.response, 5);
    // return value and round-tripping
    let mut check = FfiRoundtripCheck { response: 0 };
    let returned = ret_of(invoke0(&mut FfiReturn));
    let round = ret_of(invoke1(&mut FfiRoundtrip, &vec![returned]));
    invoke1(&mut check, &vec![round]);
    assert_eq!(check.response, 6);
    // a bad argument type throws before the body runs
    let out = invoke1(&mut arg, &vec![JsValue::Undefined]);
    assert!(matches!(out, CallOutcome::Threw(_)));
    assert_eq!(arg.response, 3);
    invoke1(&mut arg, &vec![make_str("test2")]);
    assert_eq!(arg.response, 3);
    // a success result returns its value
    let out = invoke1(&mut FfiResult, &vec![make_str("success")]);
    assert_eq!(out, CallOutcome::Return(make_str("success")));
    // a failure result throws its text
    let out = invoke1(&mut FfiResult, &vec![make_str("failure")]);
    assert_eq!(out, CallOutcome::Threw("failure".to_string()));
    // vectors
    let mut v = FfiVec { response: 0 };
    let first = ret_of(invoke1(&mut v, &vec![JsValue::Array(vec![make_str("test")])]));
    assert_eq!(v.response, 7);
    invoke1(&mut v, &vec![first]);
    assert_eq!(v.response, 8);
    // immutable receiver through the object wrapper
    let mut eng: Engine<TestWrapper> = Engine::new();
    let tag = type_id_to_u64::<TestWrapper>();
    let mut f = FfiWrap { response: 0 };
    let data1 = make_object_wrap(&mut eng, TestWrapper("test1".to_string()));
    let obj1 = data1.get(&eng).unwrap();
    invoke_method0(&mut f, &mut eng, obj1, tag);
    assert_eq!(f.response, 9);
    let data2 = make_object_wrap(&mut eng, TestWrapper("test2".to_string()));
    let obj2 = data2.get(&eng).unwrap();
    invoke_method0(&mut f, &mut eng, obj2, tag);
    assert_eq!(f.response, 10);
    // JSON-mappable objects
    let jv = encode_object(TestObj { value: "test1".to_string() });
    let back: TestObj = decode_object(&jv).unwrap();
    assert_eq!(back.value, "test1");
    // unit return
    assert_eq!(finish_call(()), CallOutcome::Return(JsValue::Undefined));
    // tuples
    let t2 = JsValue::Array(vec![make_str("test"), make_num(10)]);
    let (s, n): (String, u32) = FFICompat::from_value(&t2).unwrap();
    assert_eq!((n, s), (10, "test".to_string()));
    let t3 = JsValue::Array(vec![make_str("test"), make_num(10), make_str("test2")]);
    let (a, b, c): (String, u32, String) = FFICompat::from_value(&t3).unwrap();
    assert_eq!((a, b, c), ("test".to_string(), 10, "test2".to_string()));
    let t4 = JsValue::Array(vec![make_str("test"), make_num(10), make_str("test2"), make_num(20)]);
    let q: (String, u32, String, u32) = FFICompat::from_value(&t4).unwrap();
    assert_eq!(q, ("test".to_string(), 10, "test2".to_string(), 20));
    let t5 = JsValue::Array(vec![
        make_str("test"),
        make_num(10),
        make_str("test2"),
        make_num(20),
        make_str("test3"),
    ]);
    let q5: (String, u32, String, u32, String) = FFICompat::from_value(&t5).unwrap();
    assert_eq!(q5, ("test".to_string(), 10, "test2".to_string(), 20, "test3".to_string()));
}

#[test]
fn primitive_round_trips() {
    let xs: Vec<i64> = vec![0, 1, -1, i64::MIN, i64::MAX];
    for x in xs {
        assert_eq!(i64::from_value(&x.to_value().unwrap()).unwrap(), x);
    }
    let xs: Vec<i32> = vec![0, -5, i32::MIN, i32::MAX];
    for x in xs {
        assert_eq!(i32::from_value(&x.to_value().unwrap()).unwrap(), x);
    }
    let xs: Vec<u32> = vec![0, 7, u32::MAX];
    for x in xs {
        assert_eq!(u32::from_value(&x.to_value().unwrap()).unwrap(), x);
    }
    let xs: Vec<u64> = vec![0, 42, u64::MAX];
    for x in xs {
        assert_eq!(u64::from_value(&x.to_value().unwrap()).unwrap(), x);
    }
    assert_eq!(bool::from_value(&true.to_value().unwrap()).unwrap(), true);
    assert_eq!(bool::from_value(&false.to_value().unwrap()).unwrap(), false);
    let s = "hello".to_string();
    assert_eq!(String::from_value(&s.clone().to_value().unwrap()).unwrap(), s);
    assert_eq!(<() as FFICompat>::from_value(&().to_value().unwrap()).unwrap(), ());
    let v = vec![1u32, 2, 3];
    assert_eq!(Vec::<u32>::from_value(&v.clone().to_value().unwrap()).unwrap(), v);
    let o = Some("x".to_string());
    assert_eq!(Option::<String>::from_value(&o.clone().to_value().unwrap()).unwrap(), o);
}

#[test]
fn integer_truncation() {
    // narrowing follows two's-complement truncation, with no range
    // validation
    assert_eq!(i32::from_value(&make_num(1_i64 << 32)).unwrap(), 0);
    assert_eq!(i32::from_value(&make_num((1_i64 << 31) + 5)).unwrap(), i32::MIN + 5);
    assert_eq!(u32::from_value(&make_num(-1)).unwrap(), u32::MAX);
    assert_eq!(u64::from_value(&make_num(-1)).unwrap(), u64::MAX);
}

#[test]
fn optional_leniency() {
    // null and undefined decode as absent, never an error
    assert_eq!(Option::<String>::from_value(&JsValue::Null).unwrap(), None);
    assert_eq!(Option::<String>::from_value(&JsValue::Undefined).unwrap(), None);
    assert_eq!(Option::<u32>::from_value(&JsValue::Null).unwrap(), None);
    assert_eq!(Option::<bool>::from_value(&JsValue::Undefined).unwrap(), None);
    // so does a value of the wrong shape
    assert_eq!(Option::<String>::from_value(&make_num(77)).unwrap(), None);
    // encoding absent yields null
    assert_eq!(Option::<String>::None.to_value().unwrap(), JsValue::Null);
    // encoding present delegates to the inner encoder
    assert_eq!(Some(5u32).to_value().unwrap(), make_num(5));
}

#[test]
fn sequence_leniency() {
    // a non-array decodes as the empty sequence, not an error
    assert_eq!(Vec::<String>::from_value(&make_num(3)).unwrap(), Vec::<String>::new());
    assert_eq!(Vec::<String>::from_value(&JsValue::Null).unwrap(), Vec::<String>::new());
    assert_eq!(Vec::<u32>::from_value(&make_str("xs")).unwrap(), Vec::<u32>::new());
    // an element of the wrong shape aborts the whole decode
    let bad = JsValue::Array(vec![make_str("ok"), make_num(1)]);
    let err = Vec::<String>::from_value(&bad).unwrap_err();
    assert_eq!(err, "invalid type for argument in ffi call, expected string");
}

#[test]
fn tuple_arity_errors() {
    let arr1 = JsValue::Array(vec![make_num(1)]);
    let e = <(u32, u32)>::from_value(&arr1).unwrap_err();
    assert_eq!(e, "expected 2-length array for tuple ffi");
    let e = <(u32, u32, u32)>::from_value(&arr1).unwrap_err();
    assert_eq!(e, "expected 3-length array for tuple ffi");
    let e = <(u32, u32, u32, u32)>::from_value(&arr1).unwrap_err();
    assert_eq!(e, "expected 4-length array for tuple ffi");
    let e = <(u32, u32, u32, u32, u32)>::from_value(&arr1).unwrap_err();
    assert_eq!(e, "expected 5-length array for tuple ffi");
    let e = <(u32, u32)>::from_value(&make_num(7)).unwrap_err();
    assert_eq!(e, "expected array for tuple ffi");
    // a matching length decodes each slot independently
    let arr2 = JsValue::Array(vec![make_num(1), make_str("x")]);
    assert_eq!(<(u32, String)>::from_value(&arr2).unwrap(), (1, "x".to_string()));
    let e = <(String, String)>::from_value(&arr2).unwrap_err();
    assert_eq!(e, "invalid type for argument in ffi call, expected string");
}

#[test]
fn decode_errors() {
    let e = String::from_value(&make_num(1)).unwrap_err();
    assert_eq!(e, "invalid type for argument in ffi call, expected string");
    let e = u32::from_value(&make_str("x")).unwrap_err();
    assert_eq!(e, "invalid type for argument in ffi call, expected number");
    let e = bool::from_value(&make_num(1)).unwrap_err();
    assert_eq!(e, "invalid type for argument in ffi call, expected boolean");
    let e = Result::<String, String>::from_value(&make_str("x")).unwrap_err();
    assert_eq!(e, "cannot decode a result type in ffi call");
}

#[test]
fn tuple_reorder_round_trip() {
    // a two-argument tuple round-trips through decode and encode, with
    // the slots reordered by native logic in between
    let arr = JsValue::Array(vec![make_str("test"), make_num(10)]);
    let (s, n): (String, u32) = FFICompat::from_value(&arr).unwrap();
    let reordered = (n, s);
    let encoded = reordered.to_value().unwrap();
    assert_eq!(encoded, JsValue::Array(vec![make_num(10), make_str("test")]));
    let back: (u32, String) = FFICompat::from_value(&encoded).unwrap();
    assert_eq!(back, (10, "test".to_string()));
}

#[test]
fn json_object_round_trip() {
    let jv = encode_object(TestObj { value: "abc".to_string() });
    assert_eq!(
        jv,
        JsValue::Object(vec![("value".to_string(), make_str("abc"))])
    );
    let back: TestObj = decode_object(&jv).unwrap();
    assert_eq!(back.value, "abc");
}

#[test]
fn json_missing_field_fails() {
    let jv = JsValue::Object(vec![("other".to_string(), make_str("abc"))]);
    let e = decode_object::<TestObj>(&jv).unwrap_err();
    assert_eq!(e, "missing field `value`");
}

#[test]
fn json_tree_codec() {
    // a nested engine value maps through the JSON tree and back
    let jv = JsValue::Object(vec![
        ("xs".to_string(), JsValue::Array(vec![make_num(1), make_bool(true)])),
        ("s".to_string(), make_str("v")),
        ("n".to_string(), JsValue::Null),
    ]);
    let j = Json::from_value(&jv).unwrap();
    assert_eq!(
        j,
        Json::Obj(vec![
            ("xs".to_string(), Json::Arr(vec![Json::Num(1), Json::Bool(true)])),
            ("s".to_string(), Json::Str("v".to_string())),
            ("n".to_string(), Json::Null),
        ])
    );
    let j2 = Json::from_value(&jv).unwrap();
    assert_eq!(j2.to_value().unwrap(), jv);
    // undefined is identified with null in the tree
    assert_eq!(Json::from_value(&JsValue::Undefined).unwrap(), Json::Null);
}

#[test]
fn adapter_error_completion() {
    // a failure result raises an exception carrying the text, and no
    // return value is set
    let out = invoke1(&mut FfiResult, &vec![make_str("failure")]);
    let mut eng: Engine<TestWrapper> = Engine::new();
    let mut rv: Option<JsValue> = None;
    complete_call(&mut eng, out, &mut rv);
    assert!(rv.is_none());
    assert_eq!(eng.pending_exception, Some("failure".to_string()));
    // a success outcome fills the return slot and raises nothing
    let out = invoke1(&mut FfiResult, &vec![make_str("success")]);
    let mut rv: Option<JsValue> = None;
    let mut eng2: Engine<TestWrapper> = Engine::new();
    complete_call(&mut eng2, out, &mut rv);
    assert_eq!(rv, Some(make_str("success")));
    assert_eq!(eng2.pending_exception, None);
}

#[test]
fn mutable_receiver_through_guard() {
    // a mutable receiver is a payload that supplies its own guard:
    // the method mutates through it, and the change is visible on the
    // next call and through a fresh unwrap
    let mut eng: Engine<Mutex<TestWrapper>> = Engine::new();
    let tag = type_id_to_u64::<Mutex<TestWrapper>>();
    let mut f = FfiWrapMut;
    let data = make_object_wrap(&mut eng, Mutex::new(TestWrapper("test1".to_string())));
    let obj = data.get(&eng).unwrap();
    invoke_method0(&mut f, &mut eng, obj, tag);
    let r = data.unwrap(&mut eng).unwrap();
    assert_eq!(eng.read_ref(&r).lock().unwrap().0, "test3");
    eng.drop_ref(r);
    invoke_method0(&mut f, &mut eng, obj, tag);
    let r = data.unwrap(&mut eng).unwrap();
    assert_eq!(eng.read_ref(&r).lock().unwrap().0, "test4");
    eng.drop_ref(r);
}

#[test]
fn missing_argument_reads_undefined() {
    // a parameter beyond the argument list decodes from undefined
    let mut opt = FfiOptArg { response: 0 };
    invoke1(&mut opt, &vec![]);
    assert_eq!(opt.response, 4);
    let mut arg = FfiArg { response: 0 };
    let out = invoke1(&mut arg, &vec![]);
    assert_eq!(
        out,
        CallOutcome::Threw("invalid type for argument in ffi call, expected string".to_string())
    );
}
