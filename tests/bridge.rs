use jvm_bridge::class::Method;
use jvm_bridge::environment::{Environment, ExceptionCheck};
use jvm_bridge::handle::RawRef;
use jvm_bridge::invocation::Returned;
use jvm_bridge::lifecycle::Promotion;
use jvm_bridge::object::Object;
use jvm_bridge::protocol::{Fatal, Reply, Request, Step};
use jvm_bridge::runtime::{option_bytes, RuntimeSlot, SlotError, JVM};
use jvm_bridge::status::{classify, Failure};
use jvm_bridge::string::{decode_lossy, String as ManagedString};
use jvm_bridge::value::{marshal_arguments, ArgSlot, RawReturn, ReturnKind, Value};

fn r(addr: u64) -> RawRef {
    RawRef::from_addr(addr)
}

fn null_ref() -> Reply {
    Reply::Ref(RawRef::null())
}

fn env() -> Environment {
    Environment::from_handle(r(0x10))
}

#[test]
fn status_codes_are_classified() {
    assert_eq!(classify(0), None);
    assert_eq!(classify(-1), Some(Failure::Unknown));
    assert_eq!(classify(-2), Some(Failure::Detached));
    assert_eq!(classify(-3), Some(Failure::Version));
    assert_eq!(classify(-4), Some(Failure::OutOfMemory));
    assert_eq!(classify(-5), Some(Failure::AlreadyExists));
    assert_eq!(classify(-6), Some(Failure::InvalidArguments));
    assert_eq!(classify(-9), Some(Failure::Unrecognised(-9)));
    assert_eq!(Failure::AlreadyExists.message(), "JVM exists already");
    assert_eq!(Failure::Unrecognised(7).message(), "unknown JNI error value");
    assert_eq!(Failure::Detached.message(), "thread detached from JVM");
}

#[test]
fn arguments_are_marshalled_in_order() {
    let args = vec![
        Value::Bool(true),
        Value::Bool(false),
        Value::Int(-3),
        Value::Long(1 << 40),
        Value::Float(1.5f32.to_bits()),
        Value::Double(2.25f64.to_bits()),
        Value::Object(r(0x99)),
        Value::Void,
    ];
    let slots = marshal_arguments(&args);
    assert_eq!(
        slots,
        vec![
            ArgSlot::Z(1),
            ArgSlot::Z(0),
            ArgSlot::I(-3),
            ArgSlot::J(1 << 40),
            ArgSlot::F(1.5f32.to_bits()),
            ArgSlot::D(2.25f64.to_bits()),
            ArgSlot::L(r(0x99)),
            ArgSlot::L(RawRef::null()),
        ]
    );
}

#[test]
fn owned_promotion_deletes_the_transient_reference() {
    let mut p = Promotion::new(r(5), true);
    assert!(matches!(p.step(Reply::Nothing), Step::Issue(Request::NewGlobalRef(h)) if h == r(5)));
    assert!(matches!(p.step(Reply::Ref(r(50))), Step::Issue(Request::DeleteLocalRef(h)) if h == r(5)));
    assert!(matches!(p.step(Reply::Nothing), Step::Finish(g) if g == r(50)));
    assert!(matches!(p.step(Reply::Nothing), Step::Fail(Fatal::Misuse)));
}

#[test]
fn borrowed_promotion_keeps_the_transient_reference() {
    let mut p = Promotion::new(r(5), false);
    assert!(matches!(p.step(Reply::Nothing), Step::Issue(Request::NewGlobalRef(_))));
    assert!(matches!(p.step(Reply::Ref(r(51))), Step::Finish(g) if g == r(51)));
}

#[test]
fn promotion_of_null_is_fatal() {
    let mut p = Promotion::new(RawRef::null(), true);
    assert!(matches!(p.step(Reply::Nothing), Step::Fail(Fatal::NullHandle)));
}

#[test]
fn failed_promotion_is_fatal() {
    let mut p = Promotion::new(r(5), true);
    p.step(Reply::Nothing);
    assert!(matches!(p.step(null_ref()), Step::Fail(Fatal::PromotionFailed)));
}

#[test]
fn check_without_exception_reports_none() {
    let mut c = env().check_jvm_exception();
    assert!(matches!(c.step(Reply::Nothing), Step::Issue(Request::ExceptionOccurred)));
    assert!(matches!(c.step(null_ref()), Step::Finish(None)));
}

/// Drives an exception check whose read names `exc`, promoted to `global`.
fn raise(c: &mut ExceptionCheck, exc: u64, global: u64) -> Step<Option<Object>> {
    assert!(matches!(c.step(Reply::Ref(r(exc))), Step::Issue(Request::ExceptionDescribe)));
    assert!(matches!(c.step(Reply::Nothing), Step::Issue(Request::ExceptionClear)));
    assert!(matches!(c.step(Reply::Nothing), Step::Issue(Request::NewGlobalRef(h)) if h == r(exc)));
    assert!(matches!(c.step(Reply::Ref(r(global))), Step::Issue(Request::DeleteLocalRef(h)) if h == r(exc)));
    c.step(Reply::Nothing)
}

#[test]
fn check_with_exception_describes_clears_and_promotes() {
    let mut c = ExceptionCheck::new();
    c.step(Reply::Nothing);
    match raise(&mut c, 7, 70) {
        Step::Finish(Some(o)) => assert_eq!(o.as_handle(), r(70)),
        _ => panic!("expected the exception"),
    }
}

fn target() -> Object {
    Object::from_durable(r(0x200))
}

fn method() -> Method {
    Method::from_handle(r(0x300))
}

#[test]
fn int_call_that_succeeds_returns_its_value() {
    let mut m = target().call_int_method(&method(), &[Value::Int(2), Value::Int(2)]);
    match m.step(Reply::Nothing) {
        Step::Issue(Request::Invoke { kind, target, method, arguments }) => {
            assert_eq!(kind, ReturnKind::Int);
            assert_eq!(target, r(0x200));
            assert_eq!(method, r(0x300));
            assert_eq!(arguments, vec![ArgSlot::I(2), ArgSlot::I(2)]);
        },
        _ => panic!("expected the call"),
    }
    assert!(matches!(m.step(Reply::Returned(RawReturn::Int(4))), Step::Issue(Request::ExceptionOccurred)));
    assert!(matches!(m.step(null_ref()), Step::Finish(Ok(Returned::Int(4)))));
}

#[test]
fn call_that_raises_returns_the_exception() {
    let mut m = target().call_long_method(&method(), &[]);
    m.step(Reply::Nothing);
    m.step(Reply::Returned(RawReturn::Long(12345)));
    assert!(matches!(m.step(Reply::Ref(r(8))), Step::Issue(Request::ExceptionDescribe)));
    m.step(Reply::Nothing);
    m.step(Reply::Nothing);
    m.step(Reply::Ref(r(80)));
    match m.step(Reply::Nothing) {
        Step::Finish(Err(e)) => assert_eq!(e.as_handle(), r(80)),
        _ => panic!("expected the exception"),
    }
}

#[test]
fn every_primitive_kind_converts() {
    let cases = vec![
        (ReturnKind::Void, RawReturn::Void),
        (ReturnKind::Bool, RawReturn::Bool(1)),
        (ReturnKind::Byte, RawReturn::Byte(-8)),
        (ReturnKind::Short, RawReturn::Short(-300)),
        (ReturnKind::Int, RawReturn::Int(4)),
        (ReturnKind::Long, RawReturn::Long(-5)),
        (ReturnKind::Float, RawReturn::Float(0.5f32.to_bits())),
        (ReturnKind::Double, RawReturn::Double(0.25f64.to_bits())),
    ];
    for (kind, raw) in cases {
        let mut m = target().call_method(kind, &method(), &[]);
        m.step(Reply::Nothing);
        m.step(Reply::Returned(raw));
        let got = match m.step(null_ref()) {
            Step::Finish(Ok(v)) => v,
            _ => panic!("expected a value"),
        };
        let same = match (raw, got) {
            (RawReturn::Void, Returned::Void) => true,
            (RawReturn::Bool(_), Returned::Bool(b)) => b,
            (RawReturn::Byte(x), Returned::Byte(y)) => x == y,
            (RawReturn::Short(x), Returned::Short(y)) => x == y,
            (RawReturn::Int(x), Returned::Int(y)) => x == y,
            (RawReturn::Long(x), Returned::Long(y)) => x == y,
            (RawReturn::Float(x), Returned::Float(y)) => f32::from_bits(x) == f32::from_bits(y),
            (RawReturn::Double(x), Returned::Double(y)) => f64::from_bits(x) == f64::from_bits(y),
            _ => false,
        };
        assert!(same);
    }
}

#[test]
fn false_boolean_result() {
    let mut m = target().call_bool_method(&method(), &[]);
    m.step(Reply::Nothing);
    m.step(Reply::Returned(RawReturn::Bool(0)));
    assert!(matches!(m.step(null_ref()), Step::Finish(Ok(Returned::Bool(false)))));
}

#[test]
fn return_of_the_wrong_shape_is_misuse() {
    let mut m = target().call_int_method(&method(), &[]);
    m.step(Reply::Nothing);
    assert!(matches!(m.step(Reply::Returned(RawReturn::Long(4))), Step::Fail(Fatal::Misuse)));
}

#[test]
fn null_object_result_is_none() {
    let mut m = target().call_object_method(&method(), &[]);
    m.step(Reply::Nothing);
    m.step(Reply::Returned(RawReturn::Object(RawRef::null())));
    assert!(matches!(m.step(null_ref()), Step::Finish(Ok(Returned::Object(None)))));
}

#[test]
fn object_result_is_promoted() {
    let mut m = target().call_object_method(&method(), &[]);
    m.step(Reply::Nothing);
    m.step(Reply::Returned(RawReturn::Object(r(9))));
    assert!(matches!(m.step(null_ref()), Step::Issue(Request::NewGlobalRef(h)) if h == r(9)));
    assert!(matches!(m.step(Reply::Ref(r(90))), Step::Issue(Request::DeleteLocalRef(h)) if h == r(9)));
    match m.step(Reply::Nothing) {
        Step::Finish(Ok(Returned::Object(Some(o)))) => assert_eq!(o.as_handle(), r(90)),
        _ => panic!("expected an object"),
    }
}

#[test]
fn lookup_that_succeeds_returns_a_durable_type() {
    let mut m = env().find_class("java/lang/String");
    match m.step(Reply::Nothing) {
        Step::Issue(Request::FindClass(name)) => assert_eq!(name, b"java/lang/String".to_vec()),
        _ => panic!("expected the lookup"),
    }
    assert!(matches!(m.step(Reply::Ref(r(3))), Step::Issue(Request::ExceptionOccurred)));
    assert!(matches!(m.step(null_ref()), Step::Issue(Request::NewGlobalRef(h)) if h == r(3)));
    m.step(Reply::Ref(r(30)));
    match m.step(Reply::Nothing) {
        Step::Finish(Ok(c)) => assert_eq!(c.as_handle(), r(30)),
        _ => panic!("expected the type"),
    }
}

#[test]
fn lookup_that_fails_returns_the_exception() {
    let mut m = env().find_class("no/such/Type");
    m.step(Reply::Nothing);
    m.step(null_ref());
    assert!(matches!(m.step(Reply::Ref(r(4))), Step::Issue(Request::ExceptionDescribe)));
    m.step(Reply::Nothing);
    m.step(Reply::Nothing);
    m.step(Reply::Ref(r(40)));
    match m.step(Reply::Nothing) {
        Step::Finish(Err(e)) => assert_eq!(e.as_handle(), r(40)),
        _ => panic!("expected the exception"),
    }
}

#[test]
fn lookup_of_a_name_with_nul_is_fatal() {
    let mut m = env().find_class("a\0b");
    assert!(matches!(m.step(Reply::Nothing), Step::Fail(Fatal::EmbeddedNul)));
}

#[test]
fn capacity_granted() {
    let mut m = env().ensure_local_capacity(16);
    assert!(matches!(m.step(Reply::Nothing), Step::Issue(Request::EnsureLocalCapacity(16))));
    assert!(matches!(m.step(Reply::Code(0)), Step::Finish(Ok(()))));
}

#[test]
fn capacity_refused_surfaces_the_exception() {
    let mut m = env().ensure_local_capacity(i32::MAX);
    m.step(Reply::Nothing);
    assert!(matches!(m.step(Reply::Code(-4)), Step::Issue(Request::ExceptionOccurred)));
    m.step(Reply::Ref(r(6)));
    m.step(Reply::Nothing);
    m.step(Reply::Nothing);
    m.step(Reply::Ref(r(60)));
    match m.step(Reply::Nothing) {
        Step::Finish(Err(e)) => assert_eq!(e.as_handle(), r(60)),
        _ => panic!("expected the exception"),
    }
}

#[test]
fn capacity_refused_without_exception_is_fatal() {
    let mut m = env().ensure_local_capacity(1);
    m.step(Reply::Nothing);
    m.step(Reply::Code(-1));
    assert!(matches!(m.step(null_ref()), Step::Fail(Fatal::MissingException)));
}

#[test]
fn string_construction_sends_utf8_and_promotes() {
    let mut m = ManagedString::from_str("héllo");
    match m.step(Reply::Nothing) {
        Step::Issue(Request::NewStringUtf(b)) => assert_eq!(b, "héllo".as_bytes().to_vec()),
        _ => panic!("expected the construction"),
    }
    assert!(matches!(m.step(Reply::Ref(r(11))), Step::Issue(Request::NewGlobalRef(h)) if h == r(11)));
    m.step(Reply::Ref(r(110)));
    match m.step(Reply::Nothing) {
        Step::Finish(s) => assert_eq!(s.as_handle(), r(110)),
        _ => panic!("expected the string"),
    }
}

#[test]
fn string_with_nul_is_fatal() {
    let mut m = ManagedString::from_str("a\0");
    assert!(matches!(m.step(Reply::Nothing), Step::Fail(Fatal::EmbeddedNul)));
}

#[test]
fn string_extraction_decodes_and_releases() {
    let s = ManagedString::from_durable(r(12));
    let mut m = s.to_string();
    assert!(matches!(m.step(Reply::Nothing), Step::Issue(Request::GetStringUtfChars(h)) if h == r(12)));
    let step = m.step(Reply::Chars(r(0x500), "héllo".as_bytes().to_vec()));
    assert!(matches!(step, Step::Issue(Request::ReleaseStringUtfChars(h, p)) if h == r(12) && p == r(0x500)));
    match m.step(Reply::Nothing) {
        Step::Finish(t) => assert_eq!(t, "héllo"),
        _ => panic!("expected the text"),
    }
}

#[test]
fn string_extraction_of_invalid_utf8_is_empty() {
    let s = ManagedString::from_durable(r(12));
    let mut m = s.to_string();
    m.step(Reply::Nothing);
    let step = m.step(Reply::Chars(r(0x500), vec![0xed, 0xa0, 0x80]));
    assert!(matches!(step, Step::Issue(Request::ReleaseStringUtfChars(h, p)) if h == r(12) && p == r(0x500)));
    match m.step(Reply::Nothing) {
        Step::Finish(t) => assert_eq!(t, ""),
        _ => panic!("expected the text"),
    }
}

#[test]
fn decoding_round_trips_valid_text() {
    for s in ["", "plain", "ünïcödé", "日本語", "emoji 😀"] {
        assert_eq!(decode_lossy(s.as_bytes()), s);
    }
    assert_eq!(decode_lossy(&[0xff, 0x41]), "");
}

#[test]
fn second_runtime_is_refused() {
    let mut slot = RuntimeSlot::new();
    assert_eq!(slot.global_jvm(), None);
    let first = JVM { handle: r(1) };
    assert_eq!(slot.install(first), Ok(()));
    assert_eq!(slot.install(JVM { handle: r(2) }), Err(SlotError::AlreadyInitialised));
    assert_eq!(slot.global_jvm(), Some(first));
}

#[test]
fn creation_status_is_read() {
    assert!(matches!(JVM::created(0, r(1), r(2)), Ok((j, e)) if j.handle == r(1) && e.handle == r(2)));
    assert!(matches!(JVM::created(-5, r(1), r(2)), Err(Failure::AlreadyExists)));
    assert!(matches!(JVM::attached(0, r(3)), Ok(e) if e.handle == r(3)));
    assert!(matches!(JVM::attached(-4, r(3)), Err(Failure::OutOfMemory)));
}

#[test]
fn current_environment_distinguishes_unattached() {
    let jvm = JVM { handle: r(1) };
    assert_eq!(jvm.current_environment(-2, RawRef::null()), Ok(None));
    assert_eq!(jvm.current_environment(0, RawRef::null()), Ok(None));
    assert_eq!(jvm.current_environment(0, r(4)), Ok(Some(Environment::from_handle(r(4)))));
    assert_eq!(jvm.current_environment(-3, r(4)), Err(Failure::Version));
}

#[test]
fn options_with_nul_are_refused() {
    let v = option_bytes(&["-Xmx64m", "-verbose"]).unwrap();
    assert_eq!(v, vec![b"-Xmx64m".to_vec(), b"-verbose".to_vec()]);
    assert_eq!(option_bytes(&["ok", "bad\0"]), None);
}

#[test]
fn monitor_enter_and_exit() {
    let o = target();
    let mut m = o.enter_monitor();
    assert!(matches!(m.step(Reply::Nothing), Step::Issue(Request::MonitorEnter(h)) if h == r(0x200)));
    assert!(matches!(m.step(Reply::Code(0)), Step::Finish(())));
    let mut x = o.exit_monitor();
    assert!(matches!(x.step(Reply::Nothing), Step::Issue(Request::MonitorExit(_))));
    assert!(matches!(x.step(Reply::Code(-1)), Step::Fail(Fatal::MonitorFailed(-1))));
}

#[test]
fn duplicate_then_release_original() {
    let o = target();
    let mut d = o.duplicate();
    assert!(matches!(d.step(Reply::Nothing), Step::Issue(Request::NewGlobalRef(h)) if h == r(0x200)));
    let copy = match d.step(Reply::Ref(r(0x201))) {
        Step::Finish(g) => Object::from_durable(g),
        _ => panic!("expected the duplicate"),
    };
    assert!(matches!(o.release(), Request::DeleteGlobalRef(h) if h == r(0x200)));
    assert_eq!(copy.as_handle(), r(0x201));
    let mut m = copy.call_void_method(&method(), &[]);
    assert!(matches!(m.step(Reply::Nothing), Step::Issue(Request::Invoke { target, .. }) if target == r(0x201)));
}
