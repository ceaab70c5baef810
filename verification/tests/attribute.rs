use fast_attributes::attribute::{Attribute, MaybeProc, Source};
use fast_attributes::host::{Reply, Request, Step};
use fast_attributes::value::{to_ruby_bool, Value};

const NAME: Value = Value::Object(1);
const TY: Value = Value::Object(2);
const RAW: Value = Value::Object(3);

fn number(v: Value) -> u64 {
    match v {
        Value::Object(n) => n,
        Value::Bool(true) => 1,
        Value::Bool(false) => 0,
        Value::Nil => 0,
    }
}

/// A host that computes by simple arithmetic on handles.
fn perform(request: Request) -> Reply {
    match request {
        Request::CallProvider { block } => Reply::Returned(Value::Object(number(block) + 7000)),
        Request::YieldDefault { name } => Reply::Returned(Value::Object(number(name) + 40)),
        Request::Deserialize { raw, .. } => Reply::Returned(Value::Object(number(raw) + 1000)),
        Request::Cast { raw, .. } => Reply::Returned(Value::Object(number(raw) + 2000)),
        Request::Serialize { value, .. } => Reply::Returned(Value::Object(number(value) + 3000)),
        Request::Changed { original, value, .. } => Reply::Returned(Value::Bool(original != value)),
        Request::ChangedInPlace { original_for_database, value, .. } => Reply::Returned(
            Value::Bool(number(value) + 3000 != number(original_for_database)),
        ),
        Request::AssertValidValue { value, .. } => {
            if value == Value::Object(666) {
                Reply::Raised(Value::Object(13))
            } else {
                Reply::Returned(Value::Nil)
            }
        }
        Request::ConstructedByMassAssignment { raw, .. } => {
            Reply::Returned(Value::Bool(raw == Value::Object(777)))
        }
        Request::Duplicate { value } => Reply::Returned(Value::Object(number(value) + 5000)),
        Request::Equal { lhs, rhs } => Reply::Returned(Value::Bool(lhs == rhs)),
        Request::HashOf { kind, name, raw_value, ty } => Reply::Returned(Value::Object(
            kind as u64 + number(name) + number(raw_value) + number(ty),
        )),
        Request::UninitializedOriginalValue => Reply::Returned(Value::Object(99)),
        Request::DefaultType => Reply::Returned(Value::Object(50)),
    }
}

/// Runs an operation to its end, answering each request as it comes.
fn run<T>(mut operation: impl FnMut(&Vec<Reply>) -> Step<T>) -> (Result<T, Value>, Vec<Request>) {
    let mut replies = Vec::new();
    let mut asked = Vec::new();
    loop {
        match operation(&replies) {
            Step::Done { value, at } => {
                assert_eq!(at, replies.len());
                return (Ok(value), asked);
            }
            Step::Ask(request) => {
                asked.push(request);
                replies.push(perform(request));
            }
            Step::Failed(failure) => return (Err(failure), asked),
        }
    }
}

fn show(a: &Attribute) -> String {
    format!("{:?}", a)
}

#[test]
fn to_ruby_bool_gives_the_two_booleans() {
    assert_eq!(to_ruby_bool(true), Value::Bool(true));
    assert_eq!(to_ruby_bool(false), Value::Bool(false));
}

#[test]
fn truth_of_values() {
    assert!(!Value::Nil.is_truthy());
    assert!(!Value::Bool(false).is_truthy());
    assert!(Value::Bool(true).is_truthy());
    assert!(Value::Object(0).is_truthy());
    assert!(Value::Nil.is_nil());
    assert!(!Value::Bool(false).is_nil());
    assert!(!Value::Object(8).is_nil());
}

#[test]
fn constructors_set_every_field() {
    let a = Attribute::from_database(NAME, RAW, TY);
    assert_eq!(a.name(), NAME);
    assert_eq!(a.ty(), TY);
    assert!(a.is_initialized());
    assert!(!a.has_been_read());
    assert!(!a.has_been_assigned());
    assert_eq!(a.discriminant(), 2);
    assert!(a.original_attribute().is_none());

    let b = Attribute::from_user(NAME, Value::Object(9), TY, a.clone());
    assert_eq!(b.discriminant(), 1);
    assert!(b.has_been_assigned());
    assert_eq!(show(b.original_attribute().unwrap()), show(&a));

    let c = Attribute::from_cast_value(NAME, RAW, TY);
    assert_eq!(c.discriminant(), 3);
    assert!(!c.has_been_assigned());

    let d = Attribute::uninitialized(NAME, TY);
    assert_eq!(d.discriminant(), 0);
    assert!(!d.is_initialized());
    assert!(!d.has_been_read());
    assert_eq!(d.name(), NAME);
    assert_eq!(d.ty(), TY);

    let e = Attribute::user_provided_default(NAME, MaybeProc::NotProc(RAW), TY, None);
    assert_eq!(e.discriminant(), 4);
    assert!(!e.has_been_assigned());
    let f = Attribute::user_provided_default(NAME, MaybeProc::NotProc(RAW), TY, Some(a.clone()));
    assert!(f.has_been_assigned());
    assert_eq!(show(f.original_attribute().unwrap()), show(&a));
}

#[test]
fn default_attribute_is_uninitialized_with_nil() {
    let a = Attribute::default();
    assert!(!a.is_initialized());
    assert_eq!(a.name(), Value::Nil);
    assert_eq!(a.ty(), Value::Nil);
}

#[test]
fn clone_is_the_same_attribute() {
    let a = Attribute::from_database(NAME, RAW, TY);
    let b = Attribute::from_user(NAME, Value::Object(9), TY, a);
    let c = Attribute::user_provided_default(
        NAME,
        MaybeProc::Proc { block: Value::Object(5), memo: Some(Value::Object(6)) },
        TY,
        Some(b),
    );
    assert_eq!(show(&c.clone()), show(&c));
}

#[test]
fn value_asks_for_deserialize_first() {
    let mut a = Attribute::from_database(NAME, RAW, TY);
    let step = a.value(false, &vec![], 0);
    assert_eq!(step, Step::Ask(Request::Deserialize { ty: TY, raw: RAW }));
    assert!(!a.has_been_read());
}

#[test]
fn value_is_deserialized_once() {
    let mut a = Attribute::from_database(NAME, RAW, TY);
    let (first, asked) = run(|replies| a.value(false, replies, 0));
    assert_eq!(first, Ok(Value::Object(1003)));
    assert_eq!(asked, vec![Request::Deserialize { ty: TY, raw: RAW }]);
    assert!(a.has_been_read());
    for _ in 0..3 {
        let (again, asked) = run(|replies| a.value(false, replies, 0));
        assert_eq!(again, Ok(Value::Object(1003)));
        assert_eq!(asked, vec![]);
    }
}

#[test]
fn value_of_an_assignment_is_cast() {
    let base = Attribute::from_database(NAME, RAW, TY);
    let mut a = Attribute::from_user(NAME, Value::Object(9), TY, base);
    let (value, asked) = run(|replies| a.value(false, replies, 0));
    assert_eq!(value, Ok(Value::Object(2009)));
    assert_eq!(asked, vec![Request::Cast { ty: TY, raw: Value::Object(9) }]);
}

#[test]
fn value_of_a_cast_value_is_the_raw_value() {
    let mut a = Attribute::from_cast_value(NAME, RAW, TY);
    let (value, asked) = run(|replies| a.value(false, replies, 0));
    assert_eq!(value, Ok(RAW));
    assert_eq!(asked, vec![]);
    assert!(a.has_been_read());
}

#[test]
fn value_of_a_deferred_default_calls_it_then_casts() {
    let block = Value::Object(5);
    let mut a = Attribute::user_provided_default(
        NAME,
        MaybeProc::Proc { block, memo: None },
        TY,
        None,
    );
    assert!(a.has_open_default());
    let (value, asked) = run(|replies| a.value(false, replies, 0));
    assert_eq!(value, Ok(Value::Object(9005)));
    assert_eq!(
        asked,
        vec![Request::CallProvider { block }, Request::Cast { ty: TY, raw: Value::Object(7005) }]
    );
    assert!(!a.has_open_default());
    let (raw, asked) = run(|replies| a.value_before_type_cast(replies, 0));
    assert_eq!(raw, Ok(Value::Object(7005)));
    assert_eq!(asked, vec![]);
}

#[test]
fn value_keeps_nothing_while_it_asks() {
    let block = Value::Object(5);
    let mut a = Attribute::user_provided_default(
        NAME,
        MaybeProc::Proc { block, memo: None },
        TY,
        None,
    );
    let before = show(&a);
    let replies = vec![Reply::Returned(Value::Object(70))];
    assert_eq!(
        a.value(false, &replies, 0),
        Step::Ask(Request::Cast { ty: TY, raw: Value::Object(70) })
    );
    assert_eq!(show(&a), before);
}

#[test]
fn value_keeps_the_answer_of_the_default_where_the_type_fails() {
    let block = Value::Object(5);
    let mut a = Attribute::user_provided_default(
        NAME,
        MaybeProc::Proc { block, memo: None },
        TY,
        None,
    );
    let replies = vec![Reply::Returned(Value::Object(70)), Reply::Raised(Value::Object(13))];
    assert_eq!(a.value(false, &replies, 0), Step::Failed(Value::Object(13)));
    assert!(!a.has_been_read());
    assert!(!a.has_open_default());
    assert_eq!(
        show(&a),
        show(&Attribute::user_provided_default(
            NAME,
            MaybeProc::Proc { block, memo: Some(Value::Object(70)) },
            TY,
            None
        ))
    );
    assert_eq!(
        a.value(false, &vec![], 0),
        Step::Ask(Request::Cast { ty: TY, raw: Value::Object(70) })
    );
}

#[test]
fn value_for_database_keeps_the_value_where_serializing_fails() {
    let mut a = Attribute::from_database(NAME, RAW, TY);
    let replies = vec![Reply::Returned(Value::Object(4)), Reply::Raised(Value::Object(13))];
    assert_eq!(a.value_for_database(&replies, 0), Step::Failed(Value::Object(13)));
    assert!(a.has_been_read());
    assert_eq!(a.value(false, &vec![], 0), Step::Done { value: Value::Object(4), at: 0 });
    let mut b = Attribute::from_database(NAME, RAW, TY);
    let asking = vec![Reply::Returned(Value::Object(4))];
    assert!(matches!(b.value_for_database(&asking, 0), Step::Ask(Request::Serialize { .. })));
    assert!(!b.has_been_read());
}

#[test]
fn value_of_an_uninitialized_attribute() {
    let mut a = Attribute::uninitialized(NAME, TY);
    let (nil, asked) = run(|replies| a.value(false, replies, 0));
    assert_eq!(nil, Ok(Value::Nil));
    assert_eq!(asked, vec![]);
    let (given, asked) = run(|replies| a.value(true, replies, 0));
    assert_eq!(given, Ok(Value::Object(41)));
    assert_eq!(asked, vec![Request::YieldDefault { name: NAME }]);
    assert!(!a.has_been_read());
    let (again, asked) = run(|replies| a.value(true, replies, 0));
    assert_eq!(again, Ok(Value::Object(41)));
    assert_eq!(asked, vec![Request::YieldDefault { name: NAME }]);
}

#[test]
fn value_reads_replies_from_the_given_place() {
    let mut a = Attribute::from_database(NAME, RAW, TY);
    let replies = vec![Reply::Returned(Value::Object(8)), Reply::Returned(Value::Object(9))];
    assert_eq!(
        a.clone().value(false, &replies, 1),
        Step::Done { value: Value::Object(9), at: 2 }
    );
    assert_eq!(
        a.value(false, &replies, 2),
        Step::Ask(Request::Deserialize { ty: TY, raw: RAW })
    );
    assert!(!a.has_been_read());
    assert_eq!(a.value(false, &replies, 0), Step::Done { value: Value::Object(8), at: 1 });
}

#[test]
fn value_before_type_cast_is_the_raw_value() {
    let mut a = Attribute::from_database(NAME, RAW, TY);
    let (raw, asked) = run(|replies| a.value_before_type_cast(replies, 0));
    assert_eq!(raw, Ok(RAW));
    assert_eq!(asked, vec![]);
    assert!(!a.has_been_read());
    let mut u = Attribute::uninitialized(NAME, TY);
    let (raw, asked) = run(|replies| u.value_before_type_cast(replies, 0));
    assert_eq!(raw, Ok(Value::Nil));
    assert_eq!(asked, vec![]);
    assert_eq!(u.value_before_type_cast(&vec![], 0), Step::Done { value: Value::Nil, at: 0 });
}

#[test]
fn value_for_database_is_serialized_each_time() {
    let mut a = Attribute::from_database(NAME, RAW, TY);
    let (stored, asked) = run(|replies| a.value_for_database(replies, 0));
    assert_eq!(stored, Ok(Value::Object(4003)));
    assert_eq!(
        asked,
        vec![
            Request::Deserialize { ty: TY, raw: RAW },
            Request::Serialize { ty: TY, value: Value::Object(1003) },
        ]
    );
    assert!(a.has_been_read());
    let (stored, asked) = run(|replies| a.value_for_database(replies, 0));
    assert_eq!(stored, Ok(Value::Object(4003)));
    assert_eq!(asked, vec![Request::Serialize { ty: TY, value: Value::Object(1003) }]);
}

#[test]
fn maybe_proc_is_asked_once() {
    let block = Value::Object(5);
    let mut p = MaybeProc::Proc { block, memo: None };
    assert!(!p.is_resolved());
    assert_eq!(p.value(&vec![], 0), Step::Ask(Request::CallProvider { block }));
    assert!(!p.is_resolved());
    let replies = vec![Reply::Returned(Value::Object(6))];
    assert_eq!(p.value(&replies, 0), Step::Done { value: Value::Object(6), at: 1 });
    assert!(p.is_resolved());
    for _ in 0..3 {
        assert_eq!(p.value(&vec![], 0), Step::Done { value: Value::Object(6), at: 0 });
    }
    p.remember(Value::Object(7));
    assert_eq!(p.value(&vec![], 0), Step::Done { value: Value::Object(6), at: 0 });
    let mut failing = MaybeProc::Proc { block, memo: None };
    let raised = vec![Reply::Raised(Value::Object(13))];
    assert_eq!(failing.value(&raised, 0), Step::Failed(Value::Object(13)));
    assert!(!failing.is_resolved());
    let mut n = MaybeProc::NotProc(RAW);
    n.remember(Value::Object(7));
    assert_eq!(n.value(&vec![], 0), Step::Done { value: RAW, at: 0 });
}

#[test]
fn with_value_from_database_resets_the_source() {
    let base = Attribute::from_database(NAME, RAW, TY);
    let mut assigned = Attribute::from_user(NAME, Value::Object(9), TY, base);
    let _ = run(|replies| assigned.value(false, replies, 0));
    let fresh = assigned.with_value_from_database(Value::Object(11));
    assert_eq!(show(&fresh), show(&Attribute::from_database(NAME, Value::Object(11), TY)));
    let cast = assigned.with_cast_value(Value::Object(12));
    assert_eq!(show(&cast), show(&Attribute::from_cast_value(NAME, Value::Object(12), TY)));
}

#[test]
fn without_cast_value_forgets_what_was_read() {
    let mut a = Attribute::from_database(NAME, RAW, TY);
    let _ = run(|replies| a.value(false, replies, 0));
    assert!(a.has_been_read());
    let b = a.without_cast_value();
    assert!(!b.has_been_read());
    assert_eq!(show(&b), show(&Attribute::from_database(NAME, RAW, TY)));
    assert!(a.has_been_read());
    let u = Attribute::uninitialized(NAME, TY);
    assert_eq!(show(&u.without_cast_value()), show(&u));
}

#[test]
fn source_variants_are_what_the_constructors_say() {
    match Attribute::from_cast_value(NAME, RAW, TY) {
        Attribute::Populated { source: Source::PreCast, raw_value: MaybeProc::NotProc(v), value, .. } => {
            assert_eq!(v, RAW);
            assert_eq!(value, None);
        }
        other => panic!("{:?}", other),
    }
}
