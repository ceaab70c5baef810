#![allow(deprecated)]

use fast_attributes::attribute::{Attribute, MaybeProc};
use fast_attributes::attribute_set::{AttributeSet, MissingAttribute};
use fast_attributes::host::{Reply, Request, Step};
use fast_attributes::value::Value;
use ordermap::OrderMap;

const A: u64 = 101;
const B: u64 = 102;
const C: u64 = 103;
const TY: Value = Value::Object(2);

fn name(key: u64) -> Value {
    Value::Object(key + 1000)
}

fn raw(key: u64) -> Value {
    Value::Object(key + 2000)
}

fn number(v: Value) -> u64 {
    match v {
        Value::Object(n) => n,
        Value::Bool(true) => 1,
        Value::Bool(false) => 0,
        Value::Nil => 0,
    }
}

fn perform(request: Request) -> Reply {
    match request {
        Request::CallProvider { block } => Reply::Returned(Value::Object(number(block) + 7000)),
        Request::Deserialize { raw, .. } => Reply::Returned(Value::Object(number(raw) + 10000)),
        Request::Cast { raw, .. } => Reply::Returned(Value::Object(number(raw) + 20000)),
        Request::AssertValidValue { value, .. } => {
            if value == Value::Object(666) {
                Reply::Raised(Value::Object(13))
            } else {
                Reply::Returned(Value::Nil)
            }
        }
        Request::Duplicate { value } => Reply::Returned(Value::Object(number(value) + 50000)),
        Request::Equal { lhs, rhs } => Reply::Returned(Value::Bool(lhs == rhs)),
        other => panic!("unexpected request {:?}", other),
    }
}

fn run<T>(mut operation: impl FnMut(&Vec<Reply>) -> Step<T>) -> (Result<T, Value>, Vec<Request>) {
    let mut replies = Vec::new();
    let mut asked = Vec::new();
    loop {
        match operation(&replies) {
            Step::Done { value, at } => {
                assert_eq!(at, replies.len());
                return (Ok(value), asked);
            }
            Step::Ask(request) => {
                asked.push(request);
                replies.push(perform(request));
            }
            Step::Failed(failure) => return (Err(failure), asked),
        }
    }
}

fn show(set: &AttributeSet) -> String {
    let mut out = String::new();
    for i in 0..set.len() {
        out.push_str(&format!("{:?};", set.entry_at(i).unwrap()));
    }
    out
}

/// `a` and `b` from the database, `c` declared without a value.
fn sample() -> AttributeSet {
    let mut map = OrderMap::new();
    map.insert(A, Attribute::from_database(name(A), raw(A), TY));
    map.insert(B, Attribute::from_database(name(B), raw(B), TY));
    map.insert(C, Attribute::uninitialized(name(C), TY));
    AttributeSet::new(map)
}

fn full() -> AttributeSet {
    let mut set = sample();
    set.write_from_database(C, raw(C)).unwrap();
    set
}

#[test]
fn new_set_holds_the_entries_of_the_map_in_order() {
    let set = sample();
    assert_eq!(set.len(), 3);
    let (key, attribute) = set.entry_at(0).unwrap();
    assert_eq!(key, A);
    assert_eq!(attribute.name(), name(A));
    assert_eq!(set.entry_at(1).unwrap().0, B);
    assert_eq!(set.entry_at(2).unwrap().0, C);
    assert!(set.entry_at(3).is_none());
}

#[test]
fn empty_set_has_no_entries() {
    let set = AttributeSet::empty();
    assert_eq!(set.len(), 0);
    assert!(set.entry_at(0).is_none());
    assert!(set.get(A).is_none());
    assert_eq!(set.keys(), vec![]);
    assert_eq!(set.accessed(), vec![]);
}

#[test]
fn get_finds_an_attribute_by_its_key() {
    let set = sample();
    assert_eq!(set.get(B).unwrap().name(), name(B));
    assert_eq!(set.get(C).unwrap().name(), name(C));
    assert!(set.get(999).is_none());
}

#[test]
fn has_key_only_for_attributes_with_a_value() {
    let set = sample();
    assert!(set.has_key(A));
    assert!(set.has_key(B));
    assert!(!set.has_key(C));
    assert!(!set.has_key(999));
}

#[test]
fn set_replaces_in_place_and_appends_new_keys() {
    let mut set = sample();
    set.set(A, Attribute::from_cast_value(name(A), Value::Object(5), TY));
    assert_eq!(set.len(), 3);
    assert_eq!(set.entry_at(0).unwrap().0, A);
    assert_eq!(set.get(A).unwrap().discriminant(), 3);
    set.set(500, Attribute::uninitialized(name(500), TY));
    assert_eq!(set.len(), 4);
    assert_eq!(set.entry_at(3).unwrap().0, 500);
    assert_eq!(set.entry_at(1).unwrap().1.name(), name(B));
}

#[test]
fn keys_lists_the_names_with_a_value_in_order() {
    assert_eq!(sample().keys(), vec![name(A), name(B)]);
    assert_eq!(full().keys(), vec![name(A), name(B), name(C)]);
}

#[test]
fn writing_keeps_the_order_of_keys() {
    let mut set = full();
    set.write_from_database(A, Value::Object(1)).unwrap();
    assert_eq!(set.keys(), vec![name(A), name(B), name(C)]);
    let (written, _) = run(|replies| set.write_from_user(A, Value::Object(2), replies, 0).unwrap());
    assert_eq!(written, Ok(()));
    assert_eq!(set.keys(), vec![name(A), name(B), name(C)]);
    set.write_cast_value(B, Value::Object(3)).unwrap();
    assert_eq!(set.keys(), vec![name(A), name(B), name(C)]);
    assert_eq!(set.entry_at(0).unwrap().0, A);
    assert_eq!(set.entry_at(1).unwrap().0, B);
    assert_eq!(set.entry_at(2).unwrap().0, C);
}

#[test]
fn write_from_database_replaces_the_attribute() {
    let mut set = sample();
    let _ = run(|replies| set.fetch_value(A, false, replies, 0));
    assert_eq!(set.write_from_database(A, Value::Object(7)), Ok(()));
    let a = set.get(A).unwrap();
    assert_eq!(
        format!("{:?}", a),
        format!("{:?}", Attribute::from_database(name(A), Value::Object(7), TY))
    );
    assert_eq!(set.write_from_database(C, Value::Object(8)), Ok(()));
    assert!(set.has_key(C));
}

#[test]
fn write_cast_value_replaces_the_attribute() {
    let mut set = sample();
    assert_eq!(set.write_cast_value(B, Value::Object(7)), Ok(()));
    assert_eq!(
        format!("{:?}", set.get(B).unwrap()),
        format!("{:?}", Attribute::from_cast_value(name(B), Value::Object(7), TY))
    );
}

#[test]
fn write_from_user_keeps_the_attribute_it_replaced() {
    let mut set = sample();
    let before = set.get(A).unwrap().clone();
    let (written, asked) =
        run(|replies| set.write_from_user(A, Value::Object(9), replies, 0).unwrap());
    assert_eq!(written, Ok(()));
    assert_eq!(asked, vec![Request::AssertValidValue { ty: TY, value: Value::Object(9) }]);
    assert_eq!(
        format!("{:?}", set.get(A).unwrap()),
        format!("{:?}", Attribute::from_user(name(A), Value::Object(9), TY, before))
    );
    assert_eq!(set.len(), 3);
}

#[test]
fn writes_to_an_unknown_name_are_errors() {
    let mut set = sample();
    let before = show(&set);
    let keys = set.keys();
    let missing = MissingAttribute { key: 999 };
    assert_eq!(set.write_from_user(999, Value::Object(9), &vec![], 0), Err(missing));
    assert_eq!(set.write_from_database(999, Value::Object(9)), Err(missing));
    assert_eq!(set.write_cast_value(999, Value::Object(9)), Err(missing));
    assert_eq!(show(&set), before);
    assert_eq!(set.keys(), keys);
    let (values, _) = run(|replies| set.to_hash(replies, 0));
    let (expected, _) = run(|replies| sample().to_hash(replies, 0));
    assert_eq!(values, expected);
}

#[test]
fn rejected_write_from_user_leaves_the_set_alone() {
    let mut set = sample();
    let before = show(&set);
    let (written, asked) =
        run(|replies| set.write_from_user(A, Value::Object(666), replies, 0).unwrap());
    assert_eq!(written, Err(Value::Object(13)));
    assert_eq!(asked.len(), 1);
    assert_eq!(show(&set), before);
    assert_eq!(
        set.write_from_user(A, Value::Object(5), &vec![], 0),
        Ok(Step::Ask(Request::AssertValidValue { ty: TY, value: Value::Object(5) }))
    );
    assert_eq!(show(&set), before);
}

#[test]
fn reset_forgets_a_value() {
    let mut set = sample();
    set.reset(A);
    assert_eq!(
        format!("{:?}", set.get(A).unwrap()),
        format!("{:?}", Attribute::from_database(name(A), Value::Nil, TY))
    );
    let before = show(&set);
    set.reset(C);
    set.reset(999);
    assert_eq!(show(&set), before);
}

#[test]
fn fetch_value_reads_once_and_keeps_the_value() {
    let mut set = sample();
    let (value, asked) = run(|replies| set.fetch_value(B, false, replies, 0));
    assert_eq!(value, Ok(Some(Value::Object(number(raw(B)) + 10000))));
    assert_eq!(asked, vec![Request::Deserialize { ty: TY, raw: raw(B) }]);
    assert!(set.get(B).unwrap().has_been_read());
    let (again, asked) = run(|replies| set.fetch_value(B, false, replies, 0));
    assert_eq!(again, value);
    assert_eq!(asked, vec![]);
    assert_eq!(set.entry_at(1).unwrap().0, B);
}

#[test]
fn fetch_value_of_an_unknown_name_is_absent() {
    let mut set = sample();
    let (value, asked) = run(|replies| set.fetch_value(999, false, replies, 0));
    assert_eq!(value, Ok(None));
    assert_eq!(asked, vec![]);
    let (value, asked) = run(|replies| set.fetch_value(C, false, replies, 0));
    assert_eq!(value, Ok(Some(Value::Nil)));
    assert_eq!(asked, vec![]);
}

#[test]
fn fetch_value_keeps_nothing_until_it_is_done() {
    let mut set = sample();
    let before = show(&set);
    assert!(matches!(set.fetch_value(A, false, &vec![], 0), Step::Ask(_)));
    assert_eq!(show(&set), before);
    let replies = vec![Reply::Raised(Value::Object(13))];
    assert_eq!(set.fetch_value(A, false, &replies, 0), Step::Failed(Value::Object(13)));
    assert_eq!(show(&set), before);
}

#[test]
fn accessed_lists_only_what_was_read() {
    let mut set = sample();
    assert_eq!(set.accessed(), vec![]);
    let _ = run(|replies| set.fetch_value(B, false, replies, 0));
    assert_eq!(set.accessed(), vec![name(B)]);
    let _ = run(|replies| set.fetch_value(A, false, replies, 0));
    assert_eq!(set.accessed(), vec![name(A), name(B)]);
}

#[test]
fn to_hash_holds_the_values_of_the_names_with_a_value() {
    let mut set = sample();
    let (values, asked) = run(|replies| set.to_hash(replies, 0));
    assert_eq!(
        values,
        Ok(vec![
            (name(A), Value::Object(number(raw(A)) + 10000)),
            (name(B), Value::Object(number(raw(B)) + 10000)),
        ])
    );
    assert_eq!(
        asked,
        vec![
            Request::Deserialize { ty: TY, raw: raw(A) },
            Request::Deserialize { ty: TY, raw: raw(B) },
        ]
    );
    assert_eq!(set.accessed(), vec![name(A), name(B)]);
    let (again, asked) = run(|replies| set.to_hash(replies, 0));
    assert_eq!(again, values);
    assert_eq!(asked, vec![]);
}

#[test]
fn to_hash_keeps_nothing_while_it_asks() {
    let mut set = sample();
    let before = show(&set);
    let replies = vec![Reply::Returned(Value::Object(1))];
    assert_eq!(
        set.to_hash(&replies, 0),
        Step::Ask(Request::Deserialize { ty: TY, raw: raw(B) })
    );
    assert_eq!(show(&set), before);
}

#[test]
fn to_hash_keeps_what_was_read_before_a_failure() {
    let mut set = sample();
    let replies = vec![Reply::Returned(Value::Object(1)), Reply::Raised(Value::Object(13))];
    assert_eq!(set.to_hash(&replies, 0), Step::Failed(Value::Object(13)));
    assert_eq!(set.accessed(), vec![name(A)]);
    assert_eq!(
        set.fetch_value(A, false, &vec![], 0),
        Step::Done { value: Some(Value::Object(1)), at: 0 }
    );
    assert!(!set.get(B).unwrap().has_been_read());
}

#[test]
fn lookup_after_a_write_finds_what_was_written() {
    let mut set = sample();
    set.write_from_database(B, Value::Object(7)).unwrap();
    assert_eq!(
        format!("{:?}", set.get(B).unwrap()),
        format!("{:?}", Attribute::from_database(name(B), Value::Object(7), TY))
    );
    set.set(500, Attribute::uninitialized(name(500), TY));
    assert_eq!(set.get(500).unwrap().name(), name(500));
    set.reset(B);
    assert_eq!(
        format!("{:?}", set.get(B).unwrap()),
        format!("{:?}", Attribute::from_database(name(B), Value::Nil, TY))
    );
}

#[test]
fn comparing_sets_asks_a_deferred_default_once() {
    let block = Value::Object(5);
    let with_default = || {
        let mut set = sample();
        set.set(
            B,
            Attribute::user_provided_default(
                name(B),
                MaybeProc::Proc { block, memo: None },
                TY,
                None,
            ),
        );
        set
    };
    let call = Request::CallProvider { block };
    let mut left = with_default();
    let mut right = with_default();
    let (equal, asked) = run(|replies| left.equals(&mut right, replies, 0));
    assert_eq!(equal, Ok(true));
    assert_eq!(asked.iter().filter(|request| **request == call).count(), 2);
    assert!(!left.get(B).unwrap().has_open_default());
    assert!(!right.get(B).unwrap().has_open_default());
    let (again, asked) = run(|replies| left.equals(&mut right, replies, 0));
    assert_eq!(again, Ok(true));
    assert!(!asked.contains(&call));
    assert_eq!(left.entry_at(1).unwrap().0, B);

    let mut fresh = with_default();
    let before = show(&fresh);
    assert!(matches!(
        fresh.equals(&mut with_default(), &vec![Reply::Returned(Value::Bool(true)); 3], 0),
        Step::Ask(_)
    ));
    assert_eq!(show(&fresh), before);
}

#[test]
fn values_before_type_cast_lists_every_entry() {
    let mut set = sample();
    let (values, asked) = run(|replies| set.values_before_type_cast(replies, 0));
    assert_eq!(
        values,
        Ok(vec![(name(A), raw(A)), (name(B), raw(B)), (name(C), Value::Nil)])
    );
    assert_eq!(asked, vec![]);
    assert_eq!(set.accessed(), vec![]);
}

#[test]
fn values_before_type_cast_asks_a_deferred_default_once() {
    let block = Value::Object(5);
    let mut set = sample();
    set.set(
        B,
        Attribute::user_provided_default(name(B), MaybeProc::Proc { block, memo: None }, TY, None),
    );
    let (values, asked) = run(|replies| set.values_before_type_cast(replies, 0));
    assert_eq!(
        values,
        Ok(vec![(name(A), raw(A)), (name(B), Value::Object(7005)), (name(C), Value::Nil)])
    );
    assert_eq!(asked, vec![Request::CallProvider { block }]);
    let (again, asked) = run(|replies| set.values_before_type_cast(replies, 0));
    assert_eq!(again, values);
    assert_eq!(asked, vec![]);
}

#[test]
fn duplicate_has_the_same_entries() {
    let mut set = sample();
    let _ = run(|replies| set.fetch_value(A, false, replies, 0));
    let copy = set.duplicate();
    assert_eq!(show(&copy), show(&set));
}

#[test]
fn deep_dup_copies_every_entry() {
    let mut set = sample();
    let _ = run(|replies| set.fetch_value(B, false, replies, 0));
    let read = Value::Object(number(raw(B)) + 10000);
    let (copy, asked) = run(|replies| set.deep_dup(replies, 0));
    assert_eq!(asked, vec![Request::Duplicate { value: read }]);
    let mut copy = copy.unwrap();
    assert_eq!(copy.len(), 3);
    assert_eq!(copy.keys(), set.keys());
    assert_eq!(copy.entry_at(0).unwrap().0, A);
    assert_eq!(copy.entry_at(2).unwrap().0, C);
    let (theirs, _) = run(|replies| copy.fetch_value(B, false, replies, 0));
    assert_eq!(theirs, Ok(Some(Value::Object(number(read) + 50000))));
    let (ours, _) = run(|replies| set.fetch_value(B, false, replies, 0));
    assert_eq!(ours, Ok(Some(read)));
    copy.write_from_database(A, Value::Object(1)).unwrap();
    assert_eq!(
        format!("{:?}", set.get(A).unwrap()),
        format!("{:?}", Attribute::from_database(name(A), raw(A), TY))
    );
}

#[test]
fn map_transforms_every_attribute_under_its_key() {
    let set = sample();
    let seen = std::cell::RefCell::new(Vec::new());
    let mapped = set.map(|a| {
        seen.borrow_mut().push(a.name());
        Attribute::from_cast_value(a.name(), Value::Object(7), Value::Object(8))
    });
    assert_eq!(seen.into_inner(), vec![name(A), name(B), name(C)]);
    assert_eq!(mapped.len(), 3);
    for (i, key) in [A, B, C].into_iter().enumerate() {
        let (found, attribute) = mapped.entry_at(i).unwrap();
        assert_eq!(found, key);
        assert_eq!(
            format!("{:?}", attribute),
            format!(
                "{:?}",
                Attribute::from_cast_value(name(key), Value::Object(7), Value::Object(8))
            )
        );
    }
    assert_eq!(set.get(A).unwrap().discriminant(), 2);
    assert_eq!(AttributeSet::empty().map(|a| a.clone()).len(), 0);
}

#[test]
fn sets_are_equal_whatever_their_order() {
    let mut set = sample();
    let mut other = AttributeSet::empty();
    other.set(C, Attribute::uninitialized(name(C), TY));
    other.set(B, Attribute::from_database(name(B), raw(B), TY));
    other.set(A, Attribute::from_database(name(A), raw(A), TY));
    let (equal, asked) = run(|replies| set.equals(&mut other, replies, 0));
    assert_eq!(equal, Ok(true));
    assert_eq!(asked.len(), 8);
}

#[test]
fn sets_differ_by_size_key_or_attribute() {
    let mut set = sample();
    let mut more = sample();
    more.set(500, Attribute::uninitialized(name(500), TY));
    let (equal, asked) = run(|replies| set.equals(&mut more, replies, 0));
    assert_eq!(equal, Ok(false));
    assert_eq!(asked, vec![]);

    let mut other_key = AttributeSet::empty();
    other_key.set(A, Attribute::from_database(name(A), raw(A), TY));
    other_key.set(B, Attribute::from_database(name(B), raw(B), TY));
    other_key.set(500, Attribute::uninitialized(name(C), TY));
    let (equal, asked) = run(|replies| set.equals(&mut other_key, replies, 0));
    assert_eq!(equal, Ok(false));
    assert_eq!(asked.len(), 6);

    let mut other_value = sample();
    other_value.write_from_database(A, Value::Object(1)).unwrap();
    let (equal, asked) = run(|replies| set.equals(&mut other_value, replies, 0));
    assert_eq!(equal, Ok(false));
    assert_eq!(asked.len(), 2);
}
