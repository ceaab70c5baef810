use fast_attributes::attribute::{Attribute, MaybeProc, Source};
use fast_attributes::codec::{dump_source, load_source, Document, Dump, MalformedState, SourceRecord};
use fast_attributes::host::{Reply, Request, Step};
use fast_attributes::value::Value;

const NAME: Value = Value::Object(1);
const TY: Value = Value::Object(2);
const RAW: Value = Value::Object(3);

fn show<T: std::fmt::Debug>(a: &T) -> String {
    format!("{:?}", a)
}

fn finished<T>(step: Step<T>) -> T {
    match step {
        Step::Done { value, .. } => value,
        Step::Ask(request) => panic!("asked {:?}", request),
        Step::Failed(failure) => panic!("raised {:?}", failure),
    }
}

fn every_source() -> Vec<Attribute> {
    let base = Attribute::from_database(NAME, RAW, TY);
    vec![
        Attribute::from_user(NAME, Value::Object(9), TY, base.clone()),
        base.clone(),
        Attribute::from_cast_value(NAME, RAW, TY),
        Attribute::user_provided_default(NAME, MaybeProc::NotProc(RAW), TY, None),
        Attribute::user_provided_default(NAME, MaybeProc::NotProc(RAW), TY, Some(base)),
        Attribute::uninitialized(NAME, TY),
    ]
}

fn empty_document() -> Document {
    Document {
        name: NAME,
        ty: TY,
        raw_value: Value::Nil,
        source: None,
        value: None,
        value_before_type_cast: Value::Nil,
        original_attribute: None,
    }
}

#[test]
fn source_tags_are_one_to_four() {
    let base = Attribute::from_database(NAME, RAW, TY);
    let user = dump_source(&Source::FromUser(Box::new(base.clone())));
    assert_eq!(user.tag, 1);
    assert_eq!(show(&user.original), show(&Some(Box::new(base.clone()))));
    let database = dump_source(&Source::FromDatabase);
    assert_eq!(database.tag, 2);
    assert!(database.original.is_none());
    let cast = dump_source(&Source::PreCast);
    assert_eq!(cast.tag, 3);
    assert!(cast.original.is_none());
    let default = dump_source(&Source::UserProvidedDefault(None));
    assert_eq!(default.tag, 4);
    assert!(default.original.is_none());
    let over = dump_source(&Source::UserProvidedDefault(Some(Box::new(base.clone()))));
    assert_eq!(over.tag, 4);
    assert_eq!(show(&over.original), show(&Some(Box::new(base))));
}

#[test]
fn load_source_reads_each_tag() {
    let base = Attribute::from_database(NAME, RAW, TY);
    let boxed = || Some(Box::new(base.clone()));
    assert_eq!(
        show(&load_source(SourceRecord { tag: 1, original: boxed() })),
        show(&Ok::<Source, MalformedState>(Source::FromUser(Box::new(base.clone()))))
    );
    assert!(matches!(load_source(SourceRecord { tag: 2, original: None }), Ok(Source::FromDatabase)));
    assert!(matches!(
        load_source(SourceRecord { tag: 2, original: boxed() }),
        Ok(Source::FromDatabase)
    ));
    assert!(matches!(load_source(SourceRecord { tag: 3, original: None }), Ok(Source::PreCast)));
    assert!(matches!(
        load_source(SourceRecord { tag: 4, original: None }),
        Ok(Source::UserProvidedDefault(None))
    ));
    assert!(matches!(
        load_source(SourceRecord { tag: 4, original: boxed() }),
        Ok(Source::UserProvidedDefault(Some(_)))
    ));
}

#[test]
fn unrecognized_tag_is_malformed() {
    for tag in [0, 5, -1, 100] {
        let outcome = load_source(SourceRecord { tag, original: None });
        assert_eq!(outcome.err(), Some(MalformedState::UnrecognizedSource(tag)));
    }
    let dump = Dump::Populated {
        name: NAME,
        ty: TY,
        raw_value: RAW,
        source: SourceRecord { tag: 7, original: None },
    };
    assert_eq!(Attribute::load_data(dump).err(), Some(MalformedState::UnrecognizedSource(7)));
    let mut document = empty_document();
    document.source = Some(SourceRecord { tag: 9, original: None });
    assert_eq!(Attribute::init_with(document).err(), Some(MalformedState::UnrecognizedSource(9)));
}

#[test]
fn assignment_without_original_is_malformed() {
    let outcome = load_source(SourceRecord { tag: 1, original: None });
    assert_eq!(outcome.err(), Some(MalformedState::MissingOriginal));
}

#[test]
fn dump_then_load_gives_the_attribute_back() {
    for mut a in every_source() {
        let dump = finished(a.dump_data(&vec![], 0));
        let mut back = Attribute::load_data(dump).unwrap();
        assert_eq!(show(&back), show(&a));
        assert_eq!(
            back.equals(&mut a, &vec![Reply::Returned(Value::Bool(true)); 3], 0),
            Step::Done { value: true, at: if a.is_initialized() { 3 } else { 2 } }
        );
    }
}

#[test]
fn dump_of_an_uninitialized_attribute_holds_name_and_type() {
    let mut a = Attribute::uninitialized(NAME, TY);
    match finished(a.dump_data(&vec![], 0)) {
        Dump::Uninitialized { name, ty } => {
            assert_eq!(name, NAME);
            assert_eq!(ty, TY);
        }
        other => panic!("{:?}", other),
    }
}

#[test]
fn dump_forgets_what_was_read() {
    let mut a = Attribute::from_database(NAME, RAW, TY);
    let _ = a.value(false, &vec![Reply::Returned(Value::Object(4))], 0);
    assert!(a.has_been_read());
    let back = Attribute::load_data(finished(a.dump_data(&vec![], 0))).unwrap();
    assert!(!back.has_been_read());
    assert_eq!(show(&back), show(&Attribute::from_database(NAME, RAW, TY)));
}

#[test]
fn dump_of_a_deferred_default_asks_for_it_once() {
    let block = Value::Object(5);
    let mut a =
        Attribute::user_provided_default(NAME, MaybeProc::Proc { block, memo: None }, TY, None);
    assert!(matches!(a.dump_data(&vec![], 0), Step::Ask(Request::CallProvider { .. })));
    assert!(a.has_open_default());
    let dump = finished(a.dump_data(&vec![Reply::Returned(Value::Object(70))], 0));
    assert!(!a.has_open_default());
    let mut back = Attribute::load_data(dump).unwrap();
    assert_eq!(
        show(&back),
        show(&Attribute::user_provided_default(NAME, MaybeProc::NotProc(Value::Object(70)), TY, None))
    );
    let yes = vec![Reply::Returned(Value::Bool(true)); 3];
    assert_eq!(back.equals(&mut a, &yes, 0), Step::Done { value: true, at: 3 });
    assert_eq!(
        a.value_before_type_cast(&vec![], 0),
        Step::Done { value: Value::Object(70), at: 0 }
    );

    let mut b =
        Attribute::user_provided_default(NAME, MaybeProc::Proc { block, memo: None }, TY, None);
    let document = finished(b.encode_with(&vec![Reply::Returned(Value::Object(71))], 0));
    assert_eq!(document.raw_value, Value::Object(71));
    assert!(!b.has_open_default());
    let mut back = Attribute::init_with(document).unwrap();
    assert_eq!(back.equals(&mut b, &yes, 0), Step::Done { value: true, at: 3 });
}

#[test]
fn a_document_tells_a_null_value_that_was_read_from_nothing_read() {
    let mut a = Attribute::from_database(NAME, RAW, TY);
    let _ = a.value(false, &vec![Reply::Returned(Value::Nil)], 0);
    assert!(a.has_been_read());
    let document = finished(a.encode_with(&vec![], 0));
    assert_eq!(document.value, Some(Value::Nil));
    let back = Attribute::init_with(document).unwrap();
    assert!(back.has_been_read());
    assert_eq!(show(&back), show(&a));
}

#[test]
fn encode_then_init_gives_the_attribute_back() {
    for mut a in every_source() {
        let document = finished(a.encode_with(&vec![], 0));
        assert_eq!(document.name, NAME);
        assert_eq!(document.ty, TY);
        assert_eq!(document.value, None);
        assert_eq!(document.source.is_some(), a.is_initialized());
        let back = Attribute::init_with(document).unwrap();
        assert_eq!(show(&back), show(&a));

        let _ = a.value(false, &vec![Reply::Returned(Value::Object(4))], 0);
        let document = finished(a.encode_with(&vec![], 0));
        let back = Attribute::init_with(document).unwrap();
        assert_eq!(show(&back), show(&a));
        assert_eq!(back.has_been_read(), a.is_initialized());
    }
}

#[test]
fn document_without_source_is_uninitialized() {
    let mut document = empty_document();
    document.raw_value = RAW;
    document.value = Some(Value::Object(4));
    let a = Attribute::init_with(document).unwrap();
    assert_eq!(show(&a), show(&Attribute::uninitialized(NAME, TY)));
}

#[test]
fn older_document_from_database() {
    let mut document = empty_document();
    document.value_before_type_cast = RAW;
    document.value = Some(Value::Object(4));
    let a = Attribute::init_with_from_database(document).unwrap();
    let mut expected = Attribute::from_database(NAME, RAW, TY);
    let _ = expected.value(false, &vec![Reply::Returned(Value::Object(4))], 0);
    assert_eq!(show(&a), show(&expected));

    let mut unread = empty_document();
    unread.value_before_type_cast = RAW;
    let a = Attribute::init_with_from_database(unread).unwrap();
    assert_eq!(show(&a), show(&Attribute::from_database(NAME, RAW, TY)));
}

#[test]
fn older_document_from_user_becomes_a_default() {
    let base = Attribute::from_database(NAME, RAW, TY);
    let mut document = empty_document();
    document.value_before_type_cast = Value::Object(9);
    document.original_attribute = Some(Box::new(base.clone()));
    let a = Attribute::init_with_from_user(document).unwrap();
    assert_eq!(
        show(&a),
        show(&Attribute::user_provided_default(
            NAME,
            MaybeProc::NotProc(Value::Object(9)),
            TY,
            Some(base)
        ))
    );
    let mut document = empty_document();
    document.value_before_type_cast = Value::Object(9);
    let a = Attribute::init_with_from_user(document).unwrap();
    assert_eq!(
        show(&a),
        show(&Attribute::user_provided_default(NAME, MaybeProc::NotProc(Value::Object(9)), TY, None))
    );
}

#[test]
fn newer_document_is_read_by_its_source_whoever_reads_it() {
    let mut document = empty_document();
    document.raw_value = RAW;
    document.value_before_type_cast = Value::Object(9);
    document.source = Some(SourceRecord { tag: 3, original: None });
    let a = Attribute::init_with_from_database(document).unwrap();
    assert_eq!(show(&a), show(&Attribute::from_cast_value(NAME, RAW, TY)));
    let mut document = empty_document();
    document.raw_value = RAW;
    document.source = Some(SourceRecord { tag: 2, original: None });
    let a = Attribute::init_with_from_user(document).unwrap();
    assert_eq!(show(&a), show(&Attribute::from_database(NAME, RAW, TY)));
    let mut document = empty_document();
    document.source = Some(SourceRecord { tag: 12, original: None });
    assert_eq!(
        Attribute::init_with_from_user(document).err(),
        Some(MalformedState::UnrecognizedSource(12))
    );
}
