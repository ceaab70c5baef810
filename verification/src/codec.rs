use vstd::prelude::*;
use crate::value::Value;
use crate::host::{Reply, Step};
use crate::attribute::{Attribute, MaybeProc, Source};

verus! {

/// A source as it is written down: its tag, and the attribute that was
/// replaced where the source keeps one.
#[derive(Debug)]
pub struct SourceRecord {
    pub tag: i32,
    pub original: Option<Box<Attribute>>,
}

/// An attribute as a tagged record: name, type, raw value and source for
/// one with a value, name and type for one without.
#[derive(Debug)]
pub enum Dump {
    Populated { name: Value, ty: Value, raw_value: Value, source: SourceRecord },
    Uninitialized { name: Value, ty: Value },
}

/// An attribute as a document of keys and values. A key that is absent
/// reads as the null sentinel, or as `None`; `value` is the value that was
/// read, which may be the null sentinel. The last two keys are only found
/// in documents of an older form, which have no `source`.
#[derive(Debug)]
pub struct Document {
    pub name: Value,
    pub ty: Value,
    pub raw_value: Value,
    pub source: Option<SourceRecord>,
    pub value: Option<Value>,
    pub value_before_type_cast: Value,
    pub original_attribute: Option<Box<Attribute>>,
}

/// Why a record or a document stands for no attribute.
#[derive(Clone, Copy, PartialEq, Eq, Structural, Debug)]
pub enum MalformedState {
    /// The tag names no source.
    UnrecognizedSource(i32),
    /// The source is an assignment, and the attribute it replaced is
    /// missing.
    MissingOriginal,
}

/// The tag of a source: 1 assigned, 2 from the database, 3 already cast,
/// 4 a default.
pub open spec fn source_tag(source: Source) -> i32 {
    match source {
        Source::FromUser(_) => 1i32,
        Source::FromDatabase => 2i32,
        Source::PreCast => 3i32,
        Source::UserProvidedDefault(_) => 4i32,
    }
}

/// The attribute that a source keeps.
pub open spec fn source_original(source: Source) -> Option<Box<Attribute>> {
    match source {
        Source::FromUser(orig) => Some(orig),
        Source::UserProvidedDefault(orig) => orig,
        _ => None,
    }
}

/// The source that a record stands for. Tags 2 and 3 take no attribute and
/// ignore one that is there.
pub open spec fn decoded_source(record: SourceRecord) -> Result<Source, MalformedState> {
    if record.tag == 1 {
        match record.original {
            Some(orig) => Ok(Source::FromUser(orig)),
            None => Err(MalformedState::MissingOriginal),
        }
    } else if record.tag == 2 {
        Ok(Source::FromDatabase)
    } else if record.tag == 3 {
        Ok(Source::PreCast)
    } else if record.tag == 4 {
        Ok(Source::UserProvidedDefault(record.original))
    } else {
        Err(MalformedState::UnrecognizedSource(record.tag))
    }
}

/// A source as it is written down.
pub fn dump_source(source: &Source) -> (r: SourceRecord)
    ensures
        r.tag == source_tag(*source),
        r.original == source_original(*source),
{
    match source {
        Source::FromUser(orig) => {
            let copy: Attribute = (**orig).clone();
            SourceRecord { tag: 1, original: Some(Box::new(copy)) }
        },
        Source::FromDatabase => SourceRecord { tag: 2, original: None },
        Source::PreCast => SourceRecord { tag: 3, original: None },
        Source::UserProvidedDefault(Some(orig)) => {
            let copy: Attribute = (**orig).clone();
            SourceRecord { tag: 4, original: Some(Box::new(copy)) }
        },
        Source::UserProvidedDefault(None) => SourceRecord { tag: 4, original: None },
    }
}

/// The source that a record stands for, or why it stands for none.
pub fn load_source(record: SourceRecord) -> (r: Result<Source, MalformedState>)
    ensures
        r == decoded_source(record),
{
    if record.tag == 1 {
        match record.original {
            Some(orig) => Ok(Source::FromUser(orig)),
            None => Err(MalformedState::MissingOriginal),
        }
    } else if record.tag == 2 {
        Ok(Source::FromDatabase)
    } else if record.tag == 3 {
        Ok(Source::PreCast)
    } else if record.tag == 4 {
        Ok(Source::UserProvidedDefault(record.original))
    } else {
        Err(MalformedState::UnrecognizedSource(record.tag))
    }
}

/// The attribute that a tagged record stands for.
pub open spec fn loaded(dump: Dump) -> Result<Attribute, MalformedState> {
    match dump {
        Dump::Populated { name, ty, raw_value, source } => match decoded_source(source) {
            Ok(source) => Ok(
                Attribute::Populated {
                    name,
                    raw_value: MaybeProc::NotProc(raw_value),
                    ty,
                    source,
                    value: None,
                },
            ),
            Err(e) => Err(e),
        },
        Dump::Uninitialized { name, ty } => Ok(Attribute::Uninitialized { name, ty }),
    }
}

/// The attribute that a document with a source stands for, or the one
/// without a value that a document without a source stands for.
pub open spec fn initialized(document: Document) -> Result<Attribute, MalformedState> {
    match document.source {
        None => Ok(Attribute::Uninitialized { name: document.name, ty: document.ty }),
        Some(record) => match decoded_source(record) {
            Ok(source) => Ok(
                Attribute::Populated {
                    name: document.name,
                    raw_value: MaybeProc::NotProc(document.raw_value),
                    ty: document.ty,
                    source,
                    value: document.value,
                },
            ),
            Err(e) => Err(e),
        },
    }
}

impl Attribute {
    /// The tagged record of an attribute, with `raw` as its raw value.
    pub open spec fn dumped(self, raw: Value) -> Dump {
        match self {
            Attribute::Populated { name, ty, source, .. } => Dump::Populated {
                name,
                ty,
                raw_value: raw,
                source: SourceRecord { tag: source_tag(source), original: source_original(source) },
            },
            Attribute::Uninitialized { name, ty } => Dump::Uninitialized { name, ty },
        }
    }

    /// The document of an attribute, with `raw` as its raw value.
    pub open spec fn encoded(self, raw: Value) -> Document {
        Document {
            name: self.spec_name(),
            ty: self.spec_ty(),
            raw_value: raw,
            source: match self {
                Attribute::Populated { source, .. } => Some(
                    SourceRecord { tag: source_tag(source), original: source_original(source) },
                ),
                Attribute::Uninitialized { .. } => None,
            },
            value: self.memo(),
            value_before_type_cast: Value::Nil,
            original_attribute: None,
        }
    }

    /// The tagged record, once the raw value is found. A deferred default
    /// keeps the answer that is written. While the result is `Ask`, the
    /// attribute stays as it was.
    pub fn dump_data(&mut self, replies: &Vec<Reply>, at: usize) -> (r: Step<Dump>)
        ensures
            match old(self).raw_step(replies@, at) {
                Step::Done { value: raw, at: then } => r == (Step::Done {
                    value: old(self).dumped(raw),
                    at: then,
                }),
                Step::Ask(request) => r == Step::<Dump>::Ask(request),
                Step::Failed(failure) => r == Step::<Dump>::Failed(failure),
            },
            *final(self) == old(self).after_raw(replies@, at),
            r is Done ==> final(self).known_raw() == Some(old(self).raw_step(replies@, at)->value),
    {
        let step = self.value_before_type_cast(replies, at);
        match step {
            Step::Done { value: raw, at: then } => {
                let dump = match self {
                    Attribute::Populated { name, ty, source, .. } => Dump::Populated {
                        name: *name,
                        ty: *ty,
                        raw_value: raw,
                        source: dump_source(source),
                    },
                    Attribute::Uninitialized { name, ty } => Dump::Uninitialized {
                        name: *name,
                        ty: *ty,
                    },
                };
                Step::Done { value: dump, at: then }
            },
            Step::Ask(request) => Step::Ask(request),
            Step::Failed(failure) => Step::Failed(failure),
        }
    }

    /// The attribute that a tagged record stands for. Nothing counts as read.
    pub fn load_data(dump: Dump) -> (r: Result<Attribute, MalformedState>)
        ensures
            r == loaded(dump),
    {
        match dump {
            Dump::Populated { name, ty, raw_value, source } => match load_source(source) {
                Ok(source) => Ok(
                    Attribute::Populated {
                        name,
                        raw_value: MaybeProc::NotProc(raw_value),
                        ty,
                        source,
                        value: None,
                    },
                ),
                Err(e) => Err(e),
            },
            Dump::Uninitialized { name, ty } => Ok(Attribute::Uninitialized { name, ty }),
        }
    }

    /// The document, once the raw value is found. A deferred default keeps
    /// the answer that is written. While the result is `Ask`, the
    /// attribute stays as it was.
    pub fn encode_with(&mut self, replies: &Vec<Reply>, at: usize) -> (r: Step<Document>)
        ensures
            match old(self).raw_step(replies@, at) {
                Step::Done { value: raw, at: then } => r == (Step::Done {
                    value: old(self).encoded(raw),
                    at: then,
                }),
                Step::Ask(request) => r == Step::<Document>::Ask(request),
                Step::Failed(failure) => r == Step::<Document>::Failed(failure),
            },
            *final(self) == old(self).after_raw(replies@, at),
            r is Done ==> final(self).known_raw() == Some(old(self).raw_step(replies@, at)->value),
    {
        let step = self.value_before_type_cast(replies, at);
        match step {
            Step::Done { value: raw, at: then } => {
                let (source, value) = match self {
                    Attribute::Populated { source, value, .. } => (Some(dump_source(source)), *value),
                    Attribute::Uninitialized { .. } => (None, None),
                };
                Step::Done {
                    value: Document {
                        name: self.name(),
                        ty: self.ty(),
                        raw_value: raw,
                        source,
                        value,
                        value_before_type_cast: Value::Nil,
                        original_attribute: None,
                    },
                    at: then,
                }
            },
            Step::Ask(request) => Step::Ask(request),
            Step::Failed(failure) => Step::Failed(failure),
        }
    }

    /// The attribute that a document stands for. A value in the document counts
    /// as read.
    pub fn init_with(document: Document) -> (r: Result<Attribute, MalformedState>)
        ensures
            r == initialized(document),
    {
        match document.source {
            None => Ok(Attribute::Uninitialized { name: document.name, ty: document.ty }),
            Some(record) => match load_source(record) {
                Ok(source) => Ok(
                    Attribute::Populated {
                        name: document.name,
                        raw_value: MaybeProc::NotProc(document.raw_value),
                        ty: document.ty,
                        source,
                        value: document.value,
                    },
                ),
                Err(e) => Err(e),
            },
        }
    }

    /// Reads a document that may be of the older form for an attribute
    /// from the database: without a source, the raw value stands under
    /// `value_before_type_cast`.
    pub fn init_with_from_database(document: Document) -> (r: Result<Attribute, MalformedState>)
        ensures
            document.source is Some ==> r == initialized(document),
            document.source is None ==> r == Ok::<Attribute, MalformedState>(
                Attribute::Populated {
                    name: document.name,
                    raw_value: MaybeProc::NotProc(document.value_before_type_cast),
                    ty: document.ty,
                    source: Source::FromDatabase,
                    value: document.value,
                },
            ),
    {
        if document.source.is_some() {
            return Self::init_with(document);
        }
        Ok(
            Attribute::Populated {
                name: document.name,
                raw_value: MaybeProc::NotProc(document.value_before_type_cast),
                ty: document.ty,
                source: Source::FromDatabase,
                value: document.value,
            },
        )
    }

    /// Reads a document that may be of the older form for an assigned
    /// attribute. Without a source it becomes a default, the one source
    /// that may lack the attribute it replaced, which such a document need
    /// not hold.
    pub fn init_with_from_user(document: Document) -> (r: Result<Attribute, MalformedState>)
        ensures
            document.source is Some ==> r == initialized(document),
            document.source is None ==> r == Ok::<Attribute, MalformedState>(
                Attribute::Populated {
                    name: document.name,
                    raw_value: MaybeProc::NotProc(document.value_before_type_cast),
                    ty: document.ty,
                    source: Source::UserProvidedDefault(document.original_attribute),
                    value: document.value,
                },
            ),
    {
        if document.source.is_some() {
            return Self::init_with(document);
        }
        Ok(
            Attribute::Populated {
                name: document.name,
                raw_value: MaybeProc::NotProc(document.value_before_type_cast),
                ty: document.ty,
                source: Source::UserProvidedDefault(document.original_attribute),
                value: document.value,
            },
        )
    }
}

/// Written down and read back, an attribute of any source is alike the
/// attribute as `dump_data` and `encode_with` leave it, in both forms, and
/// it has replaced the same attribute. The host therefore finds the two
/// equal where it finds a value equal to itself, and since the attribute
/// that was written has kept the answer of its deferred default, nothing
/// is asked of that default again. The original value is asked for in the
/// same way, and a document also brings back what was read.
pub proof fn written_and_read_back_is_alike(
    a: Attribute,
    replies: Seq<Reply>,
    at: usize,
    later: Seq<Reply>,
    then: usize,
)
    requires
        a.raw_step(replies, at) is Done,
    ensures
        loaded(a.dumped(a.raw_step(replies, at)->value))->Ok_0.original_value_step(later, then)
            == a.after_raw(replies, at).original_value_step(later, then),
        initialized(a.encoded(a.raw_step(replies, at)->value))->Ok_0.original_value_step(
            later,
            then,
        ) == a.after_raw(replies, at).original_value_step(later, then),
        a.after_raw(replies, at).known_raw() == Some(a.raw_step(replies, at)->value),
        loaded(a.dumped(a.raw_step(replies, at)->value)) is Ok,
        loaded(a.dumped(a.raw_step(replies, at)->value))->Ok_0.alike(a.after_raw(replies, at)),
        loaded(a.dumped(a.raw_step(replies, at)->value))->Ok_0.prior() == a.prior(),
        loaded(a.dumped(a.raw_step(replies, at)->value))->Ok_0.memo() is None,
        initialized(a.encoded(a.raw_step(replies, at)->value)) is Ok,
        initialized(a.encoded(a.raw_step(replies, at)->value))->Ok_0.alike(
            a.after_raw(replies, at),
        ),
        initialized(a.encoded(a.raw_step(replies, at)->value))->Ok_0.prior() == a.prior(),
        initialized(a.encoded(a.raw_step(replies, at)->value))->Ok_0.memo() == a.memo(),
{
}

} // verus!
