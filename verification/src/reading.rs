use vstd::prelude::*;
use crate::value::Value;
use crate::host::{Request, Reply, Step, reply_at, ask};
use crate::attribute::{Attribute, MaybeProc, Source, coerce_step, cast_value};

verus! {

impl Attribute {
    /// The raw value: the null sentinel where the attribute holds none.
    pub open spec fn raw_step(self, replies: Seq<Reply>, at: usize) -> Step<Value> {
        match self {
            Attribute::Populated { raw_value, .. } => raw_value.step(replies, at),
            Attribute::Uninitialized { .. } => Step::Done { value: Value::Nil, at },
        }
    }

    /// The attribute as reading the raw value leaves it: a deferred
    /// default that answered keeps its answer.
    pub open spec fn after_raw(self, replies: Seq<Reply>, at: usize) -> Attribute {
        match self {
            Attribute::Populated { name, raw_value, ty, source, value } => Attribute::Populated {
                name,
                raw_value: raw_value.after_step(replies, at),
                ty,
                source,
                value,
            },
            Attribute::Uninitialized { .. } => self,
        }
    }

    /// The coerced value. One that was read before is returned as it is.
    /// Otherwise the raw value is found, then coerced as its source asks.
    /// An attribute without a value yields to the block that came with the
    /// read, if any, and is the null sentinel without one.
    pub open spec fn value_step(self, block_given: bool, replies: Seq<Reply>, at: usize) -> Step<
        Value,
    > {
        match self {
            Attribute::Populated { value: Some(v), .. } => Step::Done { value: v, at },
            Attribute::Populated { raw_value, ty, source, value: None, .. } => match raw_value.step(
                replies,
                at,
            ) {
                Step::Done { value: raw, at: then } => coerce_step(source, ty, raw, replies, then),
                other => other,
            },
            Attribute::Uninitialized { name, .. } => if block_given {
                reply_at(replies, at, Request::YieldDefault { name })
            } else {
                Step::Done { value: Value::Nil, at }
            },
        }
    }

    /// The attribute as reading the value leaves it: a deferred default
    /// that answered keeps its answer, and a value that was computed is
    /// kept. A value that was read before stays, and nothing else changes.
    pub open spec fn after_value(self, block_given: bool, replies: Seq<Reply>, at: usize)
        -> Attribute {
        match self {
            Attribute::Populated { name, raw_value, ty, source, value: None } => {
                Attribute::Populated {
                    name,
                    raw_value: raw_value.after_step(replies, at),
                    ty,
                    source,
                    value: match self.value_step(block_given, replies, at) {
                        Step::Done { value, .. } => Some(value),
                        _ => None,
                    },
                }
            },
            _ => self,
        }
    }

    /// What an operation leaves of an attribute: the attribute as it was
    /// while the operation still asks, else the attribute with all that
    /// the operation read.
    pub open spec fn left<T>(self, step: Step<T>, after: Attribute) -> Attribute {
        if step is Ask {
            self
        } else {
            after
        }
    }

    /// The value in the form that is stored: the type's serialization of the
    /// coerced value, asked for anew each time.
    pub open spec fn value_for_database_step(self, replies: Seq<Reply>, at: usize) -> Step<Value> {
        match self.value_step(false, replies, at) {
            Step::Done { value, at: then } => reply_at(
                replies,
                then,
                Request::Serialize { ty: self.spec_ty(), value },
            ),
            other => other,
        }
    }

    /// The raw value, without keeping anything.
    pub(crate) fn peek_raw(&self, replies: &Vec<Reply>, at: usize) -> (r: Step<Value>)
        ensures
            r == self.raw_step(replies@, at),
    {
        match self {
            Attribute::Populated { raw_value, .. } => raw_value.peek(replies, at),
            Attribute::Uninitialized { .. } => Step::Done { value: Value::Nil, at },
        }
    }

    /// Keeps the answer of a deferred default that stands at `at`.
    pub(crate) fn keep_raw(&mut self, replies: &Vec<Reply>, at: usize)
        ensures
            *final(self) == old(self).after_raw(replies@, at),
    {
        match self {
            Attribute::Populated { raw_value, .. } => {
                let _ = raw_value.value(replies, at);
            },
            Attribute::Uninitialized { .. } => {},
        }
    }

    /// The raw value. A deferred default is asked once: its answer is kept.
    pub fn value_before_type_cast(&mut self, replies: &Vec<Reply>, at: usize) -> (r: Step<Value>)
        ensures
            r == old(self).raw_step(replies@, at),
            *final(self) == old(self).after_raw(replies@, at),
            r is Ask ==> *final(self) == *old(self),
    {
        let step = self.peek_raw(replies, at);
        self.keep_raw(replies, at);
        step
    }

    /// The coerced value, without keeping anything.
    pub(crate) fn peek_value(&self, block_given: bool, replies: &Vec<Reply>, at: usize) -> (r:
        Step<Value>)
        ensures
            r == self.value_step(block_given, replies@, at),
    {
        match self {
            Attribute::Populated { value: Some(v), .. } => Step::Done { value: *v, at },
            Attribute::Populated { raw_value, ty, source, value: None, .. } => {
                match raw_value.peek(replies, at) {
                    Step::Done { value: raw, at: then } => cast_value(source, *ty, raw, replies, then),
                    other => other,
                }
            },
            Attribute::Uninitialized { name, .. } => {
                if block_given {
                    ask(Request::YieldDefault { name: *name }, replies, at)
                } else {
                    Step::Done { value: Value::Nil, at }
                }
            },
        }
    }

    /// Keeps what a read of the value at `at` finds.
    pub(crate) fn keep_value(&mut self, block_given: bool, replies: &Vec<Reply>, at: usize)
        ensures
            *final(self) == old(self).after_value(block_given, replies@, at),
    {
        let step = self.peek_value(block_given, replies, at);
        match self {
            Attribute::Populated { raw_value, value, .. } => {
                if value.is_none() {
                    let _ = raw_value.value(replies, at);
                    if let Step::Done { value: v, .. } = step {
                        *value = Some(v);
                    }
                }
            },
            Attribute::Uninitialized { .. } => {},
        }
    }

    /// The coerced value, computed on the first read and kept from then on.
    /// While the result is `Ask`, the attribute stays as it was; a deferred
    /// default that answered before the type failed keeps its answer.
    pub fn value(&mut self, block_given: bool, replies: &Vec<Reply>, at: usize) -> (r: Step<Value>)
        ensures
            r == old(self).value_step(block_given, replies@, at),
            *final(self) == old(self).left(r, old(self).after_value(block_given, replies@, at)),
            old(self).memo() is Some ==> r == (Step::Done { value: old(self).memo().unwrap(), at })
                && *final(self) == *old(self),
            r is Done && *old(self) is Populated ==> final(self).memo() == Some(r->value),
    {
        let step = self.peek_value(block_given, replies, at);
        if !step.is_asking() {
            self.keep_value(block_given, replies, at);
        }
        step
    }

    /// The value in the form that is stored, without keeping anything.
    pub(crate) fn peek_value_for_database(&self, replies: &Vec<Reply>, at: usize) -> (r: Step<
        Value,
    >)
        ensures
            r == self.value_for_database_step(replies@, at),
    {
        match self.peek_value(false, replies, at) {
            Step::Done { value, at: then } => ask(
                Request::Serialize { ty: self.ty(), value },
                replies,
                then,
            ),
            other => other,
        }
    }

    /// The value in the form that is stored. Reads the coerced value, which
    /// is kept even where the type then fails to serialize it. While the
    /// result is `Ask`, the attribute stays as it was.
    pub fn value_for_database(&mut self, replies: &Vec<Reply>, at: usize) -> (r: Step<Value>)
        ensures
            r == old(self).value_for_database_step(replies@, at),
            *final(self) == old(self).left(r, old(self).after_value(false, replies@, at)),
    {
        let step = self.peek_value_for_database(replies, at);
        if !step.is_asking() {
            self.keep_value(false, replies, at);
        }
        step
    }
}

/// A value that was read is returned again without a word to the host:
/// whatever the replies hold, none is used and nothing is asked.
pub proof fn value_is_computed_once(
    a: Attribute,
    block_given: bool,
    replies: Seq<Reply>,
    at: usize,
    later: Seq<Reply>,
    then: usize,
)
    requires
        a is Populated,
        a.value_step(block_given, replies, at) is Done,
    ensures
        a.after_value(block_given, replies, at).value_step(block_given, later, then) == (Step::Done {
            value: a.value_step(block_given, replies, at)->value,
            at: then,
        }),
        a.after_value(block_given, replies, at).after_value(block_given, later, then)
            == a.after_value(block_given, replies, at),
{
}

/// The first read of an attribute from the database asks the type to
/// deserialize the raw value, once; the value it answers with is the
/// value of this read and of every later one, for which nothing is asked.
pub proof fn value_from_database_is_deserialized_once(
    name: Value,
    raw: Value,
    ty: Value,
    block_given: bool,
    replies: Seq<Reply>,
    at: usize,
    later: Seq<Reply>,
    then: usize,
)
    ensures
        ({
            let a = Attribute::Populated {
                name,
                raw_value: MaybeProc::NotProc(raw),
                ty,
                source: Source::FromDatabase,
                value: None,
            };
            &&& at >= replies.len() ==> a.value_step(block_given, replies, at) == Step::<Value>::Ask(
                Request::Deserialize { ty, raw },
            )
            &&& at < replies.len() ==> match replies[at as int] {
                Reply::Returned(v) => a.value_step(block_given, replies, at) == (Step::Done {
                    value: v,
                    at: (at + 1) as usize,
                }) && a.after_value(block_given, replies, at).value_step(block_given, later, then)
                    == (Step::Done { value: v, at: then }),
                Reply::Raised(e) => a.value_step(block_given, replies, at) == Step::<Value>::Failed(
                    e,
                ) && a.after_value(block_given, replies, at) == a,
            }
        }),
{
}

} // verus!
