use vstd::prelude::*;
use crate::value::Value;
use crate::host::{Request, Reply, Step, reply_at, ask};
use crate::attribute::{Attribute, MaybeProc, verdict, truth};

verus! {

/// What the host hashes for an attribute.
#[derive(Clone, Copy, PartialEq, Eq, Structural, Debug)]
pub struct HashKey {
    pub kind: u8,
    pub name: Value,
    pub raw_value: Value,
    pub ty: Value,
}

/// Whether the host holds `lhs` and `rhs` to be equal.
pub open spec fn same_step(lhs: Value, rhs: Value, replies: Seq<Reply>, at: usize) -> Step<bool> {
    verdict(reply_at(replies, at, Request::Equal { lhs, rhs }))
}

/// Asks the host whether `lhs` and `rhs` are equal.
pub fn ruby_equals(lhs: Value, rhs: Value, replies: &Vec<Reply>, at: usize) -> (r: Step<bool>)
    ensures
        r == same_step(lhs, rhs, replies@, at),
{
    truth(ask(Request::Equal { lhs, rhs }, replies, at))
}

/// Whether two raw values are equal: both are found, then the host
/// compares them.
pub open spec fn same_raw_step(lhs: MaybeProc, rhs: MaybeProc, replies: Seq<Reply>, at: usize)
    -> Step<bool> {
    match lhs.step(replies, at) {
        Step::Done { value: left, at: first } => match rhs.step(replies, first) {
            Step::Done { value: right, at: second } => same_step(left, right, replies, second),
            Step::Ask(request) => Step::Ask(request),
            Step::Failed(failure) => Step::Failed(failure),
        },
        Step::Ask(request) => Step::Ask(request),
        Step::Failed(failure) => Step::Failed(failure),
    }
}

/// Whether two raw values are equal to the host, without keeping anything.
pub(crate) fn raw_equals(lhs: &MaybeProc, rhs: &MaybeProc, replies: &Vec<Reply>, at: usize) -> (r: Step<
    bool,
>)
    ensures
        r == same_raw_step(*lhs, *rhs, replies@, at),
{
    match lhs.peek(replies, at) {
        Step::Done { value: left, at: first } => match rhs.peek(replies, first) {
            Step::Done { value: right, at: second } => ruby_equals(left, right, replies, second),
            Step::Ask(request) => Step::Ask(request),
            Step::Failed(failure) => Step::Failed(failure),
        },
        Step::Ask(request) => Step::Ask(request),
        Step::Failed(failure) => Step::Failed(failure),
    }
}

impl Attribute {
    /// Equality of two attributes. They are of the same form and source,
    /// and the host holds their names, their raw values and their types to
    /// be equal, asked in that order until one differs. Attributes of
    /// different form or source differ with nothing asked; what either
    /// replaced, and what was read, is not looked at.
    pub open spec fn equal_step(self, other: Attribute, replies: Seq<Reply>, at: usize) -> Step<
        bool,
    > {
        if self.kind() != other.kind() {
            Step::Done { value: false, at }
        } else {
            match same_step(self.spec_name(), other.spec_name(), replies, at) {
                Step::Done { value: true, at: first } => match (self, other) {
                    (
                        Attribute::Populated { raw_value: left, .. },
                        Attribute::Populated { raw_value: right, .. },
                    ) => match same_raw_step(left, right, replies, first) {
                        Step::Done { value: true, at: second } => same_step(
                            self.spec_ty(),
                            other.spec_ty(),
                            replies,
                            second,
                        ),
                        other_step => other_step,
                    },
                    _ => same_step(self.spec_ty(), other.spec_ty(), replies, first),
                },
                other_step => other_step,
            }
        }
    }

    /// The number of the form and source, the name, the raw value and the
    /// type: what the hash of an attribute is taken from.
    pub open spec fn hash_key_step(self, replies: Seq<Reply>, at: usize) -> Step<HashKey> {
        match self.raw_step(replies, at) {
            Step::Done { value: raw_value, at: then } => Step::Done {
                value: HashKey {
                    kind: self.kind(),
                    name: self.spec_name(),
                    raw_value,
                    ty: self.spec_ty(),
                },
                at: then,
            },
            Step::Ask(request) => Step::Ask(request),
            Step::Failed(failure) => Step::Failed(failure),
        }
    }

    /// Whether two attributes are equal: see `equal_step`. A deferred
    /// default on either side is asked once: its answer is kept. While the
    /// result is `Ask`, both attributes stay as they were.
    pub fn equals(&mut self, other: &mut Attribute, replies: &Vec<Reply>, at: usize) -> (r: Step<
        bool,
    >)
        ensures
            r == old(self).equal_step(*old(other), replies@, at),
            *final(self) == old(self).left(r, old(self).after_equal(*old(other), replies@, at)),
            *final(other) == old(other).left(
                r,
                old(self).other_after_equal(*old(other), replies@, at),
            ),
    {
        let step = self.peek_equals(other, replies, at);
        if !step.is_asking() {
            self.keep_equal(other, replies, at);
        }
        step
    }

    /// Keeps on both sides what a comparison reads of the raw values.
    pub(crate) fn keep_equal(&mut self, other: &mut Attribute, replies: &Vec<Reply>, at: usize)
        ensures
            *final(self) == old(self).after_equal(*old(other), replies@, at),
            *final(other) == old(self).other_after_equal(*old(other), replies@, at),
    {
        if self.discriminant() == other.discriminant() && self.is_initialized() {
            if let Step::Done { value: true, at: first } = ruby_equals(
                self.name(),
                other.name(),
                replies,
                at,
            ) {
                let left = self.peek_raw(replies, first);
                self.keep_raw(replies, first);
                if let Step::Done { at: second, .. } = left {
                    other.keep_raw(replies, second);
                }
            }
        }
    }

    pub(crate) fn peek_equals(&self, other: &Attribute, replies: &Vec<Reply>, at: usize) -> (r:
        Step<bool>)
        ensures
            r == self.equal_step(*other, replies@, at),
    {
        if self.discriminant() != other.discriminant() {
            return Step::Done { value: false, at };
        }
        match ruby_equals(self.name(), other.name(), replies, at) {
            Step::Done { value: true, at: first } => match (self, other) {
                (
                    Attribute::Populated { raw_value: left, .. },
                    Attribute::Populated { raw_value: right, .. },
                ) => match raw_equals(left, right, replies, first) {
                    Step::Done { value: true, at: second } => ruby_equals(
                        self.ty(),
                        other.ty(),
                        replies,
                        second,
                    ),
                    other_step => other_step,
                },
                _ => ruby_equals(self.ty(), other.ty(), replies, first),
            },
            other_step => other_step,
        }
    }

    /// The hash of an attribute: the host's hash of its hash key.
    pub open spec fn hash_step(self, replies: Seq<Reply>, at: usize) -> Step<Value> {
        match self.hash_key_step(replies, at) {
            Step::Done { value: key, at: then } => reply_at(
                replies,
                then,
                Request::HashOf {
                    kind: key.kind,
                    name: key.name,
                    raw_value: key.raw_value,
                    ty: key.ty,
                },
            ),
            Step::Ask(request) => Step::Ask(request),
            Step::Failed(failure) => Step::Failed(failure),
        }
    }

    /// The host's hash of the hash key. A deferred default keeps its
    /// answer. While the result is `Ask`, the attribute stays as it was.
    pub fn hash(&mut self, replies: &Vec<Reply>, at: usize) -> (r: Step<Value>)
        ensures
            r == old(self).hash_step(replies@, at),
            *final(self) == old(self).left(r, old(self).after_raw(replies@, at)),
    {
        let step = match self.peek_hash_key(replies, at) {
            Step::Done { value: key, at: then } => ask(
                Request::HashOf {
                    kind: key.kind,
                    name: key.name,
                    raw_value: key.raw_value,
                    ty: key.ty,
                },
                replies,
                then,
            ),
            Step::Ask(request) => Step::Ask(request),
            Step::Failed(failure) => Step::Failed(failure),
        };
        if !step.is_asking() {
            self.keep_raw(replies, at);
        }
        step
    }

    /// What the hash is taken from, once the raw value is found. A
    /// deferred default keeps its answer.
    pub fn hash_key(&mut self, replies: &Vec<Reply>, at: usize) -> (r: Step<HashKey>)
        ensures
            r == old(self).hash_key_step(replies@, at),
            *final(self) == old(self).left(r, old(self).after_raw(replies@, at)),
    {
        let step = self.peek_hash_key(replies, at);
        if !step.is_asking() {
            self.keep_raw(replies, at);
        }
        step
    }

    pub(crate) fn peek_hash_key(&self, replies: &Vec<Reply>, at: usize) -> (r: Step<HashKey>)
        ensures
            r == self.hash_key_step(replies@, at),
    {
        match self.peek_raw(replies, at) {
            Step::Done { value: raw_value, at: then } => Step::Done {
                value: HashKey {
                    kind: self.discriminant(),
                    name: self.name(),
                    raw_value,
                    ty: self.ty(),
                },
                at: then,
            },
            Step::Ask(request) => Step::Ask(request),
            Step::Failed(failure) => Step::Failed(failure),
        }
    }

    /// The left side as a comparison leaves it: where the raw values come
    /// to be compared, a deferred default keeps its answer.
    pub open spec fn after_equal(self, other: Attribute, replies: Seq<Reply>, at: usize)
        -> Attribute {
        if self.kind() == other.kind() && self is Populated {
            match same_step(self.spec_name(), other.spec_name(), replies, at) {
                Step::Done { value: true, at: first } => self.after_raw(replies, first),
                _ => self,
            }
        } else {
            self
        }
    }

    /// The right side as a comparison leaves it.
    pub open spec fn other_after_equal(self, other: Attribute, replies: Seq<Reply>, at: usize)
        -> Attribute {
        if self.kind() == other.kind() && self is Populated {
            match same_step(self.spec_name(), other.spec_name(), replies, at) {
                Step::Done { value: true, at: first } => match self.raw_step(replies, first) {
                    Step::Done { at: second, .. } => other.after_raw(replies, second),
                    _ => other,
                },
                _ => other,
            }
        } else {
            other
        }
    }

    /// The raw value where no deferred default stands open, the null
    /// sentinel for an attribute without a value.
    pub open spec fn known_raw(self) -> Option<Value> {
        match self {
            Attribute::Populated { raw_value, .. } => raw_value.resolved(),
            Attribute::Uninitialized { .. } => Some(Value::Nil),
        }
    }

    /// Two attributes that the host cannot tell apart when it compares
    /// them: same form and source, and the very same name, raw value and
    /// type.
    pub open spec fn alike(self, other: Attribute) -> bool {
        &&& self.kind() == other.kind()
        &&& self.spec_name() == other.spec_name()
        &&& self.spec_ty() == other.spec_ty()
        &&& self.known_raw() is Some
        &&& self.known_raw() == other.known_raw()
    }
}

/// Every question that a comparison of two attributes that are alike puts
/// to the host is whether a value equals itself.
pub proof fn alike_asks_reflexive(a: Attribute, b: Attribute, replies: Seq<Reply>, at: usize)
    requires
        a.alike(b),
    ensures
        a.equal_step(b, replies, at) is Ask ==> exists|v: Value|
            a.equal_step(b, replies, at) == Step::<bool>::Ask(Request::Equal { lhs: v, rhs: v }),
{
    let step = a.equal_step(b, replies, at);
    if step is Ask {
        let request = step->Ask_0;
        let name = a.spec_name();
        let ty = a.spec_ty();
        let raw = a.known_raw().unwrap();
        if request == (Request::Equal { lhs: name, rhs: name }) {
        } else if request == (Request::Equal { lhs: raw, rhs: raw }) {
        } else {
            assert(request == (Request::Equal { lhs: ty, rhs: ty }));
        }
    }
}

/// Where the host answers every question with a truth, two attributes that
/// are alike are equal, and their hash keys are the same.
pub proof fn alike_is_equal(a: Attribute, b: Attribute, replies: Seq<Reply>, at: usize)
    requires
        a.alike(b),
        replies.len() <= usize::MAX,
        forall|i: int|
            at <= i < replies.len() ==> (#[trigger] replies[i]) is Returned
                && replies[i]->Returned_0.truthy(),
        a.equal_step(b, replies, at) is Done,
    ensures
        a.equal_step(b, replies, at)->value,
        a.hash_key_step(replies, at) == b.hash_key_step(replies, at),
        a.hash_step(replies, at) == b.hash_step(replies, at),
{
    let name = a.spec_name();
    let first = same_step(name, name, replies, at);
    assert(first is Done);
    assert(replies[at as int] is Returned);
    assert(first->value);
    let next = first->at;
    if a is Populated {
        let raw = a.known_raw().unwrap();
        let second = same_step(raw, raw, replies, next);
        assert(second is Done);
        assert(replies[next as int] is Returned);
        let last = second->at;
        let third = same_step(a.spec_ty(), a.spec_ty(), replies, last);
        assert(third is Done);
        assert(replies[last as int] is Returned);
    } else {
        let third = same_step(a.spec_ty(), a.spec_ty(), replies, next);
        assert(third is Done);
        assert(replies[next as int] is Returned);
    }
}

/// Reading an attribute changes neither its hash nor what it is equal to:
/// once its raw value is known, the hash key, the hash and every
/// comparison, on either side, are the same before and after a read of
/// the value. An attribute with an open default has its raw value known
/// from the first hash or comparison on, since both keep the answer.
pub proof fn reads_change_neither_hash_nor_equality(
    a: Attribute,
    b: Attribute,
    block_given: bool,
    replies: Seq<Reply>,
    at: usize,
    later: Seq<Reply>,
    then: usize,
)
    requires
        a.known_raw() is Some,
    ensures
        a.after_value(block_given, replies, at).hash_key_step(later, then) == a.hash_key_step(
            later,
            then,
        ),
        a.after_value(block_given, replies, at).hash_step(later, then) == a.hash_step(later, then),
        a.after_value(block_given, replies, at).equal_step(b, later, then) == a.equal_step(
            b,
            later,
            then,
        ),
        b.equal_step(a.after_value(block_given, replies, at), later, then) == b.equal_step(
            a,
            later,
            then,
        ),
        a.hash_key_step(later, then) is Done,
        a.after_raw(later, then) == a,
{
}

/// After a hash or a comparison that finished, the raw value is known.
pub proof fn hash_and_comparison_settle_the_raw_value(
    a: Attribute,
    b: Attribute,
    replies: Seq<Reply>,
    at: usize,
)
    ensures
        !(a.hash_key_step(replies, at) is Ask) && a.raw_step(replies, at) is Done ==> a.after_raw(
            replies,
            at,
        ).known_raw() is Some,
        a.equal_step(b, replies, at) is Done && a.equal_step(b, replies, at)->value ==> a.after_equal(
            b,
            replies,
            at,
        ).known_raw() is Some && a.other_after_equal(b, replies, at).known_raw() is Some,
{
}

} // verus!
