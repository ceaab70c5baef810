use vstd::prelude::*;
use crate::value::Value;
use crate::host::{Request, Reply, Step, reply_at, ask};
use crate::attribute::{Attribute, MaybeProc, Source};

verus! {

impl Attribute {
    /// The attribute that an assignment of `value` leads to: the type is
    /// asked whether the value is valid, and if it does not object, the new
    /// attribute holds `value` as its raw value and this attribute as the
    /// one it replaced. If the type objects there is no new attribute: the
    /// objection is handed on.
    pub open spec fn assigned_step(self, value: Value, replies: Seq<Reply>, at: usize) -> Step<
        Attribute,
    > {
        match reply_at(replies, at, Request::AssertValidValue { ty: self.spec_ty(), value }) {
            Step::Done { at: then, .. } => Step::Done {
                value: Attribute::Populated {
                    name: self.spec_name(),
                    raw_value: MaybeProc::NotProc(value),
                    ty: self.spec_ty(),
                    source: Source::FromUser(Box::new(self)),
                    value: None,
                },
                at: then,
            },
            Step::Ask(request) => Step::Ask(request),
            Step::Failed(failure) => Step::Failed(failure),
        }
    }

    /// This attribute under another type. Where the value was changed in
    /// place, the change is kept as an assignment of the value that was
    /// read; else raw value and source stay and nothing counts as read.
    /// The new attribute is made of this one as the question about the
    /// change left it.
    pub open spec fn retyped_step(self, ty: Value, replies: Seq<Reply>, at: usize) -> Step<
        Attribute,
    > {
        let kept = self.after_changed_in_place(replies, at);
        match self.changed_in_place_step(replies, at) {
            Step::Done { value: true, at: then } => Step::Done {
                value: Attribute::Populated {
                    name: self.spec_name(),
                    raw_value: MaybeProc::NotProc(self.memo().unwrap()),
                    ty,
                    source: Source::FromUser(Box::new(kept)),
                    value: None,
                },
                at: then,
            },
            Step::Done { value: false, at: then } => Step::Done {
                value: match kept {
                    Attribute::Populated { name, raw_value, source, .. } => Attribute::Populated {
                        name,
                        raw_value,
                        ty,
                        source,
                        value: None,
                    },
                    Attribute::Uninitialized { name, .. } => Attribute::Uninitialized { name, ty },
                },
                at: then,
            },
            Step::Ask(request) => Step::Ask(request),
            Step::Failed(failure) => Step::Failed(failure),
        }
    }

    /// The attribute as if its present value had come from the database:
    /// the value for the database becomes the raw value. An attribute
    /// without a value stays as it is.
    pub open spec fn forgetting_step(self, replies: Seq<Reply>, at: usize) -> Step<Attribute> {
        match self {
            Attribute::Populated { name, ty, .. } => match self.value_for_database_step(
                replies,
                at,
            ) {
                Step::Done { value, at: then } => Step::Done {
                    value: Attribute::Populated {
                        name,
                        raw_value: MaybeProc::NotProc(value),
                        ty,
                        source: Source::FromDatabase,
                        value: None,
                    },
                    at: then,
                },
                Step::Ask(request) => Step::Ask(request),
                Step::Failed(failure) => Step::Failed(failure),
            },
            Attribute::Uninitialized { .. } => Step::Done { value: self, at },
        }
    }

    /// Whether the value was assigned one by one: only an assigned
    /// attribute can be, and the type is asked whether its raw value was
    /// built by an assignment in bulk.
    pub open spec fn came_from_user_step(self, replies: Seq<Reply>, at: usize) -> Step<bool> {
        match self {
            Attribute::Populated { source: Source::FromUser(_), raw_value, ty, .. } => {
                match raw_value.step(replies, at) {
                    Step::Done { value: raw, at: then } => match reply_at(
                        replies,
                        then,
                        Request::ConstructedByMassAssignment { ty, raw },
                    ) {
                        Step::Done { value, at: last } => Step::Done {
                            value: !value.truthy(),
                            at: last,
                        },
                        Step::Ask(request) => Step::Ask(request),
                        Step::Failed(failure) => Step::Failed(failure),
                    },
                    Step::Ask(request) => Step::Ask(request),
                    Step::Failed(failure) => Step::Failed(failure),
                }
            },
            _ => Step::Done { value: false, at },
        }
    }

    /// The attribute as `came_from_user_step` leaves it: an assigned
    /// attribute has its raw value read, any other is not looked into.
    pub open spec fn after_came_from_user(self, replies: Seq<Reply>, at: usize) -> Attribute {
        match self {
            Attribute::Populated { source: Source::FromUser(_), .. } => self.after_raw(replies, at),
            _ => self,
        }
    }

    /// A copy that shares nothing with this attribute: a value that was
    /// read is replaced by the host's copy of it.
    pub open spec fn deep_dup_step(self, replies: Seq<Reply>, at: usize) -> Step<Attribute> {
        match self {
            Attribute::Populated { name, raw_value, ty, source, value: Some(v) } => match reply_at(
                replies,
                at,
                Request::Duplicate { value: v },
            ) {
                Step::Done { value: copy, at: then } => Step::Done {
                    value: Attribute::Populated { name, raw_value, ty, source, value: Some(copy) },
                    at: then,
                },
                Step::Ask(request) => Step::Ask(request),
                Step::Failed(failure) => Step::Failed(failure),
            },
            _ => Step::Done { value: self, at },
        }
    }

    /// The attribute after an assignment of `value`, once the type has found the
    /// value valid: see `assigned_step`. This attribute stays as it is.
    pub fn with_value_from_user(&self, value: Value, replies: &Vec<Reply>, at: usize) -> (r: Step<
        Attribute,
    >)
        ensures
            r == self.assigned_step(value, replies@, at),
    {
        let ty = self.ty();
        match ask(Request::AssertValidValue { ty, value }, replies, at) {
            Step::Done { at: then, .. } => Step::Done {
                value: Self::from_user(self.name(), value, ty, self.clone()),
                at: then,
            },
            Step::Ask(request) => Step::Ask(request),
            Step::Failed(failure) => Step::Failed(failure),
        }
    }

    /// This attribute under the type `ty`: see `retyped_step`. The root
    /// keeps what the question about a change in place read of it. While
    /// the result is `Ask`, the attribute stays as it was.
    pub fn with_type(&mut self, ty: Value, replies: &Vec<Reply>, at: usize) -> (r: Step<Attribute>)
        ensures
            r == old(self).retyped_step(ty, replies@, at),
            *final(self) == old(self).left(r, old(self).after_changed_in_place(replies@, at)),
    {
        let name = self.name();
        let read = match self {
            Attribute::Populated { value: Some(v), .. } => *v,
            _ => Value::Nil,
        };
        match self.is_changed_in_place(replies, at) {
            Step::Done { value: true, at: then } => {
                Step::Done { value: Self::from_user(name, read, ty, self.clone()), at: then }
            },
            Step::Done { value: false, at: then } => {
                let retyped = match self {
                    Attribute::Populated { name, raw_value, source, .. } => Attribute::Populated {
                        name: *name,
                        raw_value: raw_value.clone(),
                        ty,
                        source: source.clone(),
                        value: None,
                    },
                    Attribute::Uninitialized { name, .. } => Attribute::Uninitialized {
                        name: *name,
                        ty,
                    },
                };
                Step::Done { value: retyped, at: then }
            },
            Step::Ask(request) => Step::Ask(request),
            Step::Failed(failure) => Step::Failed(failure),
        }
    }

    /// The attribute as if its present value had come from the database:
    /// see `forgetting_step`. Reads the value, which is kept. While the
    /// result is `Ask`, the attribute stays as it was.
    pub fn forgetting_assignment(&mut self, replies: &Vec<Reply>, at: usize) -> (r: Step<Attribute>)
        ensures
            r == old(self).forgetting_step(replies@, at),
            *final(self) == old(self).left(r, old(self).after_value(false, replies@, at)),
    {
        if !self.is_initialized() {
            return Step::Done { value: self.clone(), at };
        }
        match self.value_for_database(replies, at) {
            Step::Done { value, at: then } => Step::Done {
                value: self.with_value_from_database(value),
                at: then,
            },
            Step::Ask(request) => Step::Ask(request),
            Step::Failed(failure) => Step::Failed(failure),
        }
    }

    /// Whether the value was assigned one by one: see
    /// `came_from_user_step`. A deferred default keeps its answer. While
    /// the result is `Ask`, the attribute stays as it was.
    pub fn came_from_user(&mut self, replies: &Vec<Reply>, at: usize) -> (r: Step<bool>)
        ensures
            r == old(self).came_from_user_step(replies@, at),
            *final(self) == old(self).left(r, old(self).after_came_from_user(replies@, at)),
    {
        let step = self.peek_came_from_user(replies, at);
        if !step.is_asking() {
            if let Attribute::Populated { source: Source::FromUser(_), .. } = self {
                self.keep_raw(replies, at);
            }
        }
        step
    }

    pub(crate) fn peek_came_from_user(&self, replies: &Vec<Reply>, at: usize) -> (r: Step<bool>)
        ensures
            r == self.came_from_user_step(replies@, at),
    {
        match self {
            Attribute::Populated { source: Source::FromUser(_), raw_value, ty, .. } => {
                match raw_value.peek(replies, at) {
                    Step::Done { value: raw, at: then } => {
                        match ask(
                            Request::ConstructedByMassAssignment { ty: *ty, raw },
                            replies,
                            then,
                        ) {
                            Step::Done { value, at: last } => Step::Done {
                                value: !value.is_truthy(),
                                at: last,
                            },
                            Step::Ask(request) => Step::Ask(request),
                            Step::Failed(failure) => Step::Failed(failure),
                        }
                    },
                    Step::Ask(request) => Step::Ask(request),
                    Step::Failed(failure) => Step::Failed(failure),
                }
            },
            _ => Step::Done { value: false, at },
        }
    }

    /// An independent copy: see `deep_dup_step`.
    pub fn deep_dup(&self, replies: &Vec<Reply>, at: usize) -> (r: Step<Attribute>)
        ensures
            r == self.deep_dup_step(replies@, at),
    {
        match self {
            Attribute::Populated { name, raw_value, ty, source, value: Some(v) } => {
                match ask(Request::Duplicate { value: *v }, replies, at) {
                    Step::Done { value: copy, at: then } => Step::Done {
                        value: Attribute::Populated {
                            name: *name,
                            raw_value: raw_value.clone(),
                            ty: *ty,
                            source: source.clone(),
                            value: Some(copy),
                        },
                        at: then,
                    },
                    Step::Ask(request) => Step::Ask(request),
                    Step::Failed(failure) => Step::Failed(failure),
                }
            },
            _ => Step::Done { value: self.clone(), at },
        }
    }
}

/// An assignment that the type objects to, or has not yet answered for,
/// yields no attribute, and one that it accepts keeps the attribute it
/// replaced exactly as it was.
pub proof fn rejected_assignment_changes_nothing(
    a: Attribute,
    value: Value,
    replies: Seq<Reply>,
    at: usize,
)
    ensures
        at < replies.len() && replies[at as int] is Raised ==> a.assigned_step(value, replies, at)
            == Step::<Attribute>::Failed(replies[at as int]->Raised_0),
        at >= replies.len() ==> a.assigned_step(value, replies, at) == Step::<Attribute>::Ask(
            Request::AssertValidValue { ty: a.spec_ty(), value },
        ),
        a.assigned_step(value, replies, at) is Done ==> a.assigned_step(
            value,
            replies,
            at,
        )->value.prior() == Some(a),
{
}

/// However many assignments follow one another, the original value is that
/// of the attribute they started from: its root's raw value under its
/// root's type, never a value assigned in between.
pub proof fn assignments_keep_original_value(
    a: Attribute,
    first: Value,
    second: Value,
    replies: Seq<Reply>,
    at: usize,
    later: Seq<Reply>,
    then: usize,
    asked: Seq<Reply>,
    from: usize,
)
    requires
        a.assigned_step(first, replies, at) is Done,
        a.assigned_step(first, replies, at)->value.assigned_step(second, later, then) is Done,
    ensures
        a.assigned_step(first, replies, at)->value.assigned_step(
            second,
            later,
            then,
        )->value.original_value_step(asked, from) == a.original_value_step(asked, from),
        a.assigned_step(first, replies, at)->value.assigned_step(
            second,
            later,
            then,
        )->value.original_value_for_database_step(asked, from)
            == a.original_value_for_database_step(asked, from),
{
    let once = a.assigned_step(first, replies, at)->value;
    let twice = once.assigned_step(second, later, then)->value;
    assert(once.root() == a.root());
    assert(twice.root() == once.root());
}

} // verus!
