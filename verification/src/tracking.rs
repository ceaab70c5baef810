use vstd::prelude::*;
use crate::value::Value;
use crate::host::{Request, Reply, Step, reply_at, ask};
use crate::attribute::{Attribute, Source, coerce_step, cast_value, verdict, truth};

verus! {

impl Attribute {
    /// The attribute at the start of the chain of assignments: the one
    /// that replaced nothing.
    pub open spec fn root(self) -> Attribute
        decreases self,
    {
        match self {
            Attribute::Populated { source: Source::FromUser(orig), .. } => orig.root(),
            Attribute::Populated { source: Source::UserProvidedDefault(Some(orig)), .. } => {
                orig.root()
            },
            _ => self,
        }
    }

    /// The value that change tracking starts from, for an attribute that
    /// replaced nothing. From the database, or a default: its raw value,
    /// coerced as its source asks (a default is cast as an assignment is).
    /// Already cast: the raw value. Without a value: the host's marker.
    pub open spec fn baseline_step(self, replies: Seq<Reply>, at: usize) -> Step<Value> {
        match self {
            Attribute::Populated { source: Source::PreCast, raw_value, .. } => raw_value.step(
                replies,
                at,
            ),
            Attribute::Populated { source, ty, raw_value, .. } => match raw_value.step(replies, at) {
                Step::Done { value: raw, at: then } => coerce_step(source, ty, raw, replies, then),
                other => other,
            },
            Attribute::Uninitialized { .. } => reply_at(
                replies,
                at,
                Request::UninitializedOriginalValue,
            ),
        }
    }

    /// The original value: the baseline of the root.
    pub open spec fn original_value_step(self, replies: Seq<Reply>, at: usize) -> Step<Value> {
        self.root().baseline_step(replies, at)
    }

    /// The stored form of the baseline, for an attribute that replaced
    /// nothing. From the database: the raw value as it came. Already cast:
    /// the value for the database. A default: its baseline, serialized.
    /// Without a value: the null sentinel.
    pub open spec fn stored_baseline_step(self, replies: Seq<Reply>, at: usize) -> Step<Value> {
        match self {
            Attribute::Populated { source: Source::FromDatabase, raw_value, .. } => raw_value.step(
                replies,
                at,
            ),
            Attribute::Populated { source: Source::PreCast, .. } => self.value_for_database_step(
                replies,
                at,
            ),
            Attribute::Populated { ty, .. } => match self.baseline_step(replies, at) {
                Step::Done { value, at: then } => reply_at(
                    replies,
                    then,
                    Request::Serialize { ty, value },
                ),
                other => other,
            },
            Attribute::Uninitialized { .. } => Step::Done { value: Value::Nil, at },
        }
    }

    /// The original value in its stored form: the stored baseline of the root.
    pub open spec fn original_value_for_database_step(self, replies: Seq<Reply>, at: usize) -> Step<
        Value,
    > {
        self.root().stored_baseline_step(replies, at)
    }

    /// Whether the value that was read differs from what is stored. `false`
    /// with nothing asked while the value is unread; else the type decides
    /// between the stored original and the value.
    pub open spec fn changed_in_place_step(self, replies: Seq<Reply>, at: usize) -> Step<bool> {
        match self.memo() {
            None => Step::Done { value: false, at },
            Some(value) => match self.original_value_for_database_step(replies, at) {
                Step::Done { value: original_for_database, at: then } => verdict(
                    reply_at(
                        replies,
                        then,
                        Request::ChangedInPlace {
                            ty: self.spec_ty(),
                            original_for_database,
                            value,
                        },
                    ),
                ),
                Step::Ask(request) => Step::Ask(request),
                Step::Failed(failure) => Step::Failed(failure),
            },
        }
    }

    /// Whether an assignment changed the value. `false` with nothing asked
    /// unless the attribute replaced another; else the type decides between
    /// the original value, the value and the raw value.
    pub open spec fn changed_from_assignment_step(self, replies: Seq<Reply>, at: usize) -> Step<
        bool,
    > {
        if self.prior() is None {
            Step::Done { value: false, at }
        } else {
            match self.original_value_step(replies, at) {
                Step::Done { value: original, at: first } => match self.value_step(
                    false,
                    replies,
                    first,
                ) {
                    Step::Done { value, at: second } => match self.after_value(
                        false,
                        replies,
                        first,
                    ).raw_step(replies, second) {
                        Step::Done { value: raw, at: third } => verdict(
                            reply_at(
                                replies,
                                third,
                                Request::Changed { ty: self.spec_ty(), original, value, raw },
                            ),
                        ),
                        Step::Ask(request) => Step::Ask(request),
                        Step::Failed(failure) => Step::Failed(failure),
                    },
                    Step::Ask(request) => Step::Ask(request),
                    Step::Failed(failure) => Step::Failed(failure),
                },
                Step::Ask(request) => Step::Ask(request),
                Step::Failed(failure) => Step::Failed(failure),
            }
        }
    }

    /// This attribute with `root` in the place of its root.
    pub open spec fn with_root(self, root: Attribute) -> Attribute
        decreases self,
    {
        match self {
            Attribute::Populated {
                name,
                raw_value,
                ty,
                source: Source::FromUser(orig),
                value,
            } => Attribute::Populated {
                name,
                raw_value,
                ty,
                source: Source::FromUser(Box::new(orig.with_root(root))),
                value,
            },
            Attribute::Populated {
                name,
                raw_value,
                ty,
                source: Source::UserProvidedDefault(Some(orig)),
                value,
            } => Attribute::Populated {
                name,
                raw_value,
                ty,
                source: Source::UserProvidedDefault(Some(Box::new(orig.with_root(root)))),
                value,
            },
            _ => root,
        }
    }

    /// The attribute as asking for the original value leaves it: a
    /// deferred default at the root keeps its answer.
    pub open spec fn after_original(self, replies: Seq<Reply>, at: usize) -> Attribute {
        self.with_root(self.root().after_raw(replies, at))
    }

    /// A root as asking for its stored baseline leaves it: one that is
    /// already cast has its value read, any other its raw value.
    pub open spec fn after_stored_baseline(self, replies: Seq<Reply>, at: usize) -> Attribute {
        match self {
            Attribute::Populated { source: Source::PreCast, .. } => self.after_value(
                false,
                replies,
                at,
            ),
            _ => self.after_raw(replies, at),
        }
    }

    /// The attribute as asking for the stored original value leaves it.
    pub open spec fn after_original_for_database(self, replies: Seq<Reply>, at: usize)
        -> Attribute {
        self.with_root(self.root().after_stored_baseline(replies, at))
    }

    /// The attribute as the question about a change in place leaves it.
    pub open spec fn after_changed_in_place(self, replies: Seq<Reply>, at: usize) -> Attribute {
        if self.memo() is None {
            self
        } else {
            self.after_original_for_database(replies, at)
        }
    }

    /// The attribute as the question about assignment leaves it: first the
    /// root keeps what the original value read, then the attribute what
    /// its own value read, then its raw value.
    pub open spec fn after_changed_from_assignment(self, replies: Seq<Reply>, at: usize)
        -> Attribute {
        if self.prior() is None {
            self
        } else {
            let rooted = self.after_original(replies, at);
            match self.original_value_step(replies, at) {
                Step::Done { at: first, .. } => {
                    let read = rooted.after_value(false, replies, first);
                    match self.value_step(false, replies, first) {
                        Step::Done { at: second, .. } => read.after_raw(replies, second),
                        _ => read,
                    }
                },
                _ => rooted,
            }
        }
    }

    /// Changed by assignment, or else in place. The second question is put
    /// to the attribute as the first one left it.
    pub open spec fn changed_step(self, replies: Seq<Reply>, at: usize) -> Step<bool> {
        match self.changed_from_assignment_step(replies, at) {
            Step::Done { value: false, at: then } => self.after_changed_from_assignment(
                replies,
                at,
            ).changed_in_place_step(replies, then),
            other => other,
        }
    }

    /// The attribute as `changed_step` leaves it: what the first question
    /// read, then what the second read.
    pub open spec fn after_changed(self, replies: Seq<Reply>, at: usize) -> Attribute {
        let first = self.after_changed_from_assignment(replies, at);
        match self.changed_from_assignment_step(replies, at) {
            Step::Done { value: false, at: then } => first.after_changed_in_place(replies, then),
            _ => first,
        }
    }

    fn baseline(&self, replies: &Vec<Reply>, at: usize) -> (r: Step<Value>)
        ensures
            r == self.baseline_step(replies@, at),
    {
        match self {
            Attribute::Populated { source: Source::PreCast, raw_value, .. } => raw_value.peek(
                replies,
                at,
            ),
            Attribute::Populated { source, ty, raw_value, .. } => {
                match raw_value.peek(replies, at) {
                    Step::Done { value: raw, at: then } => cast_value(source, *ty, raw, replies, then),
                    other => other,
                }
            },
            Attribute::Uninitialized { .. } => ask(
                Request::UninitializedOriginalValue,
                replies,
                at,
            ),
        }
    }

    /// The value that change tracking compares with: that of the attribute
    /// at the start of the chain of assignments.
    pub(crate) fn peek_original_value(&self, replies: &Vec<Reply>, at: usize) -> (r: Step<Value>)
        ensures
            r == self.original_value_step(replies@, at),
        decreases *self,
    {
        match self {
            Attribute::Populated { source: Source::FromUser(orig), .. } => orig.peek_original_value(
                replies,
                at,
            ),
            Attribute::Populated { source: Source::UserProvidedDefault(Some(orig)), .. } => {
                orig.peek_original_value(replies, at)
            },
            _ => self.baseline(replies, at),
        }
    }

    /// The original value in its stored form.
    pub(crate) fn peek_original_value_for_database(&self, replies: &Vec<Reply>, at: usize) -> (r: Step<Value>)
        ensures
            r == self.original_value_for_database_step(replies@, at),
        decreases *self,
    {
        match self {
            Attribute::Populated { source: Source::FromUser(orig), .. } => {
                orig.peek_original_value_for_database(replies, at)
            },
            Attribute::Populated { source: Source::UserProvidedDefault(Some(orig)), .. } => {
                orig.peek_original_value_for_database(replies, at)
            },
            Attribute::Populated { source: Source::FromDatabase, raw_value, .. } => raw_value.peek(
                replies,
                at,
            ),
            Attribute::Populated { source: Source::PreCast, ty, .. } => {
                match self.peek_value(false, replies, at) {
                    Step::Done { value, at: then } => ask(
                        Request::Serialize { ty: *ty, value },
                        replies,
                        then,
                    ),
                    other => other,
                }
            },
            Attribute::Populated { ty, .. } => {
                match self.baseline(replies, at) {
                    Step::Done { value, at: then } => ask(
                        Request::Serialize { ty: *ty, value },
                        replies,
                        then,
                    ),
                    other => other,
                }
            },
            Attribute::Uninitialized { .. } => Step::Done { value: Value::Nil, at },
        }
    }

    /// Whether the value that was read differs from what is stored: see
    /// `changed_in_place_step`.
    pub(crate) fn peek_changed_in_place(&self, replies: &Vec<Reply>, at: usize) -> (r: Step<bool>)
        ensures
            r == self.changed_in_place_step(replies@, at),
    {
        let value = match self {
            Attribute::Populated { value: Some(v), .. } => *v,
            _ => {
                return Step::Done { value: false, at };
            },
        };
        match self.peek_original_value_for_database(replies, at) {
            Step::Done { value: original_for_database, at: then } => truth(
                ask(
                    Request::ChangedInPlace { ty: self.ty(), original_for_database, value },
                    replies,
                    then,
                ),
            ),
            Step::Ask(request) => Step::Ask(request),
            Step::Failed(failure) => Step::Failed(failure),
        }
    }

    /// Keeps what the root read at `at`: its raw value, or for the stored
    /// baseline of a root that is already cast, its value.
    pub(crate) fn keep_root(&mut self, stored: bool, replies: &Vec<Reply>, at: usize)
        ensures
            *final(self) == old(self).with_root(
                if stored {
                    old(self).root().after_stored_baseline(replies@, at)
                } else {
                    old(self).root().after_raw(replies@, at)
                },
            ),
        decreases *old(self),
    {
        match self {
            Attribute::Populated { source: Source::FromUser(orig), .. } => {
                orig.keep_root(stored, replies, at);
            },
            Attribute::Populated { source: Source::UserProvidedDefault(Some(orig)), .. } => {
                orig.keep_root(stored, replies, at);
            },
            Attribute::Populated { source: Source::PreCast, .. } => {
                if stored {
                    self.keep_value(false, replies, at);
                } else {
                    self.keep_raw(replies, at);
                }
            },
            _ => {
                self.keep_raw(replies, at);
            },
        }
    }

    /// The value that change tracking compares with: that of the attribute
    /// at the start of the chain of assignments. A deferred default at the
    /// root is asked once: its answer is kept. While the result is `Ask`,
    /// the attribute stays as it was.
    pub fn original_value(&mut self, replies: &Vec<Reply>, at: usize) -> (r: Step<Value>)
        ensures
            r == old(self).original_value_step(replies@, at),
            *final(self) == old(self).left(r, old(self).after_original(replies@, at)),
    {
        let step = self.peek_original_value(replies, at);
        if !step.is_asking() {
            self.keep_root(false, replies, at);
        }
        step
    }

    /// The original value in its stored form. The root keeps what was read
    /// of it. While the result is `Ask`, the attribute stays as it was.
    pub fn original_value_for_database(&mut self, replies: &Vec<Reply>, at: usize) -> (r: Step<
        Value,
    >)
        ensures
            r == old(self).original_value_for_database_step(replies@, at),
            *final(self) == old(self).left(
                r,
                old(self).after_original_for_database(replies@, at),
            ),
    {
        let step = self.peek_original_value_for_database(replies, at);
        if !step.is_asking() {
            self.keep_root(true, replies, at);
        }
        step
    }

    pub(crate) fn keep_changed_in_place(&mut self, replies: &Vec<Reply>, at: usize)
        ensures
            *final(self) == old(self).after_changed_in_place(replies@, at),
    {
        if self.has_been_read() {
            self.keep_root(true, replies, at);
        }
    }

    /// Whether the value that was read differs from what is stored: see
    /// `changed_in_place_step`. The root keeps what was read of it. While
    /// the result is `Ask`, the attribute stays as it was.
    pub fn is_changed_in_place(&mut self, replies: &Vec<Reply>, at: usize) -> (r: Step<bool>)
        ensures
            r == old(self).changed_in_place_step(replies@, at),
            *final(self) == old(self).left(r, old(self).after_changed_in_place(replies@, at)),
    {
        let step = self.peek_changed_in_place(replies, at);
        if !step.is_asking() {
            self.keep_changed_in_place(replies, at);
        }
        step
    }

    pub(crate) fn peek_changed_from_assignment(&self, replies: &Vec<Reply>, at: usize) -> (r:
        Step<bool>)
        ensures
            r == self.changed_from_assignment_step(replies@, at),
    {
        if !self.has_been_assigned() {
            return Step::Done { value: false, at };
        }
        let (original, first) = match self.peek_original_value(replies, at) {
            Step::Done { value, at: then } => (value, then),
            Step::Ask(request) => {
                return Step::Ask(request);
            },
            Step::Failed(failure) => {
                return Step::Failed(failure);
            },
        };
        let (value, second) = match self.peek_value(false, replies, first) {
            Step::Done { value, at: then } => (value, then),
            Step::Ask(request) => {
                return Step::Ask(request);
            },
            Step::Failed(failure) => {
                return Step::Failed(failure);
            },
        };
        let found = if self.has_been_read() {
            self.peek_raw(replies, second)
        } else {
            match self.peek_raw(replies, first) {
                Step::Done { value: raw, .. } => Step::Done { value: raw, at: second },
                other => other,
            }
        };
        match found {
            Step::Done { value: raw, at: third } => truth(
                ask(Request::Changed { ty: self.ty(), original, value, raw }, replies, third),
            ),
            Step::Ask(request) => Step::Ask(request),
            Step::Failed(failure) => Step::Failed(failure),
        }
    }

    pub(crate) fn keep_changed_from_assignment(&mut self, replies: &Vec<Reply>, at: usize)
        ensures
            *final(self) == old(self).after_changed_from_assignment(replies@, at),
    {
        if !self.has_been_assigned() {
            return;
        }
        let original = self.peek_original_value(replies, at);
        self.keep_root(false, replies, at);
        if let Step::Done { at: first, .. } = original {
            let read = self.peek_value(false, replies, first);
            assert(read == old(self).value_step(false, replies@, first));
            self.keep_value(false, replies, first);
            if let Step::Done { at: second, .. } = read {
                self.keep_raw(replies, second);
            }
        }
    }

    /// Whether an assignment changed the value: see
    /// `changed_from_assignment_step`. What was read on the way is kept.
    /// While the result is `Ask`, the attribute stays as it was.
    pub fn is_changed_from_assignment(&mut self, replies: &Vec<Reply>, at: usize) -> (r: Step<bool>)
        ensures
            r == old(self).changed_from_assignment_step(replies@, at),
            *final(self) == old(self).left(
                r,
                old(self).after_changed_from_assignment(replies@, at),
            ),
    {
        let step = self.peek_changed_from_assignment(replies, at);
        if !step.is_asking() {
            self.keep_changed_from_assignment(replies, at);
        }
        step
    }

    /// Whether the attribute differs from what is stored. What was read on
    /// the way is kept. While the result is `Ask`, the attribute stays as
    /// it was.
    pub fn is_changed(&mut self, replies: &Vec<Reply>, at: usize) -> (r: Step<bool>)
        ensures
            r == old(self).changed_step(replies@, at),
            *final(self) == old(self).left(r, old(self).after_changed(replies@, at)),
    {
        let first = self.peek_changed_from_assignment(replies, at);
        match first {
            Step::Done { value: false, at: then } => {
                let mut probe = self.clone();
                probe.keep_changed_from_assignment(replies, at);
                let second = probe.peek_changed_in_place(replies, then);
                if !second.is_asking() {
                    probe.keep_changed_in_place(replies, then);
                    *self = probe;
                }
                second
            },
            Step::Ask(request) => Step::Ask(request),
            other => {
                self.keep_changed_from_assignment(replies, at);
                other
            },
        }
    }
}

/// Every chain of assignments ends: the root of an attribute has replaced
/// nothing, so it came from the database, was already cast, is a default
/// or has no value; and it is its own root.
pub proof fn chain_ends_at_a_root(a: Attribute)
    ensures
        a.root().prior() is None,
        a.root().root() == a.root(),
        a.prior() is None ==> a.root() == a,
        a.prior() is Some ==> a.root() == a.prior().unwrap().root(),
    decreases a,
{
    match a {
        Attribute::Populated { source: Source::FromUser(orig), .. } => {
            chain_ends_at_a_root(*orig);
        },
        Attribute::Populated { source: Source::UserProvidedDefault(Some(orig)), .. } => {
            chain_ends_at_a_root(*orig);
        },
        _ => {},
    }
}

/// A value that was read never changes: no operation on the attribute
/// replaces it, whatever the host replies.
pub proof fn memo_never_changes(a: Attribute, block_given: bool, replies: Seq<Reply>, at: usize)
    requires
        a.memo() is Some,
    ensures
        a.after_raw(replies, at).memo() == a.memo(),
        a.after_value(block_given, replies, at) == a,
        a.after_original(replies, at).memo() == a.memo(),
        a.after_original_for_database(replies, at).memo() == a.memo(),
        a.after_changed_from_assignment(replies, at).memo() == a.memo(),
        a.after_changed(replies, at).memo() == a.memo(),
{
    root_change_keeps_own_fields(a, a.root().after_raw(replies, at));
    root_change_keeps_own_fields(a, a.root().after_stored_baseline(replies, at));
    let first = a.after_changed_from_assignment(replies, at);
    root_change_keeps_own_fields(first, first.root().after_stored_baseline(replies, first.changed_from_assignment_step(replies, at)->at));
    let then = a.changed_from_assignment_step(replies, at);
    if then is Done {
        root_change_keeps_own_fields(first, first.root().after_stored_baseline(replies, then->at));
    }
}

/// Replacing the root of an attribute that has replaced another changes
/// nothing of its own: name, type, raw value, what was read, the kind of
/// its source. The new root is the root from then on if it is a root.
pub proof fn root_change_keeps_own_fields(a: Attribute, root: Attribute)
    ensures
        a.prior() is None ==> a.with_root(root) == root,
        a.prior() is Some ==> {
            &&& a.with_root(root).spec_name() == a.spec_name()
            &&& a.with_root(root).spec_ty() == a.spec_ty()
            &&& a.with_root(root).memo() == a.memo()
            &&& a.with_root(root).kind() == a.kind()
            &&& a.with_root(root)->raw_value == a->raw_value
            &&& a.with_root(root).prior() == Some(a.prior().unwrap().with_root(root))
        },
        root.prior() is None ==> a.with_root(root).root() == root,
    decreases a,
{
    match a {
        Attribute::Populated { source: Source::FromUser(orig), .. } => {
            root_change_keeps_own_fields(*orig, root);
        },
        Attribute::Populated { source: Source::UserProvidedDefault(Some(orig)), .. } => {
            root_change_keeps_own_fields(*orig, root);
        },
        _ => {},
    }
}

/// A deferred default is asked once. The operation that first finds the
/// raw value leaves an attribute whose raw value is known: every later
/// operation gets the same raw value and asks for nothing, whatever
/// replies it is given. The same holds of the root once the original
/// value was asked for.
pub proof fn default_is_asked_once(
    a: Attribute,
    block_given: bool,
    replies: Seq<Reply>,
    at: usize,
    later: Seq<Reply>,
    then: usize,
)
    ensures
        a.raw_step(replies, at) is Done ==> {
            &&& a.after_raw(replies, at).raw_step(later, then) == (Step::Done {
                value: a.raw_step(replies, at)->value,
                at: then,
            })
            &&& a.after_raw(replies, at).after_raw(later, then) == a.after_raw(replies, at)
        },
        a.raw_step(replies, at) is Done && a.memo() is None ==> a.after_value(
            block_given,
            replies,
            at,
        ).raw_step(later, then) == (Step::Done { value: a.raw_step(replies, at)->value, at: then }),
        a.root().raw_step(replies, at) is Done ==> {
            &&& a.after_original(replies, at).root() == a.root().after_raw(replies, at)
            &&& a.after_original(replies, at).root().raw_step(later, then) == (Step::Done {
                value: a.root().raw_step(replies, at)->value,
                at: then,
            })
        },
{
    chain_ends_at_a_root(a);
    root_change_keeps_own_fields(a, a.root().after_raw(replies, at));
}

} // verus!
