use vstd::prelude::*;
use crate::value::Value;
use crate::host::{Request, Reply, Step, reply_at, ask};

verus! {

/// A raw value, or a deferred default that the host computes on first use.
#[derive(Debug)]
pub enum MaybeProc {
    NotProc(Value),
    Proc { block: Value, memo: Option<Value> },
}

/// Where the raw value of a populated attribute came from.
#[derive(Debug)]
pub enum Source {
    /// Assigned; keeps the attribute as it was before the assignment.
    FromUser(Box<Attribute>),
    FromDatabase,
    PreCast,
    /// A default, with the attribute it replaced where there was one.
    UserProvidedDefault(Option<Box<Attribute>>),
}

/// The state of one field of a record.
#[derive(Debug)]
pub enum Attribute {
    Populated { name: Value, raw_value: MaybeProc, ty: Value, source: Source, value: Option<Value> },
    Uninitialized { name: Value, ty: Value },
}

impl Clone for MaybeProc {
    fn clone(&self) -> (r: Self)
        ensures
            r == *self,
    {
        match self {
            MaybeProc::NotProc(v) => MaybeProc::NotProc(*v),
            MaybeProc::Proc { block, memo } => MaybeProc::Proc { block: *block, memo: *memo },
        }
    }
}

impl Clone for Source {
    fn clone(&self) -> (r: Self)
        ensures
            r == *self,
        decreases *self,
    {
        match self {
            Source::FromUser(orig) => {
                let copy: Attribute = (**orig).clone();
                Source::FromUser(Box::new(copy))
            },
            Source::FromDatabase => Source::FromDatabase,
            Source::PreCast => Source::PreCast,
            Source::UserProvidedDefault(None) => Source::UserProvidedDefault(None),
            Source::UserProvidedDefault(Some(orig)) => {
                let copy: Attribute = (**orig).clone();
                Source::UserProvidedDefault(Some(Box::new(copy)))
            },
        }
    }
}

impl Clone for Attribute {
    fn clone(&self) -> (r: Self)
        ensures
            r == *self,
        decreases *self,
    {
        match self {
            Attribute::Populated { name, raw_value, ty, source, value } => Attribute::Populated {
                name: *name,
                raw_value: raw_value.clone(),
                ty: *ty,
                source: source.clone(),
                value: *value,
            },
            Attribute::Uninitialized { name, ty } => Attribute::Uninitialized { name: *name, ty: *ty },
        }
    }
}

impl Default for Attribute {
    /// An attribute without a value, with the null sentinel for its name
    /// and for its type.
    fn default() -> (r: Self)
        ensures
            r == (Attribute::Uninitialized { name: Value::Nil, ty: Value::Nil }),
    {
        Attribute::Uninitialized { name: Value::Nil, ty: Value::Nil }
    }
}

impl MaybeProc {
    /// The raw value, where it is known without asking the host.
    pub open spec fn resolved(self) -> Option<Value> {
        match self {
            MaybeProc::NotProc(v) => Some(v),
            MaybeProc::Proc { memo, .. } => memo,
        }
    }

    /// This raw value once a deferred default has answered with `v`. A
    /// value that is already known stays as it is.
    pub open spec fn remembering(self, v: Value) -> MaybeProc {
        match self {
            MaybeProc::Proc { block, memo: None } => MaybeProc::Proc { block, memo: Some(v) },
            _ => self,
        }
    }

    /// The raw value: known, or the next reply, to a call of the deferred
    /// default.
    pub open spec fn step(self, replies: Seq<Reply>, at: usize) -> Step<Value> {
        match self {
            MaybeProc::NotProc(v) => Step::Done { value: v, at },
            MaybeProc::Proc { memo: Some(v), .. } => Step::Done { value: v, at },
            MaybeProc::Proc { block, memo: None } => reply_at(
                replies,
                at,
                Request::CallProvider { block },
            ),
        }
    }

    /// This raw value once `step` has finished: a deferred default keeps
    /// the answer it gave.
    pub open spec fn after_step(self, replies: Seq<Reply>, at: usize) -> MaybeProc {
        match self.step(replies, at) {
            Step::Done { value, .. } => self.remembering(value),
            _ => self,
        }
    }

    /// The raw value, without keeping anything.
    pub(crate) fn peek(&self, replies: &Vec<Reply>, at: usize) -> (r: Step<Value>)
        ensures
            r == self.step(replies@, at),
    {
        match self {
            MaybeProc::NotProc(v) => Step::Done { value: *v, at },
            MaybeProc::Proc { memo: Some(v), .. } => Step::Done { value: *v, at },
            MaybeProc::Proc { block, memo: None } => ask(
                Request::CallProvider { block: *block },
                replies,
                at,
            ),
        }
    }

    /// The raw value. A deferred default is asked once: its answer is kept
    /// and returned from then on.
    pub fn value(&mut self, replies: &Vec<Reply>, at: usize) -> (r: Step<Value>)
        ensures
            r == old(self).step(replies@, at),
            *final(self) == old(self).after_step(replies@, at),
    {
        let step = self.peek(replies, at);
        if let Step::Done { value, .. } = step {
            self.remember(value);
        }
        step
    }

    /// Whether the raw value is known without asking the host.
    pub fn is_resolved(&self) -> (r: bool)
        ensures
            r == (self.resolved() is Some),
    {
        match self {
            MaybeProc::NotProc(_) => true,
            MaybeProc::Proc { memo, .. } => memo.is_some(),
        }
    }

    /// Keeps `v` as the answer of a deferred default that had none.
    pub fn remember(&mut self, v: Value)
        ensures
            *final(self) == old(self).remembering(v),
    {
        match self {
            MaybeProc::Proc { memo, .. } => {
                if memo.is_none() {
                    *memo = Some(v);
                }
            },
            MaybeProc::NotProc(_) => {},
        }
    }
}

/// The request that coerces `raw` for an attribute of type `ty` whose raw
/// value came from `source`, or `None` where the raw value is the value.
pub open spec fn coercion(source: Source, ty: Value, raw: Value) -> Option<Request> {
    match source {
        Source::FromDatabase => Some(Request::Deserialize { ty, raw }),
        Source::FromUser(_) => Some(Request::Cast { ty, raw }),
        Source::UserProvidedDefault(_) => Some(Request::Cast { ty, raw }),
        Source::PreCast => None,
    }
}

/// The coerced form of `raw`: `raw` itself where nothing is to be done,
/// else the next reply.
pub open spec fn coerce_step(
    source: Source,
    ty: Value,
    raw: Value,
    replies: Seq<Reply>,
    at: usize,
) -> Step<Value> {
    match coercion(source, ty, raw) {
        Some(request) => reply_at(replies, at, request),
        None => Step::Done { value: raw, at },
    }
}

/// Coerces `raw` as `source` asks: see `coerce_step`.
pub fn cast_value(source: &Source, ty: Value, raw: Value, replies: &Vec<Reply>, at: usize) -> (r:
    Step<Value>)
    ensures
        r == coerce_step(*source, ty, raw, replies@, at),
{
    match source {
        Source::FromDatabase => ask(Request::Deserialize { ty, raw }, replies, at),
        Source::FromUser(_) => ask(Request::Cast { ty, raw }, replies, at),
        Source::UserProvidedDefault(_) => ask(Request::Cast { ty, raw }, replies, at),
        Source::PreCast => Step::Done { value: raw, at },
    }
}

/// The host's verdict on a reply to a question: `Done` with its truth.
pub open spec fn verdict(step: Step<Value>) -> Step<bool> {
    match step {
        Step::Done { value, at } => Step::Done { value: value.truthy(), at },
        Step::Ask(request) => Step::Ask(request),
        Step::Failed(failure) => Step::Failed(failure),
    }
}

/// Turns a reply into the truth that the host gives it.
pub fn truth(step: Step<Value>) -> (r: Step<bool>)
    ensures
        r == verdict(step),
{
    match step {
        Step::Done { value, at } => Step::Done { value: value.is_truthy(), at },
        Step::Ask(request) => Step::Ask(request),
        Step::Failed(failure) => Step::Failed(failure),
    }
}

impl Attribute {
    /// An attribute whose raw value came from the database. Nothing is read yet.
    pub fn from_database(name: Value, raw_value: Value, ty: Value) -> (r: Self)
        ensures
            r == (Attribute::Populated {
                name,
                raw_value: MaybeProc::NotProc(raw_value),
                ty,
                source: Source::FromDatabase,
                value: None,
            }),
    {
        Attribute::Populated {
            name,
            raw_value: MaybeProc::NotProc(raw_value),
            ty,
            source: Source::FromDatabase,
            value: None,
        }
    }

    /// An attribute whose raw value was assigned, in place of `original_attribute`.
    pub fn from_user(name: Value, raw_value: Value, ty: Value, original_attribute: Attribute) -> (r:
        Self)
        ensures
            r == (Attribute::Populated {
                name,
                raw_value: MaybeProc::NotProc(raw_value),
                ty,
                source: Source::FromUser(Box::new(original_attribute)),
                value: None,
            }),
    {
        Attribute::Populated {
            name,
            raw_value: MaybeProc::NotProc(raw_value),
            ty,
            source: Source::FromUser(Box::new(original_attribute)),
            value: None,
        }
    }

    /// An attribute whose raw value is its value already.
    pub fn from_cast_value(name: Value, value: Value, ty: Value) -> (r: Self)
        ensures
            r == (Attribute::Populated {
                name,
                raw_value: MaybeProc::NotProc(value),
                ty,
                source: Source::PreCast,
                value: None,
            }),
    {
        Attribute::Populated {
            name,
            raw_value: MaybeProc::NotProc(value),
            ty,
            source: Source::PreCast,
            value: None,
        }
    }

    /// An attribute that was declared and holds no value.
    pub fn uninitialized(name: Value, ty: Value) -> (r: Self)
        ensures
            r == (Attribute::Uninitialized { name, ty }),
    {
        Attribute::Uninitialized { name, ty }
    }

    /// An attribute whose raw value is a default, given or deferred, in place of
    /// `original_attribute` where there is one.
    pub fn user_provided_default(
        name: Value,
        raw_value: MaybeProc,
        ty: Value,
        original_attribute: Option<Attribute>,
    ) -> (r: Self)
        ensures
            r == (Attribute::Populated {
                name,
                raw_value,
                ty,
                source: Source::UserProvidedDefault(
                    match original_attribute {
                        Some(a) => Some(Box::new(a)),
                        None => None,
                    },
                ),
                value: None,
            }),
    {
        let original: Option<Box<Attribute>> = match original_attribute {
            Some(a) => Some(Box::new(a)),
            None => None,
        };
        Attribute::Populated {
            name,
            raw_value,
            ty,
            source: Source::UserProvidedDefault(original),
            value: None,
        }
    }

    /// The name of the attribute.
    pub open spec fn spec_name(&self) -> Value {
        match *self {
            Attribute::Populated { name, .. } => name,
            Attribute::Uninitialized { name, .. } => name,
        }
    }

    /// The type of the attribute.
    pub open spec fn spec_ty(&self) -> Value {
        match *self {
            Attribute::Populated { ty, .. } => ty,
            Attribute::Uninitialized { ty, .. } => ty,
        }
    }

    /// The coerced value, where it has been read.
    pub open spec fn memo(self) -> Option<Value> {
        match self {
            Attribute::Populated { value, .. } => value,
            Attribute::Uninitialized { .. } => None,
        }
    }

    /// The attribute that an assignment or a default replaced.
    pub open spec fn prior(self) -> Option<Attribute> {
        match self {
            Attribute::Populated { source: Source::FromUser(orig), .. } => Some(*orig),
            Attribute::Populated {
                source: Source::UserProvidedDefault(Some(orig)),
                ..
            } => Some(*orig),
            _ => None,
        }
    }

    /// The number that stands for the form and the source: 0 for an
    /// attribute without a value, then 1 to 4 for the sources.
    pub open spec fn kind(self) -> u8 {
        match self {
            Attribute::Uninitialized { .. } => 0u8,
            Attribute::Populated { source: Source::FromUser(_), .. } => 1u8,
            Attribute::Populated { source: Source::FromDatabase, .. } => 2u8,
            Attribute::Populated { source: Source::PreCast, .. } => 3u8,
            Attribute::Populated { source: Source::UserProvidedDefault(_), .. } => 4u8,
        }
    }

    /// The name of the attribute.
    #[verifier::when_used_as_spec(spec_name)]
    pub fn name(&self) -> (r: Value)
        ensures
            r == self.spec_name(),
    {
        match self {
            Attribute::Populated { name, .. } => *name,
            Attribute::Uninitialized { name, .. } => *name,
        }
    }

    /// The type of the attribute.
    #[verifier::when_used_as_spec(spec_ty)]
    pub fn ty(&self) -> (r: Value)
        ensures
            r == self.spec_ty(),
    {
        match self {
            Attribute::Populated { ty, .. } => *ty,
            Attribute::Uninitialized { ty, .. } => *ty,
        }
    }

    /// Whether the attribute holds a value.
    pub fn is_initialized(&self) -> (r: bool)
        ensures
            r == (*self is Populated),
    {
        match self {
            Attribute::Uninitialized { .. } => false,
            Attribute::Populated { .. } => true,
        }
    }

    /// Whether the coerced value was computed.
    pub fn has_been_read(&self) -> (r: bool)
        ensures
            r == (self.memo() is Some),
    {
        match self {
            Attribute::Populated { value, .. } => value.is_some(),
            Attribute::Uninitialized { .. } => false,
        }
    }

    /// Whether the attribute replaced another.
    pub fn has_been_assigned(&self) -> (r: bool)
        ensures
            r == (self.prior() is Some),
    {
        match self {
            Attribute::Populated { source: Source::FromUser(_), .. } => true,
            Attribute::Populated { source: Source::UserProvidedDefault(Some(_)), .. } => true,
            _ => false,
        }
    }

    /// The attribute that this one replaced.
    pub fn original_attribute(&self) -> (r: Option<&Attribute>)
        ensures
            match r {
                Some(a) => self.prior() == Some(*a),
                None => self.prior() is None,
            },
    {
        match self {
            Attribute::Populated { source: Source::FromUser(orig), .. } => Some(&**orig),
            Attribute::Populated {
                source: Source::UserProvidedDefault(Some(orig)),
                ..
            } => Some(&**orig),
            _ => None,
        }
    }

    /// The number of the form and the source: see `kind`.
    pub fn discriminant(&self) -> (r: u8)
        ensures
            r == self.kind(),
    {
        match self {
            Attribute::Uninitialized { .. } => 0u8,
            Attribute::Populated { source: Source::FromUser(_), .. } => 1u8,
            Attribute::Populated { source: Source::FromDatabase, .. } => 2u8,
            Attribute::Populated { source: Source::PreCast, .. } => 3u8,
            Attribute::Populated { source: Source::UserProvidedDefault(_), .. } => 4u8,
        }
    }

    /// An attribute of the same name and type with `value` from the database.
    /// What this attribute replaced and what was read of it are dropped.
    pub fn with_value_from_database(&self, value: Value) -> (r: Self)
        ensures
            r == (Attribute::Populated {
                name: self.spec_name(),
                raw_value: MaybeProc::NotProc(value),
                ty: self.spec_ty(),
                source: Source::FromDatabase,
                value: None,
            }),
    {
        Self::from_database(self.name(), value, self.ty())
    }

    /// An attribute of the same name and type that holds `value` as already cast.
    pub fn with_cast_value(&self, value: Value) -> (r: Self)
        ensures
            r == (Attribute::Populated {
                name: self.spec_name(),
                raw_value: MaybeProc::NotProc(value),
                ty: self.spec_ty(),
                source: Source::PreCast,
                value: None,
            }),
    {
        Self::from_cast_value(self.name(), value, self.ty())
    }

    /// This attribute with nothing read yet.
    pub open spec fn unread(self) -> Attribute {
        match self {
            Attribute::Populated { name, raw_value, ty, source, value } => Attribute::Populated {
                name,
                raw_value,
                ty,
                source,
                value: None,
            },
            Attribute::Uninitialized { .. } => self,
        }
    }

    /// A copy with nothing read yet.
    pub fn without_cast_value(&self) -> (r: Self)
        ensures
            r == self.unread(),
    {
        match self {
            Attribute::Populated { name, raw_value, ty, source, .. } => Attribute::Populated {
                name: *name,
                raw_value: raw_value.clone(),
                ty: *ty,
                source: source.clone(),
                value: None,
            },
            Attribute::Uninitialized { name, ty } => Attribute::Uninitialized {
                name: *name,
                ty: *ty,
            },
        }
    }
}

/// A deferred default answers once: after a call of `value` that
/// finished, every later call returns the same raw value, asks for
/// nothing and changes nothing, whatever replies it is given. A raw value
/// that is no deferred default is returned by every call.
pub proof fn raw_value_is_asked_once(
    m: MaybeProc,
    replies: Seq<Reply>,
    at: usize,
    later: Seq<Reply>,
    then: usize,
)
    requires
        m.step(replies, at) is Done,
    ensures
        m.after_step(replies, at).step(later, then) == (Step::Done {
            value: m.step(replies, at)->value,
            at: then,
        }),
        m.after_step(replies, at).after_step(later, then) == m.after_step(replies, at),
        m.after_step(replies, at).resolved() == Some(m.step(replies, at)->value),
{
}

} // verus!
