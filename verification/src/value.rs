use vstd::prelude::*;

verus! {

/// A value of the host, as far as this library looks into one: the null
/// sentinel, the two booleans, and everything else as an opaque handle.
#[derive(Clone, Copy, PartialEq, Eq, Structural, Debug, Hash)]
pub enum Value {
    Nil,
    Bool(bool),
    Object(u64),
}

impl Value {
    /// The host's notion of truth: everything but the null sentinel and
    /// `false`.
    pub open spec fn truthy(self) -> bool {
        self != Value::Nil && self != Value::Bool(false)
    }

    /// Whether this is the null sentinel.
    pub fn is_nil(&self) -> (r: bool)
        ensures
            r == (*self == Value::Nil),
    {
        match self {
            Value::Nil => true,
            _ => false,
        }
    }

    /// Whether the host takes this value for true.
    pub fn is_truthy(&self) -> (r: bool)
        ensures
            r == self.truthy(),
    {
        match self {
            Value::Nil => false,
            Value::Bool(b) => *b,
            Value::Object(_) => true,
        }
    }
}

/// The host's boolean for `test`.
pub fn to_ruby_bool(test: bool) -> (r: Value)
    ensures
        r == Value::Bool(test),
{
    Value::Bool(test)
}

} // verus!
