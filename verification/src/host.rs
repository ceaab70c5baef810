//! How the library talks to its host.
//!
//! What a type does to a value, whether two values are equal, what a
//! deferred default yields: only the host can say. An operation that needs
//! such answers takes `replies`, the answers received so far in the order
//! of the requests, and `at`, the place of the first reply that is its
//! own. It reads the replies one by one. Where they run out it returns
//! `Step::Ask` with the request that comes next and leaves everything as
//! it was; the caller has the host answer, appends the reply, and calls
//! the operation again with the same arguments. Once no request is left
//! the operation returns `Step::Done` with its result and the place behind
//! the last reply it read. Where the host raised, it returns
//! `Step::Failed`. In both cases it keeps what it read: the value of an
//! attribute that was computed, and the answer of a deferred default,
//! which is asked once in the life of an attribute.
//!
//! What an operation returns and keeps once it has stopped asking depends
//! on no reply that follows: `replay` proves this of each operation.
use vstd::prelude::*;
use crate::value::Value;

verus! {

/// One request to the host. The first field of a request to a type is the
/// type itself.
#[derive(Clone, Copy, PartialEq, Eq, Structural, Debug)]
pub enum Request {
    /// Call a deferred default with no arguments.
    CallProvider { block: Value },
    /// Hand an attribute's name to the block that came with a read.
    YieldDefault { name: Value },
    Deserialize { ty: Value, raw: Value },
    Cast { ty: Value, raw: Value },
    Serialize { ty: Value, value: Value },
    Changed { ty: Value, original: Value, value: Value, raw: Value },
    ChangedInPlace { ty: Value, original_for_database: Value, value: Value },
    AssertValidValue { ty: Value, value: Value },
    ConstructedByMassAssignment { ty: Value, raw: Value },
    /// Copy a value so that changes to the copy leave the original alone.
    Duplicate { value: Value },
    /// The host's own equality.
    Equal { lhs: Value, rhs: Value },
    /// The host's hash of the four, taken together.
    HashOf { kind: u8, name: Value, raw_value: Value, ty: Value },
    /// The marker that stands for the original value of an attribute that
    /// never held one.
    UninitializedOriginalValue,
    /// The type for a column that was never declared.
    DefaultType,
}

/// What the host did with a request.
#[derive(Clone, Copy, PartialEq, Eq, Structural, Debug)]
pub enum Reply {
    Returned(Value),
    Raised(Value),
}

/// How far an operation came with the replies it was given.
#[derive(PartialEq, Eq, Debug)]
pub enum Step<T> {
    /// Finished. `at` counts the replies read so far.
    Done { value: T, at: usize },
    /// The replies ran out: this request comes next.
    Ask(Request),
    /// The host raised; the operation stops and hands the failure on.
    Failed(Value),
}

impl<T> Step<T> {
    /// Whether the operation stopped at a request.
    pub fn is_asking(&self) -> (r: bool)
        ensures
            r == (*self is Ask),
    {
        match self {
            Step::Ask(_) => true,
            _ => false,
        }
    }

    /// The request that an operation stopped at, if it stopped at one.
    pub fn pending(&self) -> (r: Option<Request>)
        ensures
            r == match *self {
                Step::Ask(request) => Some(request),
                _ => None,
            },
    {
        match self {
            Step::Ask(request) => Some(*request),
            _ => None,
        }
    }
}

/// The reply at position `at`, or the request that has to be made for it.
pub open spec fn reply_at(replies: Seq<Reply>, at: usize, request: Request) -> Step<Value> {
    if at < replies.len() {
        match replies[at as int] {
            Reply::Returned(v) => Step::Done { value: v, at: (at + 1) as usize },
            Reply::Raised(e) => Step::Failed(e),
        }
    } else {
        Step::Ask(request)
    }
}

/// Reads the reply at `at`, or asks for it.
pub fn ask(request: Request, replies: &Vec<Reply>, at: usize) -> (r: Step<Value>)
    ensures
        r == reply_at(replies@, at, request),
{
    if at < replies.len() {
        match replies[at] {
            Reply::Returned(v) => Step::Done { value: v, at: at + 1 },
            Reply::Raised(e) => Step::Failed(e),
        }
    } else {
        Step::Ask(request)
    }
}

} // verus!
