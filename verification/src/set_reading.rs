use vstd::prelude::*;
use crate::value::Value;
use crate::host::{Reply, Step};
use crate::attribute::Attribute;
use crate::attribute_set::AttributeSet;
use crate::ordered::{index_of, replaced_is_found};

verus! {

/// One reading of an attribute: its coerced value, or else its raw value.
pub open spec fn entry_step(a: Attribute, coerced: bool, replies: Seq<Reply>, at: usize) -> Step<
    Value,
> {
    if coerced {
        a.value_step(false, replies, at)
    } else {
        a.raw_step(replies, at)
    }
}

/// The attribute as that reading leaves it.
pub open spec fn entry_after(a: Attribute, coerced: bool, replies: Seq<Reply>, at: usize)
    -> Attribute {
    if coerced {
        a.after_value(false, replies, at)
    } else {
        a.after_raw(replies, at)
    }
}

/// Raw values are listed for every entry, coerced values for those that
/// hold a value.
pub open spec fn listed(a: Attribute, coerced: bool) -> bool {
    !coerced || a is Populated
}

/// The readings of the entries below `n`, one after the other: each name
/// with what was read, in order.
pub open spec fn read_upto(
    s: Seq<(u64, Attribute)>,
    n: nat,
    coerced: bool,
    replies: Seq<Reply>,
    at: usize,
) -> Step<Seq<(Value, Value)>>
    decreases n,
{
    if n == 0 {
        Step::Done { value: Seq::empty(), at }
    } else {
        match read_upto(s, (n - 1) as nat, coerced, replies, at) {
            Step::Done { value: rest, at: then } => match entry_step(
                s[n - 1].1,
                coerced,
                replies,
                then,
            ) {
                Step::Done { value, at: next } => Step::Done {
                    value: if listed(s[n - 1].1, coerced) {
                        rest.push((s[n - 1].1.spec_name(), value))
                    } else {
                        rest
                    },
                    at: next,
                },
                Step::Ask(request) => Step::Ask(request),
                Step::Failed(failure) => Step::Failed(failure),
            },
            other => other,
        }
    }
}

/// The entries as reading those below `n` leaves them: each one that the
/// traversal came to keeps what was read of it, the others are as they
/// were.
pub open spec fn kept_upto(
    s: Seq<(u64, Attribute)>,
    n: nat,
    coerced: bool,
    replies: Seq<Reply>,
    at: usize,
) -> Seq<(u64, Attribute)>
    decreases n,
{
    if n == 0 {
        s
    } else {
        let before = kept_upto(s, (n - 1) as nat, coerced, replies, at);
        match read_upto(s, (n - 1) as nat, coerced, replies, at) {
            Step::Done { at: then, .. } => before.update(
                n - 1,
                (s[n - 1].0, entry_after(s[n - 1].1, coerced, replies, then)),
            ),
            _ => before,
        }
    }
}

/// A traversal that stopped at one entry has the same result however far
/// it is taken.
pub proof fn read_stays_stuck(
    s: Seq<(u64, Attribute)>,
    m: nat,
    n: nat,
    coerced: bool,
    replies: Seq<Reply>,
    at: usize,
)
    requires
        m <= n,
        !(read_upto(s, m, coerced, replies, at) is Done),
    ensures
        read_upto(s, n, coerced, replies, at) == read_upto(s, m, coerced, replies, at),
    decreases n,
{
    if m < n {
        read_stays_stuck(s, m, (n - 1) as nat, coerced, replies, at);
    }
}

/// Beyond the entry at which a traversal stopped, nothing is kept.
pub proof fn kept_stays_stuck(
    s: Seq<(u64, Attribute)>,
    m: nat,
    n: nat,
    coerced: bool,
    replies: Seq<Reply>,
    at: usize,
)
    requires
        m <= n,
        !(read_upto(s, m, coerced, replies, at) is Done),
    ensures
        kept_upto(s, n, coerced, replies, at) == kept_upto(s, m, coerced, replies, at),
    decreases n,
{
    if m < n {
        kept_stays_stuck(s, m, (n - 1) as nat, coerced, replies, at);
        read_stays_stuck(s, m, (n - 1) as nat, coerced, replies, at);
    }
}

/// Reading leaves the number of entries, their keys and their names as
/// they are, and touches no entry that it has not come to.
pub proof fn kept_keeps_shape(
    s: Seq<(u64, Attribute)>,
    n: nat,
    coerced: bool,
    replies: Seq<Reply>,
    at: usize,
)
    requires
        n <= s.len(),
    ensures
        kept_upto(s, n, coerced, replies, at).len() == s.len(),
        forall|j: int|
            0 <= j < s.len() ==> (#[trigger] kept_upto(s, n, coerced, replies, at)[j]).0 == s[j].0
                && kept_upto(s, n, coerced, replies, at)[j].1.spec_name() == s[j].1.spec_name(),
        forall|j: int|
            n <= j < s.len() ==> (#[trigger] kept_upto(s, n, coerced, replies, at)[j]) == s[j],
    decreases n,
{
    if n > 0 {
        kept_keeps_shape(s, (n - 1) as nat, coerced, replies, at);
    }
}

impl AttributeSet {
    /// The value under `key`, computed on the first read and kept in its
    /// place from then on; `None` for a name that the set does not hold.
    /// While the result is `Ask`, the set stays as it was; else the
    /// attribute keeps what was read of it.
    pub fn fetch_value(&mut self, key: u64, block_given: bool, replies: &Vec<Reply>, at: usize) -> (r:
        Step<Option<Value>>)
        ensures
            match old(self).lookup(key) {
                None => r == (Step::Done { value: None::<Value>, at }) && final(self)@ == old(self)@,
                Some(a) => {
                    &&& match a.value_step(block_given, replies@, at) {
                        Step::Done { value, at: then } => r == (Step::Done {
                            value: Some(value),
                            at: then,
                        }),
                        Step::Ask(request) => r == Step::<Option<Value>>::Ask(request),
                        Step::Failed(failure) => r == Step::<Option<Value>>::Failed(failure),
                    }
                    &&& final(self)@ == old(self)@.update(
                        index_of(old(self)@, key),
                        (key, a.left(r, a.after_value(block_given, replies@, at))),
                    )
                    &&& final(self).lookup(key) == Some(
                        a.left(r, a.after_value(block_given, replies@, at)),
                    )
                },
            },
    {
        let (step, fresh) = match self.get(key) {
            Some(a) => (
                a.peek_value(block_given, replies, at),
                a.is_initialized() && !a.has_been_read(),
            ),
            None => {
                return Step::Done { value: None, at };
            },
        };
        let ghost a = old(self).lookup(key).unwrap();
        proof {
            replaced_is_found(self@, key, a.left(step, a.after_value(block_given, replies@, at)));
        }
        let keep = match step {
            Step::Ask(_) => false,
            _ => fresh,
        };
        if keep {
            self.keep_reading(key, true, block_given, replies, at);
        } else {
            assert(final(self)@ =~= old(self)@.update(index_of(old(self)@, key), (key, a)));
        }
        match step {
            Step::Done { value, at: then } => Step::Done { value: Some(value), at: then },
            Step::Ask(request) => Step::Ask(request),
            Step::Failed(failure) => Step::Failed(failure),
        }
    }

    /// The readings of all entries, without keeping anything.
    fn read_all(&self, coerced: bool, replies: &Vec<Reply>, at: usize) -> (r: Step<
        Vec<(Value, Value)>,
    >)
        ensures
            match read_upto(self@, self@.len(), coerced, replies@, at) {
                Step::Done { value, at: then } => r is Done && r->value@ == value && r->at == then,
                Step::Ask(request) => r == Step::<Vec<(Value, Value)>>::Ask(request),
                Step::Failed(failure) => r == Step::<Vec<(Value, Value)>>::Failed(failure),
            },
    {
        let n = self.len();
        let mut out: Vec<(Value, Value)> = Vec::new();
        let mut cursor: usize = at;
        let mut i: usize = 0;
        while i < n
            invariant
                n == self@.len(),
                i <= n,
                read_upto(self@, i as nat, coerced, replies@, at) == (Step::Done {
                    value: out@,
                    at: cursor,
                }),
            decreases n - i,
        {
            if let Some((_, attribute)) = self.entry_at(i) {
                let step = if coerced {
                    attribute.peek_value(false, replies, cursor)
                } else {
                    attribute.peek_raw(replies, cursor)
                };
                match step {
                    Step::Done { value, at: next } => {
                        if !coerced || attribute.is_initialized() {
                            out.push((attribute.name(), value));
                        }
                        cursor = next;
                    },
                    Step::Ask(request) => {
                        proof {
                            read_stays_stuck(
                                self@,
                                (i + 1) as nat,
                                n as nat,
                                coerced,
                                replies@,
                                at,
                            );
                        }
                        return Step::Ask(request);
                    },
                    Step::Failed(failure) => {
                        proof {
                            read_stays_stuck(
                                self@,
                                (i + 1) as nat,
                                n as nat,
                                coerced,
                                replies@,
                                at,
                            );
                        }
                        return Step::Failed(failure);
                    },
                }
            }
            i += 1;
        }
        Step::Done { value: out, at: cursor }
    }

    /// Lets every entry keep what a traversal that no longer asks read.
    fn keep_all(&mut self, coerced: bool, replies: &Vec<Reply>, at: usize)
        requires
            !(read_upto(old(self)@, old(self)@.len(), coerced, replies@, at) is Ask),
        ensures
            final(self)@ == kept_upto(old(self)@, old(self)@.len(), coerced, replies@, at),
    {
        let ghost s = self@;
        let n = self.len();
        let mut cursor: usize = at;
        let mut i: usize = 0;
        while i < n
            invariant
                n == s.len(),
                s == old(self)@,
                i <= n,
                !(read_upto(s, n as nat, coerced, replies@, at) is Ask),
                read_upto(s, i as nat, coerced, replies@, at) is Done,
                read_upto(s, i as nat, coerced, replies@, at)->at == cursor,
                self@ == kept_upto(s, i as nat, coerced, replies@, at),
            decreases n - i,
        {
            proof {
                kept_keeps_shape(s, i as nat, coerced, replies@, at);
                if !(read_upto(s, (i + 1) as nat, coerced, replies@, at) is Done) {
                    read_stays_stuck(s, (i + 1) as nat, n as nat, coerced, replies@, at);
                    kept_stays_stuck(s, (i + 1) as nat, n as nat, coerced, replies@, at);
                }
            }
            let (key, step, open) = match self.entry_at(i) {
                Some((key, attribute)) => if coerced {
                    (
                        key,
                        attribute.peek_value(false, replies, cursor),
                        attribute.is_initialized() && !attribute.has_been_read(),
                    )
                } else {
                    (key, attribute.peek_raw(replies, cursor), attribute.has_open_default())
                },
                None => (0, Step::Done { value: Value::Nil, at: cursor }, false),
            };
            let ghost here = self@;
            assert(here[i as int] == s[i as int]);
            if open {
                self.keep_reading(key, coerced, false, replies, cursor);
            } else {
                assert(self@ =~= here.update(
                    i as int,
                    (key, entry_after(s[i as int].1, coerced, replies@, cursor)),
                ));
            }
            match step {
                Step::Done { at: next, .. } => {
                    cursor = next;
                },
                _ => {
                    return;
                },
            }
            i += 1;
        }
    }

    /// Each name that holds a value with its coerced value, in order. The
    /// values are computed on the first read and kept from then on. While
    /// the result is `Ask`, the set stays as it was; where the host fails,
    /// the entries keep what was read before.
    pub fn to_hash(&mut self, replies: &Vec<Reply>, at: usize) -> (r: Step<Vec<(Value, Value)>>)
        ensures
            match read_upto(old(self)@, old(self)@.len(), true, replies@, at) {
                Step::Done { value, at: then } => r is Done && r->value@ == value && r->at == then,
                Step::Ask(request) => r == Step::<Vec<(Value, Value)>>::Ask(request),
                Step::Failed(failure) => r == Step::<Vec<(Value, Value)>>::Failed(failure),
            },
            final(self)@ == if r is Ask {
                old(self)@
            } else {
                kept_upto(old(self)@, old(self)@.len(), true, replies@, at)
            },
    {
        let step = self.read_all(true, replies, at);
        if !step.is_asking() {
            self.keep_all(true, replies, at);
        }
        step
    }

    /// Each name with its raw value, in order, whether it holds a value or
    /// not. Nothing is coerced; a deferred default is asked and keeps its
    /// answer. While the result is `Ask`, the set stays as it was.
    pub fn values_before_type_cast(&mut self, replies: &Vec<Reply>, at: usize) -> (r: Step<
        Vec<(Value, Value)>,
    >)
        ensures
            match read_upto(old(self)@, old(self)@.len(), false, replies@, at) {
                Step::Done { value, at: then } => r is Done && r->value@ == value && r->at == then,
                Step::Ask(request) => r == Step::<Vec<(Value, Value)>>::Ask(request),
                Step::Failed(failure) => r == Step::<Vec<(Value, Value)>>::Failed(failure),
            },
            final(self)@ == if r is Ask {
                old(self)@
            } else {
                kept_upto(old(self)@, old(self)@.len(), false, replies@, at)
            },
    {
        let step = self.read_all(false, replies, at);
        if !step.is_asking() {
            self.keep_all(false, replies, at);
        }
        step
    }
}

impl Attribute {
    /// Whether the raw value is a deferred default that was never asked.
    pub fn has_open_default(&self) -> (r: bool)
        ensures
            r == (self.known_raw() is None),
    {
        match self {
            Attribute::Populated { raw_value, .. } => !raw_value.is_resolved(),
            Attribute::Uninitialized { .. } => false,
        }
    }
}

} // verus!
