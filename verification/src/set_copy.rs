use vstd::prelude::*;

use crate::host::{Reply, Step};
use crate::attribute::Attribute;
use crate::attribute_set::AttributeSet;
use crate::ordered::{holds_key, index_of};

verus! {

/// The independent copies of the entries below `n`, made one after the
/// other, each under its key.
pub open spec fn dup_upto(s: Seq<(u64, Attribute)>, n: nat, replies: Seq<Reply>, at: usize) -> Step<
    Seq<(u64, Attribute)>,
>
    decreases n,
{
    if n == 0 {
        Step::Done { value: Seq::empty(), at }
    } else {
        match dup_upto(s, (n - 1) as nat, replies, at) {
            Step::Done { value: rest, at: then } => match s[n - 1].1.deep_dup_step(replies, then) {
                Step::Done { value: copy, at: next } => Step::Done {
                    value: rest.push((s[n - 1].0, copy)),
                    at: next,
                },
                Step::Ask(request) => Step::Ask(request),
                Step::Failed(failure) => Step::Failed(failure),
            },
            other => other,
        }
    }
}

/// The comparison of the entries of `s` below `n` with those of `t`:
/// whether each has an equal in `t` under its key, asked entry by entry
/// until one has none, together with both lists of entries as the
/// comparison leaves them, each attribute with what was read of it.
pub open spec fn compared_upto(
    s: Seq<(u64, Attribute)>,
    t: Seq<(u64, Attribute)>,
    n: nat,
    replies: Seq<Reply>,
    at: usize,
) -> (Step<bool>, Seq<(u64, Attribute)>, Seq<(u64, Attribute)>)
    decreases n,
{
    if n == 0 {
        (Step::Done { value: true, at }, s, t)
    } else {
        let before = compared_upto(s, t, (n - 1) as nat, replies, at);
        match before.0 {
            Step::Done { value: true, at: then } => {
                let key = before.1[n - 1].0;
                let a = before.1[n - 1].1;
                if holds_key(before.2, key) {
                    let j = index_of(before.2, key);
                    let b = before.2[j].1;
                    (
                        a.equal_step(b, replies, then),
                        before.1.update(n - 1, (key, a.after_equal(b, replies, then))),
                        before.2.update(j, (key, a.other_after_equal(b, replies, then))),
                    )
                } else {
                    (Step::Done { value: false, at: then }, before.1, before.2)
                }
            },
            _ => before,
        }
    }
}

/// Equality of two sets, whatever their order: as many entries, and each
/// entry of the first has an equal in the second under its key.
pub open spec fn sets_compared(
    s: Seq<(u64, Attribute)>,
    t: Seq<(u64, Attribute)>,
    replies: Seq<Reply>,
    at: usize,
) -> (Step<bool>, Seq<(u64, Attribute)>, Seq<(u64, Attribute)>) {
    if s.len() != t.len() {
        (Step::Done { value: false, at }, s, t)
    } else {
        compared_upto(s, t, s.len(), replies, at)
    }
}

/// taken.
pub proof fn dup_stays_stuck(
    s: Seq<(u64, Attribute)>,
    m: nat,
    n: nat,
    replies: Seq<Reply>,
    at: usize,
)
    requires
        m <= n,
        !(dup_upto(s, m, replies, at) is Done),
    ensures
        dup_upto(s, n, replies, at) == dup_upto(s, m, replies, at),
    decreases n,
{
    if m < n {
        dup_stays_stuck(s, m, (n - 1) as nat, replies, at);
    }
}

/// A comparison that stopped or found a difference has the same result
/// however far it is taken; and it keeps the number of entries and their
/// keys on both sides.
pub proof fn compared_stays_decided(
    s: Seq<(u64, Attribute)>,
    t: Seq<(u64, Attribute)>,
    m: nat,
    n: nat,
    replies: Seq<Reply>,
    at: usize,
)
    requires
        m <= n,
        !(compared_upto(s, t, m, replies, at).0 is Done && compared_upto(
            s,
            t,
            m,
            replies,
            at,
        ).0->value),
    ensures
        compared_upto(s, t, n, replies, at) == compared_upto(s, t, m, replies, at),
    decreases n,
{
    if m < n {
        compared_stays_decided(s, t, m, (n - 1) as nat, replies, at);
    }
}

impl AttributeSet {
    /// A set with the same entries.
    pub fn duplicate(&self) -> (r: Self)
        ensures
            r@ == self@,
    {
        let n = self.len();
        let mut out = AttributeSet::empty();
        let mut i: usize = 0;
        while i < n
            invariant
                n == self@.len(),
                i <= n,
                out@ == self@.subrange(0, i as int),
            decreases n - i,
        {
            if let Some((key, attribute)) = self.entry_at(i) {
                assert(!holds_key(out@, key));
                out.set(key, attribute.clone());
                assert(out@ =~= self@.subrange(0, i + 1));
            }
            i += 1;
        }
        assert(out@ =~= self@);
        out
    }

    /// A set whose every entry is an independent copy of the entry of this
    /// set in the same place.
    pub fn deep_dup(&self, replies: &Vec<Reply>, at: usize) -> (r: Step<AttributeSet>)
        ensures
            match dup_upto(self@, self@.len(), replies@, at) {
                Step::Done { value, at: then } => r is Done && r->value@ == value && r->at == then,
                Step::Ask(request) => r == Step::<AttributeSet>::Ask(request),
                Step::Failed(failure) => r == Step::<AttributeSet>::Failed(failure),
            },
    {
        let n = self.len();
        let mut out = AttributeSet::empty();
        let mut cursor: usize = at;
        let mut i: usize = 0;
        while i < n
            invariant
                n == self@.len(),
                i <= n,
                dup_upto(self@, i as nat, replies@, at) == (Step::Done { value: out@, at: cursor }),
                out@.len() == i,
                forall|j: int| 0 <= j < i ==> (#[trigger] out@[j]).0 == self@[j].0,
            decreases n - i,
        {
            if let Some((key, attribute)) = self.entry_at(i) {
                match attribute.deep_dup(replies, cursor) {
                    Step::Done { value: copy, at: next } => {
                        assert(!holds_key(out@, key));
                        out.set(key, copy);
                        cursor = next;
                    },
                    Step::Ask(request) => {
                        proof {
                            dup_stays_stuck(self@, (i + 1) as nat, n as nat, replies@, at);
                        }
                        return Step::Ask(request);
                    },
                    Step::Failed(failure) => {
                        proof {
                            dup_stays_stuck(self@, (i + 1) as nat, n as nat, replies@, at);
                        }
                        return Step::Failed(failure);
                    },
                }
            }
            i += 1;
        }
        Step::Done { value: out, at: cursor }
    }

    /// A set with the keys of this one, in the same order, each with what
    /// `f` makes of the attribute under it. `f` is called once for each
    /// entry, in order.
    pub fn map<'a, F: Fn(&'a Attribute) -> Attribute>(&'a self, f: F) -> (r: AttributeSet)
        requires
            forall|j: int|
                0 <= j < self@.len() ==> call_requires(f, (&(#[trigger] self@[j]).1,)),
        ensures
            r@.len() == self@.len(),
            forall|j: int|
                0 <= j < self@.len() ==> (#[trigger] r@[j]).0 == self@[j].0 && call_ensures(
                    f,
                    (&self@[j].1,),
                    r@[j].1,
                ),
    {
        let n = self.len();
        let mut out = AttributeSet::empty();
        let mut i: usize = 0;
        while i < n
            invariant
                n == self@.len(),
                i <= n,
                out@.len() == i,
                forall|j: int|
                    0 <= j < self@.len() ==> call_requires(f, (&(#[trigger] self@[j]).1,)),
                forall|j: int|
                    0 <= j < i ==> (#[trigger] out@[j]).0 == self@[j].0 && call_ensures(
                        f,
                        (&self@[j].1,),
                        out@[j].1,
                    ),
            decreases n - i,
        {
            if let Some((key, attribute)) = self.entry_at(i) {
                assert(self@[i as int].1 == *attribute);
                let transformed = f(attribute);
                assert(!holds_key(out@, key));
                out.set(key, transformed);
            }
            i += 1;
        }
        out
    }

    /// Whether two sets are equal, whatever their order: see
    /// `sets_compared`. The attributes that were compared keep what was
    /// read of them, on both sides. While the result is `Ask`, both sets
    /// stay as they were.
    pub fn equals(&mut self, other: &mut AttributeSet, replies: &Vec<Reply>, at: usize) -> (r: Step<
        bool,
    >)
        ensures
            r == sets_compared(old(self)@, old(other)@, replies@, at).0,
            final(self)@ == if r is Ask {
                old(self)@
            } else {
                sets_compared(old(self)@, old(other)@, replies@, at).1
            },
            final(other)@ == if r is Ask {
                old(other)@
            } else {
                sets_compared(old(self)@, old(other)@, replies@, at).2
            },
    {
        let n = self.len();
        if n != other.len() {
            return Step::Done { value: false, at };
        }
        let ghost s = self@;
        let ghost t = other@;
        let mut left = self.duplicate();
        let mut right = other.duplicate();
        let mut cursor: usize = at;
        let mut i: usize = 0;
        while i < n
            invariant
                n == s.len(),
                n == t.len(),
                s == self@,
                t == other@,
                s == old(self)@,
                t == old(other)@,
                i <= n,
                left@.len() == n,
                compared_upto(s, t, i as nat, replies@, at) == (
                    Step::Done { value: true, at: cursor },
                    left@,
                    right@,
                ),
            decreases n - i,
        {
            let key = match left.entry_at(i) {
                Some((key, _)) => key,
                None => 0,
            };
            let step = if right.get(key).is_some() {
                let mut a = left.replace(key, Attribute::default());
                let mut b = right.replace(key, Attribute::default());
                let step = a.peek_equals(&b, replies, cursor);
                a.keep_equal(&mut b, replies, cursor);
                let _ = left.replace(key, a);
                let _ = right.replace(key, b);
                step
            } else {
                Step::Done { value: false, at: cursor }
            };
            proof {
                let before = compared_upto(s, t, i as nat, replies@, at);
                let now = compared_upto(s, t, (i + 1) as nat, replies@, at);
                assert(left@ =~= now.1);
                assert(right@ =~= now.2);
                assert(step == now.0);
            }
            match step {
                Step::Done { value: true, at: next } => {
                    cursor = next;
                },
                Step::Ask(request) => {
                    proof {
                        compared_stays_decided(s, t, (i + 1) as nat, n as nat, replies@, at);
                    }
                    return Step::Ask(request);
                },
                decided => {
                    proof {
                        compared_stays_decided(s, t, (i + 1) as nat, n as nat, replies@, at);
                    }
                    *self = left;
                    *other = right;
                    return decided;
                },
            }
            i += 1;
        }
        *self = left;
        *other = right;
        Step::Done { value: true, at: cursor }
    }
}

} // verus!
