use vstd::prelude::*;
use crate::value::Value;
use crate::host::{Reply, Request, Step, reply_at};
use crate::attribute::{Attribute, coerce_step};
use crate::equality::same_step;
use crate::ordered::{holds_key, index_of};
use crate::set_reading::{read_upto, kept_upto};
use crate::set_copy::{dup_upto, compared_upto, sets_compared};
use crate::builder::{Stored, hydrated_upto};

verus! {

/// `longer` starts with all of `shorter`.
pub open spec fn extends(longer: Seq<Reply>, shorter: Seq<Reply>) -> bool {
    &&& shorter.len() <= longer.len()
    &&& longer.len() <= usize::MAX
    &&& forall|i: int| 0 <= i < shorter.len() ==> #[trigger] longer[i] == shorter[i]
}

/// An operation that no longer asks: it is done, or the host raised.
pub open spec fn settled<T>(step: Step<T>) -> bool {
    !(step is Ask)
}

/// A reply that was read is read again, whatever follows it.
pub proof fn reply_is_read_again(
    shorter: Seq<Reply>,
    longer: Seq<Reply>,
    at: usize,
    request: Request,
)
    requires
        extends(longer, shorter),
        settled(reply_at(shorter, at, request)),
    ensures
        reply_at(longer, at, request) == reply_at(shorter, at, request),
        reply_at(shorter, at, request) is Done ==> at < reply_at(shorter, at, request)->at
            <= shorter.len(),
{
    assert(longer[at as int] == shorter[at as int]);
}

/// Taking an operation on one attribute up again with more replies leads
/// to the same end: once it no longer asks, its result and what the
/// attribute keeps depend on the replies it has read and on nothing that
/// follows them. This holds of reading, of the original value and of the
/// questions about change.
pub proof fn settled_reads_stay(
    a: Attribute,
    block_given: bool,
    shorter: Seq<Reply>,
    longer: Seq<Reply>,
    at: usize,
)
    requires
        extends(longer, shorter),
    ensures
        settled(a.raw_step(shorter, at)) ==> a.raw_step(longer, at) == a.raw_step(shorter, at)
            && a.after_raw(longer, at) == a.after_raw(shorter, at),
        settled(a.value_step(block_given, shorter, at)) ==> a.value_step(block_given, longer, at)
            == a.value_step(block_given, shorter, at) && a.after_value(block_given, longer, at)
            == a.after_value(block_given, shorter, at),
        settled(a.value_for_database_step(shorter, at)) ==> a.value_for_database_step(longer, at)
            == a.value_for_database_step(shorter, at),
        settled(a.original_value_step(shorter, at)) ==> a.original_value_step(longer, at)
            == a.original_value_step(shorter, at) && a.after_original(longer, at)
            == a.after_original(shorter, at),
        settled(a.original_value_for_database_step(shorter, at))
            ==> a.original_value_for_database_step(longer, at)
            == a.original_value_for_database_step(shorter, at) && a.after_original_for_database(
            longer,
            at,
        ) == a.after_original_for_database(shorter, at),
        settled(a.changed_in_place_step(shorter, at)) ==> a.changed_in_place_step(longer, at)
            == a.changed_in_place_step(shorter, at) && a.after_changed_in_place(longer, at)
            == a.after_changed_in_place(shorter, at),
{
    if settled(a.raw_step(shorter, at)) {
        raw_stays(a, shorter, longer, at);
    }
    if settled(a.value_step(block_given, shorter, at)) {
        value_stays(a, block_given, shorter, longer, at);
    }
    if settled(a.value_for_database_step(shorter, at)) {
        stored_stays(a, shorter, longer, at);
    }
    if settled(a.original_value_step(shorter, at)) {
        baseline_stays(a.root(), shorter, longer, at);
    }
    if settled(a.original_value_for_database_step(shorter, at)) {
        stored_baseline_stays(a.root(), shorter, longer, at);
    }
    if settled(a.changed_in_place_step(shorter, at)) {
        changed_in_place_stays(a, shorter, longer, at);
    }
}

proof fn raw_stays(a: Attribute, shorter: Seq<Reply>, longer: Seq<Reply>, at: usize)
    requires
        extends(longer, shorter),
        settled(a.raw_step(shorter, at)),
    ensures
        a.raw_step(longer, at) == a.raw_step(shorter, at),
        a.after_raw(longer, at) == a.after_raw(shorter, at),
        a.raw_step(shorter, at) is Done ==> at <= a.raw_step(shorter, at)->at,
        a.raw_step(shorter, at) is Done && at <= shorter.len() ==> a.raw_step(shorter, at)->at
            <= shorter.len(),
{
    if at < shorter.len() {
        assert(longer[at as int] == shorter[at as int]);
    }
}

proof fn coerce_stays(
    a: Attribute,
    raw: Value,
    shorter: Seq<Reply>,
    longer: Seq<Reply>,
    at: usize,
)
    requires
        extends(longer, shorter),
        a is Populated,
        settled(coerce_step(a->source, a->Populated_ty, raw, shorter, at)),
    ensures
        coerce_step(a->source, a->Populated_ty, raw, longer, at) == coerce_step(
            a->source,
            a->Populated_ty,
            raw,
            shorter,
            at,
        ),
{
    if at < shorter.len() {
        assert(longer[at as int] == shorter[at as int]);
    }
}

proof fn value_stays(
    a: Attribute,
    block_given: bool,
    shorter: Seq<Reply>,
    longer: Seq<Reply>,
    at: usize,
)
    requires
        extends(longer, shorter),
        settled(a.value_step(block_given, shorter, at)),
    ensures
        a.value_step(block_given, longer, at) == a.value_step(block_given, shorter, at),
        a.after_value(block_given, longer, at) == a.after_value(block_given, shorter, at),
{
    if at < shorter.len() {
        assert(longer[at as int] == shorter[at as int]);
    }
    if a is Populated && a.memo() is None {
        let first = a->raw_value.step(shorter, at);
        if first is Done {
            raw_stays(a, shorter, longer, at);
            coerce_stays(a, first->value, shorter, longer, first->at);
        } else {
            raw_stays(a, shorter, longer, at);
        }
    }
}

proof fn stored_stays(a: Attribute, shorter: Seq<Reply>, longer: Seq<Reply>, at: usize)
    requires
        extends(longer, shorter),
        settled(a.value_for_database_step(shorter, at)),
    ensures
        a.value_for_database_step(longer, at) == a.value_for_database_step(shorter, at),
{
    value_stays(a, false, shorter, longer, at);
    let first = a.value_step(false, shorter, at);
    if first is Done {
        reply_is_read_again(
            shorter,
            longer,
            first->at,
            Request::Serialize { ty: a.spec_ty(), value: first->value },
        );
    }
}

proof fn baseline_stays(a: Attribute, shorter: Seq<Reply>, longer: Seq<Reply>, at: usize)
    requires
        extends(longer, shorter),
        settled(a.baseline_step(shorter, at)),
    ensures
        a.baseline_step(longer, at) == a.baseline_step(shorter, at),
{
    if at < shorter.len() {
        assert(longer[at as int] == shorter[at as int]);
    }
    if a is Populated {
        let first = a->raw_value.step(shorter, at);
        raw_stays(a, shorter, longer, at);
        if first is Done {
            coerce_stays(a, first->value, shorter, longer, first->at);
        }
    }
}

proof fn stored_baseline_stays(a: Attribute, shorter: Seq<Reply>, longer: Seq<Reply>, at: usize)
    requires
        extends(longer, shorter),
        settled(a.stored_baseline_step(shorter, at)),
    ensures
        a.stored_baseline_step(longer, at) == a.stored_baseline_step(shorter, at),
{
    if a is Populated {
        if a->source is FromDatabase {
            raw_stays(a, shorter, longer, at);
        } else if a->source is PreCast {
            stored_stays(a, shorter, longer, at);
        } else {
            baseline_stays(a, shorter, longer, at);
            let first = a.baseline_step(shorter, at);
            if first is Done {
                reply_is_read_again(
                    shorter,
                    longer,
                    first->at,
                    Request::Serialize { ty: a.spec_ty(), value: first->value },
                );
            }
        }
    }
}

proof fn changed_in_place_stays(a: Attribute, shorter: Seq<Reply>, longer: Seq<Reply>, at: usize)
    requires
        extends(longer, shorter),
        settled(a.changed_in_place_step(shorter, at)),
    ensures
        a.changed_in_place_step(longer, at) == a.changed_in_place_step(shorter, at),
{
    if a.memo() is Some {
        stored_baseline_stays(a.root(), shorter, longer, at);
        let first = a.original_value_for_database_step(shorter, at);
        if first is Done {
            reply_is_read_again(
                shorter,
                longer,
                first->at,
                Request::ChangedInPlace {
                    ty: a.spec_ty(),
                    original_for_database: first->value,
                    value: a.memo().unwrap(),
                },
            );
        }
    }
}

/// The same holds of the questions about assignment.
pub proof fn settled_changes_stay(a: Attribute, shorter: Seq<Reply>, longer: Seq<Reply>, at: usize)
    requires
        extends(longer, shorter),
    ensures
        settled(a.changed_from_assignment_step(shorter, at)) ==> a.changed_from_assignment_step(
            longer,
            at,
        ) == a.changed_from_assignment_step(shorter, at) && a.after_changed_from_assignment(
            longer,
            at,
        ) == a.after_changed_from_assignment(shorter, at),
        settled(a.changed_step(shorter, at)) ==> a.changed_step(longer, at) == a.changed_step(
            shorter,
            at,
        ) && a.after_changed(longer, at) == a.after_changed(shorter, at),
{
    if settled(a.changed_from_assignment_step(shorter, at)) {
        changed_from_assignment_stays(a, shorter, longer, at);
    }
    if settled(a.changed_step(shorter, at)) {
        let first = a.changed_from_assignment_step(shorter, at);
        changed_from_assignment_stays(a, shorter, longer, at);
        if first is Done && !first->value {
            changed_in_place_stays(
                a.after_changed_from_assignment(shorter, at),
                shorter,
                longer,
                first->at,
            );
        }
    }
}

/// And of the new attributes that an attribute leads to, of comparing and
/// of hashing.
pub proof fn settled_transitions_stay(
    a: Attribute,
    other: Attribute,
    value: Value,
    shorter: Seq<Reply>,
    longer: Seq<Reply>,
    at: usize,
)
    requires
        extends(longer, shorter),
    ensures
        settled(a.assigned_step(value, shorter, at)) ==> a.assigned_step(value, longer, at)
            == a.assigned_step(value, shorter, at),
        settled(a.retyped_step(value, shorter, at)) ==> a.retyped_step(value, longer, at)
            == a.retyped_step(value, shorter, at),
        settled(a.forgetting_step(shorter, at)) ==> a.forgetting_step(longer, at)
            == a.forgetting_step(shorter, at),
        settled(a.came_from_user_step(shorter, at)) ==> a.came_from_user_step(longer, at)
            == a.came_from_user_step(shorter, at) && a.after_came_from_user(longer, at)
            == a.after_came_from_user(shorter, at),
        settled(a.deep_dup_step(shorter, at)) ==> a.deep_dup_step(longer, at) == a.deep_dup_step(
            shorter,
            at,
        ),
        settled(a.equal_step(other, shorter, at)) ==> a.equal_step(other, longer, at)
            == a.equal_step(other, shorter, at) && a.after_equal(other, longer, at)
            == a.after_equal(other, shorter, at) && a.other_after_equal(other, longer, at)
            == a.other_after_equal(other, shorter, at),
        settled(a.hash_step(shorter, at)) ==> a.hash_step(longer, at) == a.hash_step(shorter, at)
            && a.after_raw(longer, at) == a.after_raw(shorter, at),
{
    if settled(a.assigned_step(value, shorter, at)) {
        reply_is_read_again(
            shorter,
            longer,
            at,
            Request::AssertValidValue { ty: a.spec_ty(), value },
        );
    }
    if settled(a.retyped_step(value, shorter, at)) {
        changed_in_place_stays(a, shorter, longer, at);
    }
    if settled(a.forgetting_step(shorter, at)) {
        if a is Populated {
            stored_stays(a, shorter, longer, at);
        }
    }
    if settled(a.came_from_user_step(shorter, at)) {
        if a is Populated && a->source is FromUser {
            raw_stays(a, shorter, longer, at);
            let first = a.raw_step(shorter, at);
            if first is Done {
                reply_is_read_again(
                    shorter,
                    longer,
                    first->at,
                    Request::ConstructedByMassAssignment { ty: a.spec_ty(), raw: first->value },
                );
            }
        }
    }
    if settled(a.deep_dup_step(shorter, at)) {
        if a.memo() is Some {
            reply_is_read_again(
                shorter,
                longer,
                at,
                Request::Duplicate { value: a.memo().unwrap() },
            );
        }
    }
    if settled(a.equal_step(other, shorter, at)) {
        equal_stays(a, other, shorter, longer, at);
    }
    if settled(a.hash_step(shorter, at)) {
        raw_stays(a, shorter, longer, at);
    }
}

proof fn changed_from_assignment_stays(
    a: Attribute,
    shorter: Seq<Reply>,
    longer: Seq<Reply>,
    at: usize,
)
    requires
        extends(longer, shorter),
        settled(a.changed_from_assignment_step(shorter, at)),
    ensures
        a.changed_from_assignment_step(longer, at) == a.changed_from_assignment_step(shorter, at),
        a.after_changed_from_assignment(longer, at) == a.after_changed_from_assignment(shorter, at),
{
    if a.prior() is Some {
        baseline_stays(a.root(), shorter, longer, at);
        let original = a.original_value_step(shorter, at);
        if original is Done {
            value_stays(a, false, shorter, longer, original->at);
            let read = a.value_step(false, shorter, original->at);
            if read is Done {
                let kept = a.after_value(false, shorter, original->at);
                raw_stays(kept, shorter, longer, read->at);
                let raw = kept.raw_step(shorter, read->at);
                if raw is Done {
                    reply_is_read_again(
                        shorter,
                        longer,
                        raw->at,
                        Request::Changed {
                            ty: a.spec_ty(),
                            original: original->value,
                            value: read->value,
                            raw: raw->value,
                        },
                    );
                }
            }
        }
    }
}

proof fn equal_stays(
    a: Attribute,
    other: Attribute,
    shorter: Seq<Reply>,
    longer: Seq<Reply>,
    at: usize,
)
    requires
        extends(longer, shorter),
        settled(a.equal_step(other, shorter, at)),
    ensures
        a.equal_step(other, longer, at) == a.equal_step(other, shorter, at),
{
    if a.kind() == other.kind() {
        reply_is_read_again(
            shorter,
            longer,
            at,
            Request::Equal { lhs: a.spec_name(), rhs: other.spec_name() },
        );
        let names = same_step(a.spec_name(), other.spec_name(), shorter, at);
        if names is Done && names->value {
            if a is Populated {
                raw_stays(a, shorter, longer, names->at);
                let left = a.raw_step(shorter, names->at);
                if left is Done {
                    raw_stays(other, shorter, longer, left->at);
                    let right = other.raw_step(shorter, left->at);
                    if right is Done {
                        reply_is_read_again(
                            shorter,
                            longer,
                            right->at,
                            Request::Equal { lhs: left->value, rhs: right->value },
                        );
                        let raws = same_step(left->value, right->value, shorter, right->at);
                        if raws is Done && raws->value {
                            reply_is_read_again(
                                shorter,
                                longer,
                                raws->at,
                                Request::Equal { lhs: a.spec_ty(), rhs: other.spec_ty() },
                            );
                        }
                    }
                }
            } else {
                reply_is_read_again(
                    shorter,
                    longer,
                    names->at,
                    Request::Equal { lhs: a.spec_ty(), rhs: other.spec_ty() },
                );
            }
        }
    }
}

/// And of the operations on a whole set: reading all values, copying,
/// comparing, and building the attributes of a row.
pub proof fn settled_traversals_stay(
    s: Seq<(u64, Attribute)>,
    t: Seq<(u64, Attribute)>,
    values: Seq<Stored>,
    coerced: bool,
    shorter: Seq<Reply>,
    longer: Seq<Reply>,
    at: usize,
)
    requires
        extends(longer, shorter),
    ensures
        settled(read_upto(s, s.len(), coerced, shorter, at)) ==> read_upto(
            s,
            s.len(),
            coerced,
            longer,
            at,
        ) == read_upto(s, s.len(), coerced, shorter, at) && kept_upto(
            s,
            s.len(),
            coerced,
            longer,
            at,
        ) == kept_upto(s, s.len(), coerced, shorter, at),
        settled(dup_upto(s, s.len(), shorter, at)) ==> dup_upto(s, s.len(), longer, at)
            == dup_upto(s, s.len(), shorter, at),
        settled(sets_compared(s, t, shorter, at).0) ==> sets_compared(s, t, longer, at)
            == sets_compared(s, t, shorter, at),
        settled(hydrated_upto(s, values, values.len(), shorter, at)) ==> hydrated_upto(
            s,
            values,
            values.len(),
            longer,
            at,
        ) == hydrated_upto(s, values, values.len(), shorter, at),
{
    if settled(read_upto(s, s.len(), coerced, shorter, at)) {
        read_all_stays(s, s.len(), coerced, shorter, longer, at);
    }
    if settled(dup_upto(s, s.len(), shorter, at)) {
        dup_all_stays(s, s.len(), shorter, longer, at);
    }
    if settled(sets_compared(s, t, shorter, at).0) && s.len() == t.len() {
        compared_all_stays(s, t, s.len(), shorter, longer, at);
    }
    if settled(hydrated_upto(s, values, values.len(), shorter, at)) {
        hydrate_all_stays(s, values, values.len(), shorter, longer, at);
    }
}

proof fn read_all_stays(
    s: Seq<(u64, Attribute)>,
    n: nat,
    coerced: bool,
    shorter: Seq<Reply>,
    longer: Seq<Reply>,
    at: usize,
)
    requires
        extends(longer, shorter),
        settled(read_upto(s, n, coerced, shorter, at)),
    ensures
        read_upto(s, n, coerced, longer, at) == read_upto(s, n, coerced, shorter, at),
        kept_upto(s, n, coerced, longer, at) == kept_upto(s, n, coerced, shorter, at),
    decreases n,
{
    if n > 0 {
        let before = read_upto(s, (n - 1) as nat, coerced, shorter, at);
        read_all_stays(s, (n - 1) as nat, coerced, shorter, longer, at);
        if before is Done {
            if coerced {
                value_stays(s[n - 1].1, false, shorter, longer, before->at);
            } else {
                raw_stays(s[n - 1].1, shorter, longer, before->at);
            }
        }
    }
}

proof fn dup_all_stays(
    s: Seq<(u64, Attribute)>,
    n: nat,
    shorter: Seq<Reply>,
    longer: Seq<Reply>,
    at: usize,
)
    requires
        extends(longer, shorter),
        settled(dup_upto(s, n, shorter, at)),
    ensures
        dup_upto(s, n, longer, at) == dup_upto(s, n, shorter, at),
    decreases n,
{
    if n > 0 {
        let before = dup_upto(s, (n - 1) as nat, shorter, at);
        dup_all_stays(s, (n - 1) as nat, shorter, longer, at);
        if before is Done && s[n - 1].1.memo() is Some {
            reply_is_read_again(
                shorter,
                longer,
                before->at,
                Request::Duplicate { value: s[n - 1].1.memo().unwrap() },
            );
        }
    }
}

proof fn compared_all_stays(
    s: Seq<(u64, Attribute)>,
    t: Seq<(u64, Attribute)>,
    n: nat,
    shorter: Seq<Reply>,
    longer: Seq<Reply>,
    at: usize,
)
    requires
        extends(longer, shorter),
        settled(compared_upto(s, t, n, shorter, at).0),
    ensures
        compared_upto(s, t, n, longer, at) == compared_upto(s, t, n, shorter, at),
    decreases n,
{
    if n > 0 {
        let before = compared_upto(s, t, (n - 1) as nat, shorter, at);
        compared_all_stays(s, t, (n - 1) as nat, shorter, longer, at);
        if before.0 is Done && before.0->value && holds_key(before.2, before.1[n - 1].0) {
            equal_stays(
                before.1[n - 1].1,
                before.2[index_of(before.2, before.1[n - 1].0)].1,
                shorter,
                longer,
                before.0->at,
            );
        }
    }
}

proof fn hydrate_all_stays(
    s: Seq<(u64, Attribute)>,
    values: Seq<Stored>,
    n: nat,
    shorter: Seq<Reply>,
    longer: Seq<Reply>,
    at: usize,
)
    requires
        extends(longer, shorter),
        settled(hydrated_upto(s, values, n, shorter, at)),
    ensures
        hydrated_upto(s, values, n, longer, at) == hydrated_upto(s, values, n, shorter, at),
    decreases n,
{
    if n > 0 {
        let before = hydrated_upto(s, values, (n - 1) as nat, shorter, at);
        hydrate_all_stays(s, values, (n - 1) as nat, shorter, longer, at);
        if before is Done && !holds_key(before->value, values[n - 1].key) {
            reply_is_read_again(shorter, longer, before->at, Request::DefaultType);
        }
    }
}

} // verus!
