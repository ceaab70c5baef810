use vstd::prelude::*;
use crate::value::Value;
use crate::attribute::Attribute;
use crate::attribute_set::{keys_upto, accessed_upto};
use crate::set_reading::read_upto;
use crate::builder::all_unread;
use crate::ordered::{holds_key, index_of, put, distinct_keys};
use crate::host::{Reply, Request, reply_at};

verus! {

/// A write keeps the order: where the attribute in one place is replaced
/// by one of the same name, and both hold a value, the names that the set
/// lists are the same, in the same order.
pub proof fn write_keeps_keys(s: Seq<(u64, Attribute)>, i: int, replacement: Attribute, n: nat)
    requires
        0 <= i < s.len(),
        n <= s.len(),
        s[i].1 is Populated,
        replacement is Populated,
        replacement.spec_name() == s[i].1.spec_name(),
    ensures
        keys_upto(s.update(i, (s[i].0, replacement)), n) == keys_upto(s, n),
    decreases n,
{
    if n > 0 {
        write_keeps_keys(s, i, replacement, (n - 1) as nat);
    }
}

/// A write to an attribute without a value makes its name appear among
/// the keys, and moves no other.
pub proof fn write_keeps_other_keys(
    s: Seq<(u64, Attribute)>,
    i: int,
    replacement: Attribute,
    n: nat,
)
    requires
        0 <= i < s.len(),
        n <= i,
    ensures
        keys_upto(s.update(i, (s[i].0, replacement)), n) == keys_upto(s, n),
    decreases n,
{
    if n > 0 {
        write_keeps_other_keys(s, i, replacement, (n - 1) as nat);
    }
}

/// In a set of which nothing was read, the first read of one attribute
/// makes its name the only one that counts as read.
pub proof fn first_read_is_the_only_access(
    s: Seq<(u64, Attribute)>,
    i: int,
    read: Attribute,
    n: nat,
)
    requires
        all_unread(s),
        0 <= i < s.len(),
        n <= s.len(),
        read.memo() is Some,
    ensures
        accessed_upto(s.update(i, (s[i].0, read)), n) == if n <= i {
            Seq::<Value>::empty()
        } else {
            seq![read.spec_name()]
        },
    decreases n,
{
    if n > 0 {
        first_read_is_the_only_access(s, i, read, (n - 1) as nat);
        let t = s.update(i, (s[i].0, read));
        if n - 1 == i {
            assert(accessed_upto(t, n) =~= seq![read.spec_name()]);
        } else {
            assert(t[n - 1] == s[n - 1]);
        }
    }
}

/// A read that finishes on an attribute with a value leaves it read, under
/// the same name.
pub proof fn finished_read_is_kept(
    a: Attribute,
    block_given: bool,
    replies: Seq<Reply>,
    at: usize,
)
    requires
        a is Populated,
        a.value_step(block_given, replies, at) is Done,
    ensures
        a.after_value(block_given, replies, at).memo() == Some(
            a.value_step(block_given, replies, at)->value,
        ),
        a.after_value(block_given, replies, at).spec_name() == a.spec_name(),
{
}

/// A set keeps one entry for each key: putting an attribute under a key
/// leaves no key in two entries.
pub proof fn put_keeps_keys_distinct(s: Seq<(u64, Attribute)>, key: u64, attribute: Attribute)
    requires
        distinct_keys(s),
    ensures
        distinct_keys(put(s, key, attribute)),
        put(s, key, attribute).len() == if holds_key(s, key) {
            s.len()
        } else {
            s.len() + 1
        },
{
    let t = put(s, key, attribute);
    assert forall|i: int, j: int|
        0 <= i < t.len() && 0 <= j < t.len() && (#[trigger] t[i]).0 == (#[trigger] t[j]).0 implies i
        == j by {
        if holds_key(s, key) {
            let at = index_of(s, key);
            assert(s[at].0 == key);
            assert(t[i].0 == s[i].0);
            assert(t[j].0 == s[j].0);
        } else {
            if i < s.len() && j < s.len() {
                assert(t[i] == s[i]);
                assert(t[j] == s[j]);
            } else if i < s.len() {
                assert(t[i] == s[i]);
                assert(s[i].0 != key);
            } else if j < s.len() {
                assert(t[j] == s[j]);
                assert(s[j].0 != key);
            }
        }
    }
}

/// An independent copy is stored by its own value: the copy asks the type
/// to serialize the host's copy, the original asks for the value it read
/// itself, whatever becomes of the copy.
pub proof fn copy_is_stored_by_its_own_value(
    a: Attribute,
    replies: Seq<Reply>,
    at: usize,
    later: Seq<Reply>,
    then: usize,
)
    requires
        a.memo() is Some,
        a.deep_dup_step(replies, at) is Done,
    ensures
        a.deep_dup_step(replies, at)->value.memo() == Some(
            reply_at(replies, at, Request::Duplicate { value: a.memo().unwrap() })->value,
        ),
        a.deep_dup_step(replies, at)->value.unread() == a.unread(),
        a.value_for_database_step(later, then) == reply_at(
            later,
            then,
            Request::Serialize { ty: a.spec_ty(), value: a.memo().unwrap() },
        ),
        a.deep_dup_step(replies, at)->value.value_for_database_step(later, then) == reply_at(
            later,
            then,
            Request::Serialize {
                ty: a.spec_ty(),
                value: a.deep_dup_step(replies, at)->value.memo().unwrap(),
            },
        ),
{
}

/// The names of a materialized set.
pub open spec fn names_of(pairs: Seq<(Value, Value)>) -> Seq<Value> {
    Seq::new(pairs.len(), |i: int| pairs[i].0)
}

/// Reading all values lists exactly the names that `keys` lists, in the
/// same order, and reading all raw values lists one name for each entry.
pub proof fn materialized_names_are_the_keys(
    s: Seq<(u64, Attribute)>,
    n: nat,
    replies: Seq<Reply>,
    at: usize,
)
    requires
        n <= s.len(),
    ensures
        read_upto(s, n, true, replies, at) is Done ==> names_of(
            read_upto(s, n, true, replies, at)->value,
        ) == keys_upto(s, n),
        read_upto(s, n, false, replies, at) is Done ==> read_upto(
            s,
            n,
            false,
            replies,
            at,
        )->value.len() == n,
    decreases n,
{
    if n > 0 {
        materialized_names_are_the_keys(s, (n - 1) as nat, replies, at);
        let now = read_upto(s, n, true, replies, at);
        if now is Done {
            assert(names_of(now->value) =~= keys_upto(s, n));
        }
    } else {
        assert(names_of(read_upto(s, n, true, replies, at)->value) =~= keys_upto(s, n));
    }
}

/// Where no key stands in two entries, each entry is the one found under
/// its key, and after a put the attribute that was put is the one found.
pub proof fn each_entry_is_found_under_its_key(
    s: Seq<(u64, Attribute)>,
    i: int,
    key: u64,
    attribute: Attribute,
)
    requires
        distinct_keys(s),
        0 <= i < s.len(),
    ensures
        holds_key(s, s[i].0),
        index_of(s, s[i].0) == i,
        holds_key(put(s, key, attribute), key),
        put(s, key, attribute)[index_of(put(s, key, attribute), key)] == (key, attribute),
{
    assert(s[i].0 == s[i].0);
    let t = put(s, key, attribute);
    put_keeps_keys_distinct(s, key, attribute);
    if holds_key(s, key) {
        let at = index_of(s, key);
        assert(t[at] == (key, attribute));
    } else {
        assert(t[s.len() as int] == (key, attribute));
    }
    let found = index_of(t, key);
    assert(t[found].0 == key);
}

} // verus!
