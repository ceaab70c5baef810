use vstd::prelude::*;
use crate::value::Value;
use crate::host::{Request, Reply, Step, reply_at, ask};
use crate::attribute::{Attribute, MaybeProc, Source};
use crate::attribute_set::{AttributeSet, accessed_upto};
use crate::ordered::{holds_key, index_of, put, distinct_keys};
use crate::set_laws::put_keeps_keys_distinct;

verus! {

/// A declared column: the key of its name, its name and its type.
#[derive(Clone, Copy, PartialEq, Eq, Structural, Debug)]
pub struct Declared {
    pub key: u64,
    pub name: Value,
    pub ty: Value,
}

/// One column of a row as it is stored: the key of its name, its name and
/// its raw value.
#[derive(Clone, Copy, PartialEq, Eq, Structural, Debug)]
pub struct Stored {
    pub key: u64,
    pub name: Value,
    pub value: Value,
}

/// The template of a record: its declared attributes without values, and
/// its defaults, from which the attributes of each row are made.
pub struct Builder {
    uninitialized_attributes: AttributeSet,
}

/// No entry has been read.
pub open spec fn all_unread(s: Seq<(u64, Attribute)>) -> bool {
    forall|i: int| 0 <= i < s.len() ==> (#[trigger] s[i]).1.memo() is None
}

/// The entries after the first `n` declarations: each puts an attribute
/// without a value under its key.
pub open spec fn declared_upto(s: Seq<(u64, Attribute)>, types: Seq<Declared>, n: nat) -> Seq<
    (u64, Attribute),
>
    decreases n,
{
    if n == 0 {
        s
    } else {
        put(
            declared_upto(s, types, (n - 1) as nat),
            types[n - 1].key,
            Attribute::Uninitialized { name: types[n - 1].name, ty: types[n - 1].ty },
        )
    }
}

/// The entries after the first `n` defaults: each is put under its key
/// with nothing read.
pub open spec fn defaulted_upto(
    s: Seq<(u64, Attribute)>,
    defaults: Seq<(u64, Attribute)>,
    n: nat,
) -> Seq<(u64, Attribute)>
    decreases n,
{
    if n == 0 {
        s
    } else {
        put(
            defaulted_upto(s, defaults, (n - 1) as nat),
            defaults[n - 1].0,
            defaults[n - 1].1.unread(),
        )
    }
}

/// The entries after one stored column. Under a key that the entries
/// hold, the attribute becomes one from the database with the stored
/// value, under its own name and type; under a new key, the host is asked
/// for the type of an undeclared column.
pub open spec fn stored_step(
    s: Seq<(u64, Attribute)>,
    stored: Stored,
    replies: Seq<Reply>,
    at: usize,
) -> Step<Seq<(u64, Attribute)>> {
    if holds_key(s, stored.key) {
        Step::Done {
            value: s.update(
                index_of(s, stored.key),
                (
                    stored.key,
                    Attribute::Populated {
                        name: s[index_of(s, stored.key)].1.spec_name(),
                        raw_value: MaybeProc::NotProc(stored.value),
                        ty: s[index_of(s, stored.key)].1.spec_ty(),
                        source: Source::FromDatabase,
                        value: None,
                    },
                ),
            ),
            at,
        }
    } else {
        match reply_at(replies, at, Request::DefaultType) {
            Step::Done { value: ty, at: then } => Step::Done {
                value: s.push(
                    (
                        stored.key,
                        Attribute::Populated {
                            name: stored.name,
                            raw_value: MaybeProc::NotProc(stored.value),
                            ty,
                            source: Source::FromDatabase,
                            value: None,
                        },
                    ),
                ),
                at: then,
            },
            Step::Ask(request) => Step::Ask(request),
            Step::Failed(failure) => Step::Failed(failure),
        }
    }
}

/// The entries after the first `n` stored columns, one after the other.
pub open spec fn hydrated_upto(
    s: Seq<(u64, Attribute)>,
    values: Seq<Stored>,
    n: nat,
    replies: Seq<Reply>,
    at: usize,
) -> Step<Seq<(u64, Attribute)>>
    decreases n,
{
    if n == 0 {
        Step::Done { value: s, at }
    } else {
        match hydrated_upto(s, values, (n - 1) as nat, replies, at) {
            Step::Done { value: rest, at: then } => stored_step(rest, values[n - 1], replies, then),
            other => other,
        }
    }
}

/// A row that stopped at one column has the same result however far it is
/// taken.
pub proof fn hydrate_stays_stuck(
    s: Seq<(u64, Attribute)>,
    values: Seq<Stored>,
    m: nat,
    n: nat,
    replies: Seq<Reply>,
    at: usize,
)
    requires
        m <= n,
        !(hydrated_upto(s, values, m, replies, at) is Done),
    ensures
        hydrated_upto(s, values, n, replies, at) == hydrated_upto(s, values, m, replies, at),
    decreases n,
{
    if m < n {
        hydrate_stays_stuck(s, values, m, (n - 1) as nat, replies, at);
    }
}

/// Putting an attribute that was not read among entries that were not
/// read leaves none that was.
pub proof fn put_keeps_unread(s: Seq<(u64, Attribute)>, key: u64, attribute: Attribute)
    requires
        all_unread(s),
        attribute.memo() is None,
    ensures
        all_unread(put(s, key, attribute)),
{
    let t = put(s, key, attribute);
    assert forall|i: int| 0 <= i < t.len() implies (#[trigger] t[i]).1.memo() is None by {
        if holds_key(s, key) {
            if i != index_of(s, key) {
                assert(t[i] == s[i]);
            }
        } else {
            if i < s.len() {
                assert(t[i] == s[i]);
            }
        }
    }
}

/// Where nothing was read, nothing is listed as read.
pub proof fn unread_is_not_accessed(s: Seq<(u64, Attribute)>, n: nat)
    requires
        all_unread(s),
        n <= s.len(),
    ensures
        accessed_upto(s, n) == Seq::<Value>::empty(),
    decreases n,
{
    if n > 0 {
        unread_is_not_accessed(s, (n - 1) as nat);
    }
}

/// Puts an attribute without a value under the key of a declared column.
pub fn push_uninitialized_value(set: &mut AttributeSet, declared: &Declared)
    ensures
        final(set)@ == put(
            old(set)@,
            declared.key,
            Attribute::Uninitialized { name: declared.name, ty: declared.ty },
        ),
{
    set.set(declared.key, Attribute::uninitialized(declared.name, declared.ty));
}

/// Puts a default under its key, with nothing read.
pub fn push_attribute(set: &mut AttributeSet, key: u64, attribute: &Attribute)
    ensures
        final(set)@ == put(old(set)@, key, attribute.unread()),
{
    set.set(key, attribute.without_cast_value());
}

/// Writes one stored column. Unless the result is `Done`, the set stays as
/// it was.
pub fn push_value(set: &mut AttributeSet, stored: &Stored, replies: &Vec<Reply>, at: usize) -> (r:
    Step<()>)
    ensures
        match stored_step(old(set)@, *stored, replies@, at) {
            Step::Done { value, at: then } => r == (Step::Done { value: (), at: then }) 
                && final(set)@ == value,
            Step::Ask(request) => r == Step::<()>::Ask(request) && final(set)@ == old(set)@,
            Step::Failed(failure) => r == Step::<()>::Failed(failure) && final(set)@ == old(set)@,
        },
{
    let known = match set.get(stored.key) {
        Some(attribute) => Some(attribute.with_value_from_database(stored.value)),
        None => None,
    };
    match known {
        Some(attribute) => {
            set.set(stored.key, attribute);
            Step::Done { value: (), at }
        },
        None => match ask(Request::DefaultType, replies, at) {
            Step::Done { value: ty, at: then } => {
                set.set(stored.key, Attribute::from_database(stored.name, stored.value, ty));
                Step::Done { value: (), at: then }
            },
            Step::Ask(request) => Step::Ask(request),
            Step::Failed(failure) => Step::Failed(failure),
        },
    }
}

impl Default for Builder {
    /// A builder whose template is empty.
    fn default() -> (r: Self)
        ensures
            r.template() == Seq::<(u64, Attribute)>::empty(),
    {
        Builder::new()
    }
}

impl Builder {
    /// Nothing in a template counts as read, and no key stands twice.
    #[verifier::type_invariant]
    spec fn well_formed(self) -> bool {
        all_unread(self.uninitialized_attributes@) && distinct_keys(self.uninitialized_attributes@)
    }

    /// The entries of the template, in order.
    pub closed spec fn template(&self) -> Seq<(u64, Attribute)> {
        self.uninitialized_attributes@
    }

    /// A builder whose template is empty.
    pub fn new() -> (r: Self)
        ensures
            r.template() == Seq::<(u64, Attribute)>::empty(),
    {
        Builder { uninitialized_attributes: AttributeSet::empty() }
    }

    /// The template, to look at.
    pub fn attributes(&self) -> (r: &AttributeSet)
        ensures
            r@ == self.template(),
            all_unread(r@),
            distinct_keys(r@),
    {
        proof {
            use_type_invariant(self);
        }
        &self.uninitialized_attributes
    }

    /// Declares the columns, then lays the defaults over them. Nothing in
    /// the template counts as read.
    pub fn initialize(&mut self, types: &Vec<Declared>, defaults: Option<&Vec<(u64, Attribute)>>)
        ensures
            final(self).template() == match defaults {
                Some(defaults) => defaulted_upto(
                    declared_upto(old(self).template(), types@, types@.len()),
                    defaults@,
                    defaults@.len(),
                ),
                None => declared_upto(old(self).template(), types@, types@.len()),
            },
            all_unread(final(self).template()),
            distinct_keys(final(self).template()),
    {
        proof {
            use_type_invariant(&*self);
        }
        let mut set = self.uninitialized_attributes.duplicate();
        let mut i: usize = 0;
        while i < types.len()
            invariant
                i <= types@.len(),
                set@ == declared_upto(self.template(), types@, i as nat),
                all_unread(set@),
                distinct_keys(set@),
            decreases types@.len() - i,
        {
            proof {
                let declared = Attribute::Uninitialized {
                    name: types@[i as int].name,
                    ty: types@[i as int].ty,
                };
                put_keeps_unread(set@, types@[i as int].key, declared);
                put_keeps_keys_distinct(set@, types@[i as int].key, declared);
            }
            push_uninitialized_value(&mut set, &types[i]);
            i += 1;
        }
        if let Some(defaults) = defaults {
            let ghost declared = set@;
            let mut j: usize = 0;
            while j < defaults.len()
                invariant
                    j <= defaults@.len(),
                    set@ == defaulted_upto(declared, defaults@, j as nat),
                    all_unread(set@),
                    distinct_keys(set@),
                decreases defaults@.len() - j,
            {
                proof {
                    put_keeps_unread(set@, defaults@[j as int].0, defaults@[j as int].1.unread());
                    put_keeps_keys_distinct(
                        set@,
                        defaults@[j as int].0,
                        defaults@[j as int].1.unread(),
                    );
                }
                push_attribute(&mut set, defaults[j].0, &defaults[j].1);
                j += 1;
            }
        }
        self.uninitialized_attributes = set;
    }

    /// The attributes of one row: the template, then the columns that were
    /// declared late, then the stored columns, each from the database. The
    /// template stays as it is.
    pub fn build_from_database(
        &self,
        values: &Vec<Stored>,
        additional_types: Option<&Vec<Declared>>,
        replies: &Vec<Reply>,
        at: usize,
    ) -> (r: Step<AttributeSet>)
        ensures
            match hydrated_upto(
                match additional_types {
                    Some(types) => declared_upto(self.template(), types@, types@.len()),
                    None => self.template(),
                },
                values@,
                values@.len(),
                replies@,
                at,
            ) {
                Step::Done { value, at: then } => r is Done && r->value@ == value && r->at == then,
                Step::Ask(request) => r == Step::<AttributeSet>::Ask(request),
                Step::Failed(failure) => r == Step::<AttributeSet>::Failed(failure),
            },
            r is Done ==> all_unread(r->value@) && accessed_upto(r->value@, r->value@.len())
                == Seq::<Value>::empty(),
            r is Done ==> distinct_keys(r->value@),
    {
        proof {
            use_type_invariant(self);
        }
        let mut attributes = self.uninitialized_attributes.duplicate();
        if let Some(types) = additional_types {
            let mut i: usize = 0;
            while i < types.len()
                invariant
                    i <= types@.len(),
                    attributes@ == declared_upto(self.template(), types@, i as nat),
                    all_unread(attributes@),
                    distinct_keys(attributes@),
                decreases types@.len() - i,
            {
                proof {
                    let declared = Attribute::Uninitialized {
                        name: types@[i as int].name,
                        ty: types@[i as int].ty,
                    };
                    put_keeps_unread(attributes@, types@[i as int].key, declared);
                    put_keeps_keys_distinct(attributes@, types@[i as int].key, declared);
                }
                push_uninitialized_value(&mut attributes, &types[i]);
                i += 1;
            }
        }
        let ghost start = attributes@;
        let mut cursor: usize = at;
        let mut k: usize = 0;
        while k < values.len()
            invariant
                k <= values@.len(),
                start == match additional_types {
                    Some(types) => declared_upto(self.template(), types@, types@.len()),
                    None => self.template(),
                },
                hydrated_upto(start, values@, k as nat, replies@, at) == (Step::Done {
                    value: attributes@,
                    at: cursor,
                }),
                all_unread(attributes@),
                distinct_keys(attributes@),
            decreases values@.len() - k,
        {
            let ghost before = attributes@;
            match push_value(&mut attributes, &values[k], replies, cursor) {
                Step::Done { at: next, .. } => {
                    cursor = next;
                },
                Step::Ask(request) => {
                    proof {
                        hydrate_stays_stuck(
                            start,
                            values@,
                            (k + 1) as nat,
                            values@.len(),
                            replies@,
                            at,
                        );
                    }
                    return Step::Ask(request);
                },
                Step::Failed(failure) => {
                    proof {
                        hydrate_stays_stuck(
                            start,
                            values@,
                            (k + 1) as nat,
                            values@.len(),
                            replies@,
                            at,
                        );
                    }
                    return Step::Failed(failure);
                },
            }
            proof {
                assert forall|i: int| 0 <= i < attributes@.len() implies (
                #[trigger] attributes@[i]).1.memo() is None by {
                    if i < before.len() && attributes@[i] == before[i] {
                    }
                }
                let key = values@[k as int].key;
                let written = if holds_key(before, key) {
                    attributes@[index_of(before, key)].1
                } else {
                    attributes@[before.len() as int].1
                };
                assert(attributes@ == put(before, key, written));
                put_keeps_keys_distinct(before, key, written);
            }
            k += 1;
        }
        proof {
            unread_is_not_accessed(attributes@, attributes@.len());
        }
        Step::Done { value: attributes, at: cursor }
    }
}

} // verus!
