use vstd::prelude::*;
use ordermap::OrderMap;
use crate::value::Value;
use crate::host::{Request, Reply, Step, ask};
use crate::attribute::{Attribute, MaybeProc, Source};
use crate::ordered::{found, single, replaced_is_found, 
    entries,
    holds_key,
    index_of,
    put,
    empty_map,
    map_len,
    map_insert,
    map_get_full,
    map_get_index,
};

verus! {

/// The attributes of one record, each under the key of its name, in the
/// order in which they were declared.
pub struct AttributeSet {
    attributes: OrderMap<u64, Attribute>,
}

/// A write to a name that the set does not hold.
#[derive(Clone, Copy, PartialEq, Eq, Structural, Debug)]
pub struct MissingAttribute {
    pub key: u64,
}

/// The names of the entries below `n` that hold a value, in order.
pub open spec fn keys_upto(s: Seq<(u64, Attribute)>, n: nat) -> Seq<Value>
    decreases n,
{
    if n == 0 {
        Seq::empty()
    } else if s[n - 1].1 is Populated {
        keys_upto(s, (n - 1) as nat).push(s[n - 1].1.spec_name())
    } else {
        keys_upto(s, (n - 1) as nat)
    }
}

/// The names of the entries below `n` whose value was read, in order.
pub open spec fn accessed_upto(s: Seq<(u64, Attribute)>, n: nat) -> Seq<Value>
    decreases n,
{
    if n == 0 {
        Seq::empty()
    } else if s[n - 1].1.memo() is Some {
        accessed_upto(s, (n - 1) as nat).push(s[n - 1].1.spec_name())
    } else {
        accessed_upto(s, (n - 1) as nat)
    }
}

impl Default for AttributeSet {
    /// A set without entries.
    fn default() -> (r: Self)
        ensures
            r@ == Seq::<(u64, Attribute)>::empty(),
    {
        AttributeSet::empty()
    }
}

impl AttributeSet {
    /// The entries, in order.
    pub closed spec fn view(&self) -> Seq<(u64, Attribute)> {
        entries(self.attributes)
    }

    /// The attribute under `key`, where the set holds one.
    pub open spec fn lookup(&self, key: u64) -> Option<Attribute> {
        found(self@, key)
    }

    /// The set of the entries of a map, in the map's order.
    pub fn new(attributes: OrderMap<u64, Attribute>) -> (r: Self)
        ensures
            r@ == entries(attributes),
    {
        AttributeSet { attributes }
    }

    /// A set without entries.
    pub fn empty() -> (r: Self)
        ensures
            r@ == Seq::<(u64, Attribute)>::empty(),
    {
        AttributeSet { attributes: empty_map() }
    }

    /// The number of entries, with or without a value.
    pub fn len(&self) -> (n: usize)
        ensures
            n == self@.len(),
    {
        map_len(&self.attributes)
    }

    /// The entry at a place.
    pub fn entry_at(&self, index: usize) -> (r: Option<(u64, &Attribute)>)
        ensures
            index >= self@.len() ==> r is None,
            index < self@.len() ==> r is Some && (r.unwrap().0, *r.unwrap().1)
                == self@[index as int],
            index < self@.len() ==> forall|j: int|
                0 <= j < self@.len() && (#[trigger] self@[j]).0 == r.unwrap().0 ==> j == index,
            index < self@.len() ==> holds_key(self@, r.unwrap().0) && single(self@, r.unwrap().0)
                && index_of(self@, r.unwrap().0) == index,
    {
        map_get_index(&self.attributes, index)
    }

    /// The attribute under `key`, with or without a value.
    pub fn get(&self, key: u64) -> (r: Option<&Attribute>)
        ensures
            match r {
                Some(attribute) => self.lookup(key) == Some(*attribute),
                None => self.lookup(key) is None,
            },
            single(self@, key),
    {
        match map_get_full(&self.attributes, key) {
            Some((_, attribute)) => Some(attribute),
            None => None,
        }
    }

    /// Puts `attr` under `key`, whatever was there.
    pub fn set(&mut self, key: u64, attr: Attribute)
        ensures
            final(self)@ == put(old(self)@, key, attr),
            final(self).lookup(key) == Some(attr),
    {
        let _ = map_insert(&mut self.attributes, key, attr);
        proof {
            let before = old(self)@;
            let after = final(self)@;
            if holds_key(before, key) {
                let i = index_of(before, key);
                assert(before[i].0 == key);
                assert(after[i] == (key, attr));
            } else {
                assert(after[before.len() as int] == (key, attr));
            }
        }
    }

    /// Whether the set holds a value under `key`: a name that was declared
    /// and never given a value is not there.
    pub fn has_key(&self, key: u64) -> (r: bool)
        ensures
            r == (self.lookup(key) is Some && self.lookup(key).unwrap() is Populated),
    {
        match self.get(key) {
            Some(attribute) => attribute.is_initialized(),
            None => false,
        }
    }

    /// The names of the entries that hold a value, in order.
    pub fn keys(&self) -> (r: Vec<Value>)
        ensures
            r@ == keys_upto(self@, self@.len()),
    {
        let n = self.len();
        let mut out: Vec<Value> = Vec::new();
        let mut i: usize = 0;
        while i < n
            invariant
                n == self@.len(),
                i <= n,
                out@ == keys_upto(self@, i as nat),
            decreases n - i,
        {
            if let Some((_, attribute)) = self.entry_at(i) {
                if attribute.is_initialized() {
                    out.push(attribute.name());
                }
            }
            i += 1;
        }
        out
    }

    /// The names of the entries whose value was read, in order.
    pub fn accessed(&self) -> (r: Vec<Value>)
        ensures
            r@ == accessed_upto(self@, self@.len()),
    {
        let n = self.len();
        let mut out: Vec<Value> = Vec::new();
        let mut i: usize = 0;
        while i < n
            invariant
                n == self@.len(),
                i <= n,
                out@ == accessed_upto(self@, i as nat),
            decreases n - i,
        {
            if let Some((_, attribute)) = self.entry_at(i) {
                if attribute.has_been_read() {
                    out.push(attribute.name());
                }
            }
            i += 1;
        }
        out
    }

    /// Replaces the attribute under `key` by one from the database with
    /// the raw value `value`, in its place. A name that the set does not
    /// hold is an error, and the set stays as it was.
    pub fn write_from_database(&mut self, key: u64, value: Value) -> (r: Result<
        (),
        MissingAttribute,
    >)
        ensures
            match old(self).lookup(key) {
                Some(attribute) => r is Ok && final(self)@ == old(self)@.update(
                    index_of(old(self)@, key),
                    (
                        key,
                        Attribute::Populated {
                            name: attribute.spec_name(),
                            raw_value: MaybeProc::NotProc(value),
                            ty: attribute.spec_ty(),
                            source: Source::FromDatabase,
                            value: None,
                        },
                    ),
                ) && final(self).lookup(key) == Some(
                    Attribute::Populated {
                        name: attribute.spec_name(),
                        raw_value: MaybeProc::NotProc(value),
                        ty: attribute.spec_ty(),
                        source: Source::FromDatabase,
                        value: None,
                    },
                ),
                None => r == Err::<(), MissingAttribute>(MissingAttribute { key }) && final(self)@
                    == old(self)@,
            },
    {
        let replacement = match self.get(key) {
            Some(attribute) => attribute.with_value_from_database(value),
            None => {
                return Err(MissingAttribute { key });
            },
        };
        proof {
            replaced_is_found(self@, key, replacement);
        }
        let _ = map_insert(&mut self.attributes, key, replacement);
        Ok(())
    }

    /// Replaces the attribute under `key` by one that holds `value` as
    /// already cast, in its place. A name that the set does not hold is an
    /// error, and the set stays as it was.
    pub fn write_cast_value(&mut self, key: u64, value: Value) -> (r: Result<(), MissingAttribute>)
        ensures
            match old(self).lookup(key) {
                Some(attribute) => r is Ok && final(self)@ == old(self)@.update(
                    index_of(old(self)@, key),
                    (
                        key,
                        Attribute::Populated {
                            name: attribute.spec_name(),
                            raw_value: MaybeProc::NotProc(value),
                            ty: attribute.spec_ty(),
                            source: Source::PreCast,
                            value: None,
                        },
                    ),
                ) && final(self).lookup(key) == Some(
                    Attribute::Populated {
                        name: attribute.spec_name(),
                        raw_value: MaybeProc::NotProc(value),
                        ty: attribute.spec_ty(),
                        source: Source::PreCast,
                        value: None,
                    },
                ),
                None => r == Err::<(), MissingAttribute>(MissingAttribute { key }) && final(self)@
                    == old(self)@,
            },
    {
        let replacement = match self.get(key) {
            Some(attribute) => attribute.with_cast_value(value),
            None => {
                return Err(MissingAttribute { key });
            },
        };
        proof {
            replaced_is_found(self@, key, replacement);
        }
        let _ = map_insert(&mut self.attributes, key, replacement);
        Ok(())
    }

    /// Assigns `value` to the attribute under `key`, in its place, once
    /// the type has found the value valid. A name that the set does not
    /// hold is an error before anything is asked. Unless the result is
    /// `Ok` with `Done`, the set stays as it was.
    pub fn write_from_user(&mut self, key: u64, value: Value, replies: &Vec<Reply>, at: usize) -> (r:
        Result<Step<()>, MissingAttribute>)
        ensures
            match old(self).lookup(key) {
                Some(attribute) => match attribute.assigned_step(value, replies@, at) {
                    Step::Done { value: assigned, at: then } => r == Ok::<
                        Step<()>,
                        MissingAttribute,
                    >(Step::Done { value: (), at: then }) && final(self)@ == old(self)@.update(
                        index_of(old(self)@, key),
                        (key, assigned),
                    ) && final(self).lookup(key) == Some(assigned),
                    Step::Ask(request) => r == Ok::<Step<()>, MissingAttribute>(Step::Ask(request))
                        && final(self)@ == old(self)@,
                    Step::Failed(failure) => r == Ok::<Step<()>, MissingAttribute>(
                        Step::Failed(failure),
                    ) && final(self)@ == old(self)@,
                },
                None => r == Err::<Step<()>, MissingAttribute>(MissingAttribute { key })
                    && final(self)@ == old(self)@,
            },
    {
        let (name, ty) = match self.get(key) {
            Some(attribute) => (attribute.name(), attribute.ty()),
            None => {
                return Err(MissingAttribute { key });
            },
        };
        match ask(Request::AssertValidValue { ty, value }, replies, at) {
            Step::Done { at: then, .. } => {
                let original = self.replace(key, Attribute::default());
                let assigned = Attribute::from_user(name, value, ty, original);
                let _ = self.replace(key, assigned);
                assert(final(self)@ =~= old(self)@.update(
                    index_of(old(self)@, key),
                    (key, assigned),
                ));
                Ok(Step::Done { value: (), at: then })
            },
            Step::Ask(request) => Ok(Step::Ask(request)),
            Step::Failed(failure) => Ok(Step::Failed(failure)),
        }
    }

    /// Puts `attribute` in the place of the one under `key` and hands that
    /// one out.
    pub(crate) fn replace(&mut self, key: u64, attribute: Attribute) -> (r: Attribute)
        requires
            holds_key(old(self)@, key),
            single(old(self)@, key),
        ensures
            r == old(self)@[index_of(old(self)@, key)].1,
            final(self)@ == old(self)@.update(index_of(old(self)@, key), (key, attribute)),
            holds_key(final(self)@, key),
            single(final(self)@, key),
            index_of(final(self)@, key) == index_of(old(self)@, key),
            final(self).lookup(key) == Some(attribute),
    {
        proof {
            replaced_is_found(self@, key, attribute);
            assert(self@[index_of(self@, key)].0 == key);
        }
        match map_insert(&mut self.attributes, key, attribute) {
            Some(taken) => taken,
            None => Attribute::default(),
        }
    }

    /// Takes the attribute under `key` out of its place, lets it keep what
    /// a reading finds, and puts it back.
    pub(crate) fn keep_reading(
        &mut self,
        key: u64,
        coerced: bool,
        block_given: bool,
        replies: &Vec<Reply>,
        at: usize,
    )
        requires
            holds_key(old(self)@, key),
            single(old(self)@, key),
        ensures
            final(self)@ == old(self)@.update(
                index_of(old(self)@, key),
                (
                    key,
                    if coerced {
                        old(self)@[index_of(old(self)@, key)].1.after_value(
                            block_given,
                            replies@,
                            at,
                        )
                    } else {
                        old(self)@[index_of(old(self)@, key)].1.after_raw(replies@, at)
                    },
                ),
            ),
            final(self).lookup(key) == Some(final(self)@[index_of(old(self)@, key)].1),
            single(final(self)@, key),
    {
        let mut attribute = self.replace(key, Attribute::default());
        if coerced {
            attribute.keep_value(block_given, replies, at);
        } else {
            attribute.keep_raw(replies, at);
        }
        let _ = self.replace(key, attribute);
        assert(final(self)@ =~= old(self)@.update(index_of(old(self)@, key), (key, attribute)));
    }

    /// Forgets the value under `key`: where the set holds a value there,
    /// the attribute becomes one from the database with the null sentinel
    /// as raw value. Otherwise nothing happens.
    pub fn reset(&mut self, key: u64)
        ensures
            match old(self).lookup(key) {
                Some(attribute) => if attribute is Populated {
                    final(self)@ == old(self)@.update(
                        index_of(old(self)@, key),
                        (
                            key,
                            Attribute::Populated {
                                name: attribute.spec_name(),
                                raw_value: MaybeProc::NotProc(Value::Nil),
                                ty: attribute.spec_ty(),
                                source: Source::FromDatabase,
                                value: None,
                            },
                        ),
                    ) && final(self).lookup(key) == Some(
                        Attribute::Populated {
                            name: attribute.spec_name(),
                            raw_value: MaybeProc::NotProc(Value::Nil),
                            ty: attribute.spec_ty(),
                            source: Source::FromDatabase,
                            value: None,
                        },
                    )
                } else {
                    final(self)@ == old(self)@
                },
                None => final(self)@ == old(self)@,
            },
    {
        if self.has_key(key) {
            let _ = self.write_from_database(key, Value::Nil);
        }
    }
}

} // verus!
