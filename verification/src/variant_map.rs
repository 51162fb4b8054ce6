//! A runtime model of the generated container: a total, collision-free map
//! with one storage slot per retained variant, keyed by the variant's
//! declaration index.
//!
//! The emitter produces source text whose semantics cannot be run here, so
//! this module gives the generated container's operations directly, as
//! verified code: the total constructor, the `filled`, `from_closure` and
//! `transform` constructors, and the two indexing operations.  Keys are the
//! declaration indices of the retained variants, strictly increasing, just
//! as the generated struct's fields follow filtered declaration order.

use vstd::prelude::*;

use crate::descriptor::VariantDescriptor;
use crate::table::{lemma_retained_ordered, retained_indices};

verus! {

/// True when the key sequence is strictly increasing, so each variant owns
/// at most one slot.
pub open spec fn strictly_increasing(s: Seq<usize>) -> bool {
    forall|a: int, b: int| 0 <= a < b < s.len() ==> s[a] < s[b]
}

/// The declaration indices of the retained variants, ready to key a
/// [`VariantMap`].
pub fn retained_keys(variants: &Vec<VariantDescriptor>) -> (r: Vec<usize>)
    ensures
        r@ == retained_indices(variants@.map_values(|v: VariantDescriptor| v@)),
        strictly_increasing(r@),
{
    let ghost vm = variants@.map_values(|v: VariantDescriptor| v@);
    let n: usize = variants.len();
    let mut r: Vec<usize> = Vec::new();
    let mut i: usize = 0;
    while i < n
        invariant
            i <= n,
            n == variants@.len(),
            vm == variants@.map_values(|v: VariantDescriptor| v@),
            r@ == retained_indices(vm.take(i as int)),
        decreases n - i,
    {
        proof {
            assert(vm.take(i as int + 1).drop_last() =~= vm.take(i as int));
            assert(vm[i as int] == variants@[i as int]@);
        }
        if !variants[i].disabled {
            r.push(i);
        }
        i = i + 1;
    }
    proof {
        assert(vm.take(n as int) =~= vm);
        lemma_retained_ordered(vm);
    }
    r
}

/// The generated container: one slot per retained variant, indexed by the
/// variant with no fallback.
pub struct VariantMap<T> {
    keys: Vec<usize>,
    slots: Vec<T>,
}

impl<T> VariantMap<T> {
    /// The retained variants, by declaration index, in declaration order.
    pub closed spec fn key_seq(&self) -> Seq<usize> {
        self.keys@
    }

    /// The slot contents, in key order.
    pub closed spec fn val_seq(&self) -> Seq<T> {
        self.slots@
    }

    /// Well-formedness: strictly increasing keys, one slot per key.
    pub open spec fn wf(&self) -> bool {
        &&& strictly_increasing(self.key_seq())
        &&& self.key_seq().len() == self.val_seq().len()
    }

    /// True when the variant owns a slot.
    pub open spec fn contains_variant(&self, v: usize) -> bool {
        self.key_seq().contains(v)
    }

    /// The slot position of a contained variant.
    pub open spec fn position_of(&self, v: usize) -> int {
        self.key_seq().index_of(v)
    }

    /// The value stored for a contained variant.
    pub open spec fn spec_index(&self, v: usize) -> T {
        self.val_seq()[self.position_of(v)]
    }

    /// The total constructor: exactly one value per retained variant, in
    /// declaration order.
    pub fn new(keys: Vec<usize>, values: Vec<T>) -> (m: Self)
        requires
            strictly_increasing(keys@),
            keys@.len() == values@.len(),
        ensures
            m.wf(),
            m.key_seq() == keys@,
            m.val_seq() == values@,
    {
        VariantMap { keys, slots: values }
    }

    /// One duplicable value copied into every slot: indexing by any
    /// retained variant afterwards returns that value.
    pub fn filled(keys: Vec<usize>, value: T) -> (m: Self) where T: Copy
        requires
            strictly_increasing(keys@),
        ensures
            m.wf(),
            m.key_seq() == keys@,
            m.val_seq().len() == keys@.len(),
            forall|t: int| 0 <= t < m.val_seq().len() ==> #[trigger] m.val_seq()[t] == value,
            forall|v: usize| m.contains_variant(v) ==> m.spec_index(v) == value,
    {
        let n: usize = keys.len();
        let mut slots: Vec<T> = Vec::new();
        let mut i: usize = 0;
        while i < n
            invariant
                i <= n,
                slots@.len() == i,
                forall|t: int| 0 <= t < i ==> #[trigger] slots@[t] == value,
            decreases n - i,
        {
            slots.push(value);
            i = i + 1;
        }
        let m = VariantMap { keys, slots };
        proof {
            assert forall|v: usize| m.contains_variant(v) implies m.spec_index(v) == value by {
                let p = m.key_seq().index_of(v);
                assert(0 <= p < m.key_seq().len() && m.key_seq()[p] == v);
            }
        }
        m
    }

    /// One generation call per retained variant, in declaration order: the
    /// slot of variant `v` holds a result of `f(v)`, for every retained
    /// `v`.
    pub fn from_closure<F: Fn(usize) -> T>(keys: Vec<usize>, f: F) -> (m: Self)
        requires
            strictly_increasing(keys@),
            forall|i: int| 0 <= i < keys@.len() ==> call_requires(f, (#[trigger] keys@[i],)),
        ensures
            m.wf(),
            m.key_seq() == keys@,
            m.val_seq().len() == keys@.len(),
            forall|i: int|
                0 <= i < keys@.len() ==> call_ensures(f, (keys@[i],), #[trigger] m.val_seq()[i]),
            forall|v: usize| m.contains_variant(v) ==> call_ensures(f, (v,), m.spec_index(v)),
    {
        let n: usize = keys.len();
        let mut slots: Vec<T> = Vec::new();
        let mut i: usize = 0;
        while i < n
            invariant
                i <= n,
                n == keys@.len(),
                slots@.len() == i,
                forall|j: int| 0 <= j < keys@.len() ==> call_requires(f, (#[trigger] keys@[j],)),
                forall|j: int|
                    0 <= j < i ==> call_ensures(f, (keys@[j],), #[trigger] slots@[j]),
            decreases n - i,
        {
            let k = keys[i];
            let val = f(k);
            slots.push(val);
            i = i + 1;
        }
        let m = VariantMap { keys, slots };
        proof {
            assert forall|v: usize| m.contains_variant(v) implies call_ensures(
                f,
                (v,),
                m.spec_index(v),
            ) by {
                let p = m.key_seq().index_of(v);
                assert(0 <= p < m.key_seq().len() && m.key_seq()[p] == v);
            }
        }
        m
    }

    /// A structural map over the container: the function is invoked once
    /// per slot, in declaration order, with the slot's variant and its
    /// current value; the result keeps the same keys and possibly a
    /// different element type.
    pub fn transform<U, F: Fn(usize, T) -> U>(self, f: F) -> (m: VariantMap<U>)
        requires
            self.wf(),
            forall|i: int|
                0 <= i < self.key_seq().len() ==> call_requires(
                    f,
                    (#[trigger] self.key_seq()[i], self.val_seq()[i]),
                ),
        ensures
            m.wf(),
            m.key_seq() == self.key_seq(),
            m.val_seq().len() == self.val_seq().len(),
            forall|i: int|
                0 <= i < self.key_seq().len() ==> call_ensures(
                    f,
                    (self.key_seq()[i], self.val_seq()[i]),
                    #[trigger] m.val_seq()[i],
                ),
            forall|v: usize|
                self.contains_variant(v) ==> call_ensures(
                    f,
                    (v, self.spec_index(v)),
                    m.spec_index(v),
                ),
    {
        let ghost gkeys = self.key_seq();
        let ghost gvals = self.val_seq();
        let VariantMap { keys, slots } = self;
        let mut slots = slots;
        let n: usize = keys.len();
        let mut out: Vec<U> = Vec::new();
        let mut i: usize = 0;
        while i < n
            invariant
                i <= n,
                n == gkeys.len(),
                gkeys == keys@,
                gvals.len() == n,
                slots@ == gvals.skip(i as int),
                forall|j: int|
                    0 <= j < gkeys.len() ==> call_requires(
                        f,
                        (#[trigger] gkeys[j], gvals[j]),
                    ),
                out@.len() == i,
                forall|j: int|
                    0 <= j < i ==> call_ensures(f, (gkeys[j], gvals[j]), #[trigger] out@[j]),
            decreases n - i,
        {
            let k = keys[i];
            proof {
                assert(slots@[0] == gvals[i as int]);
            }
            let v = slots.remove(0);
            let u = f(k, v);
            out.push(u);
            i = i + 1;
            proof {
                assert(slots@ =~= gvals.skip(i as int));
            }
        }
        let m = VariantMap { keys, slots: out };
        proof {
            assert forall|v: usize| m.contains_variant(v) implies call_ensures(
                f,
                (v, self.spec_index(v)),
                m.spec_index(v),
            ) by {
                let p = m.key_seq().index_of(v);
                assert(0 <= p < m.key_seq().len() && m.key_seq()[p] == v);
            }
        }
        m
    }

    fn position(&self, variant: usize) -> (p: usize)
        requires
            self.wf(),
            self.contains_variant(variant),
        ensures
            p == self.position_of(variant),
            p < self.key_seq().len(),
    {
        let n: usize = self.keys.len();
        let mut i: usize = 0;
        while i < n
            invariant
                self.wf(),
                self.contains_variant(variant),
                i <= n,
                n == self.keys@.len(),
                forall|j: int| 0 <= j < i ==> #[trigger] self.keys@[j] != variant,
            decreases n - i,
        {
            if self.keys[i] == variant {
                proof {
                    lemma_position_unique(self.keys@, i as int, variant);
                }
                return i;
            }
            i = i + 1;
        }
        proof {
            assert(false);
        }
        vstd::pervasive::unreached()
    }

    /// Indexing: the value stored for a retained variant.  A variant
    /// without a slot is outside the contract, as it is outside the
    /// generated dispatch.
    pub fn index(&self, variant: usize) -> (r: &T)
        requires
            self.wf(),
            self.contains_variant(variant),
        ensures
            *r == self.spec_index(variant),
    {
        let p = self.position(variant);
        &self.slots[p]
    }

    /// Mutable indexing: a reference to the slot of a retained variant;
    /// only that slot changes, and a later read observes the write.
    pub fn index_mut(&mut self, variant: usize) -> (r: &mut T)
        requires
            old(self).wf(),
            old(self).contains_variant(variant),
        ensures
            *r == old(self).spec_index(variant),
            final(self).wf(),
            final(self).key_seq() == old(self).key_seq(),
            final(self).val_seq() == old(self).val_seq().update(
                old(self).position_of(variant),
                *final(r),
            ),
            final(self).spec_index(variant) == *final(r),
    {
        let p = self.position(variant);
        &mut self.slots[p]
    }
}

proof fn lemma_position_unique(s: Seq<usize>, j: int, v: usize)
    requires
        strictly_increasing(s),
        0 <= j < s.len(),
        s[j] == v,
    ensures
        s.index_of(v) == j,
{
    assert(s.contains(v));
    let i = s.index_of(v);
    if i < j {
        assert(s[i] < s[j]);
    } else if i > j {
        assert(s[j] < s[i]);
    }
}

} // verus!
