//! Relocatable aggregates: the relocation contract of a value with several fields,
//! built from the contracts of the fields.

use vstd::prelude::*;
use vstd::set_lib::set_int_range;
use crate::compact::Compact;

verus! {

/// Two relocatable fields, `a` before `b`. An aggregate of more fields is a pair
/// whose second field is a pair again.
pub struct Pair<A, B> {
    pub a: A,
    pub b: B,
}

impl<A: Compact, B: Compact> Compact for Pair<A, B> {
    type Content = (A::Content, B::Content);

    open spec fn content(&self) -> (A::Content, B::Content) {
        (self.a.content(), self.b.content())
    }

    open spec fn well_formed(&self) -> bool {
        &&& self.a.well_formed()
        &&& self.b.well_formed()
        &&& self.a.dynamic_size() + self.b.dynamic_size() <= isize::MAX
    }

    open spec fn dynamic_size(&self) -> nat {
        self.a.dynamic_size() + self.b.dynamic_size()
    }

    open spec fn still_compact(&self) -> bool {
        self.a.still_compact() && self.b.still_compact()
    }

    /// The tail of `a` comes first, the tail of `b` follows it directly.
    open spec fn embedded_at(&self, start: int) -> bool {
        self.a.embedded_at(start) && self.b.embedded_at(start + self.a.dynamic_size())
    }

    open spec fn tail_bytes(&self) -> Set<int> {
        self.a.tail_bytes() + self.b.tail_bytes()
    }

    proof fn lemma_dynamic_size_fits(&self) {
    }

    proof fn lemma_tail_bytes(&self, start: int) {
        let middle = start + self.a.dynamic_size();
        self.a.lemma_tail_bytes(start);
        self.b.lemma_tail_bytes(middle);
        assert(set_int_range(start, middle) + set_int_range(middle, middle + self.b.dynamic_size())
            =~= set_int_range(start, start + self.dynamic_size()));
    }

    fn is_still_compact(&self) -> (compact: bool) {
        self.a.is_still_compact() && self.b.is_still_compact()
    }

    fn dynamic_size_bytes(&self) -> (bytes: usize) {
        self.a.dynamic_size_bytes() + self.b.dynamic_size_bytes()
    }

    /// Each field is relocated in turn. Its tail starts where the tails of the
    /// fields before it end, by the sizes of the source.
    fn compact_from(&mut self, source: &Self, new_dynamic_part: usize) {
        let mut offset: usize = 0;
        self.a.compact_from(&source.a, new_dynamic_part + offset);
        offset += source.a.dynamic_size_bytes();
        self.b.compact_from(&source.b, new_dynamic_part + offset);
    }
}

/// The dynamic size of a pair is the sum of the dynamic sizes of its fields, and a
/// pair is compact when both fields are.
pub proof fn lemma_pair_composes<A: Compact, B: Compact>(pair: &Pair<A, B>)
    ensures
        pair.dynamic_size() == pair.a.dynamic_size() + pair.b.dynamic_size(),
        pair.still_compact() == (pair.a.still_compact() && pair.b.still_compact()),
{
}

/// In a pair embedded at `start`, the first bytes of the destination, as many as
/// the dynamic size of `a`, hold the tail of `a`; the bytes that follow hold the
/// tail of `b`; the two do not overlap.
pub proof fn lemma_pair_layout<A: Compact, B: Compact>(pair: &Pair<A, B>, start: int)
    requires
        pair.well_formed(),
        pair.embedded_at(start),
    ensures
        pair.a.tail_bytes() == set_int_range(start, start + pair.a.dynamic_size()),
        pair.b.tail_bytes() == set_int_range(
            start + pair.a.dynamic_size(),
            start + pair.a.dynamic_size() + pair.b.dynamic_size(),
        ),
        pair.a.tail_bytes().disjoint(pair.b.tail_bytes()),
{
    pair.a.lemma_tail_bytes(start);
    pair.b.lemma_tail_bytes(start + pair.a.dynamic_size());
}

} // verus!
