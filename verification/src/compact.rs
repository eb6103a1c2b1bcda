//! The relocation contract.
//!
//! A relocatable value has a fixed-size header and a dynamic tail. Relocating it
//! copies the header and lays the tail out at a place that the caller chooses, so
//! that header and tail can be moved together as one block.
//!
//! Addresses are byte offsets inside the block that a relocation fills.

use vstd::prelude::*;
use vstd::layout::{layout_for_type_is_valid, size_of};
use vstd::set_lib::set_int_range;

verus! {

/// A value that can copy itself, with its dynamic tail, to a place of the caller's
/// choice.
pub trait Compact: Sized {
    /// What the value holds, whatever its storage looks like.
    type Content;

    /// The logical content. Two values are logically equal when their contents are.
    spec fn content(&self) -> Self::Content;

    /// The value's own invariant, and that memory can hold its dynamic tail.
    spec fn well_formed(&self) -> bool;

    /// The bytes that the dynamic tail takes when it is embedded.
    spec fn dynamic_size(&self) -> nat;

    /// Whether all of the dynamic tail is embedded.
    spec fn still_compact(&self) -> bool;

    /// Whether the dynamic tail is embedded and laid out from `start` on, part by
    /// part in the order of the fields.
    spec fn embedded_at(&self, start: int) -> bool;

    /// The bytes of the block that hold embedded parts of the tail.
    spec fn tail_bytes(&self) -> Set<int>;

    /// The dynamic tail of a well-formed value is no larger than a region of memory
    /// can be.
    proof fn lemma_dynamic_size_fits(&self)
        requires
            self.well_formed(),
        ensures
            self.dynamic_size() <= isize::MAX,
    ;

    /// A tail that is embedded at `start` fills the bytes from `start` up to its
    /// dynamic size, no more and no less.
    proof fn lemma_tail_bytes(&self, start: int)
        requires
            self.well_formed(),
            self.embedded_at(start),
        ensures
            self.still_compact(),
            self.tail_bytes() == set_int_range(start, start + self.dynamic_size()),
    ;

    /// Whether all of the dynamic tail is embedded. False as soon as a part of it has
    /// moved to an allocation of its own.
    fn is_still_compact(&self) -> (compact: bool)
        ensures
            compact == self.still_compact(),
    ;

    /// The exact number of bytes that the dynamic tail takes when it is embedded.
    fn dynamic_size_bytes(&self) -> (bytes: usize)
        requires
            self.well_formed(),
        ensures
            bytes == self.dynamic_size(),
    ;

    /// The size of the header and the tail together.
    fn total_size_bytes(&self) -> (bytes: usize)
        requires
            self.well_formed(),
        ensures
            bytes == self.dynamic_size() + size_of::<Self>(),
    {
        layout_for_type_is_valid::<Self>();
        proof {
            self.lemma_dynamic_size_fits();
        }
        self.dynamic_size_bytes() + core::mem::size_of::<Self>()
    }

    /// Makes `self` a copy of `source` whose tail is embedded at `new_dynamic_part`.
    /// What `self` held before is dropped.
    fn compact_from(&mut self, source: &Self, new_dynamic_part: usize)
        requires
            source.well_formed(),
            new_dynamic_part + source.dynamic_size() <= usize::MAX,
        ensures
            final(self).well_formed(),
            final(self).content() == source.content(),
            final(self).dynamic_size() == source.dynamic_size(),
            final(self).still_compact(),
            final(self).embedded_at(new_dynamic_part as int),
    ;

    /// The address right behind the header, counted from the header's start.
    fn behind(&mut self) -> (address: usize)
        ensures
            *final(self) == *old(self),
            address == size_of::<Self>(),
    {
        core::mem::size_of::<Self>()
    }

    /// Makes `self` a copy of `source` whose tail follows the header directly.
    fn compact_behind_from(&mut self, source: &Self)
        requires
            source.well_formed(),
        ensures
            final(self).well_formed(),
            final(self).content() == source.content(),
            final(self).dynamic_size() == source.dynamic_size(),
            final(self).still_compact(),
            final(self).embedded_at(size_of::<Self>() as int),
    {
        layout_for_type_is_valid::<Self>();
        proof {
            source.lemma_dynamic_size_fits();
        }
        let behind_self = self.behind();
        self.compact_from(source, behind_self)
    }
}

/// The bytes that `value` needs as one block: its header and its dynamic tail.
pub open spec fn total_size<C: Compact>(value: &C) -> nat {
    value.dynamic_size() + size_of::<C>()
}

/// Whether `copy` is what relocating `source` to `start` gives: a well-formed
/// value with the content and the dynamic size of `source`, its tail embedded at
/// `start`.
pub open spec fn relocates<C: Compact>(copy: &C, source: &C, start: int) -> bool {
    &&& copy.well_formed()
    &&& copy.content() == source.content()
    &&& copy.dynamic_size() == source.dynamic_size()
    &&& copy.still_compact()
    &&& copy.embedded_at(start)
}

/// Every value that can be duplicated bit for bit is relocatable: it has no tail.
impl<T: Copy> Compact for T {
    type Content = T;

    open spec fn content(&self) -> T {
        *self
    }

    open spec fn well_formed(&self) -> bool {
        true
    }

    open spec fn dynamic_size(&self) -> nat {
        0
    }

    open spec fn still_compact(&self) -> bool {
        true
    }

    open spec fn embedded_at(&self, start: int) -> bool {
        true
    }

    open spec fn tail_bytes(&self) -> Set<int> {
        Set::empty()
    }

    proof fn lemma_dynamic_size_fits(&self) {
    }

    proof fn lemma_tail_bytes(&self, start: int) {
        assert(self.tail_bytes() =~= set_int_range(start, start + self.dynamic_size()));
    }

    fn is_still_compact(&self) -> (compact: bool) {
        true
    }

    fn dynamic_size_bytes(&self) -> (bytes: usize) {
        0
    }

    fn compact_from(&mut self, source: &Self, _new_dynamic_part: usize) {
        *self = *source;
    }
}

/// A relocated value holds what its source held and is compact.
pub proof fn lemma_relocation_is_equivalent<C: Compact>(copy: &C, source: &C, start: int)
    requires
        relocates(copy, source, start),
    ensures
        copy.content() == source.content(),
        copy.still_compact(),
{
}

/// A relocated value fills the bytes from `start` to `start` plus the dynamic size
/// of its source, and no byte outside them.
pub proof fn lemma_relocation_fills_exactly<C: Compact>(copy: &C, source: &C, start: int)
    requires
        relocates(copy, source, start),
    ensures
        copy.tail_bytes() == set_int_range(start, start + source.dynamic_size()),
        forall|byte: int| #[trigger]
            copy.tail_bytes().contains(byte) ==> start <= byte < start + source.dynamic_size(),
{
    copy.lemma_tail_bytes(start);
}

/// A value relocated to follow its header, header and tail together, fills a block
/// of exactly the total size of its source.
pub proof fn lemma_block_has_total_size<C: Compact>(copy: &C, source: &C)
    requires
        relocates(copy, source, size_of::<C>() as int),
    ensures
        set_int_range(0, size_of::<C>() as int) + copy.tail_bytes() == set_int_range(
            0,
            total_size(source) as int,
        ),
{
    copy.lemma_tail_bytes(size_of::<C>() as int);
    assert(set_int_range(0, size_of::<C>() as int) + copy.tail_bytes() =~= set_int_range(
        0,
        total_size(source) as int,
    ));
}

/// Relocating a relocated value gives what relocating the value itself to the same
/// place gives: the two cannot be told apart by content, size or layout.
pub proof fn lemma_relocation_is_idempotent<C: Compact>(
    value: &C,
    once: &C,
    twice: &C,
    first: int,
    second: int,
)
    requires
        relocates(once, value, first),
        relocates(twice, once, second),
    ensures
        relocates(twice, value, second),
        twice.content() == once.content(),
        twice.dynamic_size() == once.dynamic_size(),
{
}

} // verus!
