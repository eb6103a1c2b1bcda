//! A growable vector whose tail is either embedded in the block of its header or
//! an allocation of its own.
//!
//! The header of a vector is its storage handle, its length and its capacity; the
//! tail is the room for `capacity` elements, of which the first `len` are live. A
//! vector that was just relocated is embedded and keeps the capacity it had. It
//! becomes free as soon as it has to grow, since it does not own the block it is
//! embedded in.
//!
//! The vector keeps its elements in memory that it owns in either state, so that
//! every operation is safe; the handle records where the tail belongs in the
//! header's block. A driver that packs blocks takes the layout from there.

use vstd::prelude::*;
use vstd::layout::{layout_for_type_is_valid, size_of};
use vstd::set_lib::set_int_range;
use vstd::std_specs::iter::IteratorSpec;
use vstd::arithmetic::power2::{pow2, lemma_pow2_unfold, lemma2_to64};
use crate::compact::Compact;
use crate::storage::Storage;

verus! {

/// The capacity that a vector of capacity `capacity` grows to.
pub open spec fn grown_capacity(capacity: nat) -> nat {
    if capacity == 0 {
        1
    } else {
        2 * capacity
    }
}

/// Whether a tail of `capacity` elements of `T` can be allocated at all.
pub open spec fn capacity_fits<T>(capacity: nat) -> bool {
    capacity <= usize::MAX && capacity * size_of::<T>() <= isize::MAX
}

/// What a vector is, apart from how it is held in memory.
#[verifier::ext_equal]
pub struct CompactVecView<T> {
    /// The live elements, in order.
    pub items: Seq<T>,
    /// The number of elements that the tail has room for.
    pub capacity: nat,
    /// Where the tail lives.
    pub storage: Storage,
}

impl<T> CompactVecView<T> {
    /// The live elements fit the capacity, and memory can hold the capacity.
    pub open spec fn wf(self) -> bool {
        self.items.len() <= self.capacity && capacity_fits::<T>(self.capacity)
    }

    /// The vector that holds nothing and has no tail.
    pub open spec fn empty() -> Self {
        CompactVecView { items: Seq::empty(), capacity: 0, storage: Storage::null() }
    }

    /// Whether the next element needs a larger tail.
    pub open spec fn is_full(self) -> bool {
        self.items.len() == self.capacity
    }

    /// Whether memory can hold the capacity that the vector grows to.
    pub open spec fn can_grow(self) -> bool {
        capacity_fits::<T>(grown_capacity(self.capacity))
    }

    /// The vector after its tail has moved to a larger allocation of its own.
    pub open spec fn grown(self) -> Self {
        CompactVecView {
            items: self.items,
            capacity: grown_capacity(self.capacity),
            storage: Storage::Free,
        }
    }

    /// The vector with room for one more element.
    pub open spec fn with_room(self) -> Self {
        if self.is_full() {
            self.grown()
        } else {
            self
        }
    }

    /// The vector after `value` was appended, grown first if it was full.
    pub open spec fn push(self, value: T) -> Self {
        CompactVecView { items: self.items.push(value), ..self.with_room() }
    }

    /// The vector after each of `values` has been pushed, the first one first.
    pub open spec fn push_all(self, values: Seq<T>) -> Self
        decreases values.len(),
    {
        if values.len() == 0 {
            self
        } else {
            self.push_all(values.drop_last()).push(values.last())
        }
    }

    /// The vector after `value` was put at `index`, grown first if it was full. The
    /// elements from `index` on have moved one place to the right.
    pub open spec fn insert(self, index: int, value: T) -> Self {
        CompactVecView { items: self.items.insert(index, value), ..self.with_room() }
    }

    /// The last element, if there is one, and the vector without it. Capacity and
    /// storage stay as they are.
    pub open spec fn pop(self) -> (Option<T>, Self) {
        if self.items.len() == 0 {
            (None, self)
        } else {
            (Some(self.items.last()), CompactVecView { items: self.items.drop_last(), ..self })
        }
    }

    /// The bytes that the tail takes when it is embedded.
    pub open spec fn tail_size(self) -> nat {
        self.capacity * size_of::<T>()
    }

    /// The bytes of the header's block that the tail lies in: none when the tail is
    /// an allocation of its own.
    pub open spec fn tail_bytes(self) -> Set<int> {
        match self.storage {
            Storage::Embedded { offset } => set_int_range(offset as int, offset + self.tail_size()),
            Storage::Free => Set::empty(),
        }
    }

    /// The vector with its tail embedded at `offset`.
    pub open spec fn relocated(self, offset: usize) -> Self {
        CompactVecView { storage: Storage::Embedded { offset }, ..self }
    }
}

/// A growable vector that can be relocated.
pub struct CompactVec<T> {
    /// Where the tail belongs.
    storage: Storage,
    /// The number of elements that the tail has room for.
    cap: usize,
    /// The live elements.
    buf: Vec<T>,
}

impl<T> View for CompactVec<T> {
    type V = CompactVecView<T>;

    closed spec fn view(&self) -> CompactVecView<T> {
        CompactVecView { items: self.buf@, capacity: self.cap as nat, storage: self.storage }
    }
}

impl<T> CompactVec<T> {
    /// The invariant of every vector: the live elements fit the capacity, and the
    /// capacity is one that memory can hold.
    pub open spec fn wf(&self) -> bool {
        self@.wf()
    }

    /// The number of live elements.
    pub fn len(&self) -> (len: usize)
        ensures
            len == self@.items.len(),
    {
        self.buf.len()
    }

    /// The number of elements that the tail has room for.
    pub fn capacity(&self) -> (capacity: usize)
        ensures
            capacity == self@.capacity,
    {
        self.cap
    }

    /// Where the tail lives.
    pub fn storage(&self) -> (storage: Storage)
        ensures
            storage == self@.storage,
    {
        self.storage
    }

    /// An empty vector without a tail. Nothing is allocated.
    pub fn new() -> (vec: CompactVec<T>)
        ensures
            vec.wf(),
            vec@ == CompactVecView::<T>::empty(),
    {
        CompactVec { storage: Storage::null(), cap: 0, buf: Vec::new() }
    }

    /// An empty vector with a tail of its own that has room for `cap` elements.
    pub fn with_capacity(cap: usize) -> (vec: CompactVec<T>)
        requires
            capacity_fits::<T>(cap as nat),
        ensures
            vec.wf(),
            vec@ == (CompactVecView {
                items: Seq::<T>::empty(),
                capacity: cap as nat,
                storage: Storage::Free,
            }),
    {
        CompactVec { storage: Storage::Free, cap: cap, buf: Vec::with_capacity(cap) }
    }

    /// A vector on a tail that is embedded at `ptr` and has room for `cap` elements,
    /// of which those in `backing` are live. This is how a driver hands a tail that
    /// it has placed back to a header.
    pub fn from_backing(ptr: usize, backing: Vec<T>, cap: usize) -> (vec: CompactVec<T>)
        requires
            backing@.len() <= cap,
            capacity_fits::<T>(cap as nat),
        ensures
            vec.wf(),
            vec@ == (CompactVecView {
                items: backing@,
                capacity: cap as nat,
                storage: Storage::Embedded { offset: ptr },
            }),
    {
        CompactVec { storage: Storage::Embedded { offset: ptr }, cap: cap, buf: backing }
    }

    /// Gives up the tail if the vector owns it: the live elements are dropped and
    /// the allocation is released. An embedded tail is left alone.
    fn maybe_drop(&mut self)
        ensures
            old(self)@.storage is Free ==> final(self)@ == (CompactVecView {
                items: Seq::<T>::empty(),
                capacity: 0,
                storage: Storage::Free,
            }),
            old(self)@.storage is Embedded ==> final(self)@ == old(self)@,
    {
        if !self.storage.is_embedded() {
            self.buf = Vec::new();
            self.cap = 0;
        }
    }

    /// Moves the live elements to a new tail of the vector's own, of twice the
    /// capacity, or of capacity 1 where there was none.
    fn double_buf(&mut self)
        requires
            old(self).wf(),
            old(self)@.can_grow(),
        ensures
            final(self).wf(),
            final(self)@ == old(self)@.grown(),
    {
        let new_cap: usize = if self.cap == 0 { 1 } else { self.cap * 2 };
        let mut vec = Vec::<T>::with_capacity(new_cap);
        vec.append(&mut self.buf);
        self.maybe_drop();
        self.buf = vec;
        self.storage = Storage::Free;
        self.cap = new_cap;
    }

    /// Appends `value`. A full vector grows first.
    pub fn push(&mut self, value: T)
        requires
            old(self).wf(),
            old(self)@.is_full() ==> old(self)@.can_grow(),
        ensures
            final(self).wf(),
            final(self)@ == old(self)@.push(value),
    {
        if self.buf.len() == self.cap {
            self.double_buf();
        }
        self.buf.push(value);
    }

    /// Takes the last element out, if there is one.
    pub fn pop(&mut self) -> (popped: Option<T>)
        requires
            old(self).wf(),
        ensures
            final(self).wf(),
            (popped, final(self)@) == old(self)@.pop(),
    {
        self.buf.pop()
    }

    /// Puts `value` at `index` and moves the elements from there on one place to
    /// the right. A full vector grows first.
    pub fn insert(&mut self, index: usize, value: T)
        requires
            old(self).wf(),
            index <= old(self)@.items.len(),
            old(self)@.is_full() ==> old(self)@.can_grow(),
        ensures
            final(self).wf(),
            final(self)@ == old(self)@.insert(index as int, value),
    {
        if self.buf.len() == self.cap {
            self.double_buf();
        }
        self.buf.insert(index, value);
    }
}

impl<T> core::ops::Deref for CompactVec<T> {
    type Target = [T];

    /// The live elements as a slice.
    fn deref(&self) -> (slice: &[T])
        ensures
            slice@ == self@.items,
    {
        self.buf.as_slice()
    }
}

impl<T> core::ops::DerefMut for CompactVec<T> {
    /// The live elements as a slice that can be written to. Length, capacity and
    /// storage are out of its reach.
    fn deref_mut(&mut self) -> (slice: &mut [T])
        ensures
            slice@ == old(self)@.items,
            final(self)@ == (CompactVecView { items: final(slice)@, ..old(self)@ }),
    {
        self.buf.as_mut_slice()
    }
}

impl<'a, T> IntoIterator for &'a CompactVec<T> {
    type Item = &'a T;
    type IntoIter = core::slice::Iter<'a, T>;

    /// Walks the live elements in order.
    fn into_iter(self) -> (iter: core::slice::Iter<'a, T>)
        ensures
            IteratorSpec::remaining(&iter) == self@.items.as_ref(),
            IteratorSpec::decrease(&iter) is Some,
            IteratorSpec::initial_value_relation(&iter, &iter),
    {
        self.buf.as_slice().iter()
    }
}

/// A vector is relocated by copying its live elements bit for bit, so they have to
/// be `Copy`. The elements are not relocated themselves.
impl<T: Copy> Compact for CompactVec<T> {
    type Content = Seq<T>;

    open spec fn content(&self) -> Seq<T> {
        self@.items
    }

    open spec fn well_formed(&self) -> bool {
        self.wf()
    }

    /// The tail keeps room for the whole capacity, not only for the live elements.
    open spec fn dynamic_size(&self) -> nat {
        self@.tail_size()
    }

    open spec fn still_compact(&self) -> bool {
        self@.storage is Embedded
    }

    open spec fn embedded_at(&self, start: int) -> bool {
        self@.storage matches Storage::Embedded { offset } && offset == start
    }

    open spec fn tail_bytes(&self) -> Set<int> {
        self@.tail_bytes()
    }

    proof fn lemma_dynamic_size_fits(&self) {
    }

    proof fn lemma_tail_bytes(&self, start: int) {
    }

    fn is_still_compact(&self) -> (compact: bool) {
        self.storage.is_embedded()
    }

    fn dynamic_size_bytes(&self) -> (bytes: usize) {
        self.cap * core::mem::size_of::<T>()
    }

    /// The live elements are copied as they are; the capacity of the source is
    /// kept, slack included.
    fn compact_from(&mut self, source: &Self, new_dynamic_part: usize)
        ensures
            final(self)@ == source@.relocated(new_dynamic_part),
    {
        let len: usize = source.buf.len();
        let mut tail = Vec::<T>::with_capacity(source.cap);
        let mut i: usize = 0;
        while i < len
            invariant
                len == source.buf@.len(),
                i <= len,
                tail@ == source.buf@.take(i as int),
            decreases len - i,
        {
            tail.push(source.buf[i]);
            i += 1;
        }
        assert(source.buf@.take(len as int) =~= source.buf@);
        self.cap = source.cap;
        self.storage = Storage::Embedded { offset: new_dynamic_part };
        self.buf = tail;
    }

    fn compact_behind_from(&mut self, source: &Self)
        ensures
            final(self)@ == source@.relocated(size_of::<Self>() as usize),
    {
        layout_for_type_is_valid::<Self>();
        let behind_self = self.behind();
        self.compact_from(source, behind_self)
    }
}

/// Pushing `values` onto an empty vector gives a vector that holds exactly
/// `values`, in order. Its capacity is 0 when nothing was pushed; otherwise it is
/// the power of two that the doubling from 1 reaches first at or above the number
/// of elements, and the tail is an allocation of its own.
pub proof fn lemma_growth_by_doubling<T>(values: Seq<T>)
    ensures
        CompactVecView::<T>::empty().push_all(values).items == values,
        values.len() == 0 ==> CompactVecView::<T>::empty().push_all(values)
            == CompactVecView::<T>::empty(),
        values.len() > 0 ==> CompactVecView::<T>::empty().push_all(values).storage == Storage::Free,
        values.len() > 0 ==> exists|doublings: nat|
            CompactVecView::<T>::empty().push_all(values).capacity == #[trigger] pow2(doublings),
        values.len() > 0 ==> values.len() <= CompactVecView::<T>::empty().push_all(values).capacity
            < 2 * values.len(),
    decreases values.len(),
{
    let grown = CompactVecView::<T>::empty().push_all(values);
    if values.len() == 0 {
    } else {
        let before = CompactVecView::<T>::empty().push_all(values.drop_last());
        lemma_growth_by_doubling(values.drop_last());
        assert(values.drop_last().push(values.last()) =~= values);
        if values.len() == 1 {
            lemma2_to64();
            assert(grown.capacity == pow2(0));
        } else {
            let doublings = choose|doublings: nat| before.capacity == #[trigger] pow2(doublings);
            if before.is_full() {
                lemma_pow2_unfold(doublings + 1);
                assert(grown.capacity == pow2(doublings + 1));
            } else {
                assert(grown.capacity == pow2(doublings));
            }
        }
    }
}

/// Pushes that stay within the capacity leave the capacity and the storage as they
/// were: a vector that wraps embedded memory stays embedded.
pub proof fn lemma_pushes_within_capacity<T>(vec: CompactVecView<T>, values: Seq<T>)
    requires
        vec.items.len() + values.len() <= vec.capacity,
    ensures
        vec.push_all(values) == (CompactVecView { items: vec.items + values, ..vec }),
    decreases values.len(),
{
    if values.len() == 0 {
        assert(vec.items + values =~= vec.items);
    } else {
        lemma_pushes_within_capacity(vec, values.drop_last());
        assert((vec.items + values.drop_last()).push(values.last()) =~= vec.items + values);
    }
}

/// A vector that was relocated twice is the vector that was relocated to the second
/// place at once: the first relocation leaves no trace.
pub proof fn lemma_relocated_again<T>(vec: CompactVecView<T>, first: usize, second: usize)
    ensures
        vec.relocated(first).relocated(second) == vec.relocated(second),
        vec.relocated(first).items == vec.items,
        vec.relocated(first).capacity == vec.capacity,
{
}

/// After `insert(index, value)` the vector reads as before, with `value` spliced in
/// at `index`.
pub proof fn lemma_insert_splices<T>(vec: CompactVecView<T>, index: int, value: T)
    requires
        0 <= index <= vec.items.len(),
    ensures
        vec.insert(index, value).items == vec.items.take(index) + seq![value] + vec.items.skip(
            index,
        ),
        vec.insert(index, value).items.len() == vec.items.len() + 1,
        vec.insert(index, value).items[index] == value,
        forall|i: int| 0 <= i < index ==> vec.insert(index, value).items[i] == vec.items[i],
        forall|i: int|
            index < i <= vec.items.len() ==> vec.insert(index, value).items[i] == vec.items[i - 1],
{
    assert(vec.items.insert(index, value) =~= vec.items.take(index) + seq![value]
        + vec.items.skip(index));
}

/// `pop` hands out the element that was pushed last and leaves one element less;
/// on an empty vector it hands out nothing and changes nothing.
pub proof fn lemma_pop_takes_last<T>(vec: CompactVecView<T>)
    ensures
        vec.items.len() == 0 ==> vec.pop() == (None::<T>, vec),
        vec.items.len() > 0 ==> vec.pop().0 == Some(vec.items.last()),
        vec.items.len() > 0 ==> vec.pop().1.items.len() == vec.items.len() - 1,
        vec.items.len() > 0 ==> vec.pop().1.items == vec.items.take(vec.items.len() - 1),
{
    if vec.items.len() > 0 {
        assert(vec.items.drop_last() =~= vec.items.take(vec.items.len() - 1));
    }
}

/// `pop` after `push` hands the pushed element back and leaves the elements that
/// were there before the push.
pub proof fn lemma_pop_undoes_push<T>(vec: CompactVecView<T>, value: T)
    ensures
        vec.push(value).pop() == (Some(value), vec.with_room()),
{
    assert(vec.items.push(value).drop_last() =~= vec.items);
}

} // verus!
