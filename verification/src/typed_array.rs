//! A view of a buffer that the host engine owns, lent to a native function
//! for one call.

use vstd::prelude::*;
use vstd::layout::{align_nonzero, align_of};

verus! {

/// A view of `byte_length` elements of `T` that lie from `address` on.
///
/// The producer of the buffer promises no more than four-byte alignment of
/// `address`, whatever `T` is. The view therefore holds the elements as
/// byte-wise copies from `address + i * size_of::<T>()` yield them, and keeps
/// the address beside them: element reads never consult it, and the storage
/// is lent out as a whole only where the address suits `T`.
pub struct FastApiTypedArray<'a, T> {
    address: usize,
    storage: &'a mut [T],
}

impl<'a, T> View for FastApiTypedArray<'a, T> {
    type V = Seq<T>;

    closed spec fn view(&self) -> Seq<T> {
        self.storage@
    }
}

impl<'a, T> FastApiTypedArray<'a, T> {
    /// The address of the first element.
    pub closed spec fn spec_address(&self) -> usize {
        self.address
    }

    /// Whether the address is a multiple of the natural alignment of `T`.
    pub open spec fn is_aligned(&self) -> bool {
        self.spec_address() as nat % align_of::<T>() == 0
    }

    /// What the view lends out as a whole: nothing at a misaligned address,
    /// else its first `byte_length / align_of::<T>()` elements.
    pub open spec fn aligned_storage(&self) -> Option<Seq<T>> {
        if self.is_aligned() {
            Some(self@.subrange(0, (self@.len() / align_of::<T>()) as int))
        } else {
            None
        }
    }

    /// A view of `storage` as it lies at `address`.
    pub fn new(address: usize, storage: &'a mut [T]) -> (array: Self)
        ensures
            array@ == old(storage)@,
            array.spec_address() == address,
    {
        FastApiTypedArray { address, storage }
    }

    /// The number of elements (not of bytes).
    pub fn byte_length(&self) -> (n: usize)
        ensures
            n == self@.len(),
    {
        self.storage.len()
    }

    /// The address of the first element.
    #[verifier::when_used_as_spec(spec_address)]
    pub fn address(&self) -> (address: usize)
        ensures
            address == self.spec_address(),
    {
        self.address
    }

    /// Element `index`, copied out; the alignment of the address plays no part.
    pub fn get(&self, index: usize) -> (value: T) where T: Copy
        requires
            index < self@.len(),
        ensures
            value == self@[index as int],
    {
        self.storage[index]
    }

    /// The storage itself, if the address suits `T`: the first
    /// `byte_length / align_of::<T>()` elements, open to writes. What is
    /// written there is what the view holds afterwards; the rest stays.
    pub fn get_storage_if_aligned(&mut self) -> (storage: Option<&mut [T]>)
        ensures
            final(self).spec_address() == old(self).spec_address(),
            storage is Some <==> old(self).is_aligned(),
            storage is Some ==> old(self).aligned_storage() == Some(storage->0@),
            storage is Some ==> final(self)@ == final(storage->0)@ + old(self)@.subrange(
                storage->0@.len() as int,
                old(self)@.len() as int,
            ),
            storage is None ==> final(self)@ == old(self)@,
    {
        broadcast use align_nonzero;

        let align: usize = core::mem::align_of::<T>();
        if self.address % align != 0 {
            return None;
        }
        let count: usize = self.storage.len() / align;
        let (head, _rest) = self.storage.split_at_mut(count);
        Some(head)
    }
}

/// An element read gives the same value at every address: two views of the
/// same elements, one at an aligned address and one not, agree on each index.
pub proof fn lemma_get_ignores_alignment<T: Copy>(
    a: FastApiTypedArray<T>,
    b: FastApiTypedArray<T>,
    index: usize,
    from_a: T,
    from_b: T,
)
    requires
        a@ == b@,
        index < a@.len(),
        call_ensures(FastApiTypedArray::<T>::get, (&a, index), from_a),
        call_ensures(FastApiTypedArray::<T>::get, (&b, index), from_b),
    ensures
        from_a == a@[index as int],
        from_a == from_b,
{
}

/// At a misaligned address no storage is lent out. At an aligned one it has
/// `byte_length / align_of::<T>()` elements, and each is what `get` returns
/// for its index.
pub proof fn lemma_aligned_storage_agrees_with_get<T: Copy>(
    array: FastApiTypedArray<T>,
    index: usize,
    value: T,
)
    requires
        index < array@.len(),
        call_ensures(FastApiTypedArray::<T>::get, (&array, index), value),
    ensures
        !array.is_aligned() ==> array.aligned_storage() is None,
        array.is_aligned() ==> array.aligned_storage() is Some,
        array.is_aligned() ==> array.aligned_storage()->0.len() == array@.len() / align_of::<T>(),
        array.is_aligned() && index < array.aligned_storage()->0.len()
            ==> array.aligned_storage()->0[index as int] == value,
{
    broadcast use align_nonzero;

    if array.is_aligned() {
        let count = array@.len() / align_of::<T>();
        assert(count <= array@.len()) by (nonlinear_arith)
            requires
                count == array@.len() / align_of::<T>(),
                align_of::<T>() > 0,
        ;
    }
}

} // verus!
