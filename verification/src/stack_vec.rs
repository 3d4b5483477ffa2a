//! A vector bounded by a caller-supplied backing store: no allocation,
//! so pushing can fail when the store is full. The store arrives
//! pre-filled; the first `len` slots count as the vector's contents.
use vstd::prelude::*;

verus! {

/// A bounded vector over the backing store `storage`; its capacity is
/// the store's length, fixed for the vector's lifetime.
pub struct StackVec<T> {
    storage: Vec<T>,
    len: usize,
}

impl<T> StackVec<T> {
    /// The live contents: the first `len` slots of the store.
    pub closed spec fn view(&self) -> Seq<T> {
        self.storage@.take(self.len as int)
    }

    /// The fixed capacity.
    pub closed spec fn spec_capacity(&self) -> nat {
        self.storage@.len()
    }

    /// The length never exceeds the store.
    pub closed spec fn wf(&self) -> bool {
        self.len <= self.storage@.len()
    }

    /// An empty vector over `storage`'s slots.
    pub fn new(storage: Vec<T>) -> (r: StackVec<T>)
        ensures
            r.wf(),
            r.view() == Seq::<T>::empty(),
            r.spec_capacity() == storage@.len(),
    {
        let r = StackVec { storage, len: 0 };
        proof {
            assert(r.view() =~= Seq::<T>::empty());
        }
        r
    }

    /// A vector over `storage` whose first `len` slots count as
    /// already pushed.
    ///
    /// A length beyond the store would count slots that do not
    /// exist; callers keep it inside.
    pub fn with_len(storage: Vec<T>, len: usize) -> (r: StackVec<T>)
        requires
            len <= storage@.len(),
        ensures
            r.wf(),
            r.view() == storage@.take(len as int),
            r.spec_capacity() == storage@.len(),
    {
        StackVec { storage, len }
    }

    /// The number of elements the vector can hold.
    pub fn capacity(&self) -> (r: usize)
        ensures
            r == self.spec_capacity(),
    {
        self.storage.len()
    }

    /// Keeps only the first `len` elements; no effect when `len` is
    /// not below the current length.
    pub fn truncate(&mut self, len: usize)
        requires
            old(self).wf(),
        ensures
            final(self).wf(),
            final(self).spec_capacity() == old(self).spec_capacity(),
            final(self).view() == (if len < old(self).view().len() {
                old(self).view().take(len as int)
            } else {
                old(self).view()
            }),
    {
        if len < self.len {
            self.len = len;
            proof {
                assert(self.view() =~= old(self).view().take(len as int));
            }
        }
    }

    /// Consumes the vector, returning just its live contents.
    pub fn into_slice(self) -> (r: Vec<T>)
        requires
            self.wf(),
        ensures
            r@ == self.view(),
    {
        let mut storage = self.storage;
        storage.truncate(self.len);
        storage
    }

    /// The live contents, read-only.
    pub fn as_slice(&self) -> (r: &[T])
        requires
            self.wf(),
        ensures
            r@ == self.view(),
    {
        let s = self.storage.as_slice();
        let r = vstd::slice::slice_subrange(s, 0, self.len);
        r
    }

    /// The number of elements in the vector.
    pub fn len(&self) -> (r: usize)
        requires
            self.wf(),
        ensures
            r == self.view().len(),
    {
        self.len
    }

    /// Whether the vector holds nothing.
    pub fn is_empty(&self) -> (r: bool)
        requires
            self.wf(),
        ensures
            r == (self.view().len() == 0),
    {
        self.len == 0
    }

    /// Whether the vector is at capacity.
    pub fn is_full(&self) -> (r: bool)
        requires
            self.wf(),
        ensures
            r == (self.view().len() == self.spec_capacity()),
    {
        self.len == self.storage.len()
    }

    /// Appends `value` if there is room, and says whether there was:
    /// with a full vector nothing changes and `Err` comes back.
    pub fn push(&mut self, value: T) -> (r: Result<(), ()>)
        requires
            old(self).wf(),
        ensures
            final(self).wf(),
            final(self).spec_capacity() == old(self).spec_capacity(),
            if old(self).view().len() < old(self).spec_capacity() {
                r is Ok && final(self).view() == old(self).view().push(value)
            } else {
                r is Err && final(self).view() == old(self).view()
            },
    {
        if self.len == self.storage.len() {
            return Err(());
        }
        self.storage[self.len] = value;
        self.len = self.len + 1;
        proof {
            assert(self.view() =~= old(self).view().push(value));
        }
        Ok(())
    }
}

impl<T: Clone> StackVec<T> {
    /// Removes and returns a clone of the last element; `None` when
    /// empty. (The element stays in the backing store, beyond the
    /// vector's length; what a clone of it holds is whatever the
    /// element type's own clone yields.)
    pub fn pop(&mut self) -> (r: Option<T>)
        requires
            old(self).wf(),
        ensures
            final(self).wf(),
            final(self).spec_capacity() == old(self).spec_capacity(),
            if old(self).view().len() == 0 {
                r is None && final(self).view() == old(self).view()
            } else {
                r is Some && final(self).view() == old(self).view().take(
                    old(self).view().len() - 1,
                ) && call_ensures(
                    T::clone,
                    (&old(self).view()[old(self).view().len() - 1],),
                    r->Some_0,
                )
            },
    {
        if self.len == 0 {
            return None;
        }
        self.len = self.len - 1;
        let r = self.storage[self.len].clone();
        proof {
            assert(self.view() =~= old(self).view().take(old(self).view().len() - 1));
        }
        Some(r)
    }
}

} // verus!
