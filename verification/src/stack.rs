use vstd::prelude::*;
use crate::model::Model;
use crate::slices::prefix_mut;

verus! {

/// A vector whose elements live in a slice that the caller lends.
///
/// The container holds the slice by exclusive borrow for its whole lifetime.
/// It never allocates and never holds more elements than the slice has slots.
/// Slots that stop being live are not cleared.
pub struct StackVec<'a, T: 'a> {
    /// The lent slots.
    storage: &'a mut [T],
    /// How many of them are live, counted from the first.
    len: usize,
}

/// The view of a container is the sequence of its elements, oldest first.
impl<'a, T: 'a> View for StackVec<'a, T> {
    type V = Seq<T>;

    open spec fn view(&self) -> Seq<T> {
        self.model().live()
    }
}

impl<'a, T: 'a> StackVec<'a, T> {
    /// The borrow of the storage that the container holds.
    ///
    /// `borrowed()@` is the present content of every slot, and
    /// `final(borrowed())@` is what the lender finds in the storage once the
    /// borrow has ended. No operation of the container changes which borrow it
    /// holds, so that end value stays the same from call to call, and
    /// [`Self::lemma_borrow_ended`] ties it to the last content.
    pub closed spec fn borrowed(&self) -> &'a mut [T] {
        self.storage
    }

    /// What `len()` is in specifications: the number of live slots.
    pub closed spec fn spec_len(&self) -> usize {
        self.len
    }

    /// The content of every slot of the lent storage, and the number of live
    /// slots.
    pub open spec fn model(&self) -> Model<T> {
        Model { storage: self.borrowed()@, len: self.spec_len() as nat }
    }

    /// What `capacity()` is in specifications: the number of slots.
    pub open spec fn spec_capacity(&self) -> usize {
        self.borrowed().len()
    }

    /// What `is_empty()` is in specifications.
    pub open spec fn spec_is_empty(&self) -> bool {
        self.model().is_empty()
    }

    /// What `is_full()` is in specifications.
    pub open spec fn spec_is_full(&self) -> bool {
        self.model().is_full()
    }

    /// Every container has at most as many live slots as slots.
    #[verifier::type_invariant]
    pub open spec fn wf(&self) -> bool {
        self.model().wf()
    }

    /// When a container is used no more, the lender finds in the storage what
    /// the container last held there, stale slots included.
    pub proof fn lemma_borrow_ended(self)
        ensures
            has_resolved(self) ==> final(self.borrowed())@ == self.model().storage,
    {
    }

    /// An empty container over `storage`. Every slot starts out stale, with
    /// the content that `storage` came with.
    pub fn new(storage: &'a mut [T]) -> (v: StackVec<'a, T>)
        ensures
            v.model() == (Model { storage: old(storage)@, len: 0 }),
            v.len() == 0,
            v.capacity() == old(storage)@.len(),
            final(v.borrowed())@ == final(storage)@,
    {
        Self::with_len(storage, 0)
    }

    /// A container over `storage` whose first `len` slots are live from the
    /// start, with the content that `storage` came with.
    ///
    /// `storage` must have at least `len` slots: there is no container to
    /// return otherwise.
    pub fn with_len(storage: &'a mut [T], len: usize) -> (v: StackVec<'a, T>)
        requires
            len <= old(storage)@.len(),
        ensures
            v.model() == (Model { storage: old(storage)@, len: len as nat }),
            v.len() == len,
            v.capacity() == old(storage)@.len(),
            final(v.borrowed())@ == final(storage)@,
    {
        StackVec { storage, len }
    }

    /// The number of slots of the lent storage.
    #[verifier::when_used_as_spec(spec_capacity)]
    pub fn capacity(&self) -> (n: usize)
        ensures
            n == self.spec_capacity(),
            n == self.model().capacity(),
    {
        self.storage.len()
    }

    /// Shortens the container to its first `len` elements. Does nothing if it
    /// has no more than `len`. The slots that are cut off keep their content.
    pub fn truncate(&mut self, len: usize)
        ensures
            final(self).model() == old(self).model().truncate(len as nat),
            final(self).len() == (if len < old(self).len() { len } else { old(self).len() }),
            final(self)@ == old(self)@.take(final(self).len() as int),
            final(final(self).borrowed())@ == final(old(self).borrowed())@,
    {
        proof {
            use_type_invariant(&*self);
        }
        if len >= self.len {
            return;
        }
        self.len = len
    }

    /// Gives up the container for its elements: the live slots as a slice that
    /// lasts as long as the lent storage does. The stale slots stay as they
    /// are.
    pub fn into_slice(self) -> (s: &'a mut [T])
        ensures
            s@ == self@,
            final(s)@.len() == s@.len(),
            final(self.borrowed())@ == final(s)@ + self.model().stale(),
    {
        proof {
            use_type_invariant(&self);
        }
        prefix_mut(self.storage, self.len)
    }

    /// The elements as a slice.
    pub fn as_slice(&self) -> (s: &[T])
        ensures
            s@ == self@,
            s@.len() == self.len(),
    {
        proof {
            use_type_invariant(self);
        }
        &self.storage[0..self.len]
    }

    /// The elements as a slice through which they can be overwritten. The
    /// container keeps its length, and its stale slots stay as they are.
    pub fn as_mut_slice(&mut self) -> (s: &mut [T])
        ensures
            s@ == old(self)@,
            final(s)@.len() == s@.len(),
            final(self)@ == final(s)@,
            final(self).model() == (Model {
                storage: final(s)@ + old(self).model().stale(),
                len: old(self).model().len,
            }),
            final(final(self).borrowed())@ == final(old(self).borrowed())@,
    {
        proof {
            use_type_invariant(&*self);
        }
        prefix_mut(self.storage, self.len)
    }

    /// The number of elements.
    #[verifier::when_used_as_spec(spec_len)]
    pub fn len(&self) -> (n: usize)
        ensures
            n == self.spec_len(),
            n == self@.len(),
    {
        proof {
            use_type_invariant(self);
        }
        self.len
    }

    /// Whether there is no element.
    #[verifier::when_used_as_spec(spec_is_empty)]
    pub fn is_empty(&self) -> (b: bool)
        ensures
            b == self.spec_is_empty(),
            b == (self.len() == 0),
    {
        self.len == 0
    }

    /// Whether every slot is live, so that nothing more can be pushed.
    #[verifier::when_used_as_spec(spec_is_full)]
    pub fn is_full(&self) -> (b: bool)
        ensures
            b == self.spec_is_full(),
            b == (self.len() >= self.capacity()),
    {
        self.len >= self.storage.len()
    }

    /// Appends `value`, overwriting the first stale slot, unless the container
    /// is full: then it fails with `"full"` and changes nothing.
    pub fn push(&mut self, value: T) -> (r: Result<(), &str>)
        ensures
            final(self).model() == old(self).model().push(value),
            r is Ok <==> old(self).len() < old(self).capacity(),
            r is Ok ==> final(self).len() == old(self).len() + 1
                && final(self)@ == old(self)@.push(value),
            r is Err ==> r == Err::<(), &str>("full") && final(self).model() == old(self).model(),
            final(final(self).borrowed())@ == final(old(self).borrowed())@,
    {
        proof {
            use_type_invariant(&*self);
        }
        if self.is_full() {
            return Err("full");
        }
        self.storage[self.len] = value;
        self.len += 1;
        Ok(())
    }
}

impl<'a, T: Clone + 'a> StackVec<'a, T> {
    /// Removes the last element and returns a clone of it, or returns `None`
    /// and changes nothing if there is no element. The slot that held the
    /// element keeps its content.
    pub fn pop(&mut self) -> (r: Option<T>)
        ensures
            final(self).model() == old(self).model().pop(),
            r is None <==> old(self).is_empty(),
            r is None ==> final(self).model() == old(self).model(),
            r matches Some(x) ==> cloned(old(self)@.last(), x)
                && final(self)@ == old(self)@.drop_last(),
            final(final(self).borrowed())@ == final(old(self).borrowed())@,
    {
        proof {
            use_type_invariant(&*self);
        }
        if self.is_empty() {
            return None;
        }
        let x = self.storage[self.len - 1].clone();
        self.len -= 1;
        Some(x)
    }
}

/// A container can be read wherever a slice of its elements can.
impl<'a, T: 'a> core::ops::Deref for StackVec<'a, T> {
    type Target = [T];

    fn deref(&self) -> (s: &[T])
        ensures
            s@ == self@,
    {
        proof {
            use_type_invariant(self);
        }
        &self.storage[0..self.len]
    }
}

/// A container can be written wherever a slice of its elements can, on the
/// terms of [`StackVec::as_mut_slice`].
impl<'a, T: 'a> core::ops::DerefMut for StackVec<'a, T> {
    fn deref_mut(&mut self) -> (s: &mut [T])
        ensures
            s@ == old(self)@,
            final(s)@.len() == s@.len(),
            final(self)@ == final(s)@,
            final(self).model() == (Model {
                storage: final(s)@ + old(self).model().stale(),
                len: old(self).model().len,
            }),
            final(final(self).borrowed())@ == final(old(self).borrowed())@,
    {
        proof {
            use_type_invariant(&*self);
        }
        prefix_mut(self.storage, self.len)
    }
}

} // verus!
