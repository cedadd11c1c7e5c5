use vstd::prelude::*;
use vstd::std_specs::iter::IteratorSpecImpl;
use crate::stack::StackVec;

verus! {

/// A walk over the elements of a [`StackVec`], oldest first, by reference.
///
/// The walk covers the live slots only: stale slots are never visited. It
/// goes forward, ends after the last element, and stays ended. To walk again,
/// make another iterator.
pub struct Iter<'a, T: 'a> {
    /// The elements to walk over.
    storage: &'a [T],
    /// How many of them have been yielded.
    len: usize,
}

/// The view of an iterator is the sequence of the elements it has yet to
/// yield, next one first.
impl<'a, T: 'a> View for Iter<'a, T> {
    type V = Seq<T>;

    closed spec fn view(&self) -> Seq<T> {
        self.storage@.skip(self.len as int)
    }
}

impl<'a, T: 'a> Iter<'a, T> {
    #[verifier::type_invariant]
    spec fn wf(&self) -> bool {
        self.len <= self.storage@.len()
    }
}

impl<'a, T: 'a> Iterator for Iter<'a, T> {
    type Item = &'a T;

    /// Yields the next element, or `None` once all have been yielded.
    fn next(&mut self) -> (r: Option<&'a T>)
        ensures
            match r {
                Some(x) => old(self)@.len() > 0 && *x == old(self)@.first()
                    && final(self)@ == old(self)@.drop_first(),
                None => old(self)@.len() == 0 && final(self)@ == old(self)@,
            },
    {
        proof {
            use_type_invariant(&*self);
        }
        if self.len >= self.storage.len() {
            return None;
        } else {
            let x = &self.storage[self.len];
            self.len += 1;
            Some(x)
        }
    }
}

/// What `for` loops and iterator adapters are told of the walk: it yields
/// references to the elements of the view, in order, and then ends.
impl<'a, T: 'a> IteratorSpecImpl for Iter<'a, T> {
    open spec fn obeys_prophetic_iter_laws(&self) -> bool {
        true
    }

    open spec fn remaining(&self) -> Seq<&'a T> {
        self@.map_values(|e: T| &e)
    }

    open spec fn will_return_none(&self) -> bool {
        true
    }

    open spec fn decrease(&self) -> Option<nat> {
        Some(self@.len())
    }

    open spec fn initial_value_relation(&self, init: &Self) -> bool {
        self@ == init@
    }

    open spec fn peek(&self, index: int) -> Option<&'a T> {
        if 0 <= index < self@.len() {
            Some(&self@[index])
        } else {
            None
        }
    }
}

/// Gives up the container for a walk over its elements. The lent storage is
/// not written again.
impl<'a, T: 'a> IntoIterator for StackVec<'a, T> {
    type Item = &'a T;

    type IntoIter = Iter<'a, T>;

    fn into_iter(self) -> (it: Iter<'a, T>)
        ensures
            it@ == self@,
            final(self.borrowed())@ == self.model().storage,
    {
        proof {
            use_type_invariant(&self);
        }
        let live: &'a [T] = self.into_slice();
        Iter { storage: live, len: 0 }
    }
}

/// A walk over the elements of a container that is only borrowed.
impl<'a, T: 'a> IntoIterator for &'a StackVec<'a, T> {
    type Item = &'a T;

    type IntoIter = Iter<'a, T>;

    fn into_iter(self) -> (it: Iter<'a, T>)
        ensures
            it@ == self@,
    {
        Iter { storage: self.as_slice(), len: 0 }
    }
}

} // verus!
