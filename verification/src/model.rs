use vstd::prelude::*;

verus! {

/// What a container is to its contracts: the content of every slot of the
/// lent storage, and how many of the slots are live.
///
/// The slots before `len` hold the elements, oldest first. The slots from
/// `len` on are stale: they keep whatever was last written there and are
/// never handed out as elements.
pub struct Model<T> {
    pub storage: Seq<T>,
    pub len: nat,
}

impl<T> Model<T> {
    /// There are no more live slots than slots.
    pub open spec fn wf(self) -> bool {
        self.len <= self.storage.len()
    }

    /// The number of slots, live and stale.
    pub open spec fn capacity(self) -> nat {
        self.storage.len()
    }

    /// The elements: the content of the live slots.
    pub open spec fn live(self) -> Seq<T> {
        self.storage.take(self.len as int)
    }

    /// The content of the stale slots.
    pub open spec fn stale(self) -> Seq<T> {
        self.storage.skip(self.len as int)
    }

    /// No slot is live.
    pub open spec fn is_empty(self) -> bool {
        self.len == 0
    }

    /// Every slot is live.
    pub open spec fn is_full(self) -> bool {
        self.len >= self.capacity()
    }

    /// Writes `value` into the first stale slot and makes that slot live.
    /// Changes nothing where every slot is live already.
    pub open spec fn push(self, value: T) -> Self {
        if self.is_full() {
            self
        } else {
            Model { storage: self.storage.update(self.len as int, value), len: self.len + 1 }
        }
    }

    /// Pushes `values` one after the other, first to last.
    pub open spec fn push_all(self, values: Seq<T>) -> Self
        decreases values.len(),
    {
        if values.len() == 0 {
            self
        } else {
            self.push(values.first()).push_all(values.drop_first())
        }
    }

    /// Makes the last live slot stale and leaves its content in place.
    /// Changes nothing where no slot is live.
    pub open spec fn pop(self) -> Self {
        if self.is_empty() {
            self
        } else {
            Model { storage: self.storage, len: (self.len - 1) as nat }
        }
    }

    /// Keeps the first `len` slots live and makes the rest stale, their
    /// content left in place. Changes nothing where `len` would add live
    /// slots.
    pub open spec fn truncate(self, len: nat) -> Self {
        if len >= self.len {
            self
        } else {
            Model { storage: self.storage, len }
        }
    }
}

} // verus!
