use vstd::prelude::*;
use crate::model::Model;

verus! {

/// A container has as many elements as live slots; its storage is its
/// elements followed by its stale slots; and it is full exactly when its
/// length is its capacity.
pub proof fn lemma_live<T>(m: Model<T>)
    requires
        m.wf(),
    ensures
        m.live().len() == m.len,
        m.live() + m.stale() == m.storage,
        m.is_full() <==> m.len == m.capacity(),
{
}

/// No operation gives a container more live slots than slots, and none
/// changes its capacity.
pub proof fn lemma_wf_kept<T>(m: Model<T>, value: T, len: nat)
    requires
        m.wf(),
    ensures
        m.push(value).wf(),
        m.pop().wf(),
        m.truncate(len).wf(),
        m.push(value).capacity() == m.capacity(),
        m.pop().capacity() == m.capacity(),
        m.truncate(len).capacity() == m.capacity(),
{
}

/// A push into a container that is not full makes it one longer, with the
/// pushed value as its last element and the elements before it as they were.
/// It uses up the first stale slot and leaves the others alone.
pub proof fn lemma_push_appends<T>(m: Model<T>, value: T)
    requires
        m.wf(),
        !m.is_full(),
    ensures
        m.push(value).len == m.len + 1,
        m.push(value).live() == m.live().push(value),
        m.push(value).live().last() == value,
        m.push(value).stale() == m.stale().drop_first(),
{
}

/// A push into a full container changes neither its length nor the content
/// of any slot.
pub proof fn lemma_push_full<T>(m: Model<T>, value: T)
    requires
        m.is_full(),
    ensures
        m.push(value) == m,
{
}

/// A pop from an empty container changes nothing.
pub proof fn lemma_pop_empty<T>(m: Model<T>)
    requires
        m.is_empty(),
    ensures
        m.pop() == m,
{
}

/// A pop from a container that is not empty takes its last element off and
/// writes to no slot.
pub proof fn lemma_pop_drops_last<T>(m: Model<T>)
    requires
        m.wf(),
        !m.is_empty(),
    ensures
        m.pop().len == m.len - 1,
        m.pop().live() == m.live().drop_last(),
        m.pop().storage == m.storage,
{
}

/// A pop right after a push that succeeded finds the pushed value as the last
/// element, and leaves the container with the length and the elements it had
/// before the push.
pub proof fn lemma_pop_after_push<T>(m: Model<T>, value: T)
    requires
        m.wf(),
        !m.is_full(),
    ensures
        !m.push(value).is_empty(),
        m.push(value).live().last() == value,
        m.push(value).pop().len == m.len,
        m.push(value).pop().live() == m.live(),
{
}

/// Truncating to the present length or more changes nothing. Truncating to
/// less leaves exactly that many elements, the first ones. Either way no slot
/// is written.
pub proof fn lemma_truncate<T>(m: Model<T>, len: nat)
    requires
        m.wf(),
    ensures
        len >= m.len ==> m.truncate(len) == m,
        len < m.len ==> m.truncate(len).len == len,
        len < m.len ==> m.truncate(len).live() == m.live().take(len as int),
        m.truncate(len).storage == m.storage,
{
}

/// The elements of a container are the values that were pushed into it, in
/// the order of the pushes, for as long as they fit: pushes into a full
/// container are lost.
pub proof fn lemma_push_all<T>(m: Model<T>, values: Seq<T>)
    requires
        m.wf(),
    ensures
        m.push_all(values).wf(),
        m.push_all(values).capacity() == m.capacity(),
        m.push_all(values).live() == (if m.len + values.len() <= m.capacity() {
            m.live() + values
        } else {
            (m.live() + values).take(m.capacity() as int)
        }),
    decreases values.len(),
{
    if values.len() > 0 {
        lemma_push_all(m.push(values.first()), values.drop_first());
    }
}

} // verus!
