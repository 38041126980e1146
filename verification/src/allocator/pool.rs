//! A pool of slots whose indices are handed out again after deletion.

use vstd::prelude::*;

verus! {

/// Every index in `indices` is less than `bound`.
pub open spec fn indices_below(indices: Seq<usize>, bound: nat) -> bool {
    forall|k: int| 0 <= k < indices.len() ==> #[trigger] indices[k] < bound
}

/// Slots addressed by index, with a list of indices that were given back and
/// can be handed out again.
pub struct Pool<T> {
    elements: Vec<Option<T>>,
    free_list: Vec<usize>,
}

impl<T> Pool<T> {
    /// The slots, in index order. An empty slot is `None`.
    pub closed spec fn slots(&self) -> Seq<Option<T>> {
        self.elements@
    }

    /// The indices waiting to be handed out again; the last one goes first.
    pub closed spec fn free(&self) -> Seq<usize> {
        self.free_list@
    }

    /// Every index waiting for reuse names an existing slot. `new` establishes
    /// this and every method keeps it.
    pub open spec fn wf(&self) -> bool {
        indices_below(self.free(), self.slots().len())
    }

    /// A pool without slots.
    pub fn new() -> (pool: Pool<T>)
        ensures
            pool.slots() == Seq::<Option<T>>::empty(),
            pool.free() == Seq::<usize>::empty(),
            pool.wf(),
    {
        Pool { elements: Vec::new(), free_list: Vec::new() }
    }

    /// The value in the slot at `index`, to be changed in place; nothing
    /// where the slot is empty or `index` names no slot.
    pub fn get_mut(&mut self, index: usize) -> (value: Option<&mut T>)
        ensures
            old(self).wf() ==> final(self).wf(),
            match value {
                Some(slot) => {
                    &&& index < old(self).slots().len()
                    &&& old(self).slots()[index as int] == Some(*slot)
                    &&& final(self).slots() == old(self).slots().update(
                        index as int,
                        Some(*final(slot)),
                    )
                },
                None => {
                    &&& index < old(self).slots().len() ==> old(self).slots()[index as int] is None
                    &&& final(self).slots() == old(self).slots()
                },
            },
            final(self).free() == old(self).free(),
    {
        if index < self.elements.len() {
            match &mut self.elements[index] {
                Some(slot) => Some(slot),
                None => None,
            }
        } else {
            None
        }
    }

    /// The value in the slot at `index`; nothing where the slot is empty or
    /// `index` names no slot.
    pub fn get(&self, index: usize) -> (value: Option<&T>)
        ensures
            match value {
                Some(slot) => index < self.slots().len() && self.slots()[index as int] == Some(
                    *slot,
                ),
                None => index < self.slots().len() ==> self.slots()[index as int] is None,
            },
    {
        if index < self.elements.len() {
            self.elements[index].as_ref()
        } else {
            None
        }
    }

    /// Hands out an index. With no index waiting for reuse, `value` goes into
    /// a new slot at the end and that slot's index is returned. Otherwise the
    /// index given back last is returned again; its slot stays as it is and
    /// `value` is dropped.
    pub fn allocate(&mut self, value: T) -> (index: usize)
        ensures
            old(self).wf() ==> final(self).wf() && index < final(self).slots().len(),
            old(self).free().len() == 0 ==> {
                &&& index == old(self).slots().len()
                &&& final(self).slots() == old(self).slots().push(Some(value))
                &&& final(self).free() == old(self).free()
            },
            old(self).free().len() > 0 ==> {
                &&& index == old(self).free().last()
                &&& final(self).slots() == old(self).slots()
                &&& final(self).free() == old(self).free().drop_last()
            },
    {
        if self.free_list.len() == 0 {
            self.elements.push(Some(value));
            self.elements.len() - 1
        } else {
            self.free_list.pop().unwrap()
        }
    }

    /// Empties the slot at `index` and queues the index for reuse.
    pub fn delete(&mut self, index: usize)
        requires
            index < old(self).slots().len(),
        ensures
            old(self).wf() ==> final(self).wf(),
            final(self).slots() == old(self).slots().update(index as int, None),
            final(self).free() == old(self).free().push(index),
    {
        self.free_list.push(index);
        self.elements[index] = None;
    }
}

} // verus!
