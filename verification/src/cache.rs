//! Values with a flag that says whether they still have to be uploaded.

use vstd::prelude::*;

verus! {

/// A value paired with a flag that records whether the value still has to be
/// uploaded. The flag sits beside the data; it does not observe writes, so
/// whoever changes `value` sets `dirty` again.
pub struct Cache<T> {
    pub value: T,
    pub dirty: bool,
}

impl<T> Cache<T> {
    /// The cache that `new` makes of `value`.
    pub open spec fn fresh(value: T) -> Cache<T> {
        Cache { value, dirty: true }
    }

    /// The cache after `clear`.
    pub open spec fn cleared(self) -> Cache<T> {
        Cache { value: self.value, dirty: false }
    }

    /// Wraps `value`, marked dirty so that the first synchronisation uploads it.
    pub fn new(value: T) -> (cache: Cache<T>)
        ensures
            cache == Self::fresh(value),
    {
        Cache { value, dirty: true }
    }

    pub fn is_dirty(&self) -> (dirty: bool)
        ensures
            dirty == self.dirty,
    {
        self.dirty
    }

    /// Marks the value as uploaded. The value itself is left alone.
    pub fn clear(&mut self)
        ensures
            *final(self) == old(self).cleared(),
    {
        self.dirty = false;
    }

    /// A cache is dirty when it is made, and clean once it is cleared. Its
    /// value is the same throughout.
    pub proof fn lemma_dirty_until_cleared(value: T)
        ensures
            Self::fresh(value).dirty,
            !Self::fresh(value).cleared().dirty,
            Self::fresh(value).cleared().value == value,
    {
    }
}

/// A sequence of values that share one flag: the whole sequence is uploaded
/// together, so one flag covers every element.
pub struct VecCache<T> {
    pub values: Vec<T>,
    pub dirty: bool,
}

impl<T> VecCache<T> {
    /// The cache that `new` makes of `values`.
    pub open spec fn fresh(values: Vec<T>) -> VecCache<T> {
        VecCache { values, dirty: true }
    }

    /// The cache after `clear`.
    pub open spec fn cleared(self) -> VecCache<T> {
        VecCache { values: self.values, dirty: false }
    }

    /// Wraps `values`, marked dirty so that the first synchronisation uploads them.
    pub fn new(values: Vec<T>) -> (cache: VecCache<T>)
        ensures
            cache == Self::fresh(values),
    {
        VecCache { values, dirty: true }
    }

    pub fn is_dirty(&self) -> (dirty: bool)
        ensures
            dirty == self.dirty,
    {
        self.dirty
    }

    /// Marks the values as uploaded. The values themselves are left alone.
    pub fn clear(&mut self)
        ensures
            *final(self) == old(self).cleared(),
    {
        self.dirty = false;
    }

    /// A cache is dirty when it is made, and clean once it is cleared. Its
    /// values are the same throughout.
    pub proof fn lemma_dirty_until_cleared(values: Vec<T>)
        ensures
            Self::fresh(values).dirty,
            !Self::fresh(values).cleared().dirty,
            Self::fresh(values).cleared().values == values,
    {
    }
}

} // verus!
