//! Resource tables: what a guest holds by number.
//!
//! Each object that a bridge hands to the guest stays with the host, in a
//! table of the guest's own instance; the guest gets the number of its
//! slot. Slots of released objects are used again.

use vstd::prelude::*;

verus! {

/// A table of host-side objects, each known to the guest by its handle.
pub struct Table<T> {
    slots: Vec<Option<T>>,
    free: Vec<u32>,
}

impl<T> View for Table<T> {
    type V = Map<u32, T>;

    closed spec fn view(&self) -> Map<u32, T> {
        Map::new(
            |handle: u32| handle < self.slots.len() && self.slots[handle as int] is Some,
            |handle: u32| self.slots[handle as int]->0,
        )
    }
}

/// Whether every handle is taken, so that a table has no room for
/// another object.
pub open spec fn exhausted<T>(objects: Map<u32, T>) -> bool {
    forall|handle: u32| handle < u32::MAX ==> #[trigger] objects.contains_key(handle)
}

impl<T> Table<T> {
    /// The invariant of the type: the free list names the empty slots,
    /// each once, and every slot has a handle.
    pub closed spec fn wf(&self) -> bool {
        &&& self.slots.len() <= u32::MAX
        &&& forall|k: int|
            0 <= k < self.free.len() ==> (#[trigger] self.free[k]) < self.slots.len()
                && self.slots[self.free[k] as int] is None
        &&& forall|k: int, l: int|
            0 <= k < l < self.free.len() ==> #[trigger] self.free[k] != #[trigger] self.free[l]
        &&& forall|i: int|
            0 <= i < self.slots.len() && (#[trigger] self.slots[i]) is None ==> exists|k: int|
                0 <= k < self.free.len() && #[trigger] self.free[k] == i
    }

    /// An empty table.
    pub fn new() -> (table: Self)
        ensures
            table.wf(),
            table@ == Map::<u32, T>::empty(),
    {
        Table { slots: Vec::new(), free: Vec::new() }
    }

    /// Puts `value` into the table and returns its handle, one that was
    /// not in use. A full table gives the value back.
    pub fn insert(&mut self, value: T) -> (r: Result<u32, T>)
        requires
            old(self).wf(),
        ensures
            final(self).wf(),
            match r {
                Ok(handle) => !exhausted(old(self)@) && !old(self)@.contains_key(handle)
                    && final(self)@ == old(self)@.insert(handle, value),
                Err(back) => exhausted(old(self)@) && back == value && final(self)@ == old(self)@,
            },
    {
        match self.free.pop() {
            Some(handle) => {
                assert(!old(self)@.contains_key(handle));
                self.slots.set(handle as usize, Some(value));
                assert forall|i: int|
                    0 <= i < self.slots.len() && (#[trigger] self.slots[i]) is None implies exists|
                    k: int,
                |
                    0 <= k < self.free.len() && #[trigger] self.free[k] == i by {
                    let k = choose|k: int|
                        0 <= k < old(self).free.len() && #[trigger] old(self).free[k] == i;
                    assert(self.free[k] == i);
                }
                Ok(handle)
            },
            None => {
                if self.slots.len() >= u32::MAX as usize {
                    assert(exhausted(self@));
                    return Err(value);
                }
                let handle = self.slots.len() as u32;
                assert(!old(self)@.contains_key(handle));
                self.slots.push(Some(value));
                Ok(handle)
            },
        }
    }

    /// A bound above every handle that is in use.
    pub(crate) fn bound(&self) -> (r: u32)
        requires
            self.wf(),
        ensures
            forall|handle: u32| self@.contains_key(handle) ==> handle < r,
    {
        self.slots.len() as u32
    }

    /// The object behind `handle`.
    pub fn get(&self, handle: u32) -> (r: Option<&T>)
        requires
            self.wf(),
        ensures
            match r {
                Some(value) => self@.contains_key(handle) && *value == self@[handle],
                None => !self@.contains_key(handle),
            },
    {
        if (handle as usize) < self.slots.len() {
            self.slots[handle as usize].as_ref()
        } else {
            None
        }
    }

    /// Releases `handle` and returns the object that was behind it.
    pub fn remove(&mut self, handle: u32) -> (r: Option<T>)
        requires
            old(self).wf(),
        ensures
            final(self).wf(),
            final(self)@ == old(self)@.remove(handle),
            match r {
                Some(value) => old(self)@.contains_key(handle) && value == old(self)@[handle],
                None => !old(self)@.contains_key(handle),
            },
    {
        if (handle as usize) >= self.slots.len() {
            return None;
        }
        let mut taken: Option<T> = None;
        std::mem::swap(&mut self.slots[handle as usize], &mut taken);
        if taken.is_some() {
            self.free.push(handle);
            assert forall|i: int|
                0 <= i < self.slots.len() && (#[trigger] self.slots[i]) is None implies exists|
                k: int,
            |
                0 <= k < self.free.len() && #[trigger] self.free[k] == i by {
                if i == handle {
                    assert(self.free[self.free.len() - 1] == i);
                } else {
                    let k = choose|k: int|
                        0 <= k < old(self).free.len() && #[trigger] old(self).free[k] == i;
                    assert(self.free[k] == i);
                }
            }
        }
        taken
    }
}

} // verus!
