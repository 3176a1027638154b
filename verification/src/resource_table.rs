//! Arena mapping opaque integer handles to host-owned objects.
//!
//! A handle is the index of a slot in the table. Deleting an entry vacates
//! its slot and records the index on a free list; the next push reuses the
//! most recently freed slot before the table grows. A slot index is only
//! valid while the slot is occupied, so no handle is ever issued twice for
//! two simultaneously live objects.

use vstd::prelude::*;

verus! {

/// Error returned when a handle does not refer to a live entry.
#[derive(Debug, Clone, Copy, PartialEq, Eq, Structural)]
pub enum ResourceTableError {
    NotPresent,
}

/// A table of host-owned objects addressed by opaque `u32` handles.
pub struct ResourceTable<T> {
    entries: Vec<Option<T>>,
    free_cells: Vec<usize>,
}

/// The entry a handle refers to in a sequence of slots: `Some` only when the
/// handle is in range and the slot is occupied.
pub open spec fn slot_at<T>(slots: Seq<Option<T>>, handle: u32) -> Option<T> {
    if handle < slots.len() {
        slots[handle as int]
    } else {
        None
    }
}

/// How one `push` changes the slots and the free list, and which handle it
/// returns: the most recently freed slot is reused when one exists, else the
/// value goes into a fresh slot at the end.
pub open spec fn push_transition<T>(
    pre_slots: Seq<Option<T>>,
    pre_free: Seq<usize>,
    post_slots: Seq<Option<T>>,
    post_free: Seq<usize>,
    handle: u32,
    value: T,
) -> bool {
    if pre_free.len() > 0 {
        &&& handle == pre_free.last() as u32
        &&& post_slots == pre_slots.update(handle as int, Some(value))
        &&& post_free == pre_free.drop_last()
    } else {
        &&& handle == pre_slots.len() as u32
        &&& post_slots == pre_slots.push(Some(value))
        &&& post_free == pre_free
    }
}

/// How one successful `delete` of `handle` changes the slots and the free
/// list: the slot is vacated and its index recorded for reuse.
pub open spec fn delete_transition<T>(
    pre_slots: Seq<Option<T>>,
    pre_free: Seq<usize>,
    post_slots: Seq<Option<T>>,
    post_free: Seq<usize>,
    handle: u32,
) -> bool {
    &&& slot_at(pre_slots, handle) is Some
    &&& post_slots == pre_slots.update(handle as int, None::<T>)
    &&& post_free == pre_free.push(handle as usize)
}

impl<T> ResourceTable<T> {
    /// The slots of the table, by index.
    pub closed spec fn slots(self) -> Seq<Option<T>> {
        self.entries@
    }

    /// The stack of vacated slot indices available for reuse.
    pub closed spec fn free_list(self) -> Seq<usize> {
        self.free_cells@
    }

    /// The entry `handle` refers to, if any.
    pub open spec fn lookup(self, handle: u32) -> Option<T> {
        slot_at(self.slots(), handle)
    }

    /// Well-formedness: every index on the free list points at a vacant slot,
    /// the free list holds no index twice, and every slot index fits in a
    /// `u32` handle.
    pub open spec fn wf(self) -> bool {
        &&& self.slots().len() <= u32::MAX
        &&& forall|i: int|
            0 <= i < self.free_list().len() ==> #[trigger] self.free_list()[i]
                < self.slots().len() && self.slots()[self.free_list()[i] as int] is None
        &&& forall|i: int, j: int|
            #![trigger self.free_list()[i], self.free_list()[j]]
            0 <= i < j < self.free_list().len() ==> self.free_list()[i] != self.free_list()[j]
    }

    /// Create an empty table.
    pub fn new() -> (table: Self)
        ensures
            table.wf(),
            table.slots() == Seq::<Option<T>>::empty(),
            table.free_list() == Seq::<usize>::empty(),
    {
        Self { entries: Vec::new(), free_cells: Vec::new() }
    }

    /// Get a shared reference to the entry a handle refers to.
    ///
    /// Fails with `NotPresent` exactly when the handle is out of range or its
    /// slot is vacant.
    pub fn get(&self, handle: u32) -> (r: Result<&T, ResourceTableError>)
        ensures
            match r {
                Ok(value) => self.lookup(handle) == Some(*value),
                Err(e) => self.lookup(handle) is None && e == ResourceTableError::NotPresent,
            },
    {
        let idx = handle as usize;
        if idx < self.entries.len() {
            match &self.entries[idx] {
                Some(value) => Ok(value),
                None => Err(ResourceTableError::NotPresent),
            }
        } else {
            Err(ResourceTableError::NotPresent)
        }
    }

    /// Whether a push can be accepted: a freed slot is available for reuse
    /// or a fresh slot index would still fit in a `u32` handle.
    pub fn can_push(&self) -> (r: bool)
        ensures
            r == (self.free_list().len() > 0 || self.slots().len() < u32::MAX),
    {
        self.free_cells.len() > 0 || self.entries.len() < u32::MAX as usize
    }

    /// Insert a value, returning the handle that now refers to it.
    ///
    /// The most recently freed slot is reused when one exists; otherwise the
    /// value is appended in a fresh slot. Insertion itself never fails; the
    /// requirement that a fresh slot index fit in a `u32` is a machine limit.
    pub fn push(&mut self, entry: T) -> (r: Result<u32, ResourceTableError>)
        requires
            old(self).wf(),
            old(self).free_list().len() > 0 || old(self).slots().len() < u32::MAX,
        ensures
            final(self).wf(),
            match r {
                Ok(handle) => {
                    &&& push_transition(
                        old(self).slots(),
                        old(self).free_list(),
                        final(self).slots(),
                        final(self).free_list(),
                        handle,
                        entry,
                    )
                    &&& final(self).lookup(handle) == Some(entry)
                },
                Err(_) => false,
            },
    {
        let idx: usize = match self.free_cells.pop() {
            Some(idx) => {
                self.entries[idx] = Some(entry);
                idx
            },
            None => {
                self.entries.push(Some(entry));
                self.entries.len() - 1
            },
        };
        Ok(idx as u32)
    }

    /// Remove the entry a handle refers to and return ownership of it,
    /// marking the slot reusable.
    ///
    /// Fails with `NotPresent` exactly when the handle is out of range or its
    /// slot is already vacant; the table is then unchanged.
    pub fn delete(&mut self, handle: u32) -> (r: Result<T, ResourceTableError>)
        requires
            old(self).wf(),
        ensures
            final(self).wf(),
            match r {
                Ok(value) => {
                    &&& old(self).lookup(handle) == Some(value)
                    &&& delete_transition(
                        old(self).slots(),
                        old(self).free_list(),
                        final(self).slots(),
                        final(self).free_list(),
                        handle,
                    )
                },
                Err(e) => {
                    &&& old(self).lookup(handle) is None
                    &&& e == ResourceTableError::NotPresent
                    &&& final(self).slots() == old(self).slots()
                    &&& final(self).free_list() == old(self).free_list()
                },
            },
    {
        let idx = handle as usize;
        if idx >= self.entries.len() {
            return Err(ResourceTableError::NotPresent);
        }
        self.entries.push(None);
        let slot = self.entries.swap_remove(idx);
        proof {
            assert(self.entries@ =~= old(self).entries@.update(idx as int, None::<T>));
        }
        match slot {
            Some(value) => {
                self.free_cells.push(idx);
                Ok(value)
            },
            None => {
                proof {
                    assert(self.entries@ =~= old(self).entries@);
                }
                Err(ResourceTableError::NotPresent)
            },
        }
    }
}

/// Law: deleting a handle invalidates it — after a successful `delete`, a
/// `get` of the same handle fails with `NotPresent`.
pub proof fn lemma_get_after_delete_fails<T>(
    pre_slots: Seq<Option<T>>,
    pre_free: Seq<usize>,
    post_slots: Seq<Option<T>>,
    post_free: Seq<usize>,
    handle: u32,
)
    requires
        delete_transition(pre_slots, pre_free, post_slots, post_free, handle),
    ensures
        slot_at(post_slots, handle) is None,
{
}

/// Law: a `push` immediately after a `delete` reuses the freed slot — the
/// handle it returns equals the handle just deleted.
pub proof fn lemma_push_reuses_freed_slot<T>(
    slots0: Seq<Option<T>>,
    free0: Seq<usize>,
    slots1: Seq<Option<T>>,
    free1: Seq<usize>,
    slots2: Seq<Option<T>>,
    free2: Seq<usize>,
    deleted: u32,
    pushed: u32,
    value: T,
)
    requires
        delete_transition(slots0, free0, slots1, free1, deleted),
        push_transition(slots1, free1, slots2, free2, pushed, value),
    ensures
        pushed == deleted,
        slot_at(slots2, deleted) == Some(value),
{
    assert(free1.last() == deleted as usize);
}

} // verus!
