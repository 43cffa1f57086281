//! A slot pool addressed by handles, reusing freed slots.

use crate::handle::Handle;
use vstd::prelude::*;

verus! {

/// Slots of values addressed by handles; a removed value's slot is reused by
/// a later insertion.
pub struct Pool<T> {
    items: Vec<Option<T>>,
    free_indexes: Vec<usize>,
}

/// The slot a handle addresses.
pub open spec fn slot_of<T>(h: Handle<T>) -> int {
    (h.value() as usize) as int
}

impl<T> View for Pool<T> {
    type V = Seq<Option<T>>;

    closed spec fn view(&self) -> Seq<Option<T>> {
        self.items@
    }
}

impl<T> Pool<T> {
    /// Every free index names a vacant slot, and none is listed twice.
    pub closed spec fn wf(&self) -> bool {
        &&& forall|k: int|
            0 <= k < self.free_indexes@.len() ==> {
                let i = #[trigger] self.free_indexes@[k];
                &&& i < self.items@.len()
                &&& self.items@[i as int] is None
            }
        &&& forall|k: int, l: int|
            0 <= k < l < self.free_indexes@.len() ==> #[trigger] self.free_indexes@[k]
                != #[trigger] self.free_indexes@[l]
    }

    pub fn new() -> (r: Self)
        ensures
            r.wf(),
            r@ == Seq::<Option<T>>::empty(),
    {
        Pool { items: Vec::new(), free_indexes: Vec::new() }
    }

    /// Stores `value` in a vacant slot, reusing a freed one where there is
    /// one and appending a slot otherwise.
    pub fn insert(&mut self, value: T) -> (r: Handle<T>)
        requires
            old(self).wf(),
            old(self)@.len() < usize::MAX,
        ensures
            final(self).wf(),
            r.value() <= old(self)@.len(),
            slot_of(r) == r.value(),
            r.value() < old(self)@.len() ==> old(self)@[r.value() as int] is None && final(self)@
                == old(self)@.update(r.value() as int, Some(value)),
            r.value() == old(self)@.len() ==> final(self)@ == old(self)@.push(Some(value)),
    {
        match self.free_indexes.pop() {
            Some(index) => {
                proof {
                    assert(old(self).free_indexes@.last() == index);
                    assert forall|k: int| 0 <= k < self.free_indexes@.len() implies #[trigger] self.free_indexes@[k]
                        != index by {
                        assert(old(self).free_indexes@[k] == self.free_indexes@[k]);
                        assert(old(self).free_indexes@[old(self).free_indexes@.len() - 1] == index);
                    }
                }
                self.items.set(index, Some(value));
                Handle::from_usize(index)
            },
            None => {
                let index = self.items.len();
                self.items.push(Some(value));
                Handle::from_usize(index)
            },
        }
    }

    /// Empties the slot of `handle`; a handle whose slot is already vacant,
    /// or that addresses no slot, changes nothing.
    pub fn remove(&mut self, handle: Handle<T>)
        requires
            old(self).wf(),
        ensures
            final(self).wf(),
            0 <= slot_of(handle) < old(self)@.len() ==> final(self)@ == old(self)@.update(
                slot_of(handle),
                None,
            ),
            !(0 <= slot_of(handle) < old(self)@.len()) ==> final(self)@ == old(self)@,
    {
        let index = handle.to_usize();
        if index < self.items.len() && self.items[index].is_some() {
            proof {
                assert forall|k: int| 0 <= k < self.free_indexes@.len() implies #[trigger] self.free_indexes@[k]
                    != index by {}
            }
            self.items.set(index, None);
            self.free_indexes.push(index);
        } else if index < self.items.len() {
            assert(self.items@ =~= old(self)@.update(slot_of(handle), None));
        }
    }

    pub fn get(&self, handle: Handle<T>) -> (r: Option<&T>)
        ensures
            r is Some <==> 0 <= slot_of(handle) < self@.len() && self@[slot_of(handle)] is Some,
            r is Some ==> r->0 == self@[slot_of(handle)]->0,
    {
        let index = handle.to_usize();
        if index < self.items.len() {
            self.items[index].as_ref()
        } else {
            None
        }
    }

    pub fn get_mut(&mut self, handle: Handle<T>) -> (r: Option<&mut T>)
        requires
            old(self).wf(),
        ensures
            r is Some <==> 0 <= slot_of(handle) < old(self)@.len() && old(self)@[slot_of(
                handle,
            )] is Some,
            r matches Some(v) ==> *v == old(self)@[slot_of(handle)]->0 && final(self)@ == old(
                self,
            )@.update(slot_of(handle), Some(*final(v))),
            r is None ==> final(self)@ == old(self)@,
    {
        let index = handle.to_usize();
        if index < self.items.len() {
            self.items[index].as_mut()
        } else {
            None
        }
    }
}

} // verus!
