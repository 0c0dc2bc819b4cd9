//! An append-only arena of primitives. The handle of a primitive is the
//! position at which it was inserted: handles are never reused nor
//! invalidated, since nothing is ever removed.

use vstd::prelude::*;
use crate::order::{insert_handle, is_draw_order};

verus! {

/// Primitives of any kind `T`, each with the depth it was inserted at, and
/// the draw order over them, kept in step with every insertion.
pub struct PrimitiveStore<T> {
    items: Vec<T>,
    depths: Vec<i32>,
    order: Vec<usize>,
}

impl<T> PrimitiveStore<T> {
    /// The primitives, by handle.
    pub closed spec fn items(&self) -> Seq<T> {
        self.items@
    }

    /// The depth of each primitive, by handle.
    pub closed spec fn depths(&self) -> Seq<i32> {
        self.depths@
    }

    /// The handles in the order in which they are drawn.
    pub closed spec fn order(&self) -> Seq<usize> {
        self.order@
    }

    /// One depth per primitive, and the draw order is that of the depths.
    pub open spec fn wf(&self) -> bool {
        &&& self.depths().len() == self.items().len()
        &&& is_draw_order(self.depths(), self.order())
    }

    /// An empty store.
    pub fn new() -> (store: Self)
        ensures
            store.wf(),
            store.items() == Seq::<T>::empty(),
    {
        let store = PrimitiveStore { items: Vec::new(), depths: Vec::new(), order: Vec::new() };
        proof {
            assert(store.depths@ =~= Seq::<i32>::empty());
            assert(store.order@ =~= Seq::<usize>::empty());
        }
        store
    }

    /// The number of primitives held.
    pub fn len(&self) -> (n: usize)
        requires
            self.wf(),
        ensures
            n == self.items().len(),
    {
        self.items.len()
    }

    /// Appends `item` at depth `z_index` and returns its handle, the number of
    /// primitives held before. The draw order takes the new handle in.
    pub fn add(&mut self, item: T, z_index: i32) -> (handle: usize)
        requires
            old(self).wf(),
            old(self).items().len() < usize::MAX,
        ensures
            final(self).wf(),
            handle == old(self).items().len(),
            final(self).items() == old(self).items().push(item),
            final(self).depths() == old(self).depths().push(z_index),
    {
        let handle = self.items.len();
        self.items.push(item);
        self.depths.push(z_index);
        proof {
            assert(self.depths@.subrange(0, handle as int) =~= old(self).depths@);
        }
        insert_handle(&mut self.order, &self.depths, handle);
        proof {
            assert(self.depths@.subrange(0, handle + 1) =~= self.depths@);
        }
        handle
    }

    /// The primitive with handle `handle`.
    pub fn get(&self, handle: usize) -> (item: &T)
        requires
            self.wf(),
            handle < self.items().len(),
        ensures
            *item == self.items()[handle as int],
    {
        &self.items[handle]
    }

    /// The primitive with handle `handle`, to be changed in place. Its depth
    /// and the draw order stay as they are.
    pub fn get_mut(&mut self, handle: usize) -> (item: &mut T)
        requires
            old(self).wf(),
            handle < old(self).items().len(),
        ensures
            *item == old(self).items()[handle as int],
            final(self).wf(),
            final(self).items() == old(self).items().update(handle as int, *final(item)),
            final(self).depths() == old(self).depths(),
            final(self).order() == old(self).order(),
    {
        &mut self.items[handle]
    }

    /// The depth at which the primitive with handle `handle` was inserted.
    pub fn z_index(&self, handle: usize) -> (z: i32)
        requires
            self.wf(),
            handle < self.items().len(),
        ensures
            z == self.depths()[handle as int],
    {
        self.depths[handle]
    }

    /// The handles in the order in which they are drawn.
    pub fn draw_order(&self) -> (order: &Vec<usize>)
        requires
            self.wf(),
        ensures
            order@ == self.order(),
            is_draw_order(self.depths(), order@),
    {
        &self.order
    }
}

} // verus!
