//! The state that one call into the runtime keeps across its host calls.

use crate::allocator::{counters, stats, AllocationStats};
use crate::store::{Store, StoreView};
use sc_allocator::FreeingBumpHeapAllocator;
use vstd::prelude::*;

verus! {

/// What many host calls of one execution share: the sandbox store, the
/// allocator of the guest's heap, and a message that the guest left for the
/// caller of the runtime.
///
/// The store is present except while an operation on a nested sandbox has
/// taken it out (see [`HostState::take_sandbox_store`]).
pub struct HostState<I, DT> {
    sandbox_store: Option<Store<I, DT>>,
    allocator: FreeingBumpHeapAllocator,
    panic_message: Option<String>,
}

impl<I, DT> HostState<I, DT> {
    /// The sandbox store, where it is present.
    pub closed spec fn store(&self) -> Option<Store<I, DT>> {
        self.sandbox_store
    }

    /// The allocator of the guest's heap.
    pub closed spec fn heap(&self) -> FreeingBumpHeapAllocator {
        self.allocator
    }

    /// The message that the guest registered last, if it was not taken yet.
    pub closed spec fn panic_message(&self) -> Option<String> {
        self.panic_message
    }

    /// What the store holds, while it is present.
    pub open spec fn sandboxes(&self) -> StoreView<I, DT>
        recommends
            self.store() is Some,
    {
        self.store()->0@
    }

    /// Whether the two states differ in nothing but their stores.
    pub open spec fn same_but_store(&self, other: &Self) -> bool {
        self.heap() == other.heap() && self.panic_message() == other.panic_message()
    }

    /// Two states with the same store, the same allocator and the same message
    /// are the same state. So taking the store out and putting it back leaves
    /// the state as it was.
    pub proof fn lemma_same_parts_same_state(&self, other: &Self)
        requires
            self.store() == other.store(),
            self.same_but_store(other),
        ensures
            *self == *other,
    {
    }

    /// The state at the start of an execution: an empty store, no message.
    pub fn new(allocator: FreeingBumpHeapAllocator) -> (state: Self)
        ensures
            state.store() matches Some(store) && store@.instances.len() == 0
                && store@.memories.len() == 0,
            state.heap() == allocator,
            state.panic_message() is None,
    {
        HostState { sandbox_store: Some(Store::new()), allocator, panic_message: None }
    }

    /// Takes the message out of the state, leaving none.
    pub fn take_panic_message(&mut self) -> (message: Option<String>)
        ensures
            message == old(self).panic_message(),
            final(self).panic_message() is None,
            final(self).store() == old(self).store(),
            final(self).heap() == old(self).heap(),
    {
        self.panic_message.take()
    }

    /// Keeps `message` for the caller of the runtime, in place of any earlier one.
    pub fn register_panic_message(&mut self, message: &str)
        ensures
            final(self).panic_message() matches Some(kept) && kept@ == message@,
            final(self).store() == old(self).store(),
            final(self).heap() == old(self).heap(),
    {
        self.panic_message = Some(message.to_owned());
    }

    /// The allocator's counters.
    pub fn allocation_stats(&self) -> (counted: AllocationStats)
        ensures
            counted == counters(self.heap()),
            counted.bytes_allocated <= counted.bytes_allocated_peak,
    {
        stats(&self.allocator)
    }

    /// The allocator of the guest's heap, to allocate with.
    pub fn allocator(&mut self) -> (allocator: &mut FreeingBumpHeapAllocator)
        ensures
            *allocator == old(self).heap(),
            final(self).heap() == *final(allocator),
            final(self).store() == old(self).store(),
            final(self).panic_message() == old(self).panic_message(),
    {
        &mut self.allocator
    }

    /// Whether the store is present.
    pub fn has_sandbox_store(&self) -> (present: bool)
        ensures
            present == self.store() is Some,
    {
        self.sandbox_store.is_some()
    }

    /// The store, to look something up in.
    pub fn sandbox_store(&self) -> (store: &Store<I, DT>)
        requires
            self.store() is Some,
        ensures
            self.store() == Some(*store),
    {
        match &self.sandbox_store {
            Some(store) => store,
            None => vstd::pervasive::unreached(),
        }
    }

    /// The store, to change it.
    pub fn sandbox_store_mut(&mut self) -> (store: &mut Store<I, DT>)
        requires
            old(self).store() is Some,
        ensures
            old(self).store() == Some(*store),
            final(self).store() == Some(*final(store)),
            final(self).same_but_store(old(self)),
    {
        match &mut self.sandbox_store {
            Some(store) => store,
            None => vstd::pervasive::unreached(),
        }
    }

    /// Takes the store out of the state for the time of one operation on a
    /// nested sandbox, so that nothing holds on to it while nested code runs.
    ///
    /// `None` where it is taken out already.
    pub fn take_sandbox_store(&mut self) -> (store: Option<Store<I, DT>>)
        ensures
            store == old(self).store(),
            final(self).store() is None,
            final(self).same_but_store(old(self)),
    {
        self.sandbox_store.take()
    }

    /// Puts `store` into the state.
    pub fn restore_sandbox_store(&mut self, store: Store<I, DT>)
        ensures
            final(self).store() == Some(store),
            final(self).same_but_store(old(self)),
    {
        self.sandbox_store = Some(store);
    }
}

} // verus!
