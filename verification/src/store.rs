//! The registry of nested sandboxes.
//!
//! A store hands out small integer handles for the nested memories and the
//! nested instances created through it. A handle is the entry's place in the
//! order of creation, so a handle is never given out twice: tearing an entry
//! down empties its place and leaves the place behind.

use crate::memory::{in_bounds, overwritten, read_memory, write_memory_from, OutOfBounds};
use crate::status::{is_error_code, ERR_EXECUTION, MAX_PAGES, MEM_UNLIMITED, PAGE_SIZE};
use vstd::prelude::*;

verus! {

/// Why the store refused a request.
#[derive(Clone, Copy, Debug, PartialEq, Eq, Structural)]
pub enum StoreError {
    /// The handle names no instance that this store ever created.
    NoSuchInstance,
    /// The handle names an instance that was torn down.
    InstanceTornDown,
    /// The handle names no memory that this store ever created.
    NoSuchMemory,
    /// The handle names a memory that was torn down.
    MemoryTornDown,
    /// A memory of the size asked for cannot be had.
    MemoryLimits,
    /// A range of bytes does not lie inside the memory that the handle names.
    OutOfBounds,
}

impl StoreError {
    /// Whether the error says that a handle was not valid.
    pub open spec fn is_invalid_handle(self) -> bool {
        self != StoreError::MemoryLimits && self != StoreError::OutOfBounds
    }
}

/// The linear memory of a nested guest, apart from the outer guest's own.
pub struct SandboxedMemory {
    bytes: Vec<u8>,
    maximum: Option<u32>,
}

/// A nested memory as a value: its bytes, and the most pages it may grow to.
pub struct MemoryView {
    /// The bytes, from address zero.
    pub bytes: Seq<u8>,
    /// The limit in pages, where there is one.
    pub maximum: Option<u32>,
}

impl View for SandboxedMemory {
    type V = MemoryView;

    closed spec fn view(&self) -> MemoryView {
        MemoryView { bytes: self.bytes@, maximum: self.maximum }
    }
}

impl SandboxedMemory {
    /// The number of bytes in the memory.
    pub fn size(&self) -> (n: usize)
        ensures
            n == self@.bytes.len(),
    {
        self.bytes.len()
    }

    /// The most pages that the memory may grow to, where it has a limit.
    pub fn maximum_pages(&self) -> (m: Option<u32>)
        ensures
            m == self@.maximum,
    {
        self.maximum
    }

    /// The `len` bytes at `offset`.
    pub fn read(&self, offset: u32, len: usize) -> (r: Result<Vec<u8>, OutOfBounds>)
        ensures
            r is Ok <==> in_bounds(offset as int, len as int, self@.bytes.len() as int),
            r matches Ok(bytes) ==> bytes@ == self@.bytes.subrange(offset as int, offset + len),
    {
        read_memory(self.bytes.as_slice(), offset, len)
    }

    /// Copies `data` to `offset`; writes nothing where it does not fit.
    pub fn write_from(&mut self, offset: u32, data: &[u8]) -> (r: Result<(), OutOfBounds>)
        ensures
            r is Ok <==> in_bounds(
                offset as int,
                data@.len() as int,
                old(self)@.bytes.len() as int,
            ),
            r is Ok ==> final(self)@ == old(self)@.overwritten(offset as int, data@),
            r is Err ==> final(self)@ == old(self)@,
    {
        write_memory_from(self.bytes.as_mut_slice(), offset, data)
    }
}

impl MemoryView {
    /// The memory with the bytes from `offset` on replaced by `data`.
    pub open spec fn overwritten(self, offset: int, data: Seq<u8>) -> Self {
        MemoryView { bytes: overwritten(self.bytes, offset, data), ..self }
    }

    /// A memory of `pages` pages of zeros with the limit that `maximum` stands for.
    pub open spec fn zeroed(pages: u32, maximum: u32) -> Self {
        MemoryView {
            bytes: Seq::new((pages * PAGE_SIZE) as nat, |i: int| 0u8),
            maximum: if maximum == MEM_UNLIMITED {
                None
            } else {
                Some(maximum)
            },
        }
    }
}

/// What a store holds, entry by entry in the order of creation.
///
/// A place holds `None` once its entry is torn down.
pub struct StoreView<I, DT> {
    /// The instances, each with the dispatch thunk that it was created with.
    pub instances: Seq<Option<(I, DT)>>,
    /// The memories.
    pub memories: Seq<Option<MemoryView>>,
}

impl<I, DT> StoreView<I, DT> {
    /// Whether `id` names a memory that exists.
    pub open spec fn has_memory(self, id: u32) -> bool {
        id < self.memories.len() && self.memories[id as int] is Some
    }

    /// Whether `id` names an instance that exists.
    pub open spec fn has_instance(self, id: u32) -> bool {
        id < self.instances.len() && self.instances[id as int] is Some
    }

    /// The memory `id`.
    pub open spec fn memory(self, id: u32) -> MemoryView
        recommends
            self.has_memory(id),
    {
        self.memories[id as int]->0
    }

    /// The instance `id`.
    pub open spec fn instance(self, id: u32) -> I
        recommends
            self.has_instance(id),
    {
        let (instance, _) = self.instances[id as int]->0;
        instance
    }

    /// The dispatch thunk that the instance `id` was registered with.
    pub open spec fn dispatch_thunk(self, id: u32) -> DT
        recommends
            self.has_instance(id),
    {
        let (_, dispatch_thunk) = self.instances[id as int]->0;
        dispatch_thunk
    }

    /// The error that a look-up of the memory `id` ends in, if it does.
    pub open spec fn memory_fault(self, id: u32) -> Option<StoreError> {
        if id >= self.memories.len() {
            Some(StoreError::NoSuchMemory)
        } else if self.memories[id as int] is None {
            Some(StoreError::MemoryTornDown)
        } else {
            None
        }
    }

    /// The error that a look-up of the instance `id` ends in, if it does.
    pub open spec fn instance_fault(self, id: u32) -> Option<StoreError> {
        if id >= self.instances.len() {
            Some(StoreError::NoSuchInstance)
        } else if self.instances[id as int] is None {
            Some(StoreError::InstanceTornDown)
        } else {
            None
        }
    }

    /// The store with one more memory.
    pub open spec fn with_memory(self, memory: MemoryView) -> Self {
        StoreView { memories: self.memories.push(Some(memory)), ..self }
    }

    /// The store with `memory` in the place of the memory `id`.
    pub open spec fn with_memory_at(self, id: u32, memory: MemoryView) -> Self {
        StoreView { memories: self.memories.update(id as int, Some(memory)), ..self }
    }

    /// The store with the memory `id` torn down.
    pub open spec fn without_memory(self, id: u32) -> Self {
        StoreView { memories: self.memories.update(id as int, None), ..self }
    }

    /// The store with one more instance.
    pub open spec fn with_instance(self, instance: I, dispatch_thunk: DT) -> Self {
        StoreView { instances: self.instances.push(Some((instance, dispatch_thunk))), ..self }
    }

    /// The store with the instance `id` torn down.
    pub open spec fn without_instance(self, id: u32) -> Self {
        StoreView { instances: self.instances.update(id as int, None), ..self }
    }
}

/// A handle is refused exactly when it names nothing that exists, and what it
/// is refused with says that the handle is not valid.
pub proof fn lemma_invalid_handles_are_refused<I, DT>(store: StoreView<I, DT>, id: u32)
    ensures
        store.memory_fault(id) is Some <==> !store.has_memory(id),
        store.instance_fault(id) is Some <==> !store.has_instance(id),
        store.memory_fault(id) matches Some(fault) ==> fault.is_invalid_handle(),
        store.instance_fault(id) matches Some(fault) ==> fault.is_invalid_handle(),
{
}

/// The handle of a new memory was never given out before, and creating it
/// changes nothing that an earlier handle names.
pub proof fn lemma_memory_handle_is_fresh<I, DT>(
    store: StoreView<I, DT>,
    memory: MemoryView,
    earlier: u32,
)
    requires
        earlier < store.memories.len(),
    ensures
        store.with_memory(memory).memories.len() == store.memories.len() + 1,
        store.with_memory(memory).memories[store.memories.len() as int] == Some(memory),
        earlier != store.memories.len(),
        store.with_memory(memory).memories[earlier as int] == store.memories[earlier as int],
        store.with_memory(memory).instances == store.instances,
{
}

/// The handle of a new instance was never given out before, and registering it
/// changes nothing that an earlier handle names.
pub proof fn lemma_instance_handle_is_fresh<I, DT>(
    store: StoreView<I, DT>,
    instance: I,
    dispatch_thunk: DT,
    earlier: u32,
)
    requires
        earlier < store.instances.len(),
    ensures
        store.with_instance(instance, dispatch_thunk).instances.len() == store.instances.len()
            + 1,
        store.with_instance(instance, dispatch_thunk).instances[store.instances.len() as int]
            == Some((instance, dispatch_thunk)),
        earlier != store.instances.len(),
        store.with_instance(instance, dispatch_thunk).instances[earlier as int]
            == store.instances[earlier as int],
        store.with_instance(instance, dispatch_thunk).memories == store.memories,
{
}

/// Tearing a memory down makes its handle invalid and changes nothing else:
/// the places stay as many as they were, and every other handle names what it
/// named.
pub proof fn lemma_memory_teardown_ends_one_handle<I, DT>(
    store: StoreView<I, DT>,
    id: u32,
    other: u32,
)
    requires
        store.has_memory(id),
        other != id,
    ensures
        !store.without_memory(id).has_memory(id),
        store.without_memory(id).memory_fault(id) == Some(StoreError::MemoryTornDown),
        store.without_memory(id).memories.len() == store.memories.len(),
        store.without_memory(id).has_memory(other) == store.has_memory(other),
        store.has_memory(other) ==> store.without_memory(id).memory(other) == store.memory(other),
        store.without_memory(id).instances == store.instances,
{
}

/// A handle of a memory that was torn down is never valid again: whatever the
/// store does next, the handle still names a memory that was torn down.
pub proof fn lemma_torn_down_memory_stays_torn_down<I, DT>(
    store: StoreView<I, DT>,
    id: u32,
    memory: MemoryView,
    instance: I,
    dispatch_thunk: DT,
    other_memory: u32,
    other_instance: u32,
)
    requires
        store.memory_fault(id) == Some(StoreError::MemoryTornDown),
    ensures
        store.with_memory(memory).memory_fault(id) == Some(StoreError::MemoryTornDown),
        store.with_instance(instance, dispatch_thunk).memory_fault(id) == Some(
            StoreError::MemoryTornDown,
        ),
        store.has_memory(other_memory) ==> store.with_memory_at(
            other_memory,
            memory,
        ).memory_fault(id) == Some(StoreError::MemoryTornDown),
        store.has_memory(other_memory) ==> store.without_memory(other_memory).memory_fault(id)
            == Some(StoreError::MemoryTornDown),
        store.has_instance(other_instance) ==> store.without_instance(
            other_instance,
        ).memory_fault(id) == Some(StoreError::MemoryTornDown),
{
}

/// Tearing an instance down makes its handle invalid and changes nothing else:
/// the places stay as many as they were, and every other handle names what it
/// named.
pub proof fn lemma_instance_teardown_ends_one_handle<I, DT>(
    store: StoreView<I, DT>,
    id: u32,
    other: u32,
)
    requires
        store.has_instance(id),
        other != id,
    ensures
        !store.without_instance(id).has_instance(id),
        store.without_instance(id).instance_fault(id) == Some(StoreError::InstanceTornDown),
        store.without_instance(id).instances.len() == store.instances.len(),
        store.without_instance(id).has_instance(other) == store.has_instance(other),
        store.has_instance(other) ==> store.without_instance(id).instance(other)
            == store.instance(other) && store.without_instance(id).dispatch_thunk(other)
            == store.dispatch_thunk(other),
        store.without_instance(id).memories == store.memories,
{
}

/// A handle of an instance that was torn down is never valid again: whatever
/// the store does next, the handle still names an instance that was torn down.
pub proof fn lemma_torn_down_instance_stays_torn_down<I, DT>(
    store: StoreView<I, DT>,
    id: u32,
    memory: MemoryView,
    instance: I,
    dispatch_thunk: DT,
    other_memory: u32,
    other_instance: u32,
)
    requires
        store.instance_fault(id) == Some(StoreError::InstanceTornDown),
    ensures
        store.with_instance(instance, dispatch_thunk).instance_fault(id) == Some(
            StoreError::InstanceTornDown,
        ),
        store.with_memory(memory).instance_fault(id) == Some(StoreError::InstanceTornDown),
        store.has_instance(other_instance) ==> store.without_instance(
            other_instance,
        ).instance_fault(id) == Some(StoreError::InstanceTornDown),
        store.has_memory(other_memory) ==> store.with_memory_at(
            other_memory,
            memory,
        ).instance_fault(id) == Some(StoreError::InstanceTornDown),
        store.has_memory(other_memory) ==> store.without_memory(other_memory).instance_fault(id)
            == Some(StoreError::InstanceTornDown),
{
}

/// Bytes written to a nested memory are the bytes read back from the same
/// place.
pub proof fn lemma_written_bytes_are_read_back(memory: MemoryView, offset: u32, data: Seq<u8>)
    requires
        in_bounds(offset as int, data.len() as int, memory.bytes.len() as int),
    ensures
        memory.overwritten(offset as int, data).bytes.len() == memory.bytes.len(),
        memory.overwritten(offset as int, data).bytes.subrange(
            offset as int,
            offset + data.len(),
        ) == data,
        memory.overwritten(offset as int, data).maximum == memory.maximum,
{
    assert(memory.overwritten(offset as int, data).bytes.subrange(
        offset as int,
        offset + data.len(),
    ) =~= data);
}

/// Whether a memory of `initial` pages and at most `maximum` pages may be asked
/// for: neither is over [`MAX_PAGES`], and the first is not over the second.
/// [`MEM_UNLIMITED`] as `maximum` stands for no limit.
pub open spec fn limits_valid(initial: u32, maximum: u32) -> bool {
    &&& initial <= MAX_PAGES
    &&& maximum != MEM_UNLIMITED ==> initial <= maximum <= MAX_PAGES
}

/// The number of handles for instances. A handle and a failure code come back
/// to the guest in the same word, so the handles end where the codes begin.
pub const MAX_INSTANCES: u32 = ERR_EXECUTION;

/// No handle of an instance can be taken for a failure code.
pub proof fn lemma_instance_handle_is_no_error_code(id: u32)
    requires
        id < MAX_INSTANCES,
    ensures
        !is_error_code(id),
{
}

/// The registry of the nested memories and instances of one execution.
///
/// `I` is the engine's handle to an instantiated module and `DT` its handle to
/// the function through which that instance calls its supervisor. The store
/// only keeps them.
pub struct Store<I, DT> {
    instances: Vec<Option<(I, DT)>>,
    memories: Vec<Option<SandboxedMemory>>,
}

impl<I, DT> View for Store<I, DT> {
    type V = StoreView<I, DT>;

    closed spec fn view(&self) -> StoreView<I, DT> {
        StoreView {
            instances: self.instances@,
            memories: Seq::new(
                self.memories@.len(),
                |i: int|
                    match self.memories@[i] {
                        Some(memory) => Some(memory@),
                        None => None,
                    },
            ),
        }
    }
}

impl<I, DT> Store<I, DT> {
    /// A store that has created nothing yet.
    pub fn new() -> (store: Self)
        ensures
            store@.instances.len() == 0,
            store@.memories.len() == 0,
    {
        Store { instances: Vec::new(), memories: Vec::new() }
    }

    /// Creates a memory of `initial` pages, all zero, that may grow to `maximum`
    /// pages, and returns its handle.
    ///
    /// The handle is the number of memories created before. Fails, changing
    /// nothing, where the limits are not valid, where so many bytes cannot be
    /// addressed, and where the handles have run out.
    pub fn new_memory(&mut self, initial: u32, maximum: u32) -> (r: Result<u32, StoreError>)
        ensures
            r is Ok <==> limits_valid(initial, maximum) && initial * PAGE_SIZE <= usize::MAX
                && old(self)@.memories.len() < u32::MAX,
            r matches Ok(id) ==> {
                &&& id == old(self)@.memories.len()
                &&& final(self)@ == old(self)@.with_memory(MemoryView::zeroed(initial, maximum))
            },
            r matches Err(e) ==> e == StoreError::MemoryLimits && final(self)@ == old(self)@,
    {
        let limit = if maximum == MEM_UNLIMITED {
            None
        } else {
            Some(maximum)
        };
        if initial > MAX_PAGES {
            return Err(StoreError::MemoryLimits);
        }
        if let Some(most) = limit {
            if initial > most || most > MAX_PAGES {
                return Err(StoreError::MemoryLimits);
            }
        }
        assert(initial * PAGE_SIZE <= MAX_PAGES * PAGE_SIZE) by (nonlinear_arith)
            requires
                initial <= MAX_PAGES,
        ;
        let wanted: u64 = initial as u64 * PAGE_SIZE as u64;
        if wanted > usize::MAX as u64 || self.memories.len() >= u32::MAX as usize {
            return Err(StoreError::MemoryLimits);
        }
        let id = self.memories.len() as u32;
        let bytes = vec![0u8; wanted as usize];
        self.memories.push(Some(SandboxedMemory { bytes, maximum: limit }));
        assert(self@.memories =~= old(self)@.with_memory(
            MemoryView::zeroed(initial, maximum),
        ).memories) by {
            assert(bytes@ =~= MemoryView::zeroed(initial, maximum).bytes);
        }
        Ok(id)
    }

    /// The memory `id`.
    pub fn memory(&self, id: u32) -> (r: Result<&SandboxedMemory, StoreError>)
        ensures
            r is Err <==> self@.memory_fault(id) is Some,
            r matches Err(e) ==> self@.memory_fault(id) == Some(e),
            r matches Ok(memory) ==> memory@ == self@.memory(id),
    {
        let at = id as usize;
        if at >= self.memories.len() {
            return Err(StoreError::NoSuchMemory);
        }
        match &self.memories[at] {
            Some(memory) => Ok(memory),
            None => Err(StoreError::MemoryTornDown),
        }
    }

    /// Copies `data` into the memory `id` at `offset`.
    ///
    /// Fails, changing nothing, where the handle is not valid and where the
    /// range does not lie inside the memory; the handle is looked at first.
    pub fn write_memory(&mut self, id: u32, offset: u32, data: &[u8]) -> (r: Result<
        (),
        StoreError,
    >)
        ensures
            r is Ok <==> old(self)@.has_memory(id) && in_bounds(
                offset as int,
                data@.len() as int,
                old(self)@.memory(id).bytes.len() as int,
            ),
            r is Ok ==> final(self)@ == old(self)@.with_memory_at(
                id,
                old(self)@.memory(id).overwritten(offset as int, data@),
            ),
            r matches Err(e) ==> {
                &&& final(self)@ == old(self)@
                &&& e == match old(self)@.memory_fault(id) {
                    Some(fault) => fault,
                    None => StoreError::OutOfBounds,
                }
            },
    {
        let at = id as usize;
        if at >= self.memories.len() {
            return Err(StoreError::NoSuchMemory);
        }
        if self.memories[at].is_none() {
            return Err(StoreError::MemoryTornDown);
        }
        let written = match &mut self.memories[at] {
            Some(memory) => memory.write_from(offset, data),
            None => Ok(()),
        };
        match written {
            Ok(()) => {
                assert(self@.memories =~= old(self)@.with_memory_at(
                    id,
                    old(self)@.memory(id).overwritten(offset as int, data@),
                ).memories);
                Ok(())
            },
            Err(_) => {
                assert(self@.memories =~= old(self)@.memories);
                Err(StoreError::OutOfBounds)
            },
        }
    }

    /// Tears down the memory `id`: its handle is not valid any more.
    pub fn memory_teardown(&mut self, id: u32) -> (r: Result<(), StoreError>)
        ensures
            r is Err <==> old(self)@.memory_fault(id) is Some,
            r matches Err(e) ==> {
                &&& old(self)@.memory_fault(id) == Some(e)
                &&& final(self)@ == old(self)@
            },
            r is Ok ==> final(self)@ == old(self)@.without_memory(id),
    {
        let at = id as usize;
        if at >= self.memories.len() {
            return Err(StoreError::NoSuchMemory);
        }
        if self.memories[at].is_none() {
            return Err(StoreError::MemoryTornDown);
        }
        self.memories[at] = None;
        assert(self@.memories =~= old(self)@.without_memory(id).memories);
        Ok(())
    }

    /// Registers `instance` with the dispatch thunk that its supervisor calls go
    /// through, and returns its handle.
    ///
    /// The handle is the number of instances registered before. Once
    /// [`MAX_INSTANCES`] are registered nothing more is: the result is `None`
    /// and the store is as it was.
    pub fn register_instance(&mut self, instance: I, dispatch_thunk: DT) -> (r: Option<u32>)
        ensures
            r is Some <==> old(self)@.instances.len() < MAX_INSTANCES,
            r matches Some(id) ==> {
                &&& id == old(self)@.instances.len()
                &&& final(self)@ == old(self)@.with_instance(instance, dispatch_thunk)
            },
            r is None ==> final(self)@ == old(self)@,
    {
        if self.instances.len() >= MAX_INSTANCES as usize {
            return None;
        }
        let id = self.instances.len() as u32;
        self.instances.push(Some((instance, dispatch_thunk)));
        assert(self@.memories =~= old(self)@.memories);
        Some(id)
    }

    /// The instance `id`.
    pub fn instance(&self, id: u32) -> (r: Result<&I, StoreError>)
        ensures
            r is Err <==> self@.instance_fault(id) is Some,
            r matches Err(e) ==> self@.instance_fault(id) == Some(e),
            r matches Ok(instance) ==> *instance == self@.instance(id),
    {
        let at = id as usize;
        if at >= self.instances.len() {
            return Err(StoreError::NoSuchInstance);
        }
        match &self.instances[at] {
            Some(entry) => Ok(&entry.0),
            None => Err(StoreError::InstanceTornDown),
        }
    }

    /// The dispatch thunk that the instance `id` was registered with.
    pub fn dispatch_thunk(&self, id: u32) -> (r: Result<&DT, StoreError>)
        ensures
            r is Err <==> self@.instance_fault(id) is Some,
            r matches Err(e) ==> self@.instance_fault(id) == Some(e),
            r matches Ok(thunk) ==> *thunk == self@.dispatch_thunk(id),
    {
        let at = id as usize;
        if at >= self.instances.len() {
            return Err(StoreError::NoSuchInstance);
        }
        match &self.instances[at] {
            Some(entry) => Ok(&entry.1),
            None => Err(StoreError::InstanceTornDown),
        }
    }

    /// Tears down the instance `id`: its handle is not valid any more.
    pub fn instance_teardown(&mut self, id: u32) -> (r: Result<(), StoreError>)
        ensures
            r is Err <==> old(self)@.instance_fault(id) is Some,
            r matches Err(e) ==> {
                &&& old(self)@.instance_fault(id) == Some(e)
                &&& final(self)@ == old(self)@
            },
            r is Ok ==> final(self)@ == old(self)@.without_instance(id),
    {
        let at = id as usize;
        if at >= self.instances.len() {
            return Err(StoreError::NoSuchInstance);
        }
        if self.instances[at].is_none() {
            return Err(StoreError::InstanceTornDown);
        }
        self.instances[at] = None;
        assert(self@.memories =~= old(self)@.memories);
        Ok(())
    }
}

} // verus!
