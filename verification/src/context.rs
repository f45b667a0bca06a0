//! What one host call may do.
//!
//! Two kinds of outcome leave a host call. A condition that the guest may test
//! for (a range out of bounds, a nested module that does not instantiate, nested
//! code that traps) is a status code in an `Ok`. Anything else is a
//! [`HostError`].
//!
//! Creating a nested instance and invoking one run nested code, and nested code
//! may call back into the host. Such an operation is therefore in two halves,
//! with the engine's work between them: the first half decides what to run, the
//! second takes what came of it. A context holds the guest's memory as it is at
//! one moment, so each half works on a context of its own.

use crate::allocator::{
    allocate, allocation, chunk_fits, counters, deallocate, deallocation, keeps_serving,
    keeps_serving_memory, same_but_header, serves, HEADER_SIZE, MAX_POSSIBLE_ALLOCATION,
};
use crate::error::HostError;
use crate::memory::{in_bounds, overwritten, read_memory, read_memory_into, write_memory_from};
use crate::state::HostState;
use crate::status::{ERR_EXECUTION, ERR_MODULE, ERR_OK, ERR_OUT_OF_BOUNDS, PAGE_SIZE};
use crate::store::{limits_valid, MemoryView, Store, StoreError, StoreView, MAX_INSTANCES};
use crate::value::{
    decode_call_args, decoded_call_args, encode_call_args, encode_return_value,
    return_value_encoding, Value,
};
use vstd::prelude::*;
use vstd::slice::slice_to_vec;

verus! {

/// What the guest's function table holds at the index of a dispatch thunk.
pub enum TableLookup<DT> {
    /// The guest has no table.
    NoTable,
    /// The index is past the end of the table.
    OutOfBounds,
    /// The slot holds something else than a function.
    NotFunction,
    /// The slot holds this function.
    Function(DT),
}

/// What the engine made of a nested module.
pub enum Instantiation<I> {
    /// The module is instantiated and its start function has run.
    Instantiated(I),
    /// The module is instantiated, but its start function trapped.
    StartTrapped,
    /// The module could not be decoded, validated or linked.
    Failed,
}

/// What the first half of creating an instance decided.
pub enum InstanceNewStep<I, DT, G> {
    /// Nothing is to be instantiated: the guest gets this status code.
    Refused(u32),
    /// The engine is to instantiate the module in `guest_env`. The store is
    /// taken out of the state meanwhile and goes back in the second half.
    Instantiate {
        /// The store, taken out of the state.
        store: Store<I, DT>,
        /// The function that the instance's supervisor calls go through.
        dispatch_thunk: DT,
        /// The decoded environment of the nested module.
        guest_env: G,
    },
}

/// What to invoke, as the first half of an invocation found it.
pub struct Invocation<'s, I, DT> {
    /// The instance to invoke the export of.
    pub instance: &'s I,
    /// The function that the instance's supervisor calls go through.
    pub dispatch_thunk: &'s DT,
    /// The decoded arguments.
    pub args: Vec<Value>,
}

/// What came of running an exported function.
#[derive(Clone, Copy, Debug, PartialEq, Eq, Structural)]
pub enum Execution {
    /// The function returned, with a value or without.
    Returned(Option<Value>),
    /// The function trapped, or could not be called.
    Failed,
}

/// Whether a copy of `len` bytes from `from` in a memory of `from_size` bytes to
/// `to` in a memory of `to_size` bytes stays inside both memories.
pub open spec fn copy_fits(from: u32, from_size: nat, to: u32, to_size: nat, len: u32) -> bool {
    in_bounds(from as int, len as int, from_size as int) && in_bounds(
        to as int,
        len as int,
        to_size as int,
    )
}

/// The status code of a copy: [`ERR_OK`] where it stays inside both memories,
/// and else [`ERR_OUT_OF_BOUNDS`].
pub open spec fn copy_code(fits: bool) -> u32 {
    if fits {
        ERR_OK
    } else {
        ERR_OUT_OF_BOUNDS
    }
}

/// What writing the encoded result `encoded` to `return_val` makes of the
/// memory `bytes`, where the guest offers `return_val_len` bytes for it: an
/// error where the buffer is too short or not inside the memory, and else the
/// memory with the result in it.
pub open spec fn return_value_written(
    bytes: Seq<u8>,
    encoded: Seq<u8>,
    return_val: u32,
    return_val_len: u32,
) -> Result<Seq<u8>, HostError> {
    if encoded.len() > return_val_len {
        Err(HostError::ReturnBufferTooSmall)
    } else if !in_bounds(return_val as int, encoded.len() as int, bytes.len() as int) {
        Err(HostError::ReturnValueWrite)
    } else {
        Ok(overwritten(bytes, return_val as int, encoded))
    }
}

/// Bytes that went from the guest's memory into a nested memory come back from
/// there as they went: after a `memory_set` of `len` bytes from `val_ptr` to
/// `offset` and a `memory_get` of as many from `offset` to `buf_ptr`, both
/// within bounds, the guest finds at `buf_ptr` what it had at `val_ptr`.
pub proof fn lemma_set_then_get_returns_the_bytes(
    outer: Seq<u8>,
    nested: MemoryView,
    offset: u32,
    val_ptr: u32,
    buf_ptr: u32,
    len: u32,
)
    requires
        copy_fits(val_ptr, outer.len(), offset, nested.bytes.len(), len),
        copy_fits(offset, nested.bytes.len(), buf_ptr, outer.len(), len),
    ensures
        ({
            let sent = outer.subrange(val_ptr as int, val_ptr + len);
            let kept = nested.overwritten(offset as int, sent);
            let got = overwritten(
                outer,
                buf_ptr as int,
                kept.bytes.subrange(offset as int, offset + len),
            );
            got.subrange(buf_ptr as int, buf_ptr + len) == sent
        }),
{
    let sent = outer.subrange(val_ptr as int, val_ptr + len);
    let kept = nested.overwritten(offset as int, sent);
    let back = kept.bytes.subrange(offset as int, offset + len);
    assert(back =~= sent);
    assert(overwritten(outer, buf_ptr as int, back).subrange(buf_ptr as int, buf_ptr + len)
        =~= back);
}

/// A result is written whole or not at all, and never past the buffer that the
/// guest offered: where writing succeeds the memory changes within the first
/// `return_val_len` bytes from `return_val` only.
pub proof fn lemma_return_value_stays_in_its_buffer(
    bytes: Seq<u8>,
    encoded: Seq<u8>,
    return_val: u32,
    return_val_len: u32,
    at: int,
)
    requires
        return_value_written(bytes, encoded, return_val, return_val_len) is Ok,
        0 <= at < bytes.len(),
        !(return_val <= at < return_val + return_val_len),
    ensures
        return_value_written(bytes, encoded, return_val, return_val_len)->Ok_0.len()
            == bytes.len(),
        return_value_written(bytes, encoded, return_val, return_val_len)->Ok_0[at] == bytes[at],
{
}

/// The arguments of an invocation, decoded from their wire form. This comes
/// first in an invocation, before the instance is looked up.
///
/// Bytes that do not decode are an error.
pub fn decode_arguments(args: &[u8]) -> (r: Result<Vec<Value>, HostError>)
    ensures
        match decoded_call_args(args@) {
            Some(values) => r matches Ok(decoded) && decoded@ == values,
            None => r matches Err(e) && e == HostError::UndecodableArguments,
        },
{
    match decode_call_args(args) {
        Some(args) => Ok(args),
        None => Err(HostError::UndecodableArguments),
    }
}

/// The wire form of the arguments `args` of an invocation, as the caller of a
/// nested instance sends them.
///
/// Decoding undoes it: [`decode_arguments`] gives back `args`, each value as it
/// was and in its place.
pub fn encode_arguments(args: &[Value]) -> (bytes: Vec<u8>)
    requires
        args@.len() <= u32::MAX,
    ensures
        decoded_call_args(bytes@) == Some(args@),
{
    encode_call_args(args)
}

/// What a request to the guest's heap comes to, from what the allocator said of
/// it: its answer as it is, or its refusal as an error in its own words.
pub fn allocation_outcome<T>(said: Result<T, String>) -> (r: Result<T, HostError>)
    ensures
        match said {
            Ok(answer) => r matches Ok(handed_on) && handed_on == answer,
            Err(text) => r matches Err(e) && e == HostError::Allocator(text),
        },
{
    match said {
        Ok(answer) => Ok(answer),
        Err(text) => Err(HostError::Allocator(text)),
    }
}

/// The capabilities of a single host call: the guest's linear memory as it is
/// during the call, and the state of the execution that the call belongs to.
///
/// A context lives for one call. Both parts are borrowed, so every method that
/// takes the context by `&mut` ends its contract with the same two clauses:
/// what the two borrows will have left behind is what they would have left
/// behind before the call. With them a caller knows, once the context is gone,
/// what the calls did to its memory and its state.
pub struct HostContext<'a, I, DT> {
    /// The guest's linear memory.
    pub memory: &'a mut [u8],
    /// The state of the execution.
    pub host_state: &'a mut HostState<I, DT>,
}

impl<'a, I, DT> HostContext<'a, I, DT> {
    /// The bytes of the guest's memory as they are now.
    pub open spec fn bytes(&self) -> Seq<u8> {
        self.memory@
    }

    /// The state of the execution as it is now.
    pub open spec fn state(&self) -> HostState<I, DT> {
        *self.host_state
    }

    /// Whether the sandbox store is in its place.
    pub open spec fn has_store(&self) -> bool {
        self.state().store() is Some
    }

    /// What the sandbox store holds now.
    pub open spec fn sandboxes(&self) -> StoreView<I, DT>
        recommends
            self.has_store(),
    {
        self.state().sandboxes()
    }

    /// Whether `self` differs from `before` in nothing but what the sandbox
    /// store holds, the store being in its place.
    pub open spec fn differs_in_store_only(&self, before: &Self) -> bool {
        &&& self.bytes() == before.bytes()
        &&& self.has_store()
        &&& self.state().same_but_store(&before.state())
    }

    /// Whether `self` differs from `before` in nothing but the guest's memory
    /// and the allocator.
    pub open spec fn differs_in_heap_only(&self, before: &Self) -> bool {
        &&& self.state().store() == before.state().store()
        &&& self.state().panic_message() == before.state().panic_message()
    }

    /// A context for one host call on `memory` and `host_state`.
    pub fn new(memory: &'a mut [u8], host_state: &'a mut HostState<I, DT>) -> (context: Self)
        ensures
            context.bytes() == old(memory)@,
            context.state() == *old(host_state),
            final(context.memory)@ == final(memory)@,
            *final(context.host_state) == *final(host_state),
    {
        HostContext { memory, host_state }
    }

    /// The sandbox store, to look something up in.
    pub fn sandbox_store(&self) -> (store: &Store<I, DT>)
        requires
            self.has_store(),
        ensures
            self.state().store() == Some(*store),
    {
        self.host_state.sandbox_store()
    }

    /// The sandbox store, to change it.
    pub fn sandbox_store_mut(&mut self) -> (store: &mut Store<I, DT>)
        requires
            old(self).has_store(),
        ensures
            old(self).state().store() == Some(*store),
            final(self).state().store() == Some(*final(store)),
            final(self).differs_in_store_only(old(self)),
            final(final(self).memory)@ == final(old(self).memory)@,
            *final(final(self).host_state) == *final(old(self).host_state),
    {
        self.host_state.sandbox_store_mut()
    }

    /// Fills `dest` with the bytes of the guest's memory at `address`.
    ///
    /// Fails, leaving `dest` as it was, where the range does not lie inside the
    /// memory.
    pub fn read_memory_into(&self, address: u32, dest: &mut [u8]) -> (r: Result<(), HostError>)
        ensures
            r is Ok <==> in_bounds(
                address as int,
                old(dest)@.len() as int,
                self.bytes().len() as int,
            ),
            r is Ok ==> final(dest)@ == self.bytes().subrange(
                address as int,
                address + old(dest)@.len(),
            ),
            r matches Err(e) ==> e == HostError::OutOfBounds && final(dest)@ == old(dest)@,
    {
        match read_memory_into(self.memory, address, dest) {
            Ok(()) => Ok(()),
            Err(_) => Err(HostError::OutOfBounds),
        }
    }

    /// Copies `data` into the guest's memory at `address`.
    ///
    /// Fails, writing nothing, where the range does not lie inside the memory.
    pub fn write_memory(&mut self, address: u32, data: &[u8]) -> (r: Result<(), HostError>)
        ensures
            r is Ok <==> in_bounds(
                address as int,
                data@.len() as int,
                old(self).bytes().len() as int,
            ),
            r is Ok ==> final(self).bytes() == overwritten(
                old(self).bytes(),
                address as int,
                data@,
            ),
            r matches Err(e) ==> {
                &&& e == HostError::OutOfBounds
                &&& final(self).bytes() == old(self).bytes()
            },
            final(self).state() == old(self).state(),
            final(final(self).memory)@ == final(old(self).memory)@,
            *final(final(self).host_state) == *final(old(self).host_state),
    {
        match write_memory_from(self.memory, address, data) {
            Ok(()) => Ok(()),
            Err(_) => Err(HostError::OutOfBounds),
        }
    }

    /// Allocates `size` bytes on the guest's heap and returns their address.
    ///
    /// The allocator decides, and its refusal is handed on in its own words. A
    /// chunk that it hands out lies inside the memory; it writes nothing but the
    /// header in front of the chunk, and nothing at all where it refuses. The
    /// memory must be shorter than 4 GiB, and the allocator must be in a state
    /// to serve it (see [`serves`]).
    pub fn allocate_memory(&mut self, size: u32) -> (r: Result<u32, HostError>)
        requires
            old(self).bytes().len() <= u32::MAX,
            serves(old(self).state().heap(), old(self).bytes().len()),
        ensures
            match allocation(old(self).state().heap(), old(self).bytes(), size) {
                Ok(ptr) => r matches Ok(answer) && answer == ptr,
                Err(refusal) => r matches Err(HostError::Allocator(text)) && text@ == refusal,
            },
            size > MAX_POSSIBLE_ALLOCATION ==> r is Err,
            r is Err ==> final(self).bytes() == old(self).bytes(),
            r is Err ==> forall|len: nat| serves(final(self).state().heap(), len),
            r matches Ok(ptr) ==> {
                &&& HEADER_SIZE <= ptr
                &&& ptr + size <= old(self).bytes().len()
                &&& same_but_header(old(self).bytes(), final(self).bytes(), ptr)
                &&& keeps_serving(
                    old(self).bytes(),
                    ptr,
                    size,
                    counters(final(self).state().heap()),
                ) ==> serves(final(self).state().heap(), old(self).bytes().len())
            },
            final(self).differs_in_heap_only(old(self)),
            final(final(self).memory)@ == final(old(self).memory)@,
            *final(final(self).host_state) == *final(old(self).host_state),
    {
        allocation_outcome(allocate(self.host_state.allocator(), self.memory, size))
    }

    /// Allocates as [`HostContext::allocate_memory`] does, and says whether the
    /// allocator can be asked again.
    ///
    /// After a refusal it can. After it has handed out a chunk it can where
    /// [`keeps_serving`] holds of the memory as it was; for that the memory is
    /// copied before the call, since the header that decides lies where the chunk
    /// will be, and the call overwrites it.
    pub fn allocate_memory_checked(&mut self, size: u32) -> (r: (Result<u32, HostError>, bool))
        requires
            old(self).bytes().len() <= u32::MAX,
            serves(old(self).state().heap(), old(self).bytes().len()),
        ensures
            match allocation(old(self).state().heap(), old(self).bytes(), size) {
                Ok(ptr) => {
                    &&& r.0 matches Ok(answer) && answer == ptr
                    &&& HEADER_SIZE <= ptr
                    &&& ptr + size <= old(self).bytes().len()
                    &&& same_but_header(old(self).bytes(), final(self).bytes(), ptr)
                    &&& r.1 == keeps_serving(
                        old(self).bytes(),
                        ptr,
                        size,
                        counters(final(self).state().heap()),
                    )
                },
                Err(refusal) => {
                    &&& r.0 matches Err(HostError::Allocator(text)) && text@ == refusal
                    &&& final(self).bytes() == old(self).bytes()
                    &&& r.1
                },
            },
            r.1 ==> serves(final(self).state().heap(), old(self).bytes().len()),
            final(self).differs_in_heap_only(old(self)),
            final(final(self).memory)@ == final(old(self).memory)@,
            *final(final(self).host_state) == *final(old(self).host_state),
    {
        let before = slice_to_vec(self.memory);
        let answer = self.allocate_memory(size);
        let asked_again = match &answer {
            Ok(ptr) => {
                let counted = self.host_state.allocation_stats();
                keeps_serving_memory(before.as_slice(), *ptr, size, counted)
            },
            Err(_) => true,
        };
        (answer, asked_again)
    }

    /// Gives the chunk at `ptr` back to the guest's heap.
    ///
    /// The allocator decides, and its refusal is handed on in its own words.
    /// Whatever it decides, it writes nothing but the header in front of `ptr`.
    /// An allocator that serves the memory still does afterwards if the chunk,
    /// of the size that its header names, lies inside the memory (see
    /// [`chunk_fits`]). The memory must be shorter than 4 GiB.
    pub fn deallocate_memory(&mut self, ptr: u32) -> (r: Result<(), HostError>)
        requires
            old(self).bytes().len() <= u32::MAX,
        ensures
            match deallocation(old(self).state().heap(), old(self).bytes(), ptr) {
                Ok(_) => r is Ok,
                Err(refusal) => r matches Err(HostError::Allocator(text)) && text@ == refusal,
            },
            ptr < HEADER_SIZE ==> r is Err && final(self).bytes() == old(self).bytes(),
            same_but_header(old(self).bytes(), final(self).bytes(), ptr),
            r is Err ==> forall|len: nat| serves(final(self).state().heap(), len),
            r is Ok && chunk_fits(old(self).bytes(), ptr) && serves(
                old(self).state().heap(),
                old(self).bytes().len(),
            ) ==> serves(final(self).state().heap(), old(self).bytes().len()),
            final(self).differs_in_heap_only(old(self)),
            final(final(self).memory)@ == final(old(self).memory)@,
            *final(final(self).host_state) == *final(old(self).host_state),
    {
        allocation_outcome(deallocate(self.host_state.allocator(), self.memory, ptr))
    }

    /// Keeps `message` for the caller of the runtime instead of raising it here,
    /// in the middle of the engine's own frames.
    pub fn register_panic_error_message(&mut self, message: &str)
        ensures
            final(self).state().panic_message() matches Some(kept) && kept@ == message@,
            final(self).state().store() == old(self).state().store(),
            final(self).state().heap() == old(self).state().heap(),
            final(self).bytes() == old(self).bytes(),
            final(final(self).memory)@ == final(old(self).memory)@,
            *final(final(self).host_state) == *final(old(self).host_state),
    {
        self.host_state.register_panic_message(message);
    }

    /// Copies `buf_len` bytes from `offset` in the nested memory `memory_id` to
    /// `buf_ptr` in the guest's memory.
    ///
    /// A handle that is not valid is an error. With a valid handle the result is
    /// [`ERR_OK`] and the bytes are copied if both ranges lie inside their
    /// memories, and else [`ERR_OUT_OF_BOUNDS`] and nothing is written.
    pub fn memory_get(&mut self, memory_id: u32, offset: u32, buf_ptr: u32, buf_len: u32) -> (r:
        Result<u32, HostError>)
        requires
            old(self).has_store(),
        ensures
            final(self).state() == old(self).state(),
            match old(self).sandboxes().memory_fault(memory_id) {
                Some(fault) => {
                    &&& r matches Err(e) && e == HostError::Store(fault)
                    &&& final(self).bytes() == old(self).bytes()
                },
                None => {
                    let nested = old(self).sandboxes().memory(memory_id).bytes;
                    let outer = old(self).bytes();
                    let fits = copy_fits(offset, nested.len(), buf_ptr, outer.len(), buf_len);
                    &&& r matches Ok(code) && code == copy_code(fits)
                    &&& final(self).bytes() == if fits {
                        overwritten(
                            outer,
                            buf_ptr as int,
                            nested.subrange(offset as int, offset + buf_len),
                        )
                    } else {
                        outer
                    }
                },
            },
            final(final(self).memory)@ == final(old(self).memory)@,
            *final(final(self).host_state) == *final(old(self).host_state),
    {
        let nested = match self.host_state.sandbox_store().memory(memory_id) {
            Ok(nested) => nested,
            Err(fault) => {
                return Err(HostError::Store(fault));
            },
        };
        let buffer = match nested.read(offset, buf_len as usize) {
            Ok(buffer) => buffer,
            Err(_) => {
                return Ok(ERR_OUT_OF_BOUNDS);
            },
        };
        match write_memory_from(self.memory, buf_ptr, buffer.as_slice()) {
            Ok(()) => Ok(ERR_OK),
            Err(_) => Ok(ERR_OUT_OF_BOUNDS),
        }
    }

    /// Copies `val_len` bytes from `val_ptr` in the guest's memory to `offset`
    /// in the nested memory `memory_id`.
    ///
    /// A handle that is not valid is an error. With a valid handle the result is
    /// [`ERR_OK`] and the bytes are copied if both ranges lie inside their
    /// memories, and else [`ERR_OUT_OF_BOUNDS`] and nothing is written.
    pub fn memory_set(&mut self, memory_id: u32, offset: u32, val_ptr: u32, val_len: u32) -> (r:
        Result<u32, HostError>)
        requires
            old(self).has_store(),
        ensures
            final(self).differs_in_store_only(old(self)),
            match old(self).sandboxes().memory_fault(memory_id) {
                Some(fault) => {
                    &&& r matches Err(e) && e == HostError::Store(fault)
                    &&& final(self).sandboxes() == old(self).sandboxes()
                },
                None => {
                    let nested = old(self).sandboxes().memory(memory_id);
                    let outer = old(self).bytes();
                    let fits = copy_fits(val_ptr, outer.len(), offset, nested.bytes.len(), val_len);
                    &&& r matches Ok(code) && code == copy_code(fits)
                    &&& final(self).sandboxes() == if fits {
                        old(self).sandboxes().with_memory_at(
                            memory_id,
                            nested.overwritten(
                                offset as int,
                                outer.subrange(val_ptr as int, val_ptr + val_len),
                            ),
                        )
                    } else {
                        old(self).sandboxes()
                    }
                },
            },
            final(final(self).memory)@ == final(old(self).memory)@,
            *final(final(self).host_state) == *final(old(self).host_state),
    {
        if let Err(fault) = self.host_state.sandbox_store().memory(memory_id) {
            return Err(HostError::Store(fault));
        }
        let buffer = match read_memory(self.memory, val_ptr, val_len as usize) {
            Ok(buffer) => buffer,
            Err(_) => {
                return Ok(ERR_OUT_OF_BOUNDS);
            },
        };
        let store = self.host_state.sandbox_store_mut();
        match store.write_memory(memory_id, offset, buffer.as_slice()) {
            Ok(()) => Ok(ERR_OK),
            Err(_) => Ok(ERR_OUT_OF_BOUNDS),
        }
    }

    /// Tears down the nested memory `memory_id`.
    ///
    /// Fails, changing nothing, where the handle is not valid.
    pub fn memory_teardown(&mut self, memory_id: u32) -> (r: Result<(), HostError>)
        requires
            old(self).has_store(),
        ensures
            final(self).differs_in_store_only(old(self)),
            match old(self).sandboxes().memory_fault(memory_id) {
                Some(fault) => {
                    &&& r matches Err(e) && e == HostError::Store(fault)
                    &&& final(self).sandboxes() == old(self).sandboxes()
                },
                None => {
                    &&& r is Ok
                    &&& final(self).sandboxes() == old(self).sandboxes().without_memory(memory_id)
                },
            },
            final(final(self).memory)@ == final(old(self).memory)@,
            *final(final(self).host_state) == *final(old(self).host_state),
    {
        match self.host_state.sandbox_store_mut().memory_teardown(memory_id) {
            Ok(()) => Ok(()),
            Err(fault) => Err(HostError::Store(fault)),
        }
    }

    /// Creates a nested memory of `initial` pages of zeros that may grow to
    /// `maximum` pages, and returns its handle: the number of memories that the
    /// store created before.
    ///
    /// Fails, changing nothing, where the limits are not valid, where so many
    /// bytes cannot be addressed, and where the handles have run out.
    pub fn memory_new(&mut self, initial: u32, maximum: u32) -> (r: Result<u32, HostError>)
        requires
            old(self).has_store(),
        ensures
            final(self).differs_in_store_only(old(self)),
            r is Ok <==> limits_valid(initial, maximum) && initial * PAGE_SIZE <= usize::MAX
                && old(self).sandboxes().memories.len() < u32::MAX,
            r matches Ok(id) ==> {
                &&& id == old(self).sandboxes().memories.len()
                &&& final(self).sandboxes() == old(self).sandboxes().with_memory(
                    MemoryView::zeroed(initial, maximum),
                )
            },
            r matches Err(e) ==> {
                &&& e == HostError::Store(StoreError::MemoryLimits)
                &&& final(self).sandboxes() == old(self).sandboxes()
            },
            final(final(self).memory)@ == final(old(self).memory)@,
            *final(final(self).host_state) == *final(old(self).host_state),
    {
        match self.host_state.sandbox_store_mut().new_memory(initial, maximum) {
            Ok(id) => Ok(id),
            Err(fault) => Err(HostError::Store(fault)),
        }
    }

    /// Tears down the nested instance `instance_id`.
    ///
    /// Fails, changing nothing, where the handle is not valid.
    pub fn instance_teardown(&mut self, instance_id: u32) -> (r: Result<(), HostError>)
        requires
            old(self).has_store(),
        ensures
            final(self).differs_in_store_only(old(self)),
            match old(self).sandboxes().instance_fault(instance_id) {
                Some(fault) => {
                    &&& r matches Err(e) && e == HostError::Store(fault)
                    &&& final(self).sandboxes() == old(self).sandboxes()
                },
                None => {
                    &&& r is Ok
                    &&& final(self).sandboxes() == old(self).sandboxes().without_instance(
                        instance_id,
                    )
                },
            },
            final(final(self).memory)@ == final(old(self).memory)@,
            *final(final(self).host_state) == *final(old(self).host_state),
    {
        match self.host_state.sandbox_store_mut().instance_teardown(instance_id) {
            Ok(()) => Ok(()),
            Err(fault) => Err(HostError::Store(fault)),
        }
    }

    /// The nested instance `instance_id`, to ask the engine about: for the value
    /// of one of its globals, say.
    pub fn instance(&self, instance_id: u32) -> (r: Result<&I, HostError>)
        requires
            self.has_store(),
        ensures
            match self.sandboxes().instance_fault(instance_id) {
                Some(fault) => r matches Err(e) && e == HostError::Store(fault),
                None => r matches Ok(instance) && *instance == self.sandboxes().instance(
                    instance_id,
                ),
            },
    {
        match self.host_state.sandbox_store().instance(instance_id) {
            Ok(instance) => Ok(instance),
            Err(fault) => Err(HostError::Store(fault)),
        }
    }

    /// The first half of invoking an export of the nested instance
    /// `instance_id`: finds the instance and its dispatch thunk, and hands them
    /// on together with the decoded arguments `args`.
    ///
    /// A handle that is not valid is an error.
    pub fn invocation(&self, instance_id: u32, args: Vec<Value>) -> (r: Result<
        Invocation<'_, I, DT>,
        HostError,
    >)
        requires
            self.has_store(),
        ensures
            match self.sandboxes().instance_fault(instance_id) {
                Some(fault) => r matches Err(e) && e == HostError::Store(fault),
                None => {
                    &&& r matches Ok(found)
                    &&& found.args == args
                    &&& *found.instance == self.sandboxes().instance(instance_id)
                    &&& *found.dispatch_thunk == self.sandboxes().dispatch_thunk(instance_id)
                },
            },
    {
        let store = self.host_state.sandbox_store();
        let instance = match store.instance(instance_id) {
            Ok(instance) => instance,
            Err(fault) => {
                return Err(HostError::Store(fault));
            },
        };
        let dispatch_thunk = match store.dispatch_thunk(instance_id) {
            Ok(dispatch_thunk) => dispatch_thunk,
            Err(fault) => {
                return Err(HostError::Store(fault));
            },
        };
        Ok(Invocation { instance, dispatch_thunk, args })
    }

    /// Writes the encoded result `encoded` of an invocation to `return_val`,
    /// where the guest offers `return_val_len` bytes for it.
    ///
    /// It is an error, and nothing is written, where `encoded` is longer than
    /// what the guest offers or does not lie inside the guest's memory. The
    /// length is looked at first.
    pub fn write_return_value(
        &mut self,
        encoded: &[u8],
        return_val: u32,
        return_val_len: u32,
    ) -> (r: Result<u32, HostError>)
        ensures
            final(self).state() == old(self).state(),
            match return_value_written(old(self).bytes(), encoded@, return_val, return_val_len) {
                Ok(bytes) => {
                    &&& r matches Ok(code) && code == ERR_OK
                    &&& final(self).bytes() == bytes
                },
                Err(error) => {
                    &&& r matches Err(e) && e == error
                    &&& final(self).bytes() == old(self).bytes()
                },
            },
            final(final(self).memory)@ == final(old(self).memory)@,
            *final(final(self).host_state) == *final(old(self).host_state),
    {
        if encoded.len() > return_val_len as usize {
            return Err(HostError::ReturnBufferTooSmall);
        }
        match write_memory_from(self.memory, return_val, encoded) {
            Ok(()) => Ok(ERR_OK),
            Err(_) => Err(HostError::ReturnValueWrite),
        }
    }

    /// The second half of an invocation: takes what came of running the export
    /// and answers the guest.
    ///
    /// Nested code that failed is [`ERR_EXECUTION`]. A function that returned
    /// nothing is [`ERR_OK`]. A returned value is encoded and written to
    /// `return_val` as [`HostContext::write_return_value`] does it. None of this
    /// touches the state, so the sandbox store is where it was.
    pub fn finish_invoke(&mut self, outcome: Execution, return_val: u32, return_val_len: u32) -> (r:
        Result<u32, HostError>)
        ensures
            final(self).state() == old(self).state(),
            match outcome {
                Execution::Failed => {
                    &&& r matches Ok(code) && code == ERR_EXECUTION
                    &&& final(self).bytes() == old(self).bytes()
                },
                Execution::Returned(None) => {
                    &&& r matches Ok(code) && code == ERR_OK
                    &&& final(self).bytes() == old(self).bytes()
                },
                Execution::Returned(Some(value)) => match return_value_written(
                    old(self).bytes(),
                    return_value_encoding(value),
                    return_val,
                    return_val_len,
                ) {
                    Ok(bytes) => {
                        &&& r matches Ok(code) && code == ERR_OK
                        &&& final(self).bytes() == bytes
                    },
                    Err(error) => {
                        &&& r matches Err(e) && e == error
                        &&& final(self).bytes() == old(self).bytes()
                    },
                },
            },
            final(final(self).memory)@ == final(old(self).memory)@,
            *final(final(self).host_state) == *final(old(self).host_state),
    {
        match outcome {
            Execution::Failed => Ok(ERR_EXECUTION),
            Execution::Returned(None) => Ok(ERR_OK),
            Execution::Returned(Some(value)) => {
                let encoded = encode_return_value(value);
                self.write_return_value(encoded.as_slice(), return_val, return_val_len)
            },
        }
    }

    /// The first half of creating a nested instance: settles the dispatch thunk
    /// and the environment, and takes the store out of the state for the time
    /// that the engine instantiates.
    ///
    /// `dispatch_thunk` is what the guest's table holds at the index that the
    /// guest gave; anything but a function there is an error. `guest_env` is the
    /// decoded environment, or `None` where it did not decode: the guest then
    /// gets [`ERR_MODULE`]. The thunk is looked at first. Only where the engine
    /// is to instantiate does the state change.
    pub fn begin_instance_new<G>(
        &mut self,
        dispatch_thunk: TableLookup<DT>,
        guest_env: Option<G>,
    ) -> (r: Result<InstanceNewStep<I, DT, G>, HostError>)
        requires
            dispatch_thunk is Function ==> old(self).has_store(),
        ensures
            final(self).bytes() == old(self).bytes(),
            match (dispatch_thunk, guest_env) {
                (TableLookup::NoTable, _) => {
                    &&& r matches Err(e) && e == HostError::NoTable
                    &&& final(self).state() == old(self).state()
                },
                (TableLookup::OutOfBounds, _) => {
                    &&& r matches Err(e) && e == HostError::DispatchThunkOutOfBounds
                    &&& final(self).state() == old(self).state()
                },
                (TableLookup::NotFunction, _) => {
                    &&& r matches Err(e) && e == HostError::DispatchThunkNotFunction
                    &&& final(self).state() == old(self).state()
                },
                (TableLookup::Function(_), None) => {
                    &&& r matches Ok(InstanceNewStep::Refused(code)) && code == ERR_MODULE
                    &&& final(self).state() == old(self).state()
                },
                (TableLookup::Function(thunk), Some(env)) => {
                    &&& r matches Ok(
                        InstanceNewStep::Instantiate {
                            store,
                            dispatch_thunk: kept,
                            guest_env: decoded,
                        },
                    )
                    &&& kept == thunk
                    &&& decoded == env
                    &&& Some(store) == old(self).state().store()
                    &&& !final(self).has_store()
                    &&& final(self).state().same_but_store(&old(self).state())
                },
            },
            final(final(self).memory)@ == final(old(self).memory)@,
            *final(final(self).host_state) == *final(old(self).host_state),
    {
        let dispatch_thunk = match dispatch_thunk {
            TableLookup::NoTable => {
                return Err(HostError::NoTable);
            },
            TableLookup::OutOfBounds => {
                return Err(HostError::DispatchThunkOutOfBounds);
            },
            TableLookup::NotFunction => {
                return Err(HostError::DispatchThunkNotFunction);
            },
            TableLookup::Function(dispatch_thunk) => dispatch_thunk,
        };
        let guest_env = match guest_env {
            Some(guest_env) => guest_env,
            None => {
                return Ok(InstanceNewStep::Refused(ERR_MODULE));
            },
        };
        match self.host_state.take_sandbox_store() {
            Some(store) => Ok(InstanceNewStep::Instantiate { store, dispatch_thunk, guest_env }),
            None => vstd::pervasive::unreached(),
        }
    }

    /// Puts `store` back into the state. This is for the engine's way out when
    /// instantiation did not come to an end; [`HostContext::finish_instance_new`]
    /// puts the store back itself.
    pub fn restore_sandbox_store(&mut self, store: Store<I, DT>)
        ensures
            final(self).state().store() == Some(store),
            final(self).differs_in_store_only(old(self)),
            final(final(self).memory)@ == final(old(self).memory)@,
            *final(final(self).host_state) == *final(old(self).host_state),
    {
        self.host_state.restore_sandbox_store(store);
    }

    /// The second half of creating a nested instance: puts the store back into
    /// the state and answers the guest.
    ///
    /// An instantiated module is registered with its dispatch thunk, and the
    /// answer is its handle: the number of instances registered before (or
    /// [`ERR_MODULE`], and nothing registered, once [`MAX_INSTANCES`] are). A
    /// start function that trapped is [`ERR_EXECUTION`], any other failure
    /// [`ERR_MODULE`]. Whatever the outcome, the store is back in the state.
    pub fn finish_instance_new(
        &mut self,
        store: Store<I, DT>,
        dispatch_thunk: DT,
        outcome: Instantiation<I>,
    ) -> (code: u32)
        ensures
            final(self).differs_in_store_only(old(self)),
            match outcome {
                Instantiation::Instantiated(instance) => if store@.instances.len()
                    < MAX_INSTANCES {
                    &&& code == store@.instances.len()
                    &&& final(self).sandboxes() == store@.with_instance(instance, dispatch_thunk)
                } else {
                    &&& code == ERR_MODULE
                    &&& final(self).sandboxes() == store@
                },
                Instantiation::StartTrapped => {
                    &&& code == ERR_EXECUTION
                    &&& final(self).state().store() == Some(store)
                },
                Instantiation::Failed => {
                    &&& code == ERR_MODULE
                    &&& final(self).state().store() == Some(store)
                },
            },
            final(final(self).memory)@ == final(old(self).memory)@,
            *final(final(self).host_state) == *final(old(self).host_state),
    {
        self.host_state.restore_sandbox_store(store);
        match outcome {
            Instantiation::Instantiated(instance) => {
                let store = self.host_state.sandbox_store_mut();
                match store.register_instance(instance, dispatch_thunk) {
                    Some(id) => id,
                    None => ERR_MODULE,
                }
            },
            Instantiation::StartTrapped => ERR_EXECUTION,
            Instantiation::Failed => ERR_MODULE,
        }
    }
}

} // verus!
