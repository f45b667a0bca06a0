//! The guest's heap allocator, as far as the host relies on it.
//!
//! The allocator itself is `sc_allocator`'s freeing-bump allocator. It keeps an
//! eight-byte header in front of every chunk it hands out, inside the guest's
//! own memory, and strings the chunks that were given back into free lists,
//! one for each size, through those same headers. What is stated here is what
//! the host needs: which bytes a call may touch, which requests are refused
//! outright, and in which states the allocator can be asked at all.
//!
//! The last point is an assumption on the guest. The headers are bytes of the
//! guest's memory, and the allocator takes for granted that a chunk on a free
//! list lies inside the memory; where one does not, it gives up in the middle
//! of an allocation. [`serves`] names the states in which it does not, and
//! [`chunk_fits`] is the test that keeps a deallocation within them.

use sc_allocator::FreeingBumpHeapAllocator;
use vstd::bytes::{spec_u32_from_le_bytes, u32_from_le_bytes};
use vstd::prelude::*;
use vstd::slice::slice_subrange;

verus! {

#[verifier::external_type_specification]
#[verifier::external_body]
pub struct ExFreeingBumpHeapAllocator(FreeingBumpHeapAllocator);

/// The largest chunk, in bytes, that the allocator hands out.
pub const MAX_POSSIBLE_ALLOCATION: u32 = 33554432;

/// Bytes in the header that precedes every chunk.
pub const HEADER_SIZE: u32 = 8;

/// The number of chunk sizes: a chunk of order `n` has `8 << n` bytes.
pub const ORDERS: u32 = 23;

/// The highest heap base from which a new allocator can hand out a chunk of
/// any size without its addresses passing 32 bits.
pub const HIGHEST_HEAP_BASE: u32 = 0xFDFF_FFF0;

/// Counters that the allocator keeps over its lifetime.
#[derive(Clone, Copy, Debug, PartialEq, Eq)]
pub struct AllocationStats {
    /// Bytes allocated right now.
    pub bytes_allocated: u32,
    /// The most that `bytes_allocated` ever was.
    pub bytes_allocated_peak: u32,
    /// The sum of all allocations ever made.
    pub bytes_allocated_sum: u128,
    /// Address space between the heap's base and the allocator's high-water mark.
    pub address_space_used: u32,
}

/// Whether `before` and `after` agree on every byte but the header in front of
/// `ptr`.
pub open spec fn same_but_header(before: Seq<u8>, after: Seq<u8>, ptr: u32) -> bool {
    &&& after.len() == before.len()
    &&& forall|i: int|
        0 <= i < before.len() && !(ptr - HEADER_SIZE <= i < ptr) ==> after[i] == before[i]
}

/// What `allocate` answers on these arguments: the address, or the text of its
/// refusal.
pub uninterp spec fn allocation(
    allocator: FreeingBumpHeapAllocator,
    memory: Seq<u8>,
    size: u32,
) -> Result<u32, Seq<char>>;

/// What `deallocate` answers on these arguments: nothing, or the text of its
/// refusal.
pub uninterp spec fn deallocation(
    allocator: FreeingBumpHeapAllocator,
    memory: Seq<u8>,
    ptr: u32,
) -> Result<(), Seq<char>>;

/// Where the heap of `allocator` starts: the base that it was made with,
/// rounded up to a multiple of eight.
pub uninterp spec fn heap_start(allocator: FreeingBumpHeapAllocator) -> u32;

/// `heap_base` rounded up to a multiple of eight.
pub open spec fn aligned(heap_base: u32) -> int {
    (heap_base + 7) / 8 * 8
}

/// Whether `allocator` can be asked to allocate in a memory of `len` bytes.
///
/// It can where it has refused something before, for then it refuses everything;
/// and else where no chunk at the head of one of its free lists ends past `len`
/// bytes, and neither its bump pointer nor its counters are so high that one
/// more chunk of the largest size would overflow them.
pub uninterp spec fn serves(allocator: FreeingBumpHeapAllocator, len: nat) -> bool;

/// The order that the header in front of `ptr` names: its first four bytes.
pub open spec fn chunk_order(memory: Seq<u8>, ptr: u32) -> u32
    recommends
        HEADER_SIZE <= ptr <= memory.len(),
{
    spec_u32_from_le_bytes(memory.subrange(ptr - 8, ptr - 4))
}

/// Whether the chunk at `ptr`, of the size that its header names, lies inside
/// `memory`. A deallocation puts the chunk on the free list of that size.
pub open spec fn chunk_fits(memory: Seq<u8>, ptr: u32) -> bool {
    &&& HEADER_SIZE <= ptr <= memory.len()
    &&& chunk_order(memory, ptr) < ORDERS
    &&& ptr + (8u64 << chunk_order(memory, ptr) as u64) <= memory.len()
}

/// Whether the chunk at `ptr`, of the size that its header names, lies inside
/// `memory`.
pub fn chunk_fits_memory(memory: &[u8], ptr: u32) -> (fits: bool)
    ensures
        fits == chunk_fits(memory@, ptr),
{
    let len = memory.len();
    let at = ptr as usize;
    if ptr < HEADER_SIZE || at > len {
        return false;
    }
    let order = u32_from_le_bytes(slice_subrange(memory, at - 8, at - 4));
    if order >= ORDERS {
        return false;
    }
    let shift = order as u64;
    assert((8u64 << shift) <= 0x200_0000u64) by (bit_vector)
        requires
            shift < 23u64,
    ;
    let size: u64 = 8u64 << shift;
    ptr as u64 + size <= len as u64
}

/// The size of the chunk that serves a request for `size` bytes: the power of
/// two that the request is rounded up to, and eight at the least.
pub open spec fn chunk_size(size: u32) -> nat {
    doubled_up_to(size, 8)
}

/// `chunk`, doubled until it is `size` or the largest chunk at the least.
pub open spec fn doubled_up_to(size: u32, chunk: nat) -> nat
    decreases
            if chunk < MAX_POSSIBLE_ALLOCATION {
                MAX_POSSIBLE_ALLOCATION - chunk
            } else {
                0
            },
{
    if 0 < chunk < size && chunk < MAX_POSSIBLE_ALLOCATION {
        doubled_up_to(size, 2 * chunk)
    } else {
        chunk
    }
}

/// The size of the chunk that serves a request for `size` bytes.
pub fn chunk_size_of(size: u32) -> (chunk: u32)
    ensures
        chunk == chunk_size(size),
        8 <= chunk <= MAX_POSSIBLE_ALLOCATION,
{
    let mut chunk: u32 = 8;
    let mut doublings: u32 = 0;
    assert(8u32 << 0u32 == 8u32) by (bit_vector);
    while chunk < size && chunk < MAX_POSSIBLE_ALLOCATION
        invariant
            doublings <= 22,
            chunk == 8u32 << doublings,
            8 <= chunk <= MAX_POSSIBLE_ALLOCATION,
            doubled_up_to(size, chunk as nat) == chunk_size(size),
        decreases MAX_POSSIBLE_ALLOCATION - chunk,
    {
        assert(doublings < 22 && 8u32 << (doublings + 1) as u32 == 2 * (8u32 << doublings) && 8u32
            << (doublings + 1) as u32 <= 0x200_0000u32) by (bit_vector)
            requires
                doublings <= 22,
                8u32 << doublings < 0x200_0000u32,
        ;
        chunk = chunk * 2;
        doublings = doublings + 1;
    }
    chunk
}

/// The link that the header in front of `ptr` holds while the chunk is free: its
/// first four bytes, where all bits set stand for no chunk.
pub open spec fn chunk_link(memory: Seq<u8>, ptr: u32) -> u32
    recommends
        HEADER_SIZE <= ptr <= memory.len(),
{
    spec_u32_from_le_bytes(memory.subrange(ptr - 8, ptr - 4))
}

/// Whether an allocator that served `before` still serves it after it has
/// handed out `ptr` for `size` bytes and has then counted `counted`.
///
/// A chunk that comes from a free list leaves the list to the chunk that its
/// header linked to, so that one has to fit. A chunk that comes from the bump
/// pointer moves the pointer to its end. Either way the chunk and its header
/// are counted. Which way it was is not told, so both are provided for.
pub open spec fn keeps_serving(
    before: Seq<u8>,
    ptr: u32,
    size: u32,
    counted: AllocationStats,
) -> bool {
    &&& HEADER_SIZE <= ptr <= before.len()
    &&& chunk_link(before, ptr) == u32::MAX || chunk_link(before, ptr) + chunk_size(size)
        + HEADER_SIZE <= before.len()
    &&& ptr + chunk_size(size) <= HIGHEST_HEAP_BASE
    &&& counted.bytes_allocated <= HIGHEST_HEAP_BASE
    &&& counted.bytes_allocated_sum <= u64::MAX
}

/// Whether an allocator that served `before` still serves it after it has
/// handed out `ptr` for `size` bytes and has then counted `counted`.
pub fn keeps_serving_memory(before: &[u8], ptr: u32, size: u32, counted: AllocationStats) -> (keeps:
    bool)
    ensures
        keeps == keeps_serving(before@, ptr, size, counted),
{
    let len = before.len();
    let at = ptr as usize;
    if ptr < HEADER_SIZE || at > len {
        return false;
    }
    let link = u32_from_le_bytes(slice_subrange(before, at - 8, at - 4));
    let chunk = chunk_size_of(size);
    let link_fits = link == u32::MAX || link as u64 + chunk as u64 + HEADER_SIZE as u64
        <= len as u64;
    link_fits && ptr as u64 + chunk as u64 <= HIGHEST_HEAP_BASE as u64 && counted.bytes_allocated
        <= HIGHEST_HEAP_BASE && counted.bytes_allocated_sum <= u64::MAX as u128
}

/// `FreeingBumpHeapAllocator::new`.
///
/// Believed, not proved. A new allocator has no free chunk and has counted
/// nothing, and its heap starts, as its bump pointer does, at the heap base
/// rounded up to a multiple of eight: so it [`serves`] every memory if the base
/// is not over [`HIGHEST_HEAP_BASE`]. The rounding adds eight to the base before
/// anything else, so the base must be at least eight under the largest 32-bit
/// number.
#[verifier::external_body]
pub(crate) fn fresh(heap_base: u32) -> (allocator: FreeingBumpHeapAllocator)
    requires
        heap_base <= u32::MAX - 8,
    ensures
        heap_start(allocator) == aligned(heap_base),
        heap_base <= HIGHEST_HEAP_BASE ==> forall|len: nat| serves(allocator, len),
        counters(allocator) == (AllocationStats {
            bytes_allocated: 0,
            bytes_allocated_peak: 0,
            bytes_allocated_sum: 0,
            address_space_used: 0,
        }),
{
    FreeingBumpHeapAllocator::new(heap_base)
}

/// An allocator for a heap that starts at `heap_base`, or at the next multiple
/// of eight.
pub fn new_allocator(heap_base: u32) -> (allocator: FreeingBumpHeapAllocator)
    requires
        heap_base <= u32::MAX - 8,
    ensures
        heap_start(allocator) == aligned(heap_base),
        heap_base <= HIGHEST_HEAP_BASE ==> forall|len: nat| serves(allocator, len),
        counters(allocator) == (AllocationStats {
            bytes_allocated: 0,
            bytes_allocated_peak: 0,
            bytes_allocated_sum: 0,
            address_space_used: 0,
        }),
{
    fresh(heap_base)
}

/// `FreeingBumpHeapAllocator::allocate` on a memory given as a byte slice.
///
/// Believed, not proved. The answer, address or text, depends on the allocator,
/// the bytes and the size alone, which is all that giving it the name
/// [`allocation`] claims. A request over [`MAX_POSSIBLE_ALLOCATION`] is refused.
/// A chunk that is handed out lies inside the memory, behind its header, which
/// is the only thing written; a refusal writes nothing, and after a refusal the
/// allocator refuses everything. After a chunk is handed out the allocator
/// still serves the memory where [`keeps_serving`] says so. The slice must be
/// shorter than 4 GiB and the allocator must [`serve`](serves) it: on anything
/// else the allocator gives up.
#[verifier::external_body]
pub(crate) fn allocate(
    allocator: &mut FreeingBumpHeapAllocator,
    memory: &mut [u8],
    size: u32,
) -> (r: Result<u32, String>)
    requires
        old(memory)@.len() <= u32::MAX,
        serves(*old(allocator), old(memory)@.len()),
    ensures
        r matches Ok(ptr) ==> (allocation(*old(allocator), old(memory)@, size) matches Ok(
            address,
        ) && address == ptr),
        r matches Err(text) ==> (allocation(*old(allocator), old(memory)@, size) matches Err(
            refusal,
        ) && refusal == text@),
        size > MAX_POSSIBLE_ALLOCATION ==> r is Err,
        r is Err ==> final(memory)@ == old(memory)@,
        r is Err ==> forall|len: nat| serves(*final(allocator), len),
        r matches Ok(ptr) ==> HEADER_SIZE <= ptr && ptr + size <= old(memory)@.len()
            && same_but_header(old(memory)@, final(memory)@, ptr),
        r matches Ok(ptr) ==> (keeps_serving(
            old(memory)@,
            ptr,
            size,
            counters(*final(allocator)),
        ) ==> serves(*final(allocator), old(memory)@.len())),
{
    allocator.allocate(memory, size).map(u32::from).map_err(|e| e.to_string())
}

/// `FreeingBumpHeapAllocator::deallocate` on a memory given as a byte slice.
///
/// Believed, not proved. The answer, nothing or text, depends on the allocator,
/// the bytes and the pointer alone, which is all that giving it the name
/// [`deallocation`] claims. A pointer with no room for a header in front of it is refused and nothing is
/// written; otherwise nothing but that header is written, whatever the outcome.
/// The chunk goes to the head of the free list that its header names and
/// nothing else about the allocator grows, so an allocator that
/// [`serves`] the memory still does if the chunk fits; it also does after a
/// refusal, for then it refuses everything. The slice must be shorter than
/// 4 GiB.
#[verifier::external_body]
pub(crate) fn deallocate(
    allocator: &mut FreeingBumpHeapAllocator,
    memory: &mut [u8],
    ptr: u32,
) -> (r: Result<(), String>)
    requires
        old(memory)@.len() <= u32::MAX,
    ensures
        r is Ok ==> deallocation(*old(allocator), old(memory)@, ptr) is Ok,
        r matches Err(text) ==> (deallocation(*old(allocator), old(memory)@, ptr) matches Err(
            refusal,
        ) && refusal == text@),
        ptr < HEADER_SIZE ==> r is Err && final(memory)@ == old(memory)@,
        same_but_header(old(memory)@, final(memory)@, ptr),
        r is Err ==> forall|len: nat| serves(*final(allocator), len),
        r is Ok && chunk_fits(old(memory)@, ptr) && serves(
            *old(allocator),
            old(memory)@.len(),
        ) ==> serves(*final(allocator), old(memory)@.len()),
{
    allocator.deallocate(memory, ptr.into()).map_err(|e| e.to_string())
}

/// What `allocator` has counted so far: the counters that its `stats` reports.
pub uninterp spec fn counters(allocator: FreeingBumpHeapAllocator) -> AllocationStats;

/// `FreeingBumpHeapAllocator::stats`, field by field.
///
/// Believed, not proved. The call reads the counters and changes nothing, so
/// they depend on the allocator alone, which is all that giving them the name
/// [`counters`] claims. The peak is, in the allocator's own words, the most
/// that the bytes allocated ever were, and so never under them.
#[verifier::external_body]
pub(crate) fn stats(allocator: &FreeingBumpHeapAllocator) -> (r: AllocationStats)
    ensures
        r == counters(*allocator),
        r.bytes_allocated <= r.bytes_allocated_peak,
{
    let stats = allocator.stats();
    AllocationStats {
        bytes_allocated: stats.bytes_allocated,
        bytes_allocated_peak: stats.bytes_allocated_peak,
        bytes_allocated_sum: stats.bytes_allocated_sum,
        address_space_used: stats.address_space_used,
    }
}

} // verus!
