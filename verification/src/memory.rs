//! Bounds-checked access to a linear memory.
//!
//! A linear memory is a run of bytes addressed from zero. A guest names a range
//! by a 32-bit address and a length; the range is served only when it lies
//! wholly inside the memory as it is at the time of the call.

use vstd::prelude::*;

verus! {

/// The one way a memory access fails: part of the range is past the end.
#[derive(Clone, Copy, Debug, PartialEq, Eq)]
pub struct OutOfBounds;

/// Whether the `len` bytes from `offset` lie inside a memory of `size` bytes.
pub open spec fn in_bounds(offset: int, len: int, size: int) -> bool {
    0 <= offset && 0 <= len && offset + len <= size
}

/// `memory` with the bytes from `offset` on replaced by `data`.
pub open spec fn overwritten(memory: Seq<u8>, offset: int, data: Seq<u8>) -> Seq<u8> {
    Seq::new(
        memory.len(),
        |i: int|
            if offset <= i < offset + data.len() {
                data[i - offset]
            } else {
                memory[i]
            },
    )
}

/// A write changes the bytes of its range and no others: what lies before and
/// behind is as it was.
pub proof fn lemma_write_touches_only_its_range(memory: Seq<u8>, offset: int, data: Seq<u8>)
    requires
        in_bounds(offset, data.len() as int, memory.len() as int),
    ensures
        overwritten(memory, offset, data).len() == memory.len(),
        overwritten(memory, offset, data).subrange(offset, offset + data.len()) == data,
        overwritten(memory, offset, data).subrange(0, offset) == memory.subrange(0, offset),
        overwritten(memory, offset, data).subrange(offset + data.len(), memory.len() as int)
            == memory.subrange(offset + data.len(), memory.len() as int),
{
    let after = overwritten(memory, offset, data);
    assert(after.subrange(offset, offset + data.len()) =~= data);
    assert(after.subrange(0, offset) =~= memory.subrange(0, offset));
    assert(after.subrange(offset + data.len(), memory.len() as int) =~= memory.subrange(
        offset + data.len(),
        memory.len() as int,
    ));
}

/// The end of the range of `len` bytes at `offset`, if the range lies inside
/// `max` bytes.
pub fn checked_range(offset: usize, len: usize, max: usize) -> (end: Option<usize>)
    ensures
        in_bounds(offset as int, len as int, max as int) ==> end == Some((offset + len) as usize),
        !in_bounds(offset as int, len as int, max as int) ==> end is None,
{
    match offset.checked_add(len) {
        Some(end) => if end <= max {
            Some(end)
        } else {
            None
        },
        None => None,
    }
}

/// Fills `dest` with the bytes of `memory` that start at `address`.
///
/// Fails, leaving `dest` as it was, when the range runs past the end of `memory`.
pub fn read_memory_into(memory: &[u8], address: u32, dest: &mut [u8]) -> (r: Result<
    (),
    OutOfBounds,
>)
    ensures
        r is Ok <==> in_bounds(address as int, old(dest)@.len() as int, memory@.len() as int),
        r is Ok ==> final(dest)@ == memory@.subrange(
            address as int,
            address + old(dest)@.len(),
        ),
        r is Err ==> final(dest)@ == old(dest)@,
{
    let len = dest.len();
    let size = memory.len();
    let start = address as usize;
    if checked_range(start, len, size).is_none() {
        return Err(OutOfBounds);
    }
    let mut k: usize = 0;
    while k < len
        invariant
            k <= len,
            len == dest@.len(),
            len == old(dest)@.len(),
            size == memory@.len(),
            start + len <= size,
            forall|i: int| 0 <= i < k ==> dest@[i] == memory@[start + i],
        decreases len - k,
    {
        dest[k] = memory[start + k];
        k = k + 1;
    }
    assert(dest@ =~= memory@.subrange(start as int, start + len));
    Ok(())
}

/// The `size` bytes of `memory` that start at `address`.
pub fn read_memory(memory: &[u8], address: u32, size: usize) -> (r: Result<Vec<u8>, OutOfBounds>)
    ensures
        r is Ok <==> in_bounds(address as int, size as int, memory@.len() as int),
        r matches Ok(bytes) ==> bytes@ == memory@.subrange(address as int, address + size),
{
    let start = address as usize;
    match checked_range(start, size, memory.len()) {
        None => Err(OutOfBounds),
        Some(end) => {
            let mut bytes: Vec<u8> = Vec::with_capacity(size);
            let mut k: usize = start;
            while k < end
                invariant
                    start <= k <= end,
                    end <= memory@.len(),
                    bytes@ == memory@.subrange(start as int, k as int),
                decreases end - k,
            {
                bytes.push(memory[k]);
                assert(bytes@ =~= memory@.subrange(start as int, k + 1));
                k = k + 1;
            }
            Ok(bytes)
        },
    }
}

/// Copies `data` into `memory` at `address`.
///
/// Fails, leaving `memory` as it was, when the range runs past the end of
/// `memory`: nothing is written in part.
pub fn write_memory_from(memory: &mut [u8], address: u32, data: &[u8]) -> (r: Result<
    (),
    OutOfBounds,
>)
    ensures
        r is Ok <==> in_bounds(address as int, data@.len() as int, old(memory)@.len() as int),
        r is Ok ==> final(memory)@ == overwritten(old(memory)@, address as int, data@),
        r is Err ==> final(memory)@ == old(memory)@,
{
    let len = data.len();
    let size = memory.len();
    let start = address as usize;
    if checked_range(start, len, size).is_none() {
        return Err(OutOfBounds);
    }
    let mut k: usize = 0;
    while k < len
        invariant
            k <= len,
            len == data@.len(),
            size == memory@.len(),
            memory@.len() == old(memory)@.len(),
            start + len <= size,
            forall|i: int|
                0 <= i < memory@.len() ==> memory@[i] == (if start <= i < start + k {
                    data@[i - start]
                } else {
                    old(memory)@[i]
                }),
        decreases len - k,
    {
        memory[start + k] = data[k];
        k = k + 1;
    }
    assert(memory@ =~= overwritten(old(memory)@, start as int, data@));
    Ok(())
}

} // verus!
