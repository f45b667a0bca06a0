//! Status codes that guest code branches on.
//!
//! The values are part of the binary contract with compiled guests and never
//! change: a guest compares the word it gets back against these numbers.

use vstd::prelude::*;

verus! {

/// The call did what was asked.
pub const ERR_OK: u32 = 0;

/// A nested module could not be validated or instantiated.
pub const ERR_MODULE: u32 = 0xFFFF_FFFF;

/// An address range did not lie inside the memory it was meant for.
pub const ERR_OUT_OF_BOUNDS: u32 = 0xFFFF_FFFE;

/// Nested code trapped or otherwise failed while it ran.
pub const ERR_EXECUTION: u32 = 0xFFFF_FFFD;

/// As the `maximum` of a new nested memory: no limit but the engine's own.
pub const MEM_UNLIMITED: u32 = 0xFFFF_FFFF;

/// Bytes in one page of linear memory.
pub const PAGE_SIZE: u32 = 65536;

/// The most pages a linear memory can have: four gibibytes of address space.
pub const MAX_PAGES: u32 = 65536;

/// Whether `code` is one of the three failure codes, and so no instance id.
pub open spec fn is_error_code(code: u32) -> bool {
    code == ERR_MODULE || code == ERR_OUT_OF_BOUNDS || code == ERR_EXECUTION
}

} // verus!
