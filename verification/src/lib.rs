//! Host side of a WebAssembly sandbox bridge.
//!
//! A guest module asks its host to read and write linear memory, to allocate on
//! its heap, and to create and drive nested sandboxed instances. This crate holds
//! the rules of that boundary: every address range is checked against the size of
//! the memory it points into, every handle is checked against the store that
//! issued it, and the outcomes a guest may branch on are fixed status codes.
//!
//! - [`memory`]: reading and writing a linear memory within its bounds.
//! - [`store`]: the registry of nested memories and instances, and its handles.
//! - [`state`]: what one execution keeps across its host calls.
//! - [`context`]: the host calls themselves.
//! - [`dispatch`]: the call from a nested instance back to its supervisor.
//! - [`status`], [`error`]: the two kinds of outcome.
//! - [`value`], [`allocator`]: the wire form of values and the guest's heap.
//!
//! Everything is proved against its contract but what the last two modules take
//! from other crates: how `parity_scale_codec` decodes and encodes, and what
//! `sc_allocator` does to the guest's memory. Each such function says in its
//! documentation what is believed of it.
//!
//! The engine that runs WebAssembly is not part of this crate. Where a host call
//! needs the engine in its middle, the call is in two halves and the engine's
//! work goes between them.

pub mod allocator;
pub mod context;
pub mod dispatch;
pub mod error;
pub mod memory;
pub mod state;
pub mod status;
pub mod store;
pub mod value;
