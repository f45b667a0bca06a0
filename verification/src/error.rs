//! Errors that end a host call.
//!
//! These are the failures that a guest cannot recover from on its own: they
//! travel up through the host function and as a rule end the whole call into the
//! runtime. Conditions that a guest may test for are no errors: they come back as
//! one of the codes of [`crate::status`].

use crate::store::StoreError;
use vstd::prelude::*;

verus! {

/// Why a host call failed.
#[derive(Debug, PartialEq, Eq)]
pub enum HostError {
    /// An address range does not lie inside the guest's memory.
    OutOfBounds,
    /// The allocator refused; the text is its own.
    Allocator(String),
    /// The sandbox store refused.
    Store(StoreError),
    /// The arguments of an invocation could not be decoded.
    UndecodableArguments,
    /// The encoded result is longer than the buffer that the guest offered.
    ReturnBufferTooSmall,
    /// The buffer for the result does not lie inside the guest's memory.
    ReturnValueWrite,
    /// The guest has no function table, so there is nothing to dispatch through.
    NoTable,
    /// The index of the dispatch thunk is past the end of the table.
    DispatchThunkOutOfBounds,
    /// The table slot of the dispatch thunk holds no function.
    DispatchThunkNotFunction,
    /// The engine could not call the dispatch thunk; the text is its own.
    Dispatch(String),
}

/// The text of a store error.
pub open spec fn store_error_text(error: StoreError) -> Seq<char> {
    match error {
        StoreError::NoSuchInstance => "Trying to access a non-existent instance"@,
        StoreError::InstanceTornDown => "Trying to access a torndown instance"@,
        StoreError::NoSuchMemory => "Trying to access a non-existent sandboxed memory"@,
        StoreError::MemoryTornDown => "Trying to access a torndown sandboxed memory"@,
        StoreError::MemoryLimits => "Sandboxed memory cannot be created with these limits"@,
        StoreError::OutOfBounds => "Access to a sandboxed memory is out of bounds"@,
    }
}

impl StoreError {
    /// The error in words.
    pub fn message(&self) -> (text: String)
        ensures
            text@ == store_error_text(*self),
    {
        match self {
            StoreError::NoSuchInstance => "Trying to access a non-existent instance".to_owned(),
            StoreError::InstanceTornDown => "Trying to access a torndown instance".to_owned(),
            StoreError::NoSuchMemory => {
                "Trying to access a non-existent sandboxed memory".to_owned()
            },
            StoreError::MemoryTornDown => "Trying to access a torndown sandboxed memory".to_owned(),
            StoreError::MemoryLimits => {
                "Sandboxed memory cannot be created with these limits".to_owned()
            },
            StoreError::OutOfBounds => "Access to a sandboxed memory is out of bounds".to_owned(),
        }
    }
}

impl HostError {
    /// The text of the error.
    pub open spec fn text(self) -> Seq<char> {
        match self {
            HostError::OutOfBounds => "Memory access is out of bounds"@,
            HostError::Allocator(text) => text@,
            HostError::Store(error) => store_error_text(error),
            HostError::UndecodableArguments => {
                "Can't decode serialized arguments for the invocation"@
            },
            HostError::ReturnBufferTooSmall => "Return value buffer is too small"@,
            HostError::ReturnValueWrite => "can't write return value"@,
            HostError::NoTable => "Runtime doesn't have a table; sandbox is unavailable"@,
            HostError::DispatchThunkOutOfBounds => "dispatch_thunk_id is out of bounds"@,
            HostError::DispatchThunkNotFunction => {
                "dispatch_thunk_id should point to actual func"@
            },
            HostError::Dispatch(text) => text@,
        }
    }

    /// The error in words, as the caller of the host function gets it.
    pub fn message(&self) -> (text: String)
        ensures
            text@ == self.text(),
    {
        match self {
            HostError::OutOfBounds => "Memory access is out of bounds".to_owned(),
            HostError::Allocator(text) => text.clone(),
            HostError::Store(error) => error.message(),
            HostError::UndecodableArguments => {
                "Can't decode serialized arguments for the invocation".to_owned()
            },
            HostError::ReturnBufferTooSmall => "Return value buffer is too small".to_owned(),
            HostError::ReturnValueWrite => "can't write return value".to_owned(),
            HostError::NoTable => {
                "Runtime doesn't have a table; sandbox is unavailable".to_owned()
            },
            HostError::DispatchThunkOutOfBounds => "dispatch_thunk_id is out of bounds".to_owned(),
            HostError::DispatchThunkNotFunction => {
                "dispatch_thunk_id should point to actual func".to_owned()
            },
            HostError::Dispatch(text) => text.clone(),
        }
    }
}

} // verus!
