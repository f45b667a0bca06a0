//! Calls from a nested instance back to its supervisor.
//!
//! When nested code calls a function that its supervisor defined, the call goes
//! to the dispatch thunk: a function of the outer guest, taken from its table
//! when the instance was created. The thunk gets four 32-bit words (where the
//! serialised arguments lie, how long they are, the token that the guest gave
//! to the invocation, and which supervisor function is meant) and answers with
//! one 64-bit word.

use crate::error::HostError;
use vstd::prelude::*;

verus! {

/// The 32 bits of `word`, read as a signed number.
pub open spec fn signed(word: u32) -> i32 {
    if word < 0x8000_0000 {
        word as i32
    } else {
        (word - 0x1_0000_0000) as i32
    }
}

/// The 32 bits of `word`, read as a signed number.
pub fn to_signed(word: u32) -> (r: i32)
    ensures
        r == signed(word),
{
    if word < 0x8000_0000 {
        word as i32
    } else {
        ((word - 0x8000_0000) as i32) + i32::MIN
    }
}

/// The four words that a dispatch thunk is called with.
pub open spec fn thunk_arguments(
    invoke_args_ptr: u32,
    invoke_args_len: u32,
    state: u32,
    func_idx: usize,
) -> Seq<i32> {
    seq![
        signed(invoke_args_ptr),
        signed(invoke_args_len),
        signed(state),
        signed((func_idx as int % 0x1_0000_0000) as u32),
    ]
}

/// The arguments for a call of the dispatch thunk: the address and the length
/// of the serialised arguments, the guest's token, and the index of the
/// supervisor function, of which the low 32 bits are passed.
pub fn dispatch_thunk_args(
    invoke_args_ptr: u32,
    invoke_args_len: u32,
    state: u32,
    func_idx: usize,
) -> (args: [i32; 4])
    ensures
        args@ == thunk_arguments(invoke_args_ptr, invoke_args_len, state, func_idx),
{
    let low = (func_idx as u64 % 0x1_0000_0000) as u32;
    let args = [
        to_signed(invoke_args_ptr),
        to_signed(invoke_args_len),
        to_signed(state),
        to_signed(low),
    ];
    assert(args@ =~= thunk_arguments(invoke_args_ptr, invoke_args_len, state, func_idx));
    args
}

/// What the supervisor call comes to, from what the engine says of the call of
/// the thunk: the first word that the thunk returned, or the engine's failure
/// as an error in the engine's words.
///
/// A thunk that returned must have returned a word.
pub fn dispatch_thunk_result(called: Result<Vec<i64>, String>) -> (r: Result<i64, HostError>)
    requires
        called matches Ok(words) ==> words@.len() > 0,
    ensures
        match called {
            Ok(words) => r == Ok::<i64, HostError>(words@[0]),
            Err(text) => r == Err::<i64, HostError>(HostError::Dispatch(text)),
        },
{
    match called {
        Ok(words) => Ok(words[0]),
        Err(text) => Err(HostError::Dispatch(text)),
    }
}

} // verus!
