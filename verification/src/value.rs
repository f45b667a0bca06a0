//! Values that cross the boundary between host and guest, and their wire form.

use parity_scale_codec::{Decode, Encode};
use vstd::bytes::{spec_u32_to_le_bytes, spec_u64_to_le_bytes};
use vstd::prelude::*;

verus! {

/// A value as WebAssembly passes it to or from a function.
///
/// Floating-point numbers are held as their raw bit patterns: nothing here
/// computes with them.
#[derive(Clone, Copy, Debug, PartialEq, Eq, Structural)]
pub enum Value {
    /// A 32-bit integer.
    I32(i32),
    /// A 64-bit integer.
    I64(i64),
    /// The bits of a 32-bit floating-point number.
    F32(u32),
    /// The bits of a 64-bit floating-point number.
    F64(u64),
}

/// What the codec reads out of `bytes` as a list of call arguments; `None` where
/// it rejects them.
pub uninterp spec fn decoded_call_args(bytes: Seq<u8>) -> Option<Seq<Value>>;

/// The wire form of a function's result `value`.
///
/// One byte says that there is a value (a function without a result sends
/// nothing), one byte says which kind it is, by its place in [`Value`], and the
/// number follows, least significant byte first.
pub open spec fn return_value_encoding(value: Value) -> Seq<u8> {
    match value {
        Value::I32(x) => seq![1u8, 0u8] + spec_u32_to_le_bytes(x as u32),
        Value::I64(x) => seq![1u8, 1u8] + spec_u64_to_le_bytes(x as u64),
        Value::F32(bits) => seq![1u8, 2u8] + spec_u32_to_le_bytes(bits),
        Value::F64(bits) => seq![1u8, 3u8] + spec_u64_to_le_bytes(bits),
    }
}

/// Decodes a list of call arguments with `parity_scale_codec`'s `Decode` for
/// `Vec<sp_wasm_interface::Value>`, and hands each value over in this crate's
/// own type.
///
/// Believed, not proved: the outcome depends on the bytes alone, which is all
/// that giving it the name [`decoded_call_args`] claims.
#[verifier::external_body]
pub(crate) fn decode_call_args(bytes: &[u8]) -> (r: Option<Vec<Value>>)
    ensures
        r is Some <==> decoded_call_args(bytes@) is Some,
        r matches Some(args) ==> decoded_call_args(bytes@) == Some(args@),
{
    let mut input = bytes;
    let decoded = Vec::<sp_wasm_interface::Value>::decode(&mut input).ok()?;
    Some(decoded.into_iter().map(|v| match v {
        sp_wasm_interface::Value::I32(x) => Value::I32(x),
        sp_wasm_interface::Value::I64(x) => Value::I64(x),
        sp_wasm_interface::Value::F32(bits) => Value::F32(bits),
        sp_wasm_interface::Value::F64(bits) => Value::F64(bits),
    }).collect())
}

/// Encodes a list of call arguments with `parity_scale_codec`'s `Encode` for
/// `Vec<sp_wasm_interface::Value>`.
///
/// Believed, not proved: what the codec encodes it decodes again to the same
/// list. The codec writes the length of a list in 32 bits and gives up on a
/// longer one.
#[verifier::external_body]
pub(crate) fn encode_call_args(args: &[Value]) -> (bytes: Vec<u8>)
    requires
        args@.len() <= u32::MAX,
    ensures
        decoded_call_args(bytes@) == Some(args@),
{
    let outside: Vec<sp_wasm_interface::Value> = args.iter().map(|v| match *v {
        Value::I32(x) => sp_wasm_interface::Value::I32(x),
        Value::I64(x) => sp_wasm_interface::Value::I64(x),
        Value::F32(bits) => sp_wasm_interface::Value::F32(bits),
        Value::F64(bits) => sp_wasm_interface::Value::F64(bits),
    }).collect();
    outside.encode()
}

/// Encodes `ReturnValue::Value(value)` with `parity_scale_codec`'s `Encode` for
/// `sp_wasm_interface::ReturnValue`.
///
/// Believed, not proved: the bytes are those of [`return_value_encoding`], which
/// is how the codec writes an enum (the variant's index in one byte, then its
/// fields) and a fixed-width integer (little-endian).
#[verifier::external_body]
pub(crate) fn encode_return_value(value: Value) -> (bytes: Vec<u8>)
    ensures
        bytes@ == return_value_encoding(value),
{
    let outside = match value {
        Value::I32(x) => sp_wasm_interface::Value::I32(x),
        Value::I64(x) => sp_wasm_interface::Value::I64(x),
        Value::F32(bits) => sp_wasm_interface::Value::F32(bits),
        Value::F64(bits) => sp_wasm_interface::Value::F64(bits),
    };
    sp_wasm_interface::ReturnValue::Value(outside).encode()
}

/// The length of a result's wire form: six bytes for a 32-bit value, ten for a
/// 64-bit one.
pub proof fn lemma_return_value_encoding_len(value: Value)
    ensures
        return_value_encoding(value).len() == match value {
            Value::I32(_) | Value::F32(_) => 6nat,
            Value::I64(_) | Value::F64(_) => 10nat,
        },
{
    vstd::bytes::lemma_auto_spec_u32_to_from_le_bytes();
    vstd::bytes::lemma_auto_spec_u64_to_from_le_bytes();
}

} // verus!
