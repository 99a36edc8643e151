//! The native functions that are pure computations on their operands: the
//! four hashes and the byte conversions.
//!
//! Each pops its arguments from the operand stack, last argument first, and
//! stops at the first pop that fails.

use crate::digest::{
    keccak_256, keccak_256_digest, ripemd_160, ripemd_160_digest, sha2_256, sha2_256_digest,
    sha3_256, sha3_256_digest,
};
use crate::dispatch::{
    CostedReturnType, NativeError, NativeFunction, NativeReturnType, Operand, Returned,
    StackAccessor,
};
use vstd::bytes::{spec_u64_to_le_bytes, u64_to_le_bytes};
use vstd::prelude::*;

verus! {

/// The flat part of a hash's cost.
pub const HASH_COST: u64 = 30;

/// The flat part of a byte conversion's cost.
pub const CONVERSION_COST: u64 = 1;

/// The cost of a call: a flat part plus one unit per byte, capped at
/// `u64::MAX`.
pub open spec fn charge(base: u64, bytes: nat) -> u64 {
    if base + bytes > u64::MAX {
        u64::MAX
    } else {
        (base + bytes) as u64
    }
}

/// Computes [`charge`].
pub fn charge_for(base: u64, bytes: usize) -> (cost: u64)
    ensures
        cost == charge(base, bytes as nat),
        base > 0 ==> cost > 0,
{
    let bytes: u64 = bytes as u64;
    if bytes > u64::MAX - base {
        u64::MAX
    } else {
        base + bytes
    }
}

/// The error of a typed pop that fails on `stack`.
pub open spec fn pop_error(stack: Seq<Operand>) -> NativeError {
    if stack.len() == 0 {
        NativeError::EmptyStack
    } else {
        NativeError::TypeMismatch
    }
}

/// The digest that the hash `function` computes of `input`.
pub open spec fn digest_of(function: NativeFunction, input: Seq<u8>) -> Seq<u8> {
    match function {
        NativeFunction::Keccak256 => keccak_256_digest(input),
        NativeFunction::Ripemd160 => ripemd_160_digest(input),
        NativeFunction::Sha2_256 => sha2_256_digest(input),
        _ => sha3_256_digest(input),
    }
}

/// What a hash returns on `stack`: it takes one byte array and returns its
/// digest.
pub open spec fn hash_result(function: NativeFunction, stack: Seq<Operand>) -> Result<
    (u64, Returned),
    NativeError,
> {
    if stack.len() > 0 && stack.last() is ByteArray {
        let input = stack.last()->ByteArray_0;
        Ok((charge(HASH_COST, input.len()), Returned::ByteArray(digest_of(function, input))))
    } else {
        Err(pop_error(stack))
    }
}

/// What `address_to_bytes` returns on `stack`: it takes one address and
/// returns its bytes.
pub open spec fn address_to_bytes_result(stack: Seq<Operand>) -> Result<
    (u64, Returned),
    NativeError,
> {
    if stack.len() > 0 && stack.last() is Address {
        let bytes = stack.last()->Address_0;
        Ok((charge(CONVERSION_COST, bytes.len()), Returned::ByteArray(bytes)))
    } else {
        Err(pop_error(stack))
    }
}

/// What `u64_to_bytes` returns on `stack`: it takes one integer and returns
/// its eight bytes, least significant first.
pub open spec fn u64_to_bytes_result(stack: Seq<Operand>) -> Result<(u64, Returned), NativeError> {
    if stack.len() > 0 && stack.last() is U64 {
        let value = stack.last()->U64_0;
        Ok((charge(CONVERSION_COST, 8), Returned::ByteArray(spec_u64_to_le_bytes(value))))
    } else {
        Err(pop_error(stack))
    }
}

/// What `bytearray_concat` returns on `stack`: it takes two byte arrays, the
/// second on top, and returns the first followed by the second.
pub open spec fn bytearray_concat_result(stack: Seq<Operand>) -> Result<
    (u64, Returned),
    NativeError,
> {
    if stack.len() > 0 && stack.last() is ByteArray {
        let rest = stack.drop_last();
        if rest.len() > 0 && rest.last() is ByteArray {
            let joined = rest.last()->ByteArray_0 + stack.last()->ByteArray_0;
            Ok((charge(CONVERSION_COST, joined.len()), Returned::ByteArray(joined)))
        } else {
            Err(pop_error(rest))
        }
    } else {
        Err(pop_error(stack))
    }
}

/// Whether `r` is the result `expected`: the same envelope, or the same
/// error.
pub open spec fn result_is(
    r: Result<CostedReturnType, NativeError>,
    expected: Result<(u64, Returned), NativeError>,
) -> bool {
    match r {
        Ok(costed) => expected == Ok::<(u64, Returned), NativeError>(costed@),
        Err(e) => expected == Err::<(u64, Returned), NativeError>(e),
    }
}

/// The envelope of a hash: the digest, at the cost of an input of
/// `input_len` bytes.
pub fn hash_return(input_len: usize, digest: Vec<u8>) -> (r: CostedReturnType)
    ensures
        r@ == (charge(HASH_COST, input_len as nat), Returned::ByteArray(digest@)),
        r@.0 > 0,
{
    CostedReturnType::new(charge_for(HASH_COST, input_len), NativeReturnType::ByteArray(digest))
}

/// The envelope of a byte conversion: the bytes, at their cost.
pub fn bytes_return(bytes: Vec<u8>) -> (r: CostedReturnType)
    ensures
        r@ == (charge(CONVERSION_COST, bytes@.len()), Returned::ByteArray(bytes@)),
        r@.0 > 0,
{
    CostedReturnType::new(
        charge_for(CONVERSION_COST, bytes.len()),
        NativeReturnType::ByteArray(bytes),
    )
}

/// `Hash.keccak256`.
pub fn native_keccak_256<T: StackAccessor>(accessor: &mut T) -> (r: Result<
    CostedReturnType,
    NativeError,
>)
    ensures
        result_is(r, hash_result(NativeFunction::Keccak256, old(accessor).operands())),
        r is Ok ==> final(accessor).operands() == old(accessor).operands().drop_last(),
{
    match accessor.get_byte_array() {
        Ok(input) => Ok(hash_return(input.len(), keccak_256(&input))),
        Err(e) => Err(e),
    }
}

/// `Hash.ripemd160`.
pub fn native_ripemd_160<T: StackAccessor>(accessor: &mut T) -> (r: Result<
    CostedReturnType,
    NativeError,
>)
    ensures
        result_is(r, hash_result(NativeFunction::Ripemd160, old(accessor).operands())),
        r is Ok ==> final(accessor).operands() == old(accessor).operands().drop_last(),
{
    match accessor.get_byte_array() {
        Ok(input) => Ok(hash_return(input.len(), ripemd_160(&input))),
        Err(e) => Err(e),
    }
}

/// `Hash.sha2_256`.
pub fn native_sha2_256<T: StackAccessor>(accessor: &mut T) -> (r: Result<
    CostedReturnType,
    NativeError,
>)
    ensures
        result_is(r, hash_result(NativeFunction::Sha2_256, old(accessor).operands())),
        r is Ok ==> final(accessor).operands() == old(accessor).operands().drop_last(),
{
    match accessor.get_byte_array() {
        Ok(input) => Ok(hash_return(input.len(), sha2_256(&input))),
        Err(e) => Err(e),
    }
}

/// `Hash.sha3_256`.
pub fn native_sha3_256<T: StackAccessor>(accessor: &mut T) -> (r: Result<
    CostedReturnType,
    NativeError,
>)
    ensures
        result_is(r, hash_result(NativeFunction::Sha3_256, old(accessor).operands())),
        r is Ok ==> final(accessor).operands() == old(accessor).operands().drop_last(),
{
    match accessor.get_byte_array() {
        Ok(input) => Ok(hash_return(input.len(), sha3_256(&input))),
        Err(e) => Err(e),
    }
}

/// `AddressUtil.address_to_bytes`.
pub fn native_address_to_bytes<T: StackAccessor>(accessor: &mut T) -> (r: Result<
    CostedReturnType,
    NativeError,
>)
    ensures
        result_is(r, address_to_bytes_result(old(accessor).operands())),
        r is Ok ==> final(accessor).operands() == old(accessor).operands().drop_last(),
{
    match accessor.get_address() {
        Ok(address) => Ok(bytes_return(address.bytes)),
        Err(e) => Err(e),
    }
}

/// `U64Util.u64_to_bytes`.
pub fn native_u64_to_bytes<T: StackAccessor>(accessor: &mut T) -> (r: Result<
    CostedReturnType,
    NativeError,
>)
    ensures
        result_is(r, u64_to_bytes_result(old(accessor).operands())),
        r is Ok ==> final(accessor).operands() == old(accessor).operands().drop_last(),
{
    match accessor.get_u64() {
        Ok(value) => Ok(bytes_return(u64_to_le_bytes(value))),
        Err(e) => Err(e),
    }
}

/// `BytearrayUtil.bytearray_concat`.
pub fn native_bytearray_concat<T: StackAccessor>(accessor: &mut T) -> (r: Result<
    CostedReturnType,
    NativeError,
>)
    ensures
        result_is(r, bytearray_concat_result(old(accessor).operands())),
        r is Ok ==> final(accessor).operands() == old(accessor).operands().drop_last().drop_last(),
{
    let mut second = match accessor.get_byte_array() {
        Ok(bytes) => bytes,
        Err(e) => { return Err(e); },
    };
    let mut joined = match accessor.get_byte_array() {
        Ok(bytes) => bytes,
        Err(e) => { return Err(e); },
    };
    joined.append(&mut second);
    Ok(bytes_return(joined))
}

} // verus!
