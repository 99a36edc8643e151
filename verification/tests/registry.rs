use stdlib_natives::dispatch::{
    dispatch_native_call, lookup, run_native, AccountAddress, CostedReturnType, NativeError,
    NativeFunction, NativeOutcome, NativeReturnType, StackAccessor,
};
use stdlib_natives::natives::{
    bytes_return, charge_for, hash_return, native_address_to_bytes, native_bytearray_concat,
    native_keccak_256, native_ripemd_160, native_sha2_256, native_sha3_256, native_u64_to_bytes,
    CONVERSION_COST, HASH_COST,
};
use stdlib_natives::stack::{OperandStack, StackValue};

fn hex(text: &str) -> Vec<u8> {
    let digits: Vec<u32> = text.chars().map(|c| c.to_digit(16).unwrap()).collect();
    digits.chunks(2).map(|pair| (pair[0] * 16 + pair[1]) as u8).collect()
}

fn stack_of(values: Vec<StackValue>) -> OperandStack {
    let mut stack = OperandStack::new();
    for value in values {
        stack.push(value);
    }
    stack
}

fn completed(outcome: Result<NativeOutcome, NativeError>) -> (u64, NativeReturnType) {
    match outcome {
        Ok(NativeOutcome::Completed(costed)) => (costed.cost(), costed.get_return_value()),
        other => panic!("the call did not complete: {:?}", other),
    }
}

const ALL: [NativeFunction; 21] = [
    NativeFunction::Keccak256,
    NativeFunction::Ripemd160,
    NativeFunction::Sha2_256,
    NativeFunction::Sha3_256,
    NativeFunction::Ed25519Verify,
    NativeFunction::AddressToBytes,
    NativeFunction::U64ToBytes,
    NativeFunction::BytearrayConcat,
    NativeFunction::DebugPrint,
    NativeFunction::DbStore,
    NativeFunction::DbUpdate,
    NativeFunction::DbRemove,
    NativeFunction::DbGet,
    NativeFunction::DbNext,
    NativeFunction::DbPrevious,
    NativeFunction::DbFind,
    NativeFunction::DbLowerBound,
    NativeFunction::DbUpperBound,
    NativeFunction::DbEnd,
    NativeFunction::ReadActionData,
    NativeFunction::IsAccount,
];

#[test]
fn sha3_256_of_one_byte_array() {
    let mut stack = stack_of(vec![StackValue::ByteArray(b"abc".to_vec())]);
    let (cost, value) = completed(dispatch_native_call(&mut stack, "Hash", "sha3_256"));
    assert!(cost > 0);
    assert_eq!(cost, 33);
    assert_eq!(
        value,
        NativeReturnType::ByteArray(hex(
            "3a985da74fe225b2045c172d6bd390bd855f086e3e9d525b46bfe24511431532"
        ))
    );
    assert_eq!(stack.len(), 0);
}

#[test]
fn sha3_256_of_the_empty_byte_array_still_costs() {
    let mut stack = stack_of(vec![StackValue::ByteArray(Vec::new())]);
    let (cost, value) = completed(dispatch_native_call(&mut stack, "Hash", "sha3_256"));
    assert_eq!(cost, HASH_COST);
    assert_eq!(
        value,
        NativeReturnType::ByteArray(hex(
            "a7ffc6f8bf1ed76651c14756a061d662f580ff4de43b49fa82d80a4b80f8434a"
        ))
    );
}

#[test]
fn keccak256_digest() {
    let mut stack = stack_of(vec![StackValue::ByteArray(b"abc".to_vec())]);
    let (cost, value) = completed(dispatch_native_call(&mut stack, "Hash", "keccak256"));
    assert_eq!(cost, 33);
    assert_eq!(
        value,
        NativeReturnType::ByteArray(hex(
            "4e03657aea45a94fc7d47ba826c8d667c0d1e6e33a64a036ec44f58fa12d6c45"
        ))
    );
}

#[test]
fn sha2_256_digest() {
    let mut stack = stack_of(vec![StackValue::ByteArray(b"abc".to_vec())]);
    let (cost, value) = completed(dispatch_native_call(&mut stack, "Hash", "sha2_256"));
    assert_eq!(cost, 33);
    assert_eq!(
        value,
        NativeReturnType::ByteArray(hex(
            "ba7816bf8f01cfea414140de5dae2223b00361a396177a9cb410ff61f20015ad"
        ))
    );
}

#[test]
fn ripemd160_digest() {
    let mut stack = stack_of(vec![StackValue::ByteArray(b"abc".to_vec())]);
    let (cost, value) = completed(dispatch_native_call(&mut stack, "Hash", "ripemd160"));
    assert_eq!(cost, 33);
    assert_eq!(
        value,
        NativeReturnType::ByteArray(hex("8eb208f7e05d987a9b044a8e98c6b087f15a0bfc"))
    );
}

#[test]
fn the_four_hashes_differ_and_change_their_input() {
    let input = b"abc".to_vec();
    let mut digests: Vec<Vec<u8>> = Vec::new();
    for name in ["keccak256", "ripemd160", "sha2_256", "sha3_256"] {
        let mut stack = stack_of(vec![StackValue::ByteArray(input.clone())]);
        match completed(dispatch_native_call(&mut stack, "Hash", name)).1 {
            NativeReturnType::ByteArray(digest) => digests.push(digest),
            other => panic!("not a byte array: {:?}", other),
        }
    }
    for (i, digest) in digests.iter().enumerate() {
        assert_ne!(digest, &input);
        for other in digests.iter().skip(i + 1) {
            assert_ne!(digest, other);
        }
    }
    assert_eq!(digests[0].len(), 32);
    assert_eq!(digests[1].len(), 20);
    assert_eq!(digests[2].len(), 32);
    assert_eq!(digests[3].len(), 32);
}

#[test]
fn handlers_called_directly_agree_with_dispatch() {
    let mut stack = stack_of(vec![StackValue::ByteArray(Vec::new())]);
    let costed = native_keccak_256(&mut stack).unwrap();
    assert_eq!(costed.cost(), 30);
    assert_eq!(
        costed.get_return_value(),
        NativeReturnType::ByteArray(hex(
            "c5d2460186f7233c927e7db2dcc703c0e500b653ca82273b7bfad8045d85a470"
        ))
    );
    let mut stack = stack_of(vec![StackValue::ByteArray(Vec::new())]);
    assert_eq!(
        native_ripemd_160(&mut stack).unwrap().get_return_value(),
        NativeReturnType::ByteArray(hex("9c1185a5c5e9fc54612808977ee8f548b2258d31"))
    );
    let mut stack = stack_of(vec![StackValue::ByteArray(Vec::new())]);
    assert_eq!(
        native_sha2_256(&mut stack).unwrap().get_return_value(),
        NativeReturnType::ByteArray(hex(
            "e3b0c44298fc1c149afbf4c8996fb92427ae41e4649b934ca495991b7852b855"
        ))
    );
    let mut stack = stack_of(vec![StackValue::ByteArray(Vec::new())]);
    assert_eq!(
        native_sha3_256(&mut stack).unwrap().get_return_value(),
        NativeReturnType::ByteArray(hex(
            "a7ffc6f8bf1ed76651c14756a061d662f580ff4de43b49fa82d80a4b80f8434a"
        ))
    );
}

#[test]
fn unknown_module() {
    let mut stack = stack_of(vec![StackValue::U64(7)]);
    assert_eq!(
        dispatch_native_call(&mut stack, "Foo", "bar"),
        Err(NativeError::UnknownModule("Foo".to_string()))
    );
    assert_eq!(stack.len(), 1);
}

#[test]
fn unknown_function_of_a_known_module() {
    let mut stack = stack_of(vec![StackValue::ByteArray(vec![1])]);
    assert_eq!(
        dispatch_native_call(&mut stack, "Hash", "sha3_512"),
        Err(NativeError::UnknownFunction("Hash".to_string(), "sha3_512".to_string()))
    );
    assert_eq!(stack.len(), 1);
}

#[test]
fn names_are_case_sensitive_and_exact() {
    assert_eq!(lookup("hash", "sha3_256"), Err(NativeError::UnknownModule("hash".to_string())));
    assert_eq!(
        lookup("Hash", "SHA3_256"),
        Err(NativeError::UnknownFunction("Hash".to_string(), "SHA3_256".to_string()))
    );
    assert_eq!(lookup("", ""), Err(NativeError::UnknownModule(String::new())));
    assert_eq!(lookup("Hash ", "sha3_256"), Err(NativeError::UnknownModule("Hash ".to_string())));
    assert_eq!(
        lookup("DB", ""),
        Err(NativeError::UnknownFunction("DB".to_string(), String::new()))
    );
}

#[test]
fn a_function_is_not_found_in_another_module() {
    assert_eq!(
        lookup("Signature", "sha3_256"),
        Err(NativeError::UnknownFunction("Signature".to_string(), "sha3_256".to_string()))
    );
    assert_eq!(
        lookup("VMAPI", "print"),
        Err(NativeError::UnknownFunction("VMAPI".to_string(), "print".to_string()))
    );
}

#[test]
fn every_function_is_found_under_its_own_names() {
    for function in ALL {
        assert_eq!(lookup(function.module_name(), function.function_name()), Ok(function));
    }
}

#[test]
fn no_two_functions_share_their_names() {
    for (i, a) in ALL.iter().enumerate() {
        for b in ALL.iter().skip(i + 1) {
            assert!(
                a.module_name() != b.module_name() || a.function_name() != b.function_name()
            );
        }
    }
}

#[test]
fn registry_names() {
    assert_eq!(lookup("Hash", "keccak256"), Ok(NativeFunction::Keccak256));
    assert_eq!(lookup("Hash", "ripemd160"), Ok(NativeFunction::Ripemd160));
    assert_eq!(lookup("Hash", "sha2_256"), Ok(NativeFunction::Sha2_256));
    assert_eq!(lookup("Hash", "sha3_256"), Ok(NativeFunction::Sha3_256));
    assert_eq!(lookup("Signature", "ed25519_verify"), Ok(NativeFunction::Ed25519Verify));
    assert_eq!(lookup("AddressUtil", "address_to_bytes"), Ok(NativeFunction::AddressToBytes));
    assert_eq!(lookup("U64Util", "u64_to_bytes"), Ok(NativeFunction::U64ToBytes));
    assert_eq!(lookup("BytearrayUtil", "bytearray_concat"), Ok(NativeFunction::BytearrayConcat));
    assert_eq!(lookup("Debug", "print"), Ok(NativeFunction::DebugPrint));
    assert_eq!(lookup("DB", "store_i64"), Ok(NativeFunction::DbStore));
    assert_eq!(lookup("DB", "update_i64"), Ok(NativeFunction::DbUpdate));
    assert_eq!(lookup("DB", "remove_i64"), Ok(NativeFunction::DbRemove));
    assert_eq!(lookup("DB", "get_i64"), Ok(NativeFunction::DbGet));
    assert_eq!(lookup("DB", "next_i64"), Ok(NativeFunction::DbNext));
    assert_eq!(lookup("DB", "previous_i64"), Ok(NativeFunction::DbPrevious));
    assert_eq!(lookup("DB", "find_i64"), Ok(NativeFunction::DbFind));
    assert_eq!(lookup("DB", "lowerbound_i64"), Ok(NativeFunction::DbLowerBound));
    assert_eq!(lookup("DB", "upperbound_i64"), Ok(NativeFunction::DbUpperBound));
    assert_eq!(lookup("DB", "end_i64"), Ok(NativeFunction::DbEnd));
    assert_eq!(lookup("VMAPI", "read_action_data"), Ok(NativeFunction::ReadActionData));
    assert_eq!(lookup("VMAPI", "is_account"), Ok(NativeFunction::IsAccount));
}

#[test]
fn host_functions_are_handed_on_untouched() {
    for function in ALL {
        let mut stack = stack_of(vec![StackValue::U64(1), StackValue::Bool(true)]);
        let outcome =
            dispatch_native_call(&mut stack, function.module_name(), function.function_name());
        if function.runs_in_library() {
            assert_eq!(outcome, Err(NativeError::TypeMismatch));
        } else {
            assert_eq!(outcome, Ok(NativeOutcome::HostCall(function)));
        }
        assert_eq!(stack.len(), 2);
    }
}

#[test]
fn seven_functions_run_in_the_library() {
    let count = ALL.iter().filter(|f| f.runs_in_library()).count();
    assert_eq!(count, 7);
    assert!(!NativeFunction::Ed25519Verify.runs_in_library());
    assert!(!NativeFunction::DebugPrint.runs_in_library());
    assert!(NativeFunction::BytearrayConcat.runs_in_library());
}

#[test]
fn empty_stack_is_reported_by_every_library_function() {
    for function in ALL {
        if function.runs_in_library() {
            let mut stack = OperandStack::new();
            assert_eq!(run_native(function, &mut stack), Err(NativeError::EmptyStack));
        }
    }
}

#[test]
fn mismatched_operand_is_reported() {
    let mut stack = stack_of(vec![StackValue::U64(5)]);
    assert_eq!(
        dispatch_native_call(&mut stack, "Hash", "sha3_256"),
        Err(NativeError::TypeMismatch)
    );
    let mut stack = stack_of(vec![StackValue::ByteArray(vec![5])]);
    assert_eq!(
        dispatch_native_call(&mut stack, "U64Util", "u64_to_bytes"),
        Err(NativeError::TypeMismatch)
    );
    let mut stack = stack_of(vec![StackValue::Bool(false)]);
    assert_eq!(
        dispatch_native_call(&mut stack, "AddressUtil", "address_to_bytes"),
        Err(NativeError::TypeMismatch)
    );
}

#[test]
fn u64_to_bytes_is_little_endian() {
    let mut stack = stack_of(vec![StackValue::U64(0x0102_0304_0506_0708)]);
    let (cost, value) = completed(dispatch_native_call(&mut stack, "U64Util", "u64_to_bytes"));
    assert_eq!(cost, 9);
    assert_eq!(value, NativeReturnType::ByteArray(vec![8, 7, 6, 5, 4, 3, 2, 1]));
    let mut stack = stack_of(vec![StackValue::U64(1)]);
    assert_eq!(
        native_u64_to_bytes(&mut stack).unwrap().get_return_value(),
        NativeReturnType::ByteArray(vec![1, 0, 0, 0, 0, 0, 0, 0])
    );
}

#[test]
fn address_to_bytes_returns_the_bytes() {
    let address = AccountAddress { bytes: vec![0xAB; 32] };
    let mut stack = stack_of(vec![StackValue::U64(3), StackValue::Address(address)]);
    let (cost, value) =
        completed(dispatch_native_call(&mut stack, "AddressUtil", "address_to_bytes"));
    assert_eq!(cost, 33);
    assert_eq!(value, NativeReturnType::ByteArray(vec![0xAB; 32]));
    assert_eq!(stack.len(), 1);
    let mut empty = OperandStack::new();
    assert_eq!(native_address_to_bytes(&mut empty), Err(NativeError::EmptyStack));
}

#[test]
fn bytearray_concat_keeps_the_order_of_its_arguments() {
    let mut stack = stack_of(vec![
        StackValue::Bool(true),
        StackValue::ByteArray(vec![1, 2]),
        StackValue::ByteArray(vec![3]),
    ]);
    let (cost, value) =
        completed(dispatch_native_call(&mut stack, "BytearrayUtil", "bytearray_concat"));
    assert_eq!(cost, 4);
    assert_eq!(value, NativeReturnType::ByteArray(vec![1, 2, 3]));
    assert_eq!(stack.len(), 1);
    assert_eq!(stack.get_bool(), Ok(true));
}

#[test]
fn bytearray_concat_with_one_operand_short() {
    let mut stack = stack_of(vec![StackValue::ByteArray(vec![3])]);
    assert_eq!(native_bytearray_concat(&mut stack), Err(NativeError::EmptyStack));
    let mut stack = stack_of(vec![StackValue::U64(1), StackValue::ByteArray(vec![3])]);
    assert_eq!(native_bytearray_concat(&mut stack), Err(NativeError::TypeMismatch));
    let mut stack = stack_of(vec![StackValue::ByteArray(vec![3]), StackValue::U64(1)]);
    assert_eq!(native_bytearray_concat(&mut stack), Err(NativeError::TypeMismatch));
}

#[test]
fn bytearray_concat_of_two_empty_arrays() {
    let mut stack =
        stack_of(vec![StackValue::ByteArray(Vec::new()), StackValue::ByteArray(Vec::new())]);
    let (cost, value) = completed(run_native(NativeFunction::BytearrayConcat, &mut stack));
    assert_eq!(cost, CONVERSION_COST);
    assert_eq!(value, NativeReturnType::ByteArray(Vec::new()));
}

#[test]
fn cost_is_flat_part_plus_bytes_and_saturates() {
    assert_eq!(charge_for(30, 0), 30);
    assert_eq!(charge_for(30, 100), 130);
    assert_eq!(charge_for(0, 0), 0);
    assert_eq!(charge_for(u64::MAX, 5), u64::MAX);
    assert_eq!(charge_for(u64::MAX - 5, 5), u64::MAX);
    assert_eq!(charge_for(u64::MAX - 5, 4), u64::MAX - 1);
}

#[test]
fn envelopes() {
    let costed = hash_return(10, vec![9, 9]);
    assert_eq!(costed.cost(), 40);
    assert_eq!(costed.get_return_value(), NativeReturnType::ByteArray(vec![9, 9]));
    let costed = bytes_return(vec![1, 2, 3]);
    assert_eq!(costed.cost(), 4);
    assert_eq!(costed.get_return_value(), NativeReturnType::ByteArray(vec![1, 2, 3]));
    let void = CostedReturnType::new(0, NativeReturnType::Void);
    assert_eq!(void.cost(), 0);
    assert_eq!(void.get_return_value(), NativeReturnType::Void);
    let flag = CostedReturnType::new(u64::MAX, NativeReturnType::Bool(true));
    assert_eq!(flag.cost(), u64::MAX);
    assert_eq!(flag.get_return_value(), NativeReturnType::Bool(true));
    let number = CostedReturnType::new(7, NativeReturnType::UInt64(11));
    assert_eq!(number.get_return_value(), NativeReturnType::UInt64(11));
}

#[test]
fn operand_stack_pops_in_reverse_order_of_pushes() {
    let mut stack = stack_of(vec![
        StackValue::ByteArray(vec![1]),
        StackValue::U64(2),
        StackValue::Address(AccountAddress { bytes: vec![3] }),
        StackValue::Bool(true),
    ]);
    assert_eq!(stack.len(), 4);
    assert_eq!(stack.get_bool(), Ok(true));
    assert_eq!(stack.get_address(), Ok(AccountAddress { bytes: vec![3] }));
    assert_eq!(stack.get_u64(), Ok(2));
    assert_eq!(stack.get_byte_array(), Ok(vec![1]));
    assert_eq!(stack.get_byte_array(), Err(NativeError::EmptyStack));
    assert_eq!(stack.get_u64(), Err(NativeError::EmptyStack));
    assert_eq!(stack.get_address(), Err(NativeError::EmptyStack));
    assert_eq!(stack.get_bool(), Err(NativeError::EmptyStack));
}

#[test]
fn operand_stack_keeps_a_mismatched_operand() {
    let mut stack = stack_of(vec![StackValue::U64(2)]);
    assert_eq!(stack.get_bool(), Err(NativeError::TypeMismatch));
    assert_eq!(stack.get_byte_array(), Err(NativeError::TypeMismatch));
    assert_eq!(stack.get_address(), Err(NativeError::TypeMismatch));
    assert_eq!(stack.len(), 1);
    assert_eq!(stack.get_u64(), Ok(2));
    assert_eq!(stack.len(), 0);
}

#[test]
fn dispatch_is_a_function_of_its_inputs() {
    let mut first = stack_of(vec![StackValue::ByteArray(vec![4, 5, 6])]);
    let mut second = first.clone();
    assert_eq!(
        dispatch_native_call(&mut first, "Hash", "sha2_256"),
        dispatch_native_call(&mut second, "Hash", "sha2_256")
    );
}
