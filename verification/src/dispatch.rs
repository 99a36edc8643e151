//! The native dispatch registry, the return envelope and the operand-stack
//! capability.

use crate::natives::{
    address_to_bytes_result, bytearray_concat_result, hash_result, native_address_to_bytes,
    native_bytearray_concat, native_keccak_256, native_ripemd_160, native_sha2_256,
    native_sha3_256, native_u64_to_bytes, u64_to_bytes_result,
};
use vstd::prelude::*;

verus! {

/// An address that owns modules and resources, as raw bytes.
#[derive(Clone, Debug, PartialEq, Eq)]
pub struct AccountAddress {
    pub bytes: Vec<u8>,
}

impl View for AccountAddress {
    type V = Seq<u8>;

    open spec fn view(&self) -> Seq<u8> {
        self.bytes@
    }
}

/// One value on the operand stack, as contracts see it.
pub enum Operand {
    ByteArray(Seq<u8>),
    U64(u64),
    Address(Seq<u8>),
    Bool(bool),
}

/// Why a native call failed.
#[derive(Clone, Debug, PartialEq, Eq)]
pub enum NativeError {
    /// No module of that name is registered.
    UnknownModule(String),
    /// The module is registered, but has no function of that name.
    UnknownFunction(String, String),
    /// The operand on top of the stack is not of the type asked for.
    TypeMismatch,
    /// The stack holds no operand.
    EmptyStack,
}

/// What a failed typed pop reports: `EmptyStack` on an empty stack,
/// `TypeMismatch` where there is a top operand and it is of another type.
pub open spec fn pop_fault(stack: Seq<Operand>, top_fits: bool, e: NativeError) -> bool {
    if stack.len() == 0 {
        e is EmptyStack
    } else {
        !top_fits && e is TypeMismatch
    }
}

/// The capability through which a native function reads its arguments.
///
/// `operands` is the stack, its top last. Each method pops the top operand if
/// it is of the type asked for. What a failed pop leaves on the stack is up
/// to the implementation.
pub trait StackAccessor {
    spec fn operands(&self) -> Seq<Operand>;

    fn get_byte_array(&mut self) -> (r: Result<Vec<u8>, NativeError>)
        ensures
            match r {
                Ok(bytes) => old(self).operands().len() > 0
                    && old(self).operands().last() == Operand::ByteArray(bytes@)
                    && final(self).operands() == old(self).operands().drop_last(),
                Err(e) => pop_fault(
                    old(self).operands(),
                    old(self).operands().last() is ByteArray,
                    e,
                ),
            },
    ;

    fn get_u64(&mut self) -> (r: Result<u64, NativeError>)
        ensures
            match r {
                Ok(value) => old(self).operands().len() > 0
                    && old(self).operands().last() == Operand::U64(value)
                    && final(self).operands() == old(self).operands().drop_last(),
                Err(e) => pop_fault(
                    old(self).operands(),
                    old(self).operands().last() is U64,
                    e,
                ),
            },
    ;

    fn get_address(&mut self) -> (r: Result<AccountAddress, NativeError>)
        ensures
            match r {
                Ok(address) => old(self).operands().len() > 0
                    && old(self).operands().last() == Operand::Address(address@)
                    && final(self).operands() == old(self).operands().drop_last(),
                Err(e) => pop_fault(
                    old(self).operands(),
                    old(self).operands().last() is Address,
                    e,
                ),
            },
    ;

    fn get_bool(&mut self) -> (r: Result<bool, NativeError>)
        ensures
            match r {
                Ok(value) => old(self).operands().len() > 0
                    && old(self).operands().last() == Operand::Bool(value)
                    && final(self).operands() == old(self).operands().drop_last(),
                Err(e) => pop_fault(
                    old(self).operands(),
                    old(self).operands().last() is Bool,
                    e,
                ),
            },
    ;
}

/// The value that a native function hands back, as contracts see it.
pub enum Returned {
    ByteArray(Seq<u8>),
    Bool(bool),
    UInt64(u64),
    Void,
}

/// The value that a native function hands back.
#[derive(Clone, Debug, PartialEq, Eq)]
pub enum NativeReturnType {
    ByteArray(Vec<u8>),
    Bool(bool),
    UInt64(u64),
    Void,
}

impl View for NativeReturnType {
    type V = Returned;

    open spec fn view(&self) -> Returned {
        match self {
            NativeReturnType::ByteArray(bytes) => Returned::ByteArray(bytes@),
            NativeReturnType::Bool(b) => Returned::Bool(*b),
            NativeReturnType::UInt64(n) => Returned::UInt64(*n),
            NativeReturnType::Void => Returned::Void,
        }
    }
}

/// A native function's return value together with what the call costs.
#[derive(Clone, Debug, PartialEq, Eq)]
pub struct CostedReturnType {
    cost: u64,
    return_value: NativeReturnType,
}

impl View for CostedReturnType {
    type V = (u64, Returned);

    closed spec fn view(&self) -> (u64, Returned) {
        (self.cost, self.return_value@)
    }
}

impl CostedReturnType {
    pub fn new(cost: u64, return_value: NativeReturnType) -> (r: Self)
        ensures
            r@ == (cost, return_value@),
    {
        CostedReturnType { cost, return_value }
    }

    pub fn cost(&self) -> (c: u64)
        ensures
            c == self@.0,
    {
        self.cost
    }

    pub fn get_return_value(self) -> (v: NativeReturnType)
        ensures
            v@ == self@.1,
    {
        self.return_value
    }
}

/// A native function of the registry.
#[derive(Clone, Copy, Debug, PartialEq, Eq, Structural)]
pub enum NativeFunction {
    Keccak256,
    Ripemd160,
    Sha2_256,
    Sha3_256,
    Ed25519Verify,
    AddressToBytes,
    U64ToBytes,
    BytearrayConcat,
    DebugPrint,
    DbStore,
    DbUpdate,
    DbRemove,
    DbGet,
    DbNext,
    DbPrevious,
    DbFind,
    DbLowerBound,
    DbUpperBound,
    DbEnd,
    ReadActionData,
    IsAccount,
}

/// The functions that the module `module` registers, by name.
pub open spec fn module_entry(module: Seq<char>, function: Seq<char>) -> Option<NativeFunction> {
    if module == "Hash"@ {
        if function == "keccak256"@ {
            Some(NativeFunction::Keccak256)
        } else if function == "ripemd160"@ {
            Some(NativeFunction::Ripemd160)
        } else if function == "sha2_256"@ {
            Some(NativeFunction::Sha2_256)
        } else if function == "sha3_256"@ {
            Some(NativeFunction::Sha3_256)
        } else {
            None
        }
    } else if module == "Signature"@ {
        if function == "ed25519_verify"@ {
            Some(NativeFunction::Ed25519Verify)
        } else {
            None
        }
    } else if module == "AddressUtil"@ {
        if function == "address_to_bytes"@ {
            Some(NativeFunction::AddressToBytes)
        } else {
            None
        }
    } else if module == "U64Util"@ {
        if function == "u64_to_bytes"@ {
            Some(NativeFunction::U64ToBytes)
        } else {
            None
        }
    } else if module == "BytearrayUtil"@ {
        if function == "bytearray_concat"@ {
            Some(NativeFunction::BytearrayConcat)
        } else {
            None
        }
    } else if module == "Debug"@ {
        if function == "print"@ {
            Some(NativeFunction::DebugPrint)
        } else {
            None
        }
    } else if module == "DB"@ {
        if function == "store_i64"@ {
            Some(NativeFunction::DbStore)
        } else if function == "update_i64"@ {
            Some(NativeFunction::DbUpdate)
        } else if function == "remove_i64"@ {
            Some(NativeFunction::DbRemove)
        } else if function == "get_i64"@ {
            Some(NativeFunction::DbGet)
        } else if function == "next_i64"@ {
            Some(NativeFunction::DbNext)
        } else if function == "previous_i64"@ {
            Some(NativeFunction::DbPrevious)
        } else if function == "find_i64"@ {
            Some(NativeFunction::DbFind)
        } else if function == "lowerbound_i64"@ {
            Some(NativeFunction::DbLowerBound)
        } else if function == "upperbound_i64"@ {
            Some(NativeFunction::DbUpperBound)
        } else if function == "end_i64"@ {
            Some(NativeFunction::DbEnd)
        } else {
            None
        }
    } else if module == "VMAPI"@ {
        if function == "read_action_data"@ {
            Some(NativeFunction::ReadActionData)
        } else if function == "is_account"@ {
            Some(NativeFunction::IsAccount)
        } else {
            None
        }
    } else {
        None
    }
}

/// Whether the registry has a module of that name.
pub open spec fn module_known(module: Seq<char>) -> bool {
    ||| module == "Hash"@
    ||| module == "Signature"@
    ||| module == "AddressUtil"@
    ||| module == "U64Util"@
    ||| module == "BytearrayUtil"@
    ||| module == "Debug"@
    ||| module == "DB"@
    ||| module == "VMAPI"@
}

/// What a lookup of `(module, function)` gives: the registered function,
/// `UnknownModule` with the module's name where no such module is
/// registered, `UnknownFunction` with both names where the module is
/// registered and has no such function.
pub open spec fn lookup_outcome(
    module: Seq<char>,
    function: Seq<char>,
    r: Result<NativeFunction, NativeError>,
) -> bool {
    match r {
        Ok(f) => module_entry(module, function) == Some(f),
        Err(NativeError::UnknownModule(m)) => !module_known(module) && m@ == module,
        Err(NativeError::UnknownFunction(m, f)) => module_known(module) && module_entry(
            module,
            function,
        ) is None && m@ == module && f@ == function,
        Err(_) => false,
    }
}

/// Whether two strings hold the same text.
fn same_text(a: &str, b: &str) -> (r: bool)
    ensures
        r == (a@ == b@),
{
    a.to_owned() == b.to_owned()
}

fn unknown_function(module_name: &str, function_name: &str) -> (r: Result<
    NativeFunction,
    NativeError,
>)
    ensures
        r matches Err(NativeError::UnknownFunction(m, f)) && m@ == module_name@ && f@
            == function_name@,
{
    Err(NativeError::UnknownFunction(module_name.to_owned(), function_name.to_owned()))
}

/// Finds the native function registered under `(module_name, function_name)`.
/// Both names are matched exactly.
pub fn lookup(module_name: &str, function_name: &str) -> (r: Result<NativeFunction, NativeError>)
    ensures
        lookup_outcome(module_name@, function_name@, r),
{
    if same_text(module_name, "Hash") {
        if same_text(function_name, "keccak256") {
            Ok(NativeFunction::Keccak256)
        } else if same_text(function_name, "ripemd160") {
            Ok(NativeFunction::Ripemd160)
        } else if same_text(function_name, "sha2_256") {
            Ok(NativeFunction::Sha2_256)
        } else if same_text(function_name, "sha3_256") {
            Ok(NativeFunction::Sha3_256)
        } else {
            unknown_function(module_name, function_name)
        }
    } else if same_text(module_name, "Signature") {
        if same_text(function_name, "ed25519_verify") {
            Ok(NativeFunction::Ed25519Verify)
        } else {
            unknown_function(module_name, function_name)
        }
    } else if same_text(module_name, "AddressUtil") {
        if same_text(function_name, "address_to_bytes") {
            Ok(NativeFunction::AddressToBytes)
        } else {
            unknown_function(module_name, function_name)
        }
    } else if same_text(module_name, "U64Util") {
        if same_text(function_name, "u64_to_bytes") {
            Ok(NativeFunction::U64ToBytes)
        } else {
            unknown_function(module_name, function_name)
        }
    } else if same_text(module_name, "BytearrayUtil") {
        if same_text(function_name, "bytearray_concat") {
            Ok(NativeFunction::BytearrayConcat)
        } else {
            unknown_function(module_name, function_name)
        }
    } else if same_text(module_name, "Debug") {
        if same_text(function_name, "print") {
            Ok(NativeFunction::DebugPrint)
        } else {
            unknown_function(module_name, function_name)
        }
    } else if same_text(module_name, "DB") {
        if same_text(function_name, "store_i64") {
            Ok(NativeFunction::DbStore)
        } else if same_text(function_name, "update_i64") {
            Ok(NativeFunction::DbUpdate)
        } else if same_text(function_name, "remove_i64") {
            Ok(NativeFunction::DbRemove)
        } else if same_text(function_name, "get_i64") {
            Ok(NativeFunction::DbGet)
        } else if same_text(function_name, "next_i64") {
            Ok(NativeFunction::DbNext)
        } else if same_text(function_name, "previous_i64") {
            Ok(NativeFunction::DbPrevious)
        } else if same_text(function_name, "find_i64") {
            Ok(NativeFunction::DbFind)
        } else if same_text(function_name, "lowerbound_i64") {
            Ok(NativeFunction::DbLowerBound)
        } else if same_text(function_name, "upperbound_i64") {
            Ok(NativeFunction::DbUpperBound)
        } else if same_text(function_name, "end_i64") {
            Ok(NativeFunction::DbEnd)
        } else {
            unknown_function(module_name, function_name)
        }
    } else if same_text(module_name, "VMAPI") {
        if same_text(function_name, "read_action_data") {
            Ok(NativeFunction::ReadActionData)
        } else if same_text(function_name, "is_account") {
            Ok(NativeFunction::IsAccount)
        } else {
            unknown_function(module_name, function_name)
        }
    } else {
        Err(NativeError::UnknownModule(module_name.to_owned()))
    }
}

impl NativeFunction {
    /// Whether the function is a pure computation on its operands, which the
    /// library performs itself. The others need the host: its console, its
    /// key-value store, its accounts, its signature scheme.
    pub open spec fn in_library(self) -> bool {
        self is Keccak256 || self is Ripemd160 || self is Sha2_256 || self is Sha3_256
            || self is AddressToBytes || self is U64ToBytes || self is BytearrayConcat
    }

    /// Computes [`Self::in_library`].
    pub fn runs_in_library(&self) -> (b: bool)
        ensures
            b == self.in_library(),
    {
        match self {
            NativeFunction::Keccak256
            | NativeFunction::Ripemd160
            | NativeFunction::Sha2_256
            | NativeFunction::Sha3_256
            | NativeFunction::AddressToBytes
            | NativeFunction::U64ToBytes
            | NativeFunction::BytearrayConcat => true,
            _ => false,
        }
    }

    /// The number of operands that the function takes, for those that the
    /// library performs.
    pub open spec fn arity(self) -> nat {
        if self is BytearrayConcat {
            2
        } else {
            1
        }
    }

    /// The name of the module that registers the function.
    pub open spec fn module(self) -> Seq<char> {
        match self {
            NativeFunction::Keccak256
            | NativeFunction::Ripemd160
            | NativeFunction::Sha2_256
            | NativeFunction::Sha3_256 => "Hash"@,
            NativeFunction::Ed25519Verify => "Signature"@,
            NativeFunction::AddressToBytes => "AddressUtil"@,
            NativeFunction::U64ToBytes => "U64Util"@,
            NativeFunction::BytearrayConcat => "BytearrayUtil"@,
            NativeFunction::DebugPrint => "Debug"@,
            NativeFunction::DbStore
            | NativeFunction::DbUpdate
            | NativeFunction::DbRemove
            | NativeFunction::DbGet
            | NativeFunction::DbNext
            | NativeFunction::DbPrevious
            | NativeFunction::DbFind
            | NativeFunction::DbLowerBound
            | NativeFunction::DbUpperBound
            | NativeFunction::DbEnd => "DB"@,
            NativeFunction::ReadActionData | NativeFunction::IsAccount => "VMAPI"@,
        }
    }

    /// The name under which the function's module registers it.
    pub open spec fn name(self) -> Seq<char> {
        match self {
            NativeFunction::Keccak256 => "keccak256"@,
            NativeFunction::Ripemd160 => "ripemd160"@,
            NativeFunction::Sha2_256 => "sha2_256"@,
            NativeFunction::Sha3_256 => "sha3_256"@,
            NativeFunction::Ed25519Verify => "ed25519_verify"@,
            NativeFunction::AddressToBytes => "address_to_bytes"@,
            NativeFunction::U64ToBytes => "u64_to_bytes"@,
            NativeFunction::BytearrayConcat => "bytearray_concat"@,
            NativeFunction::DebugPrint => "print"@,
            NativeFunction::DbStore => "store_i64"@,
            NativeFunction::DbUpdate => "update_i64"@,
            NativeFunction::DbRemove => "remove_i64"@,
            NativeFunction::DbGet => "get_i64"@,
            NativeFunction::DbNext => "next_i64"@,
            NativeFunction::DbPrevious => "previous_i64"@,
            NativeFunction::DbFind => "find_i64"@,
            NativeFunction::DbLowerBound => "lowerbound_i64"@,
            NativeFunction::DbUpperBound => "upperbound_i64"@,
            NativeFunction::DbEnd => "end_i64"@,
            NativeFunction::ReadActionData => "read_action_data"@,
            NativeFunction::IsAccount => "is_account"@,
        }
    }

    /// Computes [`Self::module`].
    pub fn module_name(&self) -> (s: &'static str)
        ensures
            s@ == self.module(),
    {
        match self {
            NativeFunction::Keccak256
            | NativeFunction::Ripemd160
            | NativeFunction::Sha2_256
            | NativeFunction::Sha3_256 => "Hash",
            NativeFunction::Ed25519Verify => "Signature",
            NativeFunction::AddressToBytes => "AddressUtil",
            NativeFunction::U64ToBytes => "U64Util",
            NativeFunction::BytearrayConcat => "BytearrayUtil",
            NativeFunction::DebugPrint => "Debug",
            NativeFunction::DbStore
            | NativeFunction::DbUpdate
            | NativeFunction::DbRemove
            | NativeFunction::DbGet
            | NativeFunction::DbNext
            | NativeFunction::DbPrevious
            | NativeFunction::DbFind
            | NativeFunction::DbLowerBound
            | NativeFunction::DbUpperBound
            | NativeFunction::DbEnd => "DB",
            NativeFunction::ReadActionData | NativeFunction::IsAccount => "VMAPI",
        }
    }

    /// Computes [`Self::name`].
    pub fn function_name(&self) -> (s: &'static str)
        ensures
            s@ == self.name(),
    {
        match self {
            NativeFunction::Keccak256 => "keccak256",
            NativeFunction::Ripemd160 => "ripemd160",
            NativeFunction::Sha2_256 => "sha2_256",
            NativeFunction::Sha3_256 => "sha3_256",
            NativeFunction::Ed25519Verify => "ed25519_verify",
            NativeFunction::AddressToBytes => "address_to_bytes",
            NativeFunction::U64ToBytes => "u64_to_bytes",
            NativeFunction::BytearrayConcat => "bytearray_concat",
            NativeFunction::DebugPrint => "print",
            NativeFunction::DbStore => "store_i64",
            NativeFunction::DbUpdate => "update_i64",
            NativeFunction::DbRemove => "remove_i64",
            NativeFunction::DbGet => "get_i64",
            NativeFunction::DbNext => "next_i64",
            NativeFunction::DbPrevious => "previous_i64",
            NativeFunction::DbFind => "find_i64",
            NativeFunction::DbLowerBound => "lowerbound_i64",
            NativeFunction::DbUpperBound => "upperbound_i64",
            NativeFunction::DbEnd => "end_i64",
            NativeFunction::ReadActionData => "read_action_data",
            NativeFunction::IsAccount => "is_account",
        }
    }
}

/// What a dispatched call came to.
#[derive(Clone, Debug, PartialEq, Eq)]
pub enum NativeOutcome {
    /// The library performed the function: its envelope.
    Completed(CostedReturnType),
    /// The function needs the host. The caller performs it, with the
    /// accessor, which was not touched.
    HostCall(NativeFunction),
}

/// What the function `function`, one that the library performs, returns on
/// `stack`.
pub open spec fn native_result(function: NativeFunction, stack: Seq<Operand>) -> Result<
    (u64, Returned),
    NativeError,
>
    recommends
        function.in_library(),
{
    match function {
        NativeFunction::AddressToBytes => address_to_bytes_result(stack),
        NativeFunction::U64ToBytes => u64_to_bytes_result(stack),
        NativeFunction::BytearrayConcat => bytearray_concat_result(stack),
        _ => hash_result(function, stack),
    }
}

/// What running `function` on `stack` gives: for a function of the library
/// its result, for another the request to the host.
pub open spec fn run_outcome(
    function: NativeFunction,
    stack: Seq<Operand>,
    r: Result<NativeOutcome, NativeError>,
) -> bool {
    match r {
        Ok(NativeOutcome::Completed(costed)) => function.in_library() && native_result(
            function,
            stack,
        ) == Ok::<(u64, Returned), NativeError>(costed@),
        Ok(NativeOutcome::HostCall(f)) => !function.in_library() && f == function,
        Err(e) => function.in_library() && native_result(function, stack) == Err::<
            (u64, Returned),
            NativeError,
        >(e),
    }
}

/// What the stack is after running `function` on `before` with result `r`: a
/// completed call has taken its operands off, a request to the host has
/// taken nothing. After an error the accessor decides.
pub open spec fn stack_after(
    function: NativeFunction,
    before: Seq<Operand>,
    after: Seq<Operand>,
    r: Result<NativeOutcome, NativeError>,
) -> bool {
    match r {
        Ok(NativeOutcome::Completed(_)) => after == before.take(before.len() - function.arity()),
        Ok(NativeOutcome::HostCall(_)) => after == before,
        Err(_) => true,
    }
}

/// Runs `function` with the accessor if the library performs it, and
/// otherwise hands it on to the host.
pub fn run_native<T: StackAccessor>(function: NativeFunction, accessor: &mut T) -> (r: Result<
    NativeOutcome,
    NativeError,
>)
    ensures
        run_outcome(function, old(accessor).operands(), r),
        stack_after(function, old(accessor).operands(), final(accessor).operands(), r),
{
    let ghost before = accessor.operands();
    let result = match function {
        NativeFunction::Keccak256 => native_keccak_256(accessor),
        NativeFunction::Ripemd160 => native_ripemd_160(accessor),
        NativeFunction::Sha2_256 => native_sha2_256(accessor),
        NativeFunction::Sha3_256 => native_sha3_256(accessor),
        NativeFunction::AddressToBytes => native_address_to_bytes(accessor),
        NativeFunction::U64ToBytes => native_u64_to_bytes(accessor),
        NativeFunction::BytearrayConcat => native_bytearray_concat(accessor),
        _ => { return Ok(NativeOutcome::HostCall(function)); },
    };
    match result {
        Ok(costed) => {
            assert(accessor.operands() =~= before.take(before.len() - function.arity()));
            Ok(NativeOutcome::Completed(costed))
        },
        Err(e) => Err(e),
    }
}

/// What dispatching `(module, function)` on `stack` gives: the outcome of
/// the registered function, or the error of the lookup.
pub open spec fn dispatch_outcome(
    module: Seq<char>,
    function: Seq<char>,
    stack: Seq<Operand>,
    r: Result<NativeOutcome, NativeError>,
) -> bool {
    match module_entry(module, function) {
        Some(f) => run_outcome(f, stack, r),
        None => r is Err && lookup_outcome(
            module,
            function,
            Err::<NativeFunction, NativeError>(r->Err_0),
        ),
    }
}

/// The single entry point of native calls: finds the function registered
/// under `(module_name, function_name)` and runs it with the accessor.
///
/// A pair that is not registered is an error and leaves the accessor alone.
pub fn dispatch_native_call<T: StackAccessor>(
    accessor: &mut T,
    module_name: &str,
    function_name: &str,
) -> (r: Result<NativeOutcome, NativeError>)
    ensures
        dispatch_outcome(module_name@, function_name@, old(accessor).operands(), r),
        match module_entry(module_name@, function_name@) {
            Some(f) => stack_after(
                f,
                old(accessor).operands(),
                final(accessor).operands(),
                r,
            ),
            None => final(accessor).operands() == old(accessor).operands(),
        },
{
    match lookup(module_name, function_name) {
        Ok(function) => run_native(function, accessor),
        Err(e) => Err(e),
    }
}

/// The text of every module name is known.
proof fn lemma_module_names()
    ensures
        "Hash"@.len() == 4,
        "Signature"@.len() == 9,
        "AddressUtil"@.len() == 11,
        "U64Util"@.len() == 7,
        "BytearrayUtil"@.len() == 13,
        "Debug"@.len() == 5,
        "DB"@.len() == 2,
        "VMAPI"@.len() == 5,
        "Debug"@[0] == 'D',
        "VMAPI"@[0] == 'V',
{
    reveal_strlit("Hash");
    reveal_strlit("Signature");
    reveal_strlit("AddressUtil");
    reveal_strlit("U64Util");
    reveal_strlit("BytearrayUtil");
    reveal_strlit("Debug");
    reveal_strlit("DB");
    reveal_strlit("VMAPI");
}

/// The function names of one module differ from each other.
proof fn lemma_function_names()
    ensures
        "keccak256"@ != "ripemd160"@,
        "keccak256"@ != "sha2_256"@,
        "keccak256"@ != "sha3_256"@,
        "ripemd160"@ != "sha2_256"@,
        "ripemd160"@ != "sha3_256"@,
        "sha2_256"@ != "sha3_256"@,
        "read_action_data"@ != "is_account"@,
        "store_i64"@.len() == 9,
        "update_i64"@.len() == 10 && "update_i64"@[0] == 'u',
        "remove_i64"@.len() == 10 && "remove_i64"@[0] == 'r',
        "get_i64"@.len() == 7 && "get_i64"@[0] == 'g',
        "next_i64"@.len() == 8 && "next_i64"@[0] == 'n',
        "previous_i64"@.len() == 12,
        "find_i64"@.len() == 8 && "find_i64"@[0] == 'f',
        "lowerbound_i64"@.len() == 14 && "lowerbound_i64"@[0] == 'l',
        "upperbound_i64"@.len() == 14 && "upperbound_i64"@[0] == 'u',
        "end_i64"@.len() == 7 && "end_i64"@[0] == 'e',
{
    reveal_strlit("keccak256");
    reveal_strlit("ripemd160");
    reveal_strlit("sha2_256");
    reveal_strlit("sha3_256");
    reveal_strlit("read_action_data");
    reveal_strlit("is_account");
    reveal_strlit("store_i64");
    reveal_strlit("update_i64");
    reveal_strlit("remove_i64");
    reveal_strlit("get_i64");
    reveal_strlit("next_i64");
    reveal_strlit("previous_i64");
    reveal_strlit("find_i64");
    reveal_strlit("lowerbound_i64");
    reveal_strlit("upperbound_i64");
    reveal_strlit("end_i64");
    assert("read_action_data"@.len() == 16 && "is_account"@.len() == 10);
    assert("keccak256"@[0] == 'k' && "ripemd160"@[0] == 'r');
    assert("sha2_256"@[3] == '2' && "sha3_256"@[3] == '3');
}

/// Every function of the registry is found under its own module and name,
/// and under no other: no entry hides another.
pub proof fn lemma_registry_finds_each(f: NativeFunction)
    ensures
        module_known(f.module()),
        module_entry(f.module(), f.name()) == Some(f),
        forall|module: Seq<char>, function: Seq<char>|
            module_entry(module, function) == Some(f) ==> module == f.module() && function
                == f.name(),
{
    lemma_module_names();
    lemma_function_names();
}

/// A pair of names that is not registered is refused, whatever the stack
/// holds: with `UnknownFunction` where the module is registered, with
/// `UnknownModule` where it is not. Nothing is run and no value comes back.
pub proof fn lemma_unregistered_pair_is_refused(
    module: Seq<char>,
    function: Seq<char>,
    stack: Seq<Operand>,
    r: Result<NativeOutcome, NativeError>,
)
    requires
        module_entry(module, function) is None,
        dispatch_outcome(module, function, stack, r),
    ensures
        r is Err,
        module_known(module) ==> r->Err_0 is UnknownFunction,
        !module_known(module) ==> r->Err_0 is UnknownModule,
{
}

/// A registered pair is never refused as unknown.
pub proof fn lemma_registered_pair_is_served(
    module: Seq<char>,
    function: Seq<char>,
    stack: Seq<Operand>,
    r: Result<NativeOutcome, NativeError>,
)
    requires
        module_entry(module, function) is Some,
        dispatch_outcome(module, function, stack, r),
    ensures
        module_known(module),
        r matches Err(e) ==> e is EmptyStack || e is TypeMismatch,
{
}

/// A function of the library that finds too few operands, or one of the
/// wrong type, reports it: `EmptyStack` on an empty stack, and on any stack
/// no error but `EmptyStack` and `TypeMismatch`. With fewer operands than it
/// takes it fails.
pub proof fn lemma_bad_stack_is_reported(f: NativeFunction, stack: Seq<Operand>)
    requires
        f.in_library(),
    ensures
        stack.len() == 0 ==> native_result(f, stack) == Err::<(u64, Returned), NativeError>(
            NativeError::EmptyStack,
        ),
        stack.len() < f.arity() ==> native_result(f, stack) is Err,
        native_result(f, stack) matches Err(e) ==> e is EmptyStack || e is TypeMismatch,
        native_result(f, stack) matches Ok(costed) ==> costed.0 > 0 && stack.len() >= f.arity(),
{
}

/// Whether two outcomes of a dispatch are the same: the same envelope, the
/// same request to the host, or the same error with the same names.
pub open spec fn same_outcome(
    a: Result<NativeOutcome, NativeError>,
    b: Result<NativeOutcome, NativeError>,
) -> bool {
    match (a, b) {
        (Ok(NativeOutcome::Completed(x)), Ok(NativeOutcome::Completed(y))) => x@ == y@,
        (Ok(NativeOutcome::HostCall(f)), Ok(NativeOutcome::HostCall(g))) => f == g,
        (Err(NativeError::UnknownModule(m)), Err(NativeError::UnknownModule(n))) => m@ == n@,
        (Err(NativeError::UnknownFunction(m, f)), Err(NativeError::UnknownFunction(n, g))) => m@
            == n@ && f@ == g@,
        (Err(NativeError::TypeMismatch), Err(NativeError::TypeMismatch)) => true,
        (Err(NativeError::EmptyStack), Err(NativeError::EmptyStack)) => true,
        _ => false,
    }
}

/// Dispatch is a function of the two names and the stack: it keeps no state,
/// and two calls on the same inputs come to the same outcome.
pub proof fn lemma_dispatch_is_a_function(
    module: Seq<char>,
    function: Seq<char>,
    stack: Seq<Operand>,
    a: Result<NativeOutcome, NativeError>,
    b: Result<NativeOutcome, NativeError>,
)
    requires
        dispatch_outcome(module, function, stack, a),
        dispatch_outcome(module, function, stack, b),
    ensures
        same_outcome(a, b),
{
}

} // verus!
