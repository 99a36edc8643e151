//! A plain operand stack.

use crate::dispatch::{AccountAddress, NativeError, Operand, StackAccessor};
use vstd::prelude::*;

verus! {

/// One value on an [`OperandStack`].
#[derive(Clone, Debug, PartialEq, Eq)]
pub enum StackValue {
    ByteArray(Vec<u8>),
    U64(u64),
    Address(AccountAddress),
    Bool(bool),
}

impl View for StackValue {
    type V = Operand;

    open spec fn view(&self) -> Operand {
        match self {
            StackValue::ByteArray(bytes) => Operand::ByteArray(bytes@),
            StackValue::U64(n) => Operand::U64(*n),
            StackValue::Address(a) => Operand::Address(a@),
            StackValue::Bool(b) => Operand::Bool(*b),
        }
    }
}

/// An operand stack held in a vector, its top last.
///
/// A pop that fails leaves the stack as it was.
#[derive(Clone, Debug)]
pub struct OperandStack {
    values: Vec<StackValue>,
}

impl View for OperandStack {
    type V = Seq<Operand>;

    closed spec fn view(&self) -> Seq<Operand> {
        self.values@.map_values(|v: StackValue| v@)
    }
}

impl OperandStack {
    /// The empty stack.
    pub fn new() -> (s: Self)
        ensures
            s@ == Seq::<Operand>::empty(),
    {
        let s = OperandStack { values: Vec::new() };
        assert(s@ =~= Seq::<Operand>::empty());
        s
    }

    /// Puts `value` on top.
    pub fn push(&mut self, value: StackValue)
        ensures
            final(self)@ == old(self)@.push(value@),
    {
        self.values.push(value);
        assert(self@ =~= old(self)@.push(value@));
    }

    /// The number of operands.
    pub fn len(&self) -> (n: usize)
        ensures
            n == self@.len(),
    {
        self.values.len()
    }
}

impl StackAccessor for OperandStack {
    open spec fn operands(&self) -> Seq<Operand> {
        self@
    }

    fn get_byte_array(&mut self) -> (r: Result<Vec<u8>, NativeError>)
        ensures
            r is Err ==> final(self)@ == old(self)@,
    {
        match self.values.pop() {
            None => Err(NativeError::EmptyStack),
            Some(StackValue::ByteArray(bytes)) => {
                assert(self@ =~= old(self)@.drop_last());
                Ok(bytes)
            },
            Some(other) => {
                self.values.push(other);
                assert(self.values@ =~= old(self).values@);
                Err(NativeError::TypeMismatch)
            },
        }
    }

    fn get_u64(&mut self) -> (r: Result<u64, NativeError>)
        ensures
            r is Err ==> final(self)@ == old(self)@,
    {
        match self.values.pop() {
            None => Err(NativeError::EmptyStack),
            Some(StackValue::U64(value)) => {
                assert(self@ =~= old(self)@.drop_last());
                Ok(value)
            },
            Some(other) => {
                self.values.push(other);
                assert(self.values@ =~= old(self).values@);
                Err(NativeError::TypeMismatch)
            },
        }
    }

    fn get_address(&mut self) -> (r: Result<AccountAddress, NativeError>)
        ensures
            r is Err ==> final(self)@ == old(self)@,
    {
        match self.values.pop() {
            None => Err(NativeError::EmptyStack),
            Some(StackValue::Address(address)) => {
                assert(self@ =~= old(self)@.drop_last());
                Ok(address)
            },
            Some(other) => {
                self.values.push(other);
                assert(self.values@ =~= old(self).values@);
                Err(NativeError::TypeMismatch)
            },
        }
    }

    fn get_bool(&mut self) -> (r: Result<bool, NativeError>)
        ensures
            r is Err ==> final(self)@ == old(self)@,
    {
        match self.values.pop() {
            None => Err(NativeError::EmptyStack),
            Some(StackValue::Bool(value)) => {
                assert(self@ =~= old(self)@.drop_last());
                Ok(value)
            },
            Some(other) => {
                self.values.push(other);
                assert(self.values@ =~= old(self).values@);
                Err(NativeError::TypeMismatch)
            },
        }
    }
}

} // verus!
