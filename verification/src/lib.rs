//! Native-function dispatch and standard-library bootstrap rules of a
//! bytecode virtual machine for smart contracts.
//!
//! * [`dispatch`] holds the registry that maps a `(module, function)` name
//!   pair to a native function, the return envelope and the operand-stack
//!   capability through which a native function reads its arguments.
//! * [`natives`] holds the native functions that are pure computations.
//! * [`digest`] holds the hash primitives.
//! * [`stack`] holds a plain operand stack.
//! * [`bootstrap`] holds the fixed order of the standard-library modules and
//!   the rules that drive their compilation and verification.
//! * [`cache`] holds the cache of the modules' syntax trees.

pub mod bootstrap;
pub mod cache;
pub mod digest;
pub mod dispatch;
pub mod natives;
pub mod stack;
