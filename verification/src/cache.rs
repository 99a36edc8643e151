//! The cache of the standard-library modules' syntax trees: one tree for
//! each module, put in once and read from then on.
//!
//! The cache does not care what a tree is. Whoever parses the sources builds
//! the cache, once, and hands it to the readers by reference; a reader that
//! wants a tree to change copies the one it is given.

use crate::bootstrap::{stdlib_order, StdlibModule, STDLIB_SIZE};
use vstd::prelude::*;

verus! {

/// One tree for each module of the standard library.
pub struct ModuleCache<A> {
    trees: Vec<A>,
}

impl<A> ModuleCache<A> {
    #[verifier::type_invariant]
    spec fn complete(&self) -> bool {
        self.trees@.len() == STDLIB_SIZE
    }

    /// The tree that the cache holds for `module`.
    pub closed spec fn tree(&self, module: StdlibModule) -> A {
        self.trees@[module.place()]
    }

    /// Makes the cache from the modules' trees, given in the build order.
    /// There is no cache of fewer trees, nor of more.
    pub fn new(trees: Vec<A>) -> (cache: Option<Self>)
        ensures
            cache is Some <==> trees@.len() == STDLIB_SIZE,
            cache matches Some(c) ==> forall|module: StdlibModule| #[trigger]
                c.tree(module) == trees@[module.place()],
    {
        if trees.len() == STDLIB_SIZE {
            Some(ModuleCache { trees })
        } else {
            None
        }
    }

    /// The tree of `module`.
    pub fn get(&self, module: StdlibModule) -> (tree: &A)
        ensures
            *tree == self.tree(module),
    {
        proof {
            use_type_invariant(self);
        }
        &self.trees[module.position()]
    }
}

/// Two modules share a tree's place only if they are one module: no accessor
/// can hand out the tree of another module.
pub proof fn lemma_each_module_has_its_own_place(a: StdlibModule, b: StdlibModule)
    ensures
        0 <= a.place() < STDLIB_SIZE,
        stdlib_order()[a.place()] == a,
        a.place() == b.place() <==> a == b,
{
}

/// The syntax tree of the module of the account model.
pub fn account_module<A>(cache: &ModuleCache<A>) -> (tree: &A)
    ensures
        *tree == cache.tree(StdlibModule::LibraAccount),
{
    cache.get(StdlibModule::LibraAccount)
}

/// The syntax tree of the module of the native coin.
pub fn coin_module<A>(cache: &ModuleCache<A>) -> (tree: &A)
    ensures
        *tree == cache.tree(StdlibModule::LibraCoin),
{
    cache.get(StdlibModule::LibraCoin)
}

/// The syntax tree of the module of the hashes.
pub fn native_hash_module<A>(cache: &ModuleCache<A>) -> (tree: &A)
    ensures
        *tree == cache.tree(StdlibModule::Hash),
{
    cache.get(StdlibModule::Hash)
}

/// The syntax tree of the module of signature verification.
pub fn signature_module<A>(cache: &ModuleCache<A>) -> (tree: &A)
    ensures
        *tree == cache.tree(StdlibModule::Signature),
{
    cache.get(StdlibModule::Signature)
}

/// The syntax tree of the module of the validator set.
pub fn validator_set_module<A>(cache: &ModuleCache<A>) -> (tree: &A)
    ensures
        *tree == cache.tree(StdlibModule::ValidatorSet),
{
    cache.get(StdlibModule::ValidatorSet)
}

/// The syntax tree of the module of the address conversions.
pub fn address_util_module<A>(cache: &ModuleCache<A>) -> (tree: &A)
    ensures
        *tree == cache.tree(StdlibModule::AddressUtil),
{
    cache.get(StdlibModule::AddressUtil)
}

/// The syntax tree of the module of the integer conversions.
pub fn u64_util_module<A>(cache: &ModuleCache<A>) -> (tree: &A)
    ensures
        *tree == cache.tree(StdlibModule::U64Util),
{
    cache.get(StdlibModule::U64Util)
}

/// The syntax tree of the module of the byte-array operations.
pub fn bytearray_util_module<A>(cache: &ModuleCache<A>) -> (tree: &A)
    ensures
        *tree == cache.tree(StdlibModule::BytearrayUtil),
{
    cache.get(StdlibModule::BytearrayUtil)
}

/// The syntax tree of the module of debug printing.
pub fn debug_module<A>(cache: &ModuleCache<A>) -> (tree: &A)
    ensures
        *tree == cache.tree(StdlibModule::Debug),
{
    cache.get(StdlibModule::Debug)
}

/// The syntax tree of the module of the key-value store.
pub fn db_module<A>(cache: &ModuleCache<A>) -> (tree: &A)
    ensures
        *tree == cache.tree(StdlibModule::Db),
{
    cache.get(StdlibModule::Db)
}

} // verus!
