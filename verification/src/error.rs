//! Why compiling or loading a module failed.

use vstd::prelude::*;

verus! {

/// What an engine lacks for the operation that was asked of it.
#[derive(Clone, Copy, Debug, PartialEq, Eq, Structural)]
pub enum Capability {
    /// The engine is headless: it has no code-generation backend, so it can
    /// only load executables that were compiled elsewhere.
    Compiler,
    /// The host lacks instruction-set capabilities that the code assumes; the
    /// missing ones are the bits set.
    CpuFeatures(u64),
}

/// A failure to generate or place code.
#[derive(Clone, Debug, PartialEq, Eq)]
pub enum CodegenError {
    /// The backend failed; the message is its own.
    Backend(String),
    /// The body of the local function `index` is `length` bytes long, more
    /// than the 32 bits of a resolved function entry can hold.
    FunctionTooLarge { index: usize, length: usize },
    /// The value of a relocation does not fit in the bytes that it patches.
    RelocationOutOfRange,
}

/// A failure to get code memory.
#[derive(Clone, Copy, Debug, PartialEq, Eq, Structural)]
pub enum ResourceError {
    /// The memory pool cannot hand out `requested` bytes: only `available`
    /// are left of its budget.
    PoolExhausted { requested: usize, available: usize },
    /// The code does not fit in the address space.
    CodeTooLarge,
    /// The registry of function types has no room for the types of the
    /// module: handles have 32 bits.
    RegistryFull,
}

/// Why compiling or loading a module failed.
#[derive(Clone, Debug, PartialEq, Eq)]
pub enum CompileError {
    /// The module is malformed or invalid; the message is the translator's.
    Wasm(String),
    /// Code could not be generated or placed.
    Codegen(CodegenError),
    /// Code memory could not be had.
    Resource(ResourceError),
    /// The engine or the host lacks what the operation needs.
    MissingCapability(Capability),
    /// The parts of the executable do not fit one another.
    CorruptExecutable,
}

} // verus!
