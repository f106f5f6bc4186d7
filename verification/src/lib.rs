//! Loading compiled WebAssembly modules: laying out code memory, writing
//! and linking code, and assembling the artifact that is ready to run.

pub mod align;
pub mod allocate;
pub mod artifact;
pub mod code_memory;
pub mod engine;
pub mod error;
pub mod executable;
pub mod layout;
pub mod link;
pub mod loader;
pub mod module;
pub mod placement;
pub mod registry;
pub mod section;
pub mod types;
pub mod vm;

pub use align::round_up;
pub use artifact::UniversalArtifact;
pub use code_memory::{CodeMemory, LimitedMemoryPool};
pub use engine::{Compiler, Tunables, UniversalEngine, UniversalEngineInner};
pub use error::CompileError;
pub use executable::{UniversalExecutable, UniversalExecutableRef};
pub use layout::function_allocation_size;
