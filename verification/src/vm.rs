//! What a loaded module hands to the layer that instantiates it: handles to
//! code in published memory, resolved function entries, and resolved
//! imports.

use crate::module::{ModuleInfo, ModuleView};
use crate::registry::VMSharedSignatureIndex;
use crate::types::{GlobalType, MemoryStyle, MemoryType, TableType};
use vstd::prelude::*;

verus! {

/// A handle to the first byte of a function body in code memory. Only
/// loading makes one, from the offset that the body was written at.
#[derive(Clone, Copy, Debug, PartialEq, Eq)]
pub struct FunctionBodyPtr {
    offset: usize,
}

/// A handle to the first byte of a custom section in code memory. Only
/// loading makes one.
#[derive(Clone, Copy, Debug, PartialEq, Eq)]
pub struct SectionBodyPtr {
    offset: usize,
}

/// A handle to a call trampoline in code memory. Only loading makes one.
#[derive(Clone, Copy, Debug, PartialEq, Eq)]
pub struct VMTrampoline {
    offset: usize,
}

impl View for FunctionBodyPtr {
    type V = int;

    closed spec fn view(&self) -> int {
        self.offset as int
    }
}

impl View for SectionBodyPtr {
    type V = int;

    closed spec fn view(&self) -> int {
        self.offset as int
    }
}

impl View for VMTrampoline {
    type V = int;

    closed spec fn view(&self) -> int {
        self.offset as int
    }
}

impl FunctionBodyPtr {
    /// The handle of the body that was written at `offset`.
    pub(crate) fn new(offset: usize) -> (handle: FunctionBodyPtr)
        ensures
            handle@ == offset,
    {
        FunctionBodyPtr { offset }
    }

    /// The offset of the body in the code memory of its module.
    pub fn offset(&self) -> (offset: usize)
        ensures
            offset == self@,
    {
        self.offset
    }
}

impl SectionBodyPtr {
    /// The handle of the section that was written at `offset`.
    pub(crate) fn new(offset: usize) -> (handle: SectionBodyPtr)
        ensures
            handle@ == offset,
    {
        SectionBodyPtr { offset }
    }

    /// The offset of the section in the code memory of its module.
    pub fn offset(&self) -> (offset: usize)
        ensures
            offset == self@,
    {
        self.offset
    }
}

impl VMTrampoline {
    /// The handle of the trampoline that was written at `offset`.
    pub(crate) fn new(offset: usize) -> (handle: VMTrampoline)
        ensures
            handle@ == offset,
    {
        VMTrampoline { offset }
    }

    /// The offset of the trampoline in the code memory of its module.
    pub fn offset(&self) -> (offset: usize)
        ensures
            offset == self@,
    {
        self.offset
    }
}

/// The resolved entry of a function that a module defines.
#[derive(Clone, Copy, Debug, PartialEq, Eq)]
pub struct VMLocalFunction {
    /// Where the body is.
    pub body: FunctionBodyPtr,
    /// The length of the body in bytes.
    pub length: u32,
    /// The handle of the function's type in the engine's registry.
    pub signature: VMSharedSignatureIndex,
    /// The call trampoline for the function's type.
    pub trampoline: VMTrampoline,
}

/// What a `VMLocalFunction` is in contracts.
pub struct VMLocalFunctionView {
    pub body: int,
    pub length: u32,
    pub signature: VMSharedSignatureIndex,
    pub trampoline: int,
}

impl View for VMLocalFunction {
    type V = VMLocalFunctionView;

    open spec fn view(&self) -> VMLocalFunctionView {
        VMLocalFunctionView {
            body: self.body@,
            length: self.length,
            signature: self.signature,
            trampoline: self.trampoline@,
        }
    }
}

/// The resolved type of an import.
#[derive(Clone, Copy, Debug, PartialEq, Eq)]
pub enum VMImportType {
    /// A function: the handle of its type and the call trampoline for it.
    Function { sig: VMSharedSignatureIndex, static_trampoline: VMTrampoline },
    Table(TableType),
    Memory(MemoryType, MemoryStyle),
    Global(GlobalType),
}

/// What a `VMImportType` is in contracts.
pub enum VMImportTypeView {
    Function { sig: VMSharedSignatureIndex, static_trampoline: int },
    Table(TableType),
    Memory(MemoryType, MemoryStyle),
    Global(GlobalType),
}

impl View for VMImportType {
    type V = VMImportTypeView;

    open spec fn view(&self) -> VMImportTypeView {
        match self {
            VMImportType::Function { sig, static_trampoline } => VMImportTypeView::Function {
                sig: *sig,
                static_trampoline: static_trampoline@,
            },
            VMImportType::Table(ty) => VMImportTypeView::Table(*ty),
            VMImportType::Memory(ty, style) => VMImportTypeView::Memory(*ty, *style),
            VMImportType::Global(ty) => VMImportTypeView::Global(*ty),
        }
    }
}

/// A resolved import: where it comes from, its slot, and its type.
#[derive(Clone, Debug, PartialEq, Eq)]
pub struct VMImport {
    pub module: String,
    pub field: String,
    pub import_no: u32,
    pub ty: VMImportType,
}

/// What a `VMImport` is in contracts.
pub struct VMImportView {
    pub module: Seq<char>,
    pub field: Seq<char>,
    pub import_no: u32,
    pub ty: VMImportTypeView,
}

impl View for VMImport {
    type V = VMImportView;

    open spec fn view(&self) -> VMImportView {
        VMImportView {
            module: self.module@,
            field: self.field@,
            import_no: self.import_no,
            ty: self.ty@,
        }
    }
}

/// The shape of the object that the host keeps for an instance of a module:
/// the size of a pointer and how many entries each of its tables has.
#[derive(Clone, Copy, Debug, PartialEq, Eq, Structural)]
pub struct VMOffsets {
    pub pointer_size: u8,
    pub num_signature_ids: u32,
    pub num_imported_functions: u32,
    pub num_imported_tables: u32,
    pub num_imported_memories: u32,
    pub num_imported_globals: u32,
    pub num_local_tables: u32,
    pub num_local_memories: u32,
    pub num_local_globals: u32,
}

impl VMOffsets {
    /// The shape of the instance object of `module` on a host with pointers
    /// of `pointer_size` bytes.
    pub open spec fn of_module(pointer_size: u8, module: ModuleView) -> VMOffsets {
        VMOffsets {
            pointer_size,
            num_signature_ids: module.signatures.len() as u32,
            num_imported_functions: module.import_counts.functions,
            num_imported_tables: module.import_counts.tables,
            num_imported_memories: module.import_counts.memories,
            num_imported_globals: module.import_counts.globals,
            num_local_tables: (module.tables.len() - module.import_counts.tables) as u32,
            num_local_memories: (module.memories.len() - module.import_counts.memories) as u32,
            num_local_globals: (module.globals.len() - module.import_counts.globals) as u32,
        }
    }

    /// The size of a pointer of the host, in bytes.
    pub open spec fn host_pointer_size() -> u8 {
        (usize::BITS / 8) as u8
    }

    /// The shape of an instance object with no entries, on this host.
    pub fn for_host() -> (offsets: VMOffsets)
        ensures
            offsets == (VMOffsets {
                pointer_size: VMOffsets::host_pointer_size(),
                num_signature_ids: 0,
                num_imported_functions: 0,
                num_imported_tables: 0,
                num_imported_memories: 0,
                num_imported_globals: 0,
                num_local_tables: 0,
                num_local_memories: 0,
                num_local_globals: 0,
            }),
    {
        VMOffsets {
            pointer_size: (usize::BITS / 8) as u8,
            num_signature_ids: 0,
            num_imported_functions: 0,
            num_imported_tables: 0,
            num_imported_memories: 0,
            num_imported_globals: 0,
            num_local_tables: 0,
            num_local_memories: 0,
            num_local_globals: 0,
        }
    }

    /// The same shape with the entries that `module` needs.
    pub fn with_module_info(self, module: &ModuleInfo) -> (offsets: VMOffsets)
        requires
            module@.consistent(),
        ensures
            offsets == VMOffsets::of_module(self.pointer_size, module@),
    {
        let counts = module.import_counts;
        VMOffsets {
            pointer_size: self.pointer_size,
            num_signature_ids: module.signatures.len() as u32,
            num_imported_functions: counts.functions,
            num_imported_tables: counts.tables,
            num_imported_memories: counts.memories,
            num_imported_globals: counts.globals,
            num_local_tables: (module.tables.len() - counts.tables as usize) as u32,
            num_local_memories: (module.memories.len() - counts.memories as usize) as u32,
            num_local_globals: (module.globals.len() - counts.globals as usize) as u32,
        }
    }
}

/// The identity of an engine.
#[derive(Clone, Copy, Debug, PartialEq, Eq, Structural)]
pub struct EngineId(pub u64);

} // verus!
