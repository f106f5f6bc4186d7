//! Loading: from an executable to an artifact. What loading gives, stated
//! over the executable and the state of the engine, and the steps that
//! resolve signatures, imports and local declarations.

use crate::allocate::AllocationRequest;
use crate::artifact::ArtifactView;
use crate::code_memory::{CodeMemoryView, PoolView};
use crate::error::{Capability, CodegenError, CompileError, ResourceError};
use crate::executable::ExecutableView;
use crate::layout::{lemma_image_len, CodeLayout};
use crate::link::{lemma_linked_len, LinkContext};
use crate::module::{ModuleInfo, ModuleView};
use crate::registry::{
    handle_of, intern, lemma_handle_is_index, lemma_intern, SignatureRegistry,
    VMSharedSignatureIndex,
};
use crate::types::{
    distinct, views, FunctionType, FunctionTypeView, GlobalInit, GlobalType, ImportIndex,
    MemoryStyle, MemoryType, SignatureIndex, TableStyle, TableType,
};
use crate::vm::{
    EngineId, VMImport, VMImportType, VMImportTypeView, VMImportView, VMOffsets, VMTrampoline,
};
use vstd::prelude::*;

verus! {

/// The registry after the first `n` of `types` are registered, in order.
pub open spec fn registered_all(
    entries: Seq<FunctionTypeView>,
    types: Seq<FunctionTypeView>,
    n: int,
) -> Seq<FunctionTypeView>
    decreases n,
{
    if n <= 0 {
        entries
    } else {
        intern(registered_all(entries, types, n - 1), types[n - 1])
    }
}

/// Registering types keeps the entries distinct and where they were, and
/// adds one entry for each type at most. The handle that a type is given
/// when it is registered is its handle ever after.
pub proof fn lemma_registered_all(
    entries: Seq<FunctionTypeView>,
    types: Seq<FunctionTypeView>,
    k: int,
    n: int,
)
    requires
        distinct(entries),
        0 <= k < n,
    ensures
        distinct(registered_all(entries, types, n)),
        entries.len() <= registered_all(entries, types, n).len() <= entries.len() + n,
        forall|i: int| 0 <= i < entries.len() ==> registered_all(entries, types, n)[i] == entries[i],
        registered_all(entries, types, n).contains(types[k]),
        handle_of(registered_all(entries, types, n), types[k]) == handle_of(
            registered_all(entries, types, k),
            types[k],
        ),
    decreases n,
{
    lemma_registered_keeps(entries, types, n - 1);
    let before = registered_all(entries, types, n - 1);
    let after = registered_all(entries, types, n);
    lemma_intern(before, types[n - 1]);
    if k == n - 1 {
        lemma_handle_is_index(after, handle_of(before, types[k]));
    } else {
        lemma_registered_all(entries, types, k, n - 1);
        let h = handle_of(before, types[k]);
        assert(before[h] == types[k]);
        lemma_handle_is_index(after, h);
    }
}

/// Registering types keeps the entries distinct and where they were, and
/// adds one entry for each type at most.
pub proof fn lemma_registered_keeps(
    entries: Seq<FunctionTypeView>,
    types: Seq<FunctionTypeView>,
    n: int,
)
    requires
        distinct(entries),
    ensures
        distinct(registered_all(entries, types, n)),
        entries.len() <= registered_all(entries, types, n).len(),
        n >= 0 ==> registered_all(entries, types, n).len() <= entries.len() + n,
        n < 0 ==> registered_all(entries, types, n) == entries,
        forall|i: int| 0 <= i < entries.len() ==> registered_all(entries, types, n)[i] == entries[i],
    decreases n,
{
    if n > 0 {
        lemma_registered_keeps(entries, types, n - 1);
        lemma_intern(registered_all(entries, types, n - 1), types[n - 1]);
    }
}

/// What loading starts from: what is registered, what the pool has, the
/// identity of the engine and the capabilities of its target, the
/// executable, and the address at which the first byte of the code memory
/// will be when the code runs.
pub struct LoadInput {
    pub signatures: Seq<FunctionTypeView>,
    pub pool: PoolView,
    pub engine_id: EngineId,
    pub cpu_features: u64,
    pub executable: ExecutableView,
    pub base: int,
}

impl LoadInput {
    /// The description of the module.
    pub open spec fn module(self) -> ModuleView {
        self.executable.module
    }

    /// What the values of relocations depend on.
    pub open spec fn context(self) -> LinkContext {
        LinkContext {
            executable: self.executable,
            page_size: self.pool.page_size,
            base: self.base,
        }
    }

    /// Where the parts of the executable go.
    pub open spec fn layout(self) -> CodeLayout {
        self.context().layout()
    }

    /// The instruction-set capabilities that the code assumes and the target
    /// lacks, one bit each.
    pub open spec fn missing_cpu_features(self) -> u64 {
        self.executable.cpu_features & !self.cpu_features
    }

    /// Whether the executable is refused before anything is registered: the
    /// target lacks a capability, the parts of the executable do not fit one
    /// another, or the registry has no room.
    pub open spec fn refused(self) -> bool {
        self.missing_cpu_features() != 0 || !self.executable.consistent() || self.registry_full()
    }

    /// Whether the registry has no room for the module's function types:
    /// handles have 32 bits.
    pub open spec fn registry_full(self) -> bool {
        self.signatures.len() + self.module().signatures.len() > u32::MAX
    }

    /// The registry once the module's function types are registered.
    pub open spec fn registry(self) -> Seq<FunctionTypeView> {
        registered_all(
            self.signatures,
            self.module().signatures,
            self.module().signatures.len() as int,
        )
    }

    /// The handle of the `k`-th function type of the module.
    pub open spec fn signature_handle(self, k: int) -> VMSharedSignatureIndex {
        VMSharedSignatureIndex(handle_of(self.registry(), self.module().signatures[k]) as u32)
    }

    /// What is allocated for the executable.
    pub open spec fn request(self) -> AllocationRequest {
        AllocationRequest {
            local_functions: self.executable.function_bodies,
            call_trampolines: self.executable.function_call_trampolines,
            dynamic_trampolines: self.executable.dynamic_function_trampolines,
            custom_sections: self.executable.custom_sections,
            function_signature: Seq::new(
                self.executable.function_bodies.len(),
                |i: int|
                    (
                        self.module().local_signature(i),
                        self.signature_handle(self.module().local_signature(i).0 as int),
                    ),
            ),
            pool: self.pool,
        }
    }

    /// Why loading fails, if it does: the target lacks a capability that the
    /// code assumes; or the parts of the executable do not fit one another;
    /// or the registry has no room for the module's function types; or the
    /// code cannot be allocated; or the value of a relocation cannot be
    /// written.
    pub open spec fn error(self) -> Option<CompileError> {
        if self.missing_cpu_features() != 0 {
            Some(
                CompileError::MissingCapability(
                    Capability::CpuFeatures(self.missing_cpu_features()),
                ),
            )
        } else if !self.executable.consistent() {
            Some(CompileError::CorruptExecutable)
        } else if self.registry_full() {
            Some(CompileError::Resource(ResourceError::RegistryFull))
        } else {
            match self.request().error() {
                Some(error) => Some(error),
                None => if self.context().in_range() {
                    None
                } else {
                    Some(CompileError::Codegen(CodegenError::RelocationOutOfRange))
                },
            }
        }
    }

    /// The registry after loading: the module's function types are
    /// registered unless the executable is refused at once.
    pub open spec fn registry_after(self) -> Seq<FunctionTypeView> {
        if self.refused() {
            self.signatures
        } else {
            self.registry()
        }
    }

    /// The pool after loading: it has handed out the code memory where
    /// loading succeeds, and has what it had where loading fails.
    pub open spec fn pool_after(self) -> PoolView {
        if self.error() is None {
            PoolView { available: self.pool.available - self.layout().total_size(), ..self.pool }
        } else {
            self.pool
        }
    }

    /// The resolved type of the `i`-th import.
    pub open spec fn import_type(self, i: int) -> VMImportTypeView {
        let module = self.module();
        match module.imports[i].index {
            ImportIndex::Function(index) => VMImportTypeView::Function {
                sig: self.signature_handle(module.functions[index.0 as int].0 as int),
                static_trampoline: self.layout().body_offset(
                    module.functions[index.0 as int].0 as int,
                ),
            },
            ImportIndex::Table(index) => VMImportTypeView::Table(module.tables[index.0 as int]),
            ImportIndex::Memory(index) => VMImportTypeView::Memory(
                module.memories[index.0 as int],
                self.executable.memory_styles[index.0 as int],
            ),
            ImportIndex::Global(index) => VMImportTypeView::Global(module.globals[index.0 as int]),
        }
    }

    /// The `i`-th import, resolved.
    pub open spec fn import(self, i: int) -> VMImportView {
        VMImportView {
            module: self.module().imports[i].module,
            field: self.module().imports[i].field,
            import_no: self.module().imports[i].import_no,
            ty: self.import_type(i),
        }
    }

    /// The memories that the module defines, each with its style.
    pub open spec fn local_memories(self) -> Seq<(MemoryType, MemoryStyle)> {
        let first = self.module().import_counts.memories as int;
        Seq::new(
            (self.module().memories.len() - first) as nat,
            |i: int| (self.module().memories[first + i], self.executable.memory_styles[first + i]),
        )
    }

    /// The tables that the module defines, each with its style.
    pub open spec fn local_tables(self) -> Seq<(TableType, TableStyle)> {
        let first = self.module().import_counts.tables as int;
        Seq::new(
            (self.module().tables.len() - first) as nat,
            |i: int| (self.module().tables[first + i], self.executable.table_styles[first + i]),
        )
    }

    /// The globals that the module defines, each with its initializer.
    pub open spec fn local_globals(self) -> Seq<(GlobalType, GlobalInit)> {
        let first = self.module().import_counts.globals as int;
        Seq::new(
            (self.module().globals.len() - first) as nat,
            |i: int| (self.module().globals[first + i], self.module().global_initializers[i]),
        )
    }

    /// The artifact that loading gives where it does not fail.
    pub open spec fn artifact(self) -> ArtifactView {
        let request = self.request();
        ArtifactView {
            engine_id: self.engine_id,
            code_memory: CodeMemoryView {
                bytes: self.context().linked(self.layout().image()),
                position: self.layout().written_end(),
                executable_end: self.layout().executable_end(),
                published: true,
            },
            import_counts: self.module().import_counts,
            start_function: self.module().start_function,
            vmoffsets: VMOffsets::of_module(VMOffsets::host_pointer_size(), self.module()),
            imports: Seq::new(self.module().imports.len(), |i: int| self.import(i)),
            dynamic_function_trampolines: Seq::new(
                self.executable.dynamic_function_trampolines.len(),
                |d: int| request.dynamic_trampoline(d),
            ),
            functions: Seq::new(
                self.executable.function_bodies.len(),
                |i: int| request.function(i),
            ),
            exports: self.module().exports,
            signatures: Seq::new(
                self.module().signatures.len(),
                |k: int| self.signature_handle(k),
            ),
            local_memories: self.local_memories(),
            local_tables: self.local_tables(),
            local_globals: self.local_globals(),
            custom_sections: Seq::new(
                self.executable.custom_sections.len(),
                |s: int| self.layout().section_offset(s),
            ),
            data_segments: self.executable.data_initializers,
            passive_data: self.module().passive_data,
            element_segments: self.module().table_initializers,
            passive_elements: self.module().passive_elements,
        }
    }
}

/// The code memory of a loaded module has exactly the size of its layout:
/// the slots of its function bodies and executable sections, rounded up to
/// a page, and the slots of its data sections. The pool has handed out that
/// many bytes and no more, and the memory is published.
pub proof fn lemma_loaded_size(input: LoadInput)
    requires
        input.pool.wf(),
        input.error() is None,
    ensures
        input.artifact().code_memory.bytes.len() == input.layout().total_size(),
        input.artifact().code_memory.published,
        input.pool_after().available == input.pool.available - input.layout().total_size(),
        0 <= input.pool_after().available,
{
    lemma_image_len(input.layout());
    lemma_linked_len(input.context(), input.layout().image());
    assert(input.request().layout() == input.layout());
}

/// Modules that are loaded on one engine share the handles of their
/// function types: a type that an earlier module declared has, in a later
/// module that declares it too, the handle that it had in the earlier one.
pub proof fn lemma_modules_share_handles(earlier: LoadInput, later: LoadInput, i: int, j: int)
    requires
        distinct(earlier.signatures),
        later.signatures == earlier.registry(),
        0 <= i < earlier.module().signatures.len(),
        0 <= j < later.module().signatures.len(),
        earlier.module().signatures[i] == later.module().signatures[j],
    ensures
        later.signature_handle(j) == earlier.signature_handle(i),
{
    let ty = earlier.module().signatures[i];
    let first = earlier.registry();
    let second = later.registry();
    lemma_registered_all(
        earlier.signatures,
        earlier.module().signatures,
        i,
        earlier.module().signatures.len() as int,
    );
    let h = handle_of(first, ty);
    assert(first[h] == ty);
    lemma_registered_keeps(first, later.module().signatures, later.module().signatures.len() as int);
    lemma_handle_is_index(second, h);
}

/// Registers the function types of a module, in order, and gives the handle
/// of each.
pub(crate) fn register_signatures(
    registry: &mut SignatureRegistry,
    types: &Vec<FunctionType>,
) -> (handles: Vec<VMSharedSignatureIndex>)
    requires
        old(registry).wf(),
        old(registry)@.len() + types.len() <= u32::MAX,
    ensures
        final(registry).wf(),
        final(registry)@ == registered_all(old(registry)@, views(types@), types.len() as int),
        handles@.len() == types.len(),
        forall|k: int|
            0 <= k < types.len() ==> (#[trigger] handles@[k]).0 == handle_of(
                final(registry)@,
                views(types@)[k],
            ),
{
    let ghost entries = registry@;
    let ghost all = views(types@);
    let mut handles: Vec<VMSharedSignatureIndex> = Vec::new();
    let mut k: usize = 0;
    while k < types.len()
        invariant
            k <= types.len(),
            entries == old(registry)@,
            all == views(types@),
            distinct(entries),
            entries.len() + types.len() <= u32::MAX,
            registry.wf(),
            registry@ == registered_all(entries, all, k as int),
            handles@.len() == k,
            forall|j: int|
                0 <= j < k ==> (#[trigger] handles@[j]).0 == handle_of(
                    registered_all(entries, all, j),
                    all[j],
                ),
        decreases types.len() - k,
    {
        proof {
            lemma_registered_keeps(entries, all, k as int);
        }
        let handle = registry.register(&types[k]);
        handles.push(handle);
        k = k + 1;
    }
    proof {
        assert forall|j: int| 0 <= j < types.len() implies (#[trigger] handles@[j]).0 == handle_of(
            registry@,
            all[j],
        ) by {
            lemma_registered_all(entries, all, j, types.len() as int);
        }
    }
    handles
}

/// For each function that the module defines, the index of its type in the
/// module and the handle of that type.
pub(crate) fn function_signatures(
    module: &ModuleInfo,
    handles: &Vec<VMSharedSignatureIndex>,
) -> (pairs: Vec<(SignatureIndex, VMSharedSignatureIndex)>)
    requires
        module@.consistent(),
        handles@.len() == module@.signatures.len(),
    ensures
        pairs@ == Seq::new(
            module@.local_functions() as nat,
            |i: int|
                (
                    module@.local_signature(i),
                    handles@[module@.local_signature(i).0 as int],
                ),
        ),
{
    let first = module.import_counts.functions as usize;
    let count = module.functions.len() - first;
    let mut pairs: Vec<(SignatureIndex, VMSharedSignatureIndex)> = Vec::new();
    let mut i: usize = 0;
    while i < count
        invariant
            i <= count,
            module@.consistent(),
            handles@.len() == module@.signatures.len(),
            first == module@.import_counts.functions,
            count == module@.local_functions(),
            pairs@.len() == i,
            forall|k: int|
                0 <= k < i ==> (#[trigger] pairs@[k]) == (
                    module@.local_signature(k),
                    handles@[module@.local_signature(k).0 as int],
                ),
        decreases count - i,
    {
        let sig_idx = module.functions[first + i];
        assert((#[trigger] module@.functions[first + i]).0 < module@.signatures.len());
        pairs.push((sig_idx, handles[sig_idx.0 as usize]));
        i = i + 1;
    }
    assert(pairs@ =~= Seq::new(
        module@.local_functions() as nat,
        |i: int| (module@.local_signature(i), handles@[module@.local_signature(i).0 as int]),
    ));
    pairs
}

/// Resolves the imports of a module: a function import gets the handle of
/// its type and the call trampoline for it, the others their declared types.
pub(crate) fn resolve_imports(
    module: &ModuleInfo,
    memory_styles: &Vec<MemoryStyle>,
    handles: &Vec<VMSharedSignatureIndex>,
    trampolines: &Vec<VMTrampoline>,
    Ghost(input): Ghost<LoadInput>,
) -> (imports: Vec<VMImport>)
    requires
        input.executable.consistent(),
        input.module() == module@,
        input.executable.memory_styles == memory_styles@,
        handles@ == Seq::new(input.module().signatures.len(), |k: int| input.signature_handle(k)),
        views(trampolines@) == Seq::new(
            input.module().signatures.len(),
            |t: int| input.layout().body_offset(t),
        ),
    ensures
        views(imports@) == Seq::new(input.module().imports.len(), |i: int| input.import(i)),
{
    let mut imports: Vec<VMImport> = Vec::new();
    let mut i: usize = 0;
    while i < module.imports.len()
        invariant
            i <= module.imports.len(),
            input.executable.consistent(),
            input.module() == module@,
            input.executable.memory_styles == memory_styles@,
            handles@ == Seq::new(
                input.module().signatures.len(),
                |k: int| input.signature_handle(k),
            ),
            views(trampolines@) == Seq::new(
                input.module().signatures.len(),
                |t: int| input.layout().body_offset(t),
            ),
            imports@.len() == i,
            forall|k: int| 0 <= k < i ==> (#[trigger] imports@[k])@ == input.import(k),
        decreases module.imports.len() - i,
    {
        let import = &module.imports[i];
        assert((#[trigger] module@.imports[i as int]).index.in_range(module@));
        assert(module@.imports[i as int] == import@);
        assert(views(trampolines@).len() == trampolines@.len());
        let ty = match import.index {
            ImportIndex::Function(index) => {
                let sig_idx = module.functions[index.0 as usize];
                assert((#[trigger] module@.functions[index.0 as int]).0
                    < module@.signatures.len());
                assert(views(trampolines@)[sig_idx.0 as int] == input.layout().body_offset(
                    sig_idx.0 as int,
                ));
                assert(trampolines@[sig_idx.0 as int]@ == views(trampolines@)[sig_idx.0 as int]);
                assert(handles@[sig_idx.0 as int] == input.signature_handle(sig_idx.0 as int));
                VMImportType::Function {
                    sig: handles[sig_idx.0 as usize],
                    static_trampoline: trampolines[sig_idx.0 as usize],
                }
            },
            ImportIndex::Table(index) => VMImportType::Table(module.tables[index.0 as usize]),
            ImportIndex::Memory(index) => VMImportType::Memory(
                module.memories[index.0 as usize],
                memory_styles[index.0 as usize],
            ),
            ImportIndex::Global(index) => VMImportType::Global(module.globals[index.0 as usize]),
        };
        assert(ty@ == input.import_type(i as int));
        imports.push(
            VMImport {
                module: import.module.clone(),
                field: import.field.clone(),
                import_no: import.import_no,
                ty,
            },
        );
        i = i + 1;
    }
    assert(views(imports@) =~= Seq::new(
        input.module().imports.len(),
        |i: int| input.import(i),
    ));
    imports
}

/// The memories that the module defines, each with its style.
pub(crate) fn local_memories(
    module: &ModuleInfo,
    styles: &Vec<MemoryStyle>,
    Ghost(input): Ghost<LoadInput>,
) -> (local: Vec<(MemoryType, MemoryStyle)>)
    requires
        input.executable.consistent(),
        input.module() == module@,
        input.executable.memory_styles == styles@,
    ensures
        local@ == input.local_memories(),
{
    let first = module.import_counts.memories as usize;
    let mut local: Vec<(MemoryType, MemoryStyle)> = Vec::new();
    let mut idx: usize = first;
    while idx < module.memories.len()
        invariant
            first <= idx <= module.memories.len(),
            styles@.len() == module.memories.len(),
            local@.len() == idx - first,
            forall|k: int|
                0 <= k < idx - first ==> (#[trigger] local@[k]) == (
                    module.memories@[first + k],
                    styles@[first + k],
                ),
        decreases module.memories.len() - idx,
    {
        local.push((module.memories[idx], styles[idx]));
        idx = idx + 1;
    }
    assert(local@ =~= input.local_memories());
    local
}

/// The tables that the module defines, each with its style.
pub(crate) fn local_tables(
    module: &ModuleInfo,
    styles: &Vec<TableStyle>,
    Ghost(input): Ghost<LoadInput>,
) -> (local: Vec<(TableType, TableStyle)>)
    requires
        input.executable.consistent(),
        input.module() == module@,
        input.executable.table_styles == styles@,
    ensures
        local@ == input.local_tables(),
{
    let first = module.import_counts.tables as usize;
    let mut local: Vec<(TableType, TableStyle)> = Vec::new();
    let mut idx: usize = first;
    while idx < module.tables.len()
        invariant
            first <= idx <= module.tables.len(),
            styles@.len() == module.tables.len(),
            local@.len() == idx - first,
            forall|k: int|
                0 <= k < idx - first ==> (#[trigger] local@[k]) == (
                    module.tables@[first + k],
                    styles@[first + k],
                ),
        decreases module.tables.len() - idx,
    {
        local.push((module.tables[idx], styles[idx]));
        idx = idx + 1;
    }
    assert(local@ =~= input.local_tables());
    local
}

/// The globals that the module defines, each with its initializer.
pub(crate) fn local_globals(
    module: &ModuleInfo,
    Ghost(input): Ghost<LoadInput>,
) -> (local: Vec<(GlobalType, GlobalInit)>)
    requires
        input.executable.consistent(),
        input.module() == module@,
    ensures
        local@ == input.local_globals(),
{
    let first = module.import_counts.globals as usize;
    let count = module.globals.len() - first;
    let mut local: Vec<(GlobalType, GlobalInit)> = Vec::new();
    let mut idx: usize = 0;
    while idx < count
        invariant
            idx <= count,
            first + count == module.globals.len(),
            module.global_initializers.len() == count,
            local@.len() == idx,
            forall|k: int|
                0 <= k < idx ==> (#[trigger] local@[k]) == (
                    module.globals@[first + k],
                    module.global_initializers@[k],
                ),
        decreases count - idx,
    {
        local.push((module.globals[first + idx], module.global_initializers[idx]));
        idx = idx + 1;
    }
    assert(local@ =~= input.local_globals());
    local
}

} // verus!
