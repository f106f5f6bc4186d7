//! The engine: the memory pool, the two registries and, unless the engine is
//! headless, a code-generation backend.

use crate::allocate::{Allocation, AllocationRequest};
use crate::artifact::UniversalArtifact;
use crate::code_memory::{LimitedMemoryPool, PoolView};
use crate::error::{Capability, CompileError, ResourceError};
use crate::executable::{
    Compilation, ExecutableView, FunctionBodyData, ModuleTranslation, ModuleTranslationState,
    OwnedDataInitializer, UniversalExecutable, UniversalExecutableRef,
};
use crate::layout::lemma_image_len;
use crate::link::link_module;
use crate::loader::{
    function_signatures, local_globals, local_memories, local_tables, register_signatures,
    resolve_imports, LoadInput,
};
use crate::module::{CompileModuleInfo, ModuleInfo};
use crate::registry::{
    handle_of, intern, FuncDataRegistry, SignatureRegistry, VMCallerCheckedAnyfunc,
    VMFuncRef, VMSharedSignatureIndex,
};
use crate::section::{CustomSectionRef, FunctionBodyRef};
use crate::types::{
    distinct, duplicates, views, Features, FunctionType, FunctionTypeView, MemoryStyle,
    MemoryType, SignatureIndex, TableStyle, TableType, Target,
};
use crate::vm::{EngineId, VMOffsets};
use vstd::prelude::*;

verus! {

/// A code-generation backend.
pub trait Compiler {
    /// Validates the bytes of a module for the given proposals.
    fn validate_module(&self, features: &Features, data: &[u8]) -> Result<(), CompileError>;

    /// Generates code for a translated module.
    fn compile_module(
        &self,
        target: &Target,
        compile_info: &CompileModuleInfo,
        module_translation: &ModuleTranslationState,
        function_body_inputs: Vec<FunctionBodyData>,
    ) -> Result<Compilation, CompileError>;
}

/// The choice of a style for each memory and table. The choice is a
/// function of the type alone: asked twice about the same type, the same
/// tunables give the same style.
pub trait Tunables {
    /// The style that these tunables choose for a memory of the given type.
    spec fn memory_style_of(&self, memory: MemoryType) -> MemoryStyle;

    /// The style that these tunables choose for a table of the given type.
    spec fn table_style_of(&self, table: TableType) -> TableStyle;

    /// The style for a memory of the given type.
    fn memory_style(&self, memory: &MemoryType) -> (style: MemoryStyle)
        ensures
            style == self.memory_style_of(*memory),
    ;

    /// The style for a table of the given type.
    fn table_style(&self, table: &TableType) -> (style: TableStyle)
        ensures
            style == self.table_style_of(*table),
    ;
}

/// The style that `tunables` choose for each of `memories`, in order.
pub open spec fn chosen_memory_styles<T: Tunables + ?Sized>(
    tunables: &T,
    memories: Seq<MemoryType>,
) -> Seq<MemoryStyle> {
    Seq::new(memories.len(), |k: int| tunables.memory_style_of(memories[k]))
}

/// The style that `tunables` choose for each of `tables`, in order.
pub open spec fn chosen_table_styles<T: Tunables + ?Sized>(
    tunables: &T,
    tables: Seq<TableType>,
) -> Seq<TableStyle> {
    Seq::new(tables.len(), |k: int| tunables.table_style_of(tables[k]))
}

/// The state of an engine.
pub struct UniversalEngineInner {
    pub(crate) compiler: Option<Box<dyn Compiler>>,
    pub(crate) features: Features,
    pub(crate) code_memory_pool: LimitedMemoryPool,
    pub(crate) signatures: SignatureRegistry,
    pub(crate) func_data: FuncDataRegistry,
}

/// What the state of an engine is in contracts.
pub struct EngineInnerView {
    /// Whether the engine has no code-generation backend.
    pub headless: bool,
    /// The proposals that modules are compiled with.
    pub features: Features,
    /// The pool that code memory comes from.
    pub pool: PoolView,
    /// The function types that are registered, each at its handle.
    pub signatures: Seq<FunctionTypeView>,
    /// The function metadata that is registered, each at its handle.
    pub func_data: Seq<VMCallerCheckedAnyfunc>,
}

impl EngineInnerView {
    /// The pool is well formed, and no registry holds a value twice or holds
    /// more function types than 32-bit handles can tell apart.
    pub open spec fn wf(self) -> bool {
        &&& self.pool.wf()
        &&& distinct(self.signatures)
        &&& self.signatures.len() <= u32::MAX
        &&& distinct(self.func_data)
    }
}

impl View for UniversalEngineInner {
    type V = EngineInnerView;

    closed spec fn view(&self) -> EngineInnerView {
        EngineInnerView {
            headless: self.compiler is None,
            features: self.features,
            pool: self.code_memory_pool@,
            signatures: self.signatures@,
            func_data: self.func_data@,
        }
    }
}

impl UniversalEngineInner {
    /// The backend of this engine. A headless engine has none.
    pub fn compiler(&self) -> (result: Result<&dyn Compiler, CompileError>)
        ensures
            self@.headless ==> result is Err && result->Err_0 == CompileError::MissingCapability(
                Capability::Compiler,
            ),
            !self@.headless ==> result is Ok,
    {
        match &self.compiler {
            None => Err(CompileError::MissingCapability(Capability::Compiler)),
            Some(compiler) => Ok(&**compiler),
        }
    }

    /// Validates the bytes of a module. A headless engine cannot: it fails
    /// with the capability that it lacks. Otherwise the backend decides.
    pub fn validate(&self, data: &[u8]) -> (result: Result<(), CompileError>)
        ensures
            self@.headless ==> result is Err && result->Err_0 == CompileError::MissingCapability(
                Capability::Compiler,
            ),
    {
        match self.compiler() {
            Err(error) => Err(error),
            Ok(compiler) => compiler.validate_module(self.features(), data),
        }
    }

    /// Allocates the code of a module from the engine's pool: sizes the code
    /// memory, gets it, writes the parts to it and resolves their entries.
    /// Where it fails the pool keeps what it had.
    pub(crate) fn allocate<'a>(
        &mut self,
        local_functions: &[FunctionBodyRef<'a>],
        call_trampolines: &[FunctionBodyRef<'a>],
        dynamic_trampolines: &[FunctionBodyRef<'a>],
        custom_sections: &[CustomSectionRef<'a>],
        function_signature: &[(SignatureIndex, VMSharedSignatureIndex)],
    ) -> (result: Result<Allocation, CompileError>)
        requires
            old(self)@.wf(),
        ensures
            final(self)@.wf(),
            ({
                let request = AllocationRequest {
                    local_functions: views(local_functions@),
                    call_trampolines: views(call_trampolines@),
                    dynamic_trampolines: views(dynamic_trampolines@),
                    custom_sections: views(custom_sections@),
                    function_signature: function_signature@,
                    pool: old(self)@.pool,
                };
                match result {
                    Ok(allocation) => {
                        &&& request.error() is None
                        &&& request.fulfilled_by(allocation)
                        &&& final(self)@ == (EngineInnerView {
                            pool: PoolView {
                                available: old(self)@.pool.available
                                    - request.layout().total_size(),
                                ..old(self)@.pool
                            },
                            ..old(self)@
                        })
                    },
                    Err(error) => request.error() == Some(error) && final(self)@ == old(self)@,
                }
            }),
    {
        let code_memory_pool = &mut self.code_memory_pool;
        crate::allocate::allocate(
            code_memory_pool,
            local_functions,
            call_trampolines,
            dynamic_trampolines,
            custom_sections,
            function_signature,
        )
    }

    /// The proposals that modules are compiled with.
    pub fn features(&self) -> (features: &Features)
        ensures
            *features == self@.features,
    {
        &self.features
    }

    /// The registry of function metadata.
    pub fn func_data(&self) -> (registry: &FuncDataRegistry)
        ensures
            registry@ == self@.func_data,
    {
        &self.func_data
    }

    /// The registry of function types.
    pub fn signatures(&self) -> (registry: &SignatureRegistry)
        ensures
            registry@ == self@.signatures,
    {
        &self.signatures
    }

    /// The pool that code memory comes from.
    pub fn code_memory_pool(&self) -> (pool: &LimitedMemoryPool)
        ensures
            pool@ == self@.pool,
    {
        &self.code_memory_pool
    }
}

/// An engine: it compiles modules, unless it is headless, and loads
/// executables.
pub struct UniversalEngine {
    pub(crate) inner: UniversalEngineInner,
    pub(crate) target: Target,
    pub(crate) engine_id: EngineId,
}

/// What an engine is in contracts.
pub struct EngineView {
    pub inner: EngineInnerView,
    pub target: Target,
    pub engine_id: EngineId,
}

impl View for UniversalEngine {
    type V = EngineView;

    closed spec fn view(&self) -> EngineView {
        EngineView { inner: self.inner@, target: self.target, engine_id: self.engine_id }
    }
}

impl UniversalEngine {
    /// An engine with a backend that generates code for `target`. Its
    /// registries are empty.
    pub fn new(
        compiler: Box<dyn Compiler>,
        target: Target,
        features: Features,
        memory_allocator: LimitedMemoryPool,
        engine_id: EngineId,
    ) -> (engine: UniversalEngine)
        ensures
            engine@ == (EngineView {
                inner: EngineInnerView {
                    headless: false,
                    features,
                    pool: memory_allocator@,
                    signatures: Seq::empty(),
                    func_data: Seq::empty(),
                },
                target,
                engine_id,
            }),
    {
        UniversalEngine {
            inner: UniversalEngineInner {
                compiler: Some(compiler),
                code_memory_pool: memory_allocator,
                signatures: SignatureRegistry::new(),
                func_data: FuncDataRegistry::new(),
                features,
            },
            target,
            engine_id,
        }
    }

    /// A headless engine: one without a backend. It cannot compile or
    /// validate; it loads executables that were compiled elsewhere. Its
    /// registries are empty and its proposals are the default ones.
    pub fn headless(
        memory_allocator: LimitedMemoryPool,
        target: Target,
        engine_id: EngineId,
    ) -> (engine: UniversalEngine)
        ensures
            engine@ == (EngineView {
                inner: EngineInnerView {
                    headless: true,
                    features: Features::spec_default(),
                    pool: memory_allocator@,
                    signatures: Seq::empty(),
                    func_data: Seq::empty(),
                },
                target,
                engine_id,
            }),
    {
        UniversalEngine {
            inner: UniversalEngineInner {
                compiler: None,
                signatures: SignatureRegistry::new(),
                func_data: FuncDataRegistry::new(),
                features: Features::default(),
                code_memory_pool: memory_allocator,
            },
            target,
            engine_id,
        }
    }

    /// What loading `executable` for the address `base` starts from on an
    /// engine in this state.
    pub open spec fn load_input(
        engine: EngineView,
        executable: ExecutableView,
        base: int,
    ) -> LoadInput {
        LoadInput {
            signatures: engine.inner.signatures,
            pool: engine.inner.pool,
            engine_id: engine.engine_id,
            cpu_features: engine.target.cpu_features,
            executable,
            base,
        }
    }

    /// The engine after it has loaded, or failed to load, from `input`.
    pub open spec fn after_load(engine: EngineView, input: LoadInput) -> EngineView {
        EngineView {
            inner: EngineInnerView {
                signatures: input.registry_after(),
                pool: input.pool_after(),
                ..engine.inner
            },
            ..engine
        }
    }

    /// Compiles a translated module with the backend of this engine: chooses
    /// the style of each memory and table, has the backend generate code,
    /// and packages the code with the module description, the styles, the
    /// data initializers and the capabilities of the target. A headless
    /// engine cannot: it fails with the capability that it lacks. A failed
    /// translation gives the translator's message; a failure of the backend
    /// is handed on.
    pub fn compile_universal<T: Tunables + ?Sized>(
        &self,
        translation: Result<ModuleTranslation, String>,
        tunables: &T,
    ) -> (result: Result<UniversalExecutable, CompileError>)
        ensures
            self@.inner.headless ==> result is Err && result->Err_0
                == CompileError::MissingCapability(Capability::Compiler),
            !self@.inner.headless && translation is Err ==> result is Err && result->Err_0
                == CompileError::Wasm(translation->Err_0),
            !self@.inner.headless && translation is Ok && result is Ok ==> {
                let executable = result->Ok_0;
                let translated = translation->Ok_0;
                &&& executable.compile_info.module == translated.module
                &&& executable.compile_info.features == self@.inner.features
                &&& executable.compile_info.memory_styles@ == chosen_memory_styles(
                    tunables,
                    translated.module.memories@,
                )
                &&& executable.compile_info.table_styles@ == chosen_table_styles(
                    tunables,
                    translated.module.tables@,
                )
                &&& executable.data_initializers == translated.data_initializers
                &&& executable.cpu_features == self@.target.cpu_features
            },
    {
        let compiler = match self.inner.compiler() {
            Ok(compiler) => compiler,
            Err(error) => {
                return Err(error);
            },
        };
        let translation = match translation {
            Ok(translation) => translation,
            Err(message) => {
                return Err(CompileError::Wasm(message));
            },
        };
        let ModuleTranslation {
            module,
            function_body_inputs,
            data_initializers,
            module_translation_state,
        } = translation;
        let compile_info = compile_info(module, self.inner.features, tunables);
        let compilation = compiler.compile_module(
            &self.target,
            &compile_info,
            &module_translation_state,
            function_body_inputs,
        );
        package(compilation, compile_info, data_initializers, self.target.cpu_features)
    }

    /// Loads an executable with this engine, for code memory whose first
    /// byte will be at the address `base`: checks that the target has the
    /// capabilities that the code assumes and that the parts of the
    /// executable fit one another, registers the function types of the
    /// module, allocates its code from the engine's pool, applies the
    /// relocations, publishes the code memory and assembles the artifact.
    pub fn load_universal_executable(
        &mut self,
        executable: &UniversalExecutable,
        base: usize,
    ) -> (result: Result<UniversalArtifact, CompileError>)
        requires
            old(self)@.inner.wf(),
        ensures
            final(self)@.inner.wf(),
            ({
                let input = UniversalEngine::load_input(old(self)@, executable@, base as int);
                &&& final(self)@ == UniversalEngine::after_load(old(self)@, input)
                &&& match result {
                    Ok(artifact) => input.error() is None && artifact@ == input.artifact(),
                    Err(error) => input.error() == Some(error),
                }
            }),
    {
        let borrowed = executable.as_ref();
        self.load_universal_executable_ref(&borrowed, base)
    }

    /// Loads an executable whose bytes stay in the buffer that they were
    /// read from. It does what `load_universal_executable` does, and reads
    /// the executable by reference.
    pub fn load_universal_executable_ref(
        &mut self,
        executable: &UniversalExecutableRef<'_>,
        base: usize,
    ) -> (result: Result<UniversalArtifact, CompileError>)
        requires
            old(self)@.inner.wf(),
        ensures
            final(self)@.inner.wf(),
            ({
                let input = UniversalEngine::load_input(old(self)@, executable@, base as int);
                &&& final(self)@ == UniversalEngine::after_load(old(self)@, input)
                &&& match result {
                    Ok(artifact) => input.error() is None && artifact@ == input.artifact(),
                    Err(error) => input.error() == Some(error),
                }
            }),
    {
        let ghost input = UniversalEngine::load_input(self@, executable@, base as int);
        let engine_id = self.engine_id;
        match self.check_cpu_features(executable.cpu_features) {
            Ok(()) => {},
            Err(error) => {
                return Err(error);
            },
        }
        if !executable.is_consistent() {
            return Err(CompileError::CorruptExecutable);
        }
        let info = executable.compile_info;
        let module = &info.module;
        if self.inner.signatures.len() > u32::MAX as usize - module.signatures.len() {
            return Err(CompileError::Resource(ResourceError::RegistryFull));
        }
        let handles = register_signatures(&mut self.inner.signatures, &module.signatures);
        assert(handles@ =~= Seq::new(
            input.module().signatures.len(),
            |k: int| input.signature_handle(k),
        ));
        let function_signature = function_signatures(module, &handles);
        assert(function_signature@ =~= input.request().function_signature);
        let ghost request = AllocationRequest {
            local_functions: views(executable.function_bodies@),
            call_trampolines: views(executable.function_call_trampolines@),
            dynamic_trampolines: views(executable.dynamic_function_trampolines@),
            custom_sections: views(executable.custom_sections@),
            function_signature: function_signature@,
            pool: self.inner.code_memory_pool@,
        };
        assert(request == input.request());
        assert(request.layout() == input.layout());
        let allocation = match self.inner.allocate(
            executable.function_bodies.as_slice(),
            executable.function_call_trampolines.as_slice(),
            executable.dynamic_function_trampolines.as_slice(),
            executable.custom_sections.as_slice(),
            function_signature.as_slice(),
        ) {
            Ok(allocation) => allocation,
            Err(error) => {
                return Err(error);
            },
        };
        let Allocation {
            functions,
            trampolines,
            dynamic_trampolines,
            custom_sections,
            mut code_memory,
        } = allocation;
        assert(views(trampolines@) == Seq::new(
            input.module().signatures.len(),
            |t: int| input.layout().body_offset(t),
        ));
        let imports = resolve_imports(
            module,
            &info.memory_styles,
            &handles,
            &trampolines,
            Ghost(input),
        );
        proof {
            lemma_image_len(input.layout());
        }
        assert(views(functions@).len() == functions@.len());
        assert(views(custom_sections@).len() == custom_sections@.len());
        assert(views(functions@) == Seq::new(
            input.executable.function_bodies.len(),
            |i: int| input.request().function(i),
        ));
        assert(views(custom_sections@) == Seq::new(
            input.executable.custom_sections.len(),
            |s: int| input.layout().section_offset(s),
        ));
        assert forall|i: int| 0 <= i < functions@.len() implies (#[trigger] functions@[i]).body@
            == input.context().function_offset(i) by {
            assert(views(functions@)[i] == input.request().function(i));
        }
        assert forall|s: int|
            0 <= s < custom_sections@.len() implies (#[trigger] custom_sections@[s])@
            == input.layout().section_offset(s) by {
            assert(views(custom_sections@)[s] == input.layout().section_offset(s));
        }
        match link_module(
            &mut code_memory,
            executable,
            base,
            &functions,
            &custom_sections,
            Ghost(input.context()),
        ) {
            Ok(()) => {},
            Err(error) => {
                self.inner.code_memory_pool.release(code_memory);
                return Err(CompileError::Codegen(error));
            },
        }
        // Fresh memory is not published, so this cannot fail.
        match code_memory.publish() {
            Ok(()) => {},
            Err(_) => {
                return Err(CompileError::CorruptExecutable);
            },
        }
        let artifact = UniversalArtifact {
            engine_id,
            code_memory,
            import_counts: module.import_counts,
            start_function: module.start_function,
            vmoffsets: VMOffsets::for_host().with_module_info(module),
            imports,
            dynamic_function_trampolines: dynamic_trampolines,
            functions,
            exports: duplicates(module.exports.as_slice()),
            signatures: handles,
            local_memories: local_memories(module, &info.memory_styles, Ghost(input)),
            local_tables: local_tables(module, &info.table_styles, Ghost(input)),
            local_globals: local_globals(module, Ghost(input)),
            custom_sections,
            data_segments: duplicates(executable.data_initializers),
            passive_data: duplicates(module.passive_data.as_slice()),
            element_segments: duplicates(module.table_initializers.as_slice()),
            passive_elements: duplicates(module.passive_elements.as_slice()),
        };
        Ok(artifact)
    }

    /// Takes back the code memory of an artifact that is no longer used: its
    /// bytes are available again in the pool of the engine. Memory that
    /// cannot be of this engine's pool, because the pool has not handed out
    /// that much, is dropped, and nothing changes.
    pub fn release(&mut self, artifact: UniversalArtifact) -> (accepted: bool)
        requires
            old(self)@.inner.wf(),
        ensures
            final(self)@.inner.wf(),
            accepted == (artifact@.code_memory.bytes.len() <= old(self)@.inner.pool.budget - old(
                self,
            )@.inner.pool.available),
            final(self)@ == (EngineView {
                inner: EngineInnerView {
                    pool: PoolView {
                        available: if accepted {
                            old(self)@.inner.pool.available + artifact@.code_memory.bytes.len()
                        } else {
                            old(self)@.inner.pool.available
                        },
                        ..old(self)@.inner.pool
                    },
                    ..old(self)@.inner
                },
                ..old(self)@
            }),
    {
        self.inner.code_memory_pool.release(artifact.code_memory)
    }

    /// Tells whether the target of this engine has every instruction-set
    /// capability of `cpu_features`, the capabilities that the code of an
    /// executable assumes, and which are missing where it has not.
    pub fn check_cpu_features(&self, cpu_features: u64) -> (result: Result<(), CompileError>)
        ensures
            match result {
                Ok(()) => cpu_features & !self@.target.cpu_features == 0,
                Err(error) => cpu_features & !self@.target.cpu_features != 0 && error
                    == CompileError::MissingCapability(
                    Capability::CpuFeatures(cpu_features & !self@.target.cpu_features),
                ),
            },
    {
        let missing = cpu_features & !self.target.cpu_features;
        if missing == 0 {
            Ok(())
        } else {
            Err(CompileError::MissingCapability(Capability::CpuFeatures(missing)))
        }
    }

    /// The state of the engine.
    pub fn inner(&self) -> (inner: &UniversalEngineInner)
        ensures
            inner@ == self@.inner,
    {
        &self.inner
    }

    /// The machine that the engine generates code for.
    pub fn target(&self) -> (target: &Target)
        ensures
            *target == self@.target,
    {
        &self.target
    }

    /// The identity of the engine.
    pub fn id(&self) -> (id: &EngineId)
        ensures
            *id == self@.engine_id,
    {
        &self.engine_id
    }

    /// Registers a function type and gives its handle: the handle that the
    /// same type was given before on this engine, or a new one.
    pub fn register_signature(&mut self, func_type: &FunctionType) -> (handle:
        VMSharedSignatureIndex)
        requires
            old(self)@.inner.wf(),
            old(self)@.inner.signatures.contains(func_type@) || old(self)@.inner.signatures.len()
                < u32::MAX,
        ensures
            final(self)@.inner.wf(),
            final(self)@ == (EngineView {
                inner: EngineInnerView {
                    signatures: intern(old(self)@.inner.signatures, func_type@),
                    ..old(self)@.inner
                },
                ..old(self)@
            }),
            handle.0 == handle_of(old(self)@.inner.signatures, func_type@),
    {
        self.inner.signatures.register(func_type)
    }

    /// Registers function metadata and gives its handle: the handle that the
    /// same metadata was given before on this engine, or a new one.
    pub fn register_function_metadata(&mut self, func_data: VMCallerCheckedAnyfunc) -> (handle:
        VMFuncRef)
        requires
            old(self)@.inner.wf(),
        ensures
            final(self)@.inner.wf(),
            final(self)@ == (EngineView {
                inner: EngineInnerView {
                    func_data: intern(old(self)@.inner.func_data, func_data),
                    ..old(self)@.inner
                },
                ..old(self)@
            }),
            handle.0 == handle_of(old(self)@.inner.func_data, func_data),
    {
        self.inner.func_data.register(func_data)
    }

    /// The function type that has the given handle on this engine.
    pub fn lookup_signature(&self, sig: VMSharedSignatureIndex) -> (found: Option<FunctionType>)
        ensures
            match found {
                Some(func_type) => sig.0 < self@.inner.signatures.len() && func_type@
                    == self@.inner.signatures[sig.0 as int],
                None => sig.0 >= self@.inner.signatures.len(),
            },
    {
        match self.inner.signatures.lookup(sig) {
            Some(func_type) => Some(func_type.duplicate()),
            None => None,
        }
    }

    /// Validates the bytes of a module. A headless engine cannot: it fails
    /// with the capability that it lacks. Otherwise the backend decides.
    pub fn validate(&self, binary: &[u8]) -> (result: Result<(), CompileError>)
        ensures
            self@.inner.headless ==> result is Err && result->Err_0
                == CompileError::MissingCapability(Capability::Compiler),
    {
        self.inner.validate(binary)
    }
}

/// The two ways of loading agree: loading an executable by reference gives
/// the failure or the artifact, and leaves the engine in the state, that
/// loading the owned executable gives. So the two artifacts have the same
/// exports, imports, functions and handles of function types, the same
/// import counts and start function, the same local memories, tables and
/// globals, and the same data segments, element segments and passive
/// segments.
pub proof fn lemma_load_paths_agree(
    engine: EngineView,
    owned: UniversalExecutable,
    borrowed: UniversalExecutableRef<'_>,
    base: int,
)
    requires
        borrowed@ == owned@,
    ensures
        ({
            let by_value = UniversalEngine::load_input(engine, owned@, base);
            let by_reference = UniversalEngine::load_input(engine, borrowed@, base);
            &&& by_value.error() == by_reference.error()
            &&& by_value.artifact() == by_reference.artifact()
            &&& by_value.artifact().exports == by_reference.artifact().exports
            &&& by_value.artifact().imports == by_reference.artifact().imports
            &&& by_value.artifact().functions.len() == by_reference.artifact().functions.len()
            &&& by_value.artifact().signatures == by_reference.artifact().signatures
            &&& by_value.artifact().import_counts == by_reference.artifact().import_counts
            &&& by_value.artifact().start_function == by_reference.artifact().start_function
            &&& by_value.artifact().local_memories == by_reference.artifact().local_memories
            &&& by_value.artifact().local_tables == by_reference.artifact().local_tables
            &&& by_value.artifact().local_globals == by_reference.artifact().local_globals
            &&& by_value.artifact().data_segments == by_reference.artifact().data_segments
            &&& by_value.artifact().passive_data == by_reference.artifact().passive_data
            &&& by_value.artifact().element_segments == by_reference.artifact().element_segments
            &&& by_value.artifact().passive_elements == by_reference.artifact().passive_elements
            &&& UniversalEngine::after_load(engine, by_value) == UniversalEngine::after_load(
                engine,
                by_reference,
            )
        }),
{
}

/// Loading asks nothing of the backend: a headless engine fails on the
/// executables on which an engine with a backend fails, with the same
/// failure, and gives the same artifact on the others.
pub proof fn lemma_load_ignores_backend(
    engine: EngineView,
    headless: EngineView,
    executable: ExecutableView,
    base: int,
)
    requires
        headless == (EngineView {
            inner: EngineInnerView { headless: true, ..engine.inner },
            ..engine
        }),
    ensures
        UniversalEngine::load_input(headless, executable, base) == UniversalEngine::load_input(
            engine,
            executable,
            base,
        ),
{
}

/// The description of a module with what is chosen for compiling it: the
/// given proposals, and for each memory and table, imported or defined, the
/// style that the tunables choose for its type. This is what the backend is
/// handed, and what is packaged with its output.
pub fn compile_info<T: Tunables + ?Sized>(
    module: ModuleInfo,
    features: Features,
    tunables: &T,
) -> (info: CompileModuleInfo)
    ensures
        info.module == module,
        info.features == features,
        info.memory_styles@ == chosen_memory_styles(tunables, module.memories@),
        info.table_styles@ == chosen_table_styles(tunables, module.tables@),
{
    let memory_styles = memory_styles(&module, tunables);
    assert(memory_styles@ =~= chosen_memory_styles(tunables, module.memories@));
    let table_styles = table_styles(&module, tunables);
    assert(table_styles@ =~= chosen_table_styles(tunables, module.tables@));
    CompileModuleInfo { module, features, memory_styles, table_styles }
}

fn memory_styles<T: Tunables + ?Sized>(module: &ModuleInfo, tunables: &T) -> (styles: Vec<
    MemoryStyle,
>)
    ensures
        styles@.len() == module.memories@.len(),
        forall|k: int|
            0 <= k < styles@.len() ==> (#[trigger] styles@[k]) == tunables.memory_style_of(
                module.memories@[k],
            ),
{
    let mut styles: Vec<MemoryStyle> = Vec::new();
    let mut i: usize = 0;
    while i < module.memories.len()
        invariant
            i <= module.memories.len(),
            styles@.len() == i,
            forall|k: int|
                0 <= k < i ==> (#[trigger] styles@[k]) == tunables.memory_style_of(
                    module.memories@[k],
                ),
        decreases module.memories.len() - i,
    {
        styles.push(tunables.memory_style(&module.memories[i]));
        i = i + 1;
    }
    styles
}

fn table_styles<T: Tunables + ?Sized>(module: &ModuleInfo, tunables: &T) -> (styles: Vec<
    TableStyle,
>)
    ensures
        styles@.len() == module.tables@.len(),
        forall|k: int|
            0 <= k < styles@.len() ==> (#[trigger] styles@[k]) == tunables.table_style_of(
                module.tables@[k],
            ),
{
    let mut styles: Vec<TableStyle> = Vec::new();
    let mut i: usize = 0;
    while i < module.tables.len()
        invariant
            i <= module.tables.len(),
            styles@.len() == i,
            forall|k: int|
                0 <= k < i ==> (#[trigger] styles@[k]) == tunables.table_style_of(
                    module.tables@[k],
                ),
        decreases module.tables.len() - i,
    {
        styles.push(tunables.table_style(&module.tables[i]));
        i = i + 1;
    }
    styles
}

/// Packages what a backend made of a module into an executable, with the
/// module description and styles, the data initializers, and the
/// capabilities that the code assumes. A failure of the backend is handed
/// on.
pub fn package(
    compilation: Result<Compilation, CompileError>,
    compile_info: CompileModuleInfo,
    data_initializers: Vec<OwnedDataInitializer>,
    cpu_features: u64,
) -> (result: Result<UniversalExecutable, CompileError>)
    ensures
        match compilation {
            Ok(compilation) => result is Ok && result->Ok_0 == (UniversalExecutable {
                function_bodies: compilation.function_bodies,
                function_relocations: compilation.function_relocations,
                function_jt_offsets: compilation.function_jt_offsets,
                function_frame_info: compilation.function_frame_info,
                function_call_trampolines: compilation.function_call_trampolines,
                dynamic_function_trampolines: compilation.dynamic_function_trampolines,
                custom_sections: compilation.custom_sections,
                custom_section_relocations: compilation.custom_section_relocations,
                debug: compilation.debug,
                trampolines: compilation.trampolines,
                compile_info,
                data_initializers,
                cpu_features,
            }),
            Err(error) => result is Err && result->Err_0 == error,
        },
{
    match compilation {
        Ok(compilation) => Ok(
            UniversalExecutable {
                function_bodies: compilation.function_bodies,
                function_relocations: compilation.function_relocations,
                function_jt_offsets: compilation.function_jt_offsets,
                function_frame_info: compilation.function_frame_info,
                function_call_trampolines: compilation.function_call_trampolines,
                dynamic_function_trampolines: compilation.dynamic_function_trampolines,
                custom_sections: compilation.custom_sections,
                custom_section_relocations: compilation.custom_section_relocations,
                debug: compilation.debug,
                trampolines: compilation.trampolines,
                compile_info,
                data_initializers,
                cpu_features,
            },
        ),
        Err(error) => Err(error),
    }
}

} // verus!
