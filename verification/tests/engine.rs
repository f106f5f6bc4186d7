use wasmer_engine_universal::code_memory::LimitedMemoryPool;
use wasmer_engine_universal::engine::package;
use wasmer_engine_universal::error::{Capability, CodegenError, CompileError, ResourceError};
use wasmer_engine_universal::engine::compile_info;
use wasmer_engine_universal::executable::{
    Compilation, DataInitializerLocation, FunctionBodyData, ModuleTranslation,
    ModuleTranslationState, OwnedDataInitializer, Relocation, RelocationKind, RelocationTarget,
    TrampolinesSection, UniversalExecutable,
};
use wasmer_engine_universal::module::{
    CompileModuleInfo, Export, Import, ModuleInfo, OwnedTableInitializer, PassiveData,
    PassiveElements,
};
use wasmer_engine_universal::registry::{VMCallerCheckedAnyfunc, VMFuncRef, VMSharedSignatureIndex};
use wasmer_engine_universal::section::{
    CompiledFunctionUnwindInfo, CustomSection, CustomSectionProtection, FunctionBody,
};
use wasmer_engine_universal::types::{
    DataIndex, ElemIndex, ExportIndex, Features, FunctionIndex, FunctionType, GlobalIndex,
    GlobalInit, GlobalType, ImportCounts, ImportIndex, JumpTable, LocalFunctionIndex, MemoryIndex,
    MemoryStyle, MemoryType, Mutability, SectionIndex, SignatureIndex, TableIndex, TableStyle,
    TableType, Target, Type,
};
use wasmer_engine_universal::vm::{EngineId, VMImportType, VMOffsets};
use wasmer_engine_universal::{Compiler, Tunables, UniversalEngine};

const PAGE: usize = 4096;
const BASE: usize = 0x10000;

/// A backend that emits the same code for every module: one call trampoline
/// and one function that adds its two arguments.
struct Adder;

impl Compiler for Adder {
    fn validate_module(&self, _features: &Features, data: &[u8]) -> Result<(), CompileError> {
        if data.starts_with(b"\0asm") {
            Ok(())
        } else {
            Err(CompileError::Wasm(String::from("bad magic")))
        }
    }

    fn compile_module(
        &self,
        _target: &Target,
        compile_info: &CompileModuleInfo,
        _module_translation: &ModuleTranslationState,
        function_body_inputs: Vec<FunctionBodyData>,
    ) -> Result<Compilation, CompileError> {
        if function_body_inputs.len() != 1 {
            return Err(CompileError::Codegen(CodegenError::Backend(String::from("one function"))));
        }
        Ok(Compilation {
            function_bodies: vec![body(&[0x8d, 0x04, 0x37, 0xc3])],
            function_relocations: vec![vec![]],
            function_jt_offsets: vec![vec![]],
            function_frame_info: vec![],
            function_call_trampolines: compile_info
                .module
                .signatures
                .iter()
                .map(|_| body(&[0xff, 0xe0]))
                .collect(),
            dynamic_function_trampolines: vec![],
            custom_sections: vec![],
            custom_section_relocations: vec![],
            debug: None,
            trampolines: None,
        })
    }
}

struct Styles;

impl Tunables for Styles {
    fn memory_style_of(&self, memory: MemoryType) -> MemoryStyle {
        if memory.shared {
            MemoryStyle::Dynamic { offset_guard_size: 0x1000 }
        } else {
            MemoryStyle::Static { bound: memory.minimum + 1, offset_guard_size: 0x8000 }
        }
    }

    fn table_style_of(&self, _table: TableType) -> TableStyle {
        TableStyle::CallerChecksSignature
    }

    fn memory_style(&self, memory: &MemoryType) -> MemoryStyle {
        self.memory_style_of(*memory)
    }

    fn table_style(&self, table: &TableType) -> TableStyle {
        self.table_style_of(*table)
    }
}

fn body(bytes: &[u8]) -> FunctionBody {
    FunctionBody { body: bytes.to_vec(), unwind_info: None }
}

fn binary() -> FunctionType {
    FunctionType::new(vec![Type::I32, Type::I32], vec![Type::I32])
}

fn unary() -> FunctionType {
    FunctionType::new(vec![Type::I64], vec![])
}

fn no_imports() -> ImportCounts {
    ImportCounts { functions: 0, tables: 0, memories: 0, globals: 0 }
}

fn sum_module() -> ModuleInfo {
    ModuleInfo {
        signatures: vec![binary()],
        functions: vec![SignatureIndex(0)],
        tables: vec![],
        memories: vec![],
        globals: vec![],
        global_initializers: vec![],
        imports: vec![],
        exports: vec![Export {
            name: String::from("sum"),
            index: ExportIndex::Function(FunctionIndex(0)),
        }],
        import_counts: no_imports(),
        start_function: None,
        passive_data: vec![],
        table_initializers: vec![],
        passive_elements: vec![],
    }
}

fn sum_translation() -> ModuleTranslation {
    ModuleTranslation {
        module: sum_module(),
        function_body_inputs: vec![FunctionBodyData {
            data: vec![0x20, 0x00, 0x20, 0x01, 0x6a],
            module_offset: 0,
        }],
        data_initializers: vec![],
        module_translation_state: ModuleTranslationState { wasm_types: vec![binary()] },
    }
}

fn pool(budget: usize) -> LimitedMemoryPool {
    LimitedMemoryPool::with_page_size(budget, PAGE).unwrap()
}

fn engine(budget: usize) -> UniversalEngine {
    UniversalEngine::new(
        Box::new(Adder),
        Target { cpu_features: 0b101 },
        Features::default(),
        pool(budget),
        EngineId(7),
    )
}

fn headless(budget: usize) -> UniversalEngine {
    UniversalEngine::headless(pool(budget), Target { cpu_features: 0b111 }, EngineId(8))
}

/// A module with two function types, one imported and two defined
/// functions, an imported and a defined memory, table and global, and three
/// custom sections.
fn rich_executable() -> UniversalExecutable {
    let module = ModuleInfo {
        signatures: vec![binary(), unary()],
        functions: vec![SignatureIndex(1), SignatureIndex(0), SignatureIndex(1)],
        tables: vec![
            TableType { ty: Type::FuncRef, minimum: 1, maximum: None },
            TableType { ty: Type::FuncRef, minimum: 2, maximum: Some(3) },
        ],
        memories: vec![
            MemoryType { minimum: 1, maximum: None, shared: false },
            MemoryType { minimum: 2, maximum: Some(4), shared: false },
        ],
        globals: vec![
            GlobalType { ty: Type::I32, mutability: Mutability::Const },
            GlobalType { ty: Type::I64, mutability: Mutability::Var },
        ],
        global_initializers: vec![GlobalInit::I64Const(5)],
        imports: vec![
            Import {
                module: String::from("env"),
                field: String::from("f"),
                import_no: 0,
                index: ImportIndex::Function(FunctionIndex(0)),
            },
            Import {
                module: String::from("env"),
                field: String::from("t"),
                import_no: 1,
                index: ImportIndex::Table(TableIndex(0)),
            },
            Import {
                module: String::from("env"),
                field: String::from("m"),
                import_no: 2,
                index: ImportIndex::Memory(MemoryIndex(0)),
            },
            Import {
                module: String::from("host"),
                field: String::from("g"),
                import_no: 3,
                index: ImportIndex::Global(GlobalIndex(0)),
            },
        ],
        exports: vec![
            Export { name: String::from("a"), index: ExportIndex::Function(FunctionIndex(1)) },
            Export { name: String::from("mem"), index: ExportIndex::Memory(MemoryIndex(1)) },
        ],
        import_counts: ImportCounts { functions: 1, tables: 1, memories: 1, globals: 1 },
        start_function: Some(FunctionIndex(2)),
        passive_data: vec![
            PassiveData { index: DataIndex(1), data: vec![0x50, 0x51] },
            PassiveData { index: DataIndex(4), data: vec![] },
        ],
        table_initializers: vec![OwnedTableInitializer {
            table_index: TableIndex(1),
            base: None,
            offset: 1,
            elements: vec![FunctionIndex(2), FunctionIndex(1)],
        }],
        passive_elements: vec![PassiveElements {
            index: ElemIndex(0),
            elements: vec![FunctionIndex(1)],
        }],
    };
    UniversalExecutable {
        function_bodies: vec![
            FunctionBody {
                body: vec![1, 2, 3, 4, 5],
                unwind_info: Some(CompiledFunctionUnwindInfo::WindowsX64(vec![0xee, 0xef])),
            },
            body(&[0x11; 20]),
        ],
        function_relocations: vec![
            vec![],
            vec![
                Relocation {
                    kind: RelocationKind::X86PCRel8,
                    reloc_target: RelocationTarget::JumpTable(
                        LocalFunctionIndex(1),
                        JumpTable(0),
                    ),
                    offset: 0,
                    addend: 0,
                },
                Relocation {
                    kind: RelocationKind::Abs8,
                    reloc_target: RelocationTarget::CustomSection(SectionIndex(0)),
                    offset: 4,
                    addend: 2,
                },
                Relocation {
                    kind: RelocationKind::X86CallPCRel4,
                    reloc_target: RelocationTarget::LocalFunc(LocalFunctionIndex(0)),
                    offset: 12,
                    addend: -4,
                },
            ],
        ],
        function_jt_offsets: vec![vec![], vec![16]],
        function_frame_info: vec![],
        function_call_trampolines: vec![body(&[0xa0; 3]), body(&[0xa1; 17])],
        dynamic_function_trampolines: vec![body(&[0xd0; 2])],
        custom_sections: vec![
            CustomSection { protection: CustomSectionProtection::Read, bytes: vec![0x77; 8] },
            CustomSection { protection: CustomSectionProtection::ReadExecute, bytes: vec![0x99; 2] },
            CustomSection { protection: CustomSectionProtection::Read, bytes: vec![0x78; 65] },
        ],
        custom_section_relocations: vec![
            vec![Relocation {
                kind: RelocationKind::X86PCRel4,
                reloc_target: RelocationTarget::CustomSection(SectionIndex(2)),
                offset: 4,
                addend: 0,
            }],
            vec![],
            vec![],
        ],
        debug: None,
        trampolines: None,
        compile_info: CompileModuleInfo {
            module,
            features: Features::default(),
            memory_styles: vec![
                MemoryStyle::Dynamic { offset_guard_size: 1 },
                MemoryStyle::Static { bound: 9, offset_guard_size: 2 },
            ],
            table_styles: vec![TableStyle::CallerChecksSignature, TableStyle::CallerChecksSignature],
        },
        data_initializers: vec![OwnedDataInitializer {
            location: DataInitializerLocation {
                memory_index: MemoryIndex(1),
                base: Some(GlobalIndex(0)),
                offset: 8,
            },
            data: vec![0xda, 0x7a],
        }],
        cpu_features: 0b1,
    }
}

#[test]
fn default_features_are_the_documented_ones() {
    let features = Features::default();
    assert!(features.reference_types && features.simd && features.bulk_memory);
    assert!(features.multi_value);
    assert!(!features.threads && !features.tail_call && !features.module_linking);
    assert!(!features.multi_memory && !features.memory64 && !features.exceptions);
}

#[test]
fn new_engine_has_empty_registries() {
    let engine = engine(1 << 20);
    assert_eq!(engine.id(), &EngineId(7));
    assert_eq!(engine.target(), &Target { cpu_features: 0b101 });
    assert_eq!(engine.inner().features(), &Features::default());
    assert_eq!(engine.inner().signatures().len(), 0);
    assert_eq!(engine.inner().code_memory_pool().available(), 1 << 20);
    assert!(engine.inner().compiler().is_ok());
    assert_eq!(engine.lookup_signature(VMSharedSignatureIndex(0)), None);
}

#[test]
fn headless_engine_cannot_compile_or_validate() {
    let engine = headless(1 << 20);
    let missing = CompileError::MissingCapability(Capability::Compiler);
    assert_eq!(engine.validate(b"\0asm\x01\0\0\0"), Err(missing.clone()));
    assert_eq!(engine.inner().validate(b"\0asm\x01\0\0\0"), Err(missing.clone()));
    assert_eq!(engine.inner().compiler().err(), Some(missing.clone()));
    assert_eq!(engine.compile_universal(Ok(sum_translation()), &Styles), Err(missing.clone()));
    let failed = Err(String::from("unexpected end"));
    assert_eq!(engine.compile_universal(failed, &Styles), Err(missing));
    assert_eq!(engine.inner().features(), &Features::default());
}

#[test]
fn headless_engine_loads_what_was_compiled_elsewhere() {
    let compiling = engine(1 << 20);
    let executable = compiling.compile_universal(Ok(sum_translation()), &Styles).unwrap();
    let mut engine = headless(1 << 20);
    let artifact = engine.load_universal_executable(&executable, BASE).unwrap();
    assert_eq!(artifact.engine_id, EngineId(8));
    assert_eq!(artifact.functions.len(), 1);
    assert_eq!(artifact.exports, sum_module().exports);
}

#[test]
fn engine_with_backend_validates_through_it() {
    let engine = engine(1 << 20);
    assert_eq!(engine.validate(b"\0asm\x01\0\0\0"), Ok(()));
    assert_eq!(engine.validate(b"wasm"), Err(CompileError::Wasm(String::from("bad magic"))));
}

#[test]
fn failed_translation_is_a_wasm_error() {
    let engine = engine(1 << 20);
    let failed = Err(String::from("unexpected end"));
    assert_eq!(
        engine.compile_universal(failed, &Styles),
        Err(CompileError::Wasm(String::from("unexpected end")))
    );
}

#[test]
fn backend_failure_is_handed_on() {
    let engine = engine(1 << 20);
    let mut translation = sum_translation();
    translation.function_body_inputs.clear();
    assert_eq!(
        engine.compile_universal(Ok(translation), &Styles),
        Err(CompileError::Codegen(CodegenError::Backend(String::from("one function"))))
    );
}

#[test]
fn compile_packages_module_styles_and_target() {
    let engine = engine(1 << 20);
    let mut translation = sum_translation();
    translation.module.memories.push(MemoryType { minimum: 3, maximum: None, shared: false });
    translation.module.memories.push(MemoryType { minimum: 7, maximum: Some(9), shared: true });
    translation.module.memories.push(MemoryType { minimum: 0, maximum: None, shared: false });
    translation.module.tables.push(TableType { ty: Type::FuncRef, minimum: 0, maximum: None });
    let module = translation.module.clone();
    let executable = engine.compile_universal(Ok(translation), &Styles).unwrap();
    assert_eq!(executable.compile_info.module, module);
    assert_eq!(executable.compile_info.features, Features::default());
    assert_eq!(
        executable.compile_info.memory_styles,
        vec![
            MemoryStyle::Static { bound: 4, offset_guard_size: 0x8000 },
            MemoryStyle::Dynamic { offset_guard_size: 0x1000 },
            MemoryStyle::Static { bound: 1, offset_guard_size: 0x8000 },
        ]
    );
    assert_eq!(executable.compile_info.table_styles, vec![TableStyle::CallerChecksSignature]);
    assert_eq!(executable.cpu_features, 0b101);
    assert_eq!(executable.function_bodies, vec![body(&[0x8d, 0x04, 0x37, 0xc3])]);
    assert_eq!(executable.function_call_trampolines, vec![body(&[0xff, 0xe0])]);
}

#[test]
fn package_hands_on_both_outcomes() {
    let info = CompileModuleInfo {
        module: sum_module(),
        features: Features::default(),
        memory_styles: vec![],
        table_styles: vec![],
    };
    let failure = CompileError::Codegen(CodegenError::Backend(String::from("no")));
    assert_eq!(package(Err(failure.clone()), info.clone(), vec![], 3), Err(failure));
    let compilation = Compilation {
        function_bodies: vec![body(&[1])],
        function_relocations: vec![vec![]],
        function_jt_offsets: vec![vec![]],
        function_frame_info: vec![],
        function_call_trampolines: vec![body(&[2])],
        dynamic_function_trampolines: vec![body(&[3])],
        custom_sections: vec![],
        custom_section_relocations: vec![],
        debug: None,
        trampolines: None,
    };
    let executable = package(Ok(compilation), info.clone(), vec![], 3).unwrap();
    assert_eq!(executable.function_bodies, vec![body(&[1])]);
    assert_eq!(executable.function_call_trampolines, vec![body(&[2])]);
    assert_eq!(executable.dynamic_function_trampolines, vec![body(&[3])]);
    assert_eq!(executable.compile_info, info);
    assert_eq!(executable.cpu_features, 3);
}

#[test]
fn sum_module_compiles_and_loads() {
    let mut engine = engine(1 << 20);
    let executable = engine.compile_universal(Ok(sum_translation()), &Styles).unwrap();
    let artifact = engine.load_universal_executable(&executable, BASE).unwrap();

    assert_eq!(artifact.exports.len(), 1);
    let export = artifact.export(&String::from("sum")).unwrap();
    assert_eq!(export.index, ExportIndex::Function(FunctionIndex(0)));
    assert!(artifact.export(&String::from("product")).is_none());

    assert_eq!(artifact.functions.len(), 1);
    let entry = artifact.functions[0];
    let signature = engine.lookup_signature(entry.signature).unwrap();
    assert_eq!(signature.params.len(), 2);
    assert_eq!(signature.results.len(), 1);
    assert_eq!(signature, binary());

    // The trampoline comes first, the body in the next slot.
    assert_eq!(entry.trampoline.offset(), 0);
    assert_eq!(entry.body.offset(), 16);
    assert_eq!(entry.length, 4);
    let memory = &artifact.code_memory;
    assert!(memory.is_published());
    assert_eq!(memory.size(), PAGE);
    assert_eq!(&memory.as_slice()[0..2], &[0xff, 0xe0]);
    assert_eq!(&memory.as_slice()[16..20], &[0x8d, 0x04, 0x37, 0xc3]);
    assert_eq!(memory.executable_end(), 20);
    assert_eq!(engine.inner().code_memory_pool().available(), (1 << 20) - PAGE);
}

#[test]
fn load_lays_out_links_and_resolves() {
    let mut engine = headless(1 << 20);
    // Another module registered a type before.
    let earlier = engine.register_signature(&FunctionType::new(vec![], vec![]));
    assert_eq!(earlier, VMSharedSignatureIndex(0));
    let executable = rich_executable();
    let artifact = engine.load_universal_executable(&executable, BASE).unwrap();

    // Trampolines at 0 and 16 (17 bytes: a slot of 32), functions at 48
    // (5 bytes, unwind block at 56) and 64 (20 bytes: a slot of 32), the
    // dynamic trampoline at 96, the executable section at 112; the data
    // zone at a page, with slots of 64 and 128.
    assert_eq!(artifact.signatures, vec![VMSharedSignatureIndex(1), VMSharedSignatureIndex(2)]);
    assert_eq!(artifact.functions.len(), 2);
    assert_eq!(artifact.functions[0].body.offset(), 48);
    assert_eq!(artifact.functions[0].length, 5);
    assert_eq!(artifact.functions[0].signature, VMSharedSignatureIndex(1));
    assert_eq!(artifact.functions[0].trampoline.offset(), 0);
    assert_eq!(artifact.functions[1].body.offset(), 64);
    assert_eq!(artifact.functions[1].length, 20);
    assert_eq!(artifact.functions[1].signature, VMSharedSignatureIndex(2));
    assert_eq!(artifact.functions[1].trampoline.offset(), 16);
    assert_eq!(artifact.dynamic_function_trampolines.len(), 1);
    assert_eq!(artifact.dynamic_function_trampolines[0].offset(), 96);
    let sections: Vec<usize> = artifact.custom_sections.iter().map(|s| s.offset()).collect();
    assert_eq!(sections, vec![PAGE, 112, PAGE + 64]);

    let memory = &artifact.code_memory;
    assert!(memory.is_published());
    assert_eq!(memory.size(), PAGE + 64 + 128);
    assert_eq!(memory.executable_end(), 114);
    assert_eq!(memory.position(), PAGE + 64 + 65);
    let bytes = memory.as_slice();
    assert_eq!(&bytes[0..3], &[0xa0; 3]);
    assert_eq!(&bytes[16..33], &[0xa1; 17]);
    assert_eq!(&bytes[48..58], &[1, 2, 3, 4, 5, 0, 0, 0, 0xee, 0xef]);
    assert_eq!(&bytes[96..98], &[0xd0; 2]);
    assert_eq!(&bytes[112..114], &[0x99; 2]);
    assert_eq!(&bytes[114..PAGE], &vec![0u8; PAGE - 114][..]);
    assert_eq!(&bytes[PAGE + 64..PAGE + 64 + 65], &[0x78; 65]);

    // The second function: an 8-byte distance to its jump table at 64 + 16
    // from the place 64, patched over by the address of section 0 plus 2 at
    // 68, and a 4-byte distance to the first function less 4 from the place
    // 76.
    let address = (BASE + PAGE + 2) as u64;
    assert_eq!(&bytes[64..68], &16u64.to_le_bytes()[0..4]);
    assert_eq!(&bytes[68..76], &address.to_le_bytes());
    assert_eq!(&bytes[76..80], &(48i32 - 4 - 76).to_le_bytes());
    assert_eq!(&bytes[80..84], &[0x11; 4]);
    // Section 0: a 4-byte distance to section 2 from the place at 4.
    assert_eq!(&bytes[PAGE..PAGE + 4], &[0x77; 4]);
    assert_eq!(&bytes[PAGE + 4..PAGE + 8], &(64i32 - 4).to_le_bytes());

    assert_eq!(artifact.imports.len(), 4);
    assert_eq!(artifact.imports[0].module, "env");
    assert_eq!(artifact.imports[0].field, "f");
    assert_eq!(artifact.imports[0].import_no, 0);
    match artifact.imports[0].ty {
        VMImportType::Function { sig, static_trampoline } => {
            assert_eq!(sig, VMSharedSignatureIndex(2));
            assert_eq!(static_trampoline.offset(), 16);
        }
        _ => panic!("a function import"),
    }
    assert_eq!(
        artifact.imports[1].ty,
        VMImportType::Table(TableType { ty: Type::FuncRef, minimum: 1, maximum: None })
    );
    assert_eq!(
        artifact.imports[2].ty,
        VMImportType::Memory(
            MemoryType { minimum: 1, maximum: None, shared: false },
            MemoryStyle::Dynamic { offset_guard_size: 1 }
        )
    );
    assert_eq!(artifact.imports[3].module, "host");
    assert_eq!(
        artifact.imports[3].ty,
        VMImportType::Global(GlobalType { ty: Type::I32, mutability: Mutability::Const })
    );
    assert_eq!(artifact.exports, executable.compile_info.module.exports);
    assert_eq!(
        artifact.local_memories,
        vec![(
            MemoryType { minimum: 2, maximum: Some(4), shared: false },
            MemoryStyle::Static { bound: 9, offset_guard_size: 2 }
        )]
    );
    assert_eq!(
        artifact.local_tables,
        vec![(
            TableType { ty: Type::FuncRef, minimum: 2, maximum: Some(3) },
            TableStyle::CallerChecksSignature
        )]
    );
    assert_eq!(
        artifact.local_globals,
        vec![(GlobalType { ty: Type::I64, mutability: Mutability::Var }, GlobalInit::I64Const(5))]
    );
    assert_eq!(artifact.data_segments, executable.data_initializers);
    assert_eq!(artifact.passive_data, executable.compile_info.module.passive_data);
    assert_eq!(artifact.element_segments, executable.compile_info.module.table_initializers);
    assert_eq!(artifact.passive_elements, executable.compile_info.module.passive_elements);
    assert_eq!(artifact.import_counts, executable.compile_info.module.import_counts);
    assert_eq!(artifact.start_function, Some(FunctionIndex(2)));
    assert_eq!(
        artifact.vmoffsets,
        VMOffsets {
            pointer_size: (usize::BITS / 8) as u8,
            num_signature_ids: 2,
            num_imported_functions: 1,
            num_imported_tables: 1,
            num_imported_memories: 1,
            num_imported_globals: 1,
            num_local_tables: 1,
            num_local_memories: 1,
            num_local_globals: 1,
        }
    );
    assert_eq!(engine.inner().code_memory_pool().available(), (1 << 20) - (PAGE + 192));
    assert_eq!(engine.lookup_signature(VMSharedSignatureIndex(1)), Some(binary()));
    assert_eq!(engine.lookup_signature(VMSharedSignatureIndex(2)), Some(unary()));
}

#[test]
fn both_load_paths_give_the_same_artifact() {
    let executable = rich_executable();
    let mut first = headless(1 << 20);
    let mut second = headless(1 << 20);
    let owned = first.load_universal_executable(&executable, BASE).unwrap();
    let borrowed = second.load_universal_executable_ref(&executable.as_ref(), BASE).unwrap();
    assert_eq!(owned.exports, borrowed.exports);
    assert_eq!(owned.imports, borrowed.imports);
    assert_eq!(owned.functions.len(), borrowed.functions.len());
    assert_eq!(owned.functions, borrowed.functions);
    assert_eq!(owned.signatures, borrowed.signatures);
    assert_eq!(owned.custom_sections, borrowed.custom_sections);
    assert_eq!(owned.import_counts, borrowed.import_counts);
    assert_eq!(owned.start_function, borrowed.start_function);
    assert_eq!(owned.local_memories, borrowed.local_memories);
    assert_eq!(owned.local_tables, borrowed.local_tables);
    assert_eq!(owned.local_globals, borrowed.local_globals);
    assert_eq!(owned.data_segments, borrowed.data_segments);
    assert_eq!(owned.passive_data, borrowed.passive_data);
    assert_eq!(owned.element_segments, borrowed.element_segments);
    assert_eq!(owned.passive_elements, borrowed.passive_elements);
    assert_eq!(owned.vmoffsets, borrowed.vmoffsets);
    assert_eq!(owned.code_memory.as_slice(), borrowed.code_memory.as_slice());
}

#[test]
fn modules_share_the_handles_of_equal_types() {
    let mut engine = headless(1 << 20);
    let first = engine.load_universal_executable(&rich_executable(), BASE).unwrap();
    let second = engine.load_universal_executable(&rich_executable(), 2 * BASE).unwrap();
    assert_eq!(first.signatures, second.signatures);
    assert_eq!(engine.inner().signatures().len(), 2);
    assert_eq!(engine.register_signature(&binary()), first.signatures[0]);
    assert_eq!(
        engine.inner().code_memory_pool().available(),
        (1 << 20) - 2 * (PAGE + 192)
    );
}

#[test]
fn function_metadata_gets_one_handle() {
    let mut engine = headless(1 << 20);
    let data =
        VMCallerCheckedAnyfunc { func_ptr: 1, type_index: VMSharedSignatureIndex(0), vmctx: 2 };
    let other = VMCallerCheckedAnyfunc { func_ptr: 3, ..data };
    assert_eq!(engine.register_function_metadata(data), VMFuncRef(0));
    assert_eq!(engine.register_function_metadata(other), VMFuncRef(1));
    assert_eq!(engine.register_function_metadata(data), VMFuncRef(0));
    assert_eq!(engine.inner().func_data().lookup(VMFuncRef(1)), Some(other));
}

#[test]
fn exhausted_pool_fails_the_load_and_keeps_its_budget() {
    let mut engine = headless(PAGE + 191);
    let error = engine.load_universal_executable(&rich_executable(), BASE).err();
    assert_eq!(
        error,
        Some(CompileError::Resource(ResourceError::PoolExhausted {
            requested: PAGE + 192,
            available: PAGE + 191,
        }))
    );
    assert_eq!(engine.inner().code_memory_pool().available(), PAGE + 191);
    // The types of the module were registered before the code was placed.
    assert_eq!(engine.inner().signatures().len(), 2);
    let mut engine = headless(PAGE + 192);
    assert!(engine.load_universal_executable(&rich_executable(), BASE).is_ok());
    assert_eq!(engine.inner().code_memory_pool().available(), 0);
}

#[test]
fn inconsistent_executable_is_refused() {
    let mut engine = headless(1 << 20);
    let mut missing_body = rich_executable();
    missing_body.function_bodies.pop();
    let mut bad_type = rich_executable();
    bad_type.compile_info.module.functions[1] = SignatureIndex(2);
    let mut missing_trampoline = rich_executable();
    missing_trampoline.function_call_trampolines.pop();
    let mut bad_import = rich_executable();
    bad_import.compile_info.module.imports[2].index = ImportIndex::Memory(MemoryIndex(2));
    let mut bad_target = rich_executable();
    bad_target.function_relocations[1][1].reloc_target =
        RelocationTarget::CustomSection(SectionIndex(3));
    let mut bad_jump_table = rich_executable();
    bad_jump_table.function_jt_offsets[1].clear();
    let mut bad_offset = rich_executable();
    bad_offset.function_relocations[1][2].offset = 17;
    let mut missing_style = rich_executable();
    missing_style.compile_info.memory_styles.pop();
    let mut missing_initializer = rich_executable();
    missing_initializer.compile_info.module.global_initializers.clear();
    let mut too_many_imports = rich_executable();
    too_many_imports.compile_info.module.import_counts.tables = 3;
    let mut same_export_twice = rich_executable();
    same_export_twice.compile_info.module.exports[1].name = String::from("a");
    let mut same_import_twice = rich_executable();
    same_import_twice.compile_info.module.imports[1].field = String::from("f");
    same_import_twice.compile_info.module.imports[1].import_no = 0;
    let mut same_passive_data_twice = rich_executable();
    same_passive_data_twice.compile_info.module.passive_data[1].index = DataIndex(1);
    let mut same_passive_elements_twice = rich_executable();
    let elements = same_passive_elements_twice.compile_info.module.passive_elements[0].clone();
    same_passive_elements_twice.compile_info.module.passive_elements.push(elements);
    let mut no_trampolines = rich_executable();
    no_trampolines.function_relocations[1][1].reloc_target = RelocationTarget::Trampoline(0);
    for executable in [
        same_export_twice,
        same_import_twice,
        same_passive_data_twice,
        same_passive_elements_twice,
        no_trampolines,
        missing_body,
        bad_type,
        missing_trampoline,
        bad_import,
        bad_target,
        bad_jump_table,
        bad_offset,
        missing_style,
        missing_initializer,
        too_many_imports,
    ] {
        assert!(!executable.as_ref().is_consistent());
        assert_eq!(
            engine.load_universal_executable(&executable, BASE).err(),
            Some(CompileError::CorruptExecutable)
        );
    }
    assert!(rich_executable().as_ref().is_consistent());
    assert_eq!(engine.inner().signatures().len(), 0);
    assert_eq!(engine.inner().code_memory_pool().available(), 1 << 20);
}

#[test]
fn relocation_out_of_range_fails_the_load_and_frees_the_memory() {
    let mut engine = headless(1 << 20);
    let mut executable = rich_executable();
    executable.function_relocations[1][2].addend = 1 << 40;
    assert_eq!(
        engine.load_universal_executable(&executable, BASE).err(),
        Some(CompileError::Codegen(CodegenError::RelocationOutOfRange))
    );
    assert_eq!(engine.inner().code_memory_pool().available(), 1 << 20);
    let mut executable = rich_executable();
    executable.function_relocations[1][1].addend = -(1 << 40);
    assert_eq!(
        engine.load_universal_executable(&executable, BASE).err(),
        Some(CompileError::Codegen(CodegenError::RelocationOutOfRange))
    );
    executable.function_relocations[1][1].addend = -((BASE + PAGE) as i64);
    let artifact = engine.load_universal_executable(&executable, BASE).unwrap();
    assert_eq!(&artifact.code_memory.as_slice()[68..76], &[0; 8]);
}

#[test]
fn released_artifact_gives_its_memory_back() {
    let mut engine = headless(1 << 20);
    let artifact = engine.load_universal_executable(&rich_executable(), BASE).unwrap();
    assert_eq!(engine.inner().code_memory_pool().available(), (1 << 20) - (PAGE + 192));
    assert!(engine.release(artifact));
    assert_eq!(engine.inner().code_memory_pool().available(), 1 << 20);
    let mut other = headless(1 << 20);
    let foreign = other.load_universal_executable(&rich_executable(), BASE).unwrap();
    assert!(!engine.release(foreign));
    assert_eq!(engine.inner().code_memory_pool().available(), 1 << 20);
}

#[test]
fn missing_cpu_features_are_named() {
    let mut engine = headless(1 << 20);
    let mut executable = rich_executable();
    assert_eq!(engine.check_cpu_features(executable.cpu_features), Ok(()));
    executable.cpu_features = 0b11101;
    let missing = CompileError::MissingCapability(Capability::CpuFeatures(0b11000));
    assert_eq!(engine.check_cpu_features(executable.cpu_features), Err(missing.clone()));
    assert_eq!(engine.load_universal_executable(&executable, BASE).err(), Some(missing.clone()));
    assert_eq!(
        engine.load_universal_executable_ref(&executable.as_ref(), BASE).err(),
        Some(missing)
    );
    assert_eq!(engine.inner().signatures().len(), 0);
    assert_eq!(engine.inner().code_memory_pool().available(), 1 << 20);
}

#[test]
fn pages_of_half_the_address_space_exhaust_every_pool() {
    let budget = isize::MAX as usize;
    let page = 1 << (usize::BITS - 1);
    let pool = LimitedMemoryPool::with_page_size(budget, page).unwrap();
    let mut engine = UniversalEngine::headless(pool, Target { cpu_features: 1 }, EngineId(9));
    // The executable zone takes one page; the data zone follows it.
    assert_eq!(
        engine.load_universal_executable(&rich_executable(), BASE).err(),
        Some(CompileError::Resource(ResourceError::PoolExhausted {
            requested: page + 192,
            available: budget,
        }))
    );
    assert_eq!(engine.inner().code_memory_pool().available(), budget);
}

#[test]
fn data_zone_starts_on_its_own_page() {
    for page in [64usize, 256, 4096, 65536] {
        for code in [0usize, 1, 15, 16, 17, 63, 64, 65, 4095, 4096, 4097] {
            for data in [1usize, 64, 65] {
                let mut executable = rich_executable();
                executable.function_relocations = vec![vec![], vec![]];
                executable.function_jt_offsets = vec![vec![], vec![]];
                executable.custom_section_relocations = vec![vec![], vec![], vec![]];
                executable.function_bodies[1] = body(&vec![0x22; code]);
                executable.custom_sections[0].bytes = vec![0x33; data];
                let pool = LimitedMemoryPool::with_page_size(1 << 24, page).unwrap();
                let mut engine =
                    UniversalEngine::headless(pool, Target { cpu_features: 1 }, EngineId(3));
                let artifact = engine.load_universal_executable(&executable, BASE).unwrap();
                let memory = &artifact.code_memory;
                let first_data = artifact.custom_sections[0].offset();
                let second_data = artifact.custom_sections[2].offset();
                assert_eq!(first_data % page, 0);
                assert!(memory.executable_end() <= first_data);
                assert!(first_data - memory.executable_end() < page + 16);
                if memory.executable_end() > 0 {
                    assert!((memory.executable_end() - 1) / page < first_data / page);
                }
                assert_eq!(second_data, first_data + (data + 63) / 64 * 64);
                assert_eq!(memory.size(), second_data + 128);
                assert_eq!(&memory.as_slice()[first_data..first_data + data], &vec![0x33; data][..]);
                assert_eq!(
                    2 * (1 << 24) - memory.size(),
                    (1 << 24) + engine.inner().code_memory_pool().available()
                );
            }
        }
    }
}

#[test]
fn compile_info_asks_the_tunables_for_every_memory_and_table() {
    let mut module = sum_module();
    module.memories = vec![
        MemoryType { minimum: 1, maximum: None, shared: true },
        MemoryType { minimum: 2, maximum: None, shared: false },
    ];
    module.tables = vec![
        TableType { ty: Type::FuncRef, minimum: 1, maximum: None },
        TableType { ty: Type::ExternRef, minimum: 2, maximum: Some(2) },
    ];
    module.import_counts.memories = 1;
    module.import_counts.tables = 1;
    let features = Features { threads: true, ..Features::default() };
    let info = compile_info(module.clone(), features, &Styles);
    assert_eq!(info.module, module);
    assert_eq!(info.features, features);
    assert_eq!(
        info.memory_styles,
        vec![
            MemoryStyle::Dynamic { offset_guard_size: 0x1000 },
            MemoryStyle::Static { bound: 3, offset_guard_size: 0x8000 },
        ]
    );
    assert_eq!(info.table_styles, vec![TableStyle::CallerChecksSignature; 2]);
    let dynamic: &dyn Tunables = &Styles;
    assert_eq!(compile_info(module, features, dynamic), info);
}

#[test]
fn relocation_takes_the_address_of_a_trampoline_slot() {
    let mut engine = headless(1 << 20);
    let mut executable = rich_executable();
    // Section 2, at a page and 64, is 65 bytes long: four slots of 16.
    executable.trampolines =
        Some(TrampolinesSection { section_index: SectionIndex(2), slots: 4, size: 16 });
    executable.function_relocations[1][1].reloc_target = RelocationTarget::Trampoline(3);
    let artifact = engine.load_universal_executable(&executable, BASE).unwrap();
    let address = (BASE + PAGE + 64 + 3 * 16 + 2) as u64;
    assert_eq!(&artifact.code_memory.as_slice()[68..76], &address.to_le_bytes());

    let mut beyond_the_slots = executable.clone();
    beyond_the_slots.function_relocations[1][1].reloc_target = RelocationTarget::Trampoline(4);
    let mut beyond_the_section = executable.clone();
    beyond_the_section.trampolines =
        Some(TrampolinesSection { section_index: SectionIndex(2), slots: 5, size: 16 });
    let mut in_no_section = executable.clone();
    in_no_section.trampolines =
        Some(TrampolinesSection { section_index: SectionIndex(3), slots: 4, size: 16 });
    let mut too_large = executable.clone();
    too_large.trampolines =
        Some(TrampolinesSection { section_index: SectionIndex(2), slots: usize::MAX, size: 16 });
    for executable in [beyond_the_slots, beyond_the_section, in_no_section, too_large] {
        assert_eq!(
            engine.load_universal_executable(&executable, BASE).err(),
            Some(CompileError::CorruptExecutable)
        );
    }
}
