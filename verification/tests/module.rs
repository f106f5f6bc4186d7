use wasmer_engine_universal::module::{
    Export, Import, ModuleInfo, OwnedTableInitializer, PassiveData, PassiveElements,
};
use wasmer_engine_universal::types::{
    duplicates, keys_distinct, DataIndex, Duplicate, ElemIndex, ExportIndex, FunctionIndex,
    FunctionType, GlobalIndex, GlobalInit, GlobalType, ImportCounts, ImportIndex, Keyed,
    MemoryIndex, MemoryType, Mutability, SignatureIndex, TableIndex, TableType, Type,
};
use wasmer_engine_universal::vm::VMOffsets;

fn module() -> ModuleInfo {
    ModuleInfo {
        signatures: vec![FunctionType::new(vec![Type::I32], vec![])],
        functions: vec![SignatureIndex(0), SignatureIndex(0)],
        tables: vec![TableType { ty: Type::FuncRef, minimum: 0, maximum: None }],
        memories: vec![MemoryType { minimum: 1, maximum: None, shared: false }],
        globals: vec![
            GlobalType { ty: Type::I32, mutability: Mutability::Const },
            GlobalType { ty: Type::I32, mutability: Mutability::Var },
        ],
        global_initializers: vec![GlobalInit::I32Const(1)],
        imports: vec![
            Import {
                module: String::from("env"),
                field: String::from("f"),
                import_no: 0,
                index: ImportIndex::Function(FunctionIndex(0)),
            },
            Import {
                module: String::from("env"),
                field: String::from("g"),
                import_no: 1,
                index: ImportIndex::Global(GlobalIndex(0)),
            },
        ],
        exports: vec![Export {
            name: String::from("f"),
            index: ExportIndex::Function(FunctionIndex(1)),
        }],
        import_counts: ImportCounts { functions: 1, tables: 0, memories: 0, globals: 1 },
        start_function: None,
        passive_data: vec![PassiveData { index: DataIndex(0), data: vec![1, 2] }],
        table_initializers: vec![OwnedTableInitializer {
            table_index: TableIndex(0),
            base: Some(GlobalIndex(0)),
            offset: 0,
            elements: vec![FunctionIndex(1)],
        }],
        passive_elements: vec![PassiveElements { index: ElemIndex(3), elements: vec![] }],
    }
}

#[test]
fn consistent_module_is_accepted() {
    assert!(module().is_consistent());
    let empty = ModuleInfo {
        signatures: vec![],
        functions: vec![],
        tables: vec![],
        memories: vec![],
        globals: vec![],
        global_initializers: vec![],
        imports: vec![],
        exports: vec![],
        import_counts: ImportCounts { functions: 0, tables: 0, memories: 0, globals: 0 },
        start_function: None,
        passive_data: vec![],
        table_initializers: vec![],
        passive_elements: vec![],
    };
    assert!(empty.is_consistent());
}

#[test]
fn more_imports_than_entities_are_refused() {
    for kind in 0..4 {
        let mut module = module();
        match kind {
            0 => module.import_counts.functions = 3,
            1 => module.import_counts.tables = 2,
            2 => module.import_counts.memories = 2,
            _ => module.import_counts.globals = 3,
        }
        assert!(!module.is_consistent());
    }
}

#[test]
fn function_without_declared_type_is_refused() {
    let mut module = module();
    module.functions[1] = SignatureIndex(1);
    assert!(!module.is_consistent());
}

#[test]
fn global_without_initializer_is_refused() {
    let mut module = module();
    module.global_initializers.clear();
    assert!(!module.is_consistent());
    let mut module = self::module();
    module.global_initializers.push(GlobalInit::RefNullConst);
    assert!(!module.is_consistent());
}

#[test]
fn import_of_what_the_module_lacks_is_refused() {
    let indices = [
        ImportIndex::Function(FunctionIndex(2)),
        ImportIndex::Table(TableIndex(1)),
        ImportIndex::Memory(MemoryIndex(1)),
        ImportIndex::Global(GlobalIndex(2)),
    ];
    for index in indices {
        let mut module = module();
        module.imports[1].index = index;
        assert!(!module.is_consistent());
    }
    let indices = [
        ImportIndex::Function(FunctionIndex(1)),
        ImportIndex::Table(TableIndex(0)),
        ImportIndex::Memory(MemoryIndex(0)),
        ImportIndex::Global(GlobalIndex(1)),
    ];
    for index in indices {
        let mut module = module();
        module.imports[1].index = index;
        assert!(module.is_consistent());
    }
}

#[test]
fn instance_shape_counts_the_entities() {
    let offsets = VMOffsets::for_host();
    assert_eq!(offsets.pointer_size as u32, usize::BITS / 8);
    assert_eq!(offsets.num_signature_ids, 0);
    let module = module();
    assert!(module.is_consistent());
    let offsets = offsets.with_module_info(&module);
    assert_eq!(
        offsets,
        VMOffsets {
            pointer_size: (usize::BITS / 8) as u8,
            num_signature_ids: 1,
            num_imported_functions: 1,
            num_imported_tables: 0,
            num_imported_memories: 0,
            num_imported_globals: 1,
            num_local_tables: 1,
            num_local_memories: 1,
            num_local_globals: 1,
        }
    );
    assert_eq!(module.exports[0].duplicate(), module.exports[0]);
}

#[test]
fn export_names_occur_once() {
    let mut module = module();
    module.exports.push(Export {
        name: String::from("g"),
        index: ExportIndex::Function(FunctionIndex(1)),
    });
    assert!(module.is_consistent());
    assert!(keys_distinct(&module.exports));
    module.exports[1].name = String::from("f");
    assert!(module.exports[0].same_key(&module.exports[1]));
    assert!(!keys_distinct(&module.exports));
    assert!(!module.is_consistent());
}

#[test]
fn import_keys_occur_once() {
    let mut module = module();
    // The same origin and name in another slot is another import.
    module.imports[1].field = String::from("f");
    assert!(module.is_consistent());
    module.imports[1].import_no = 0;
    assert!(module.imports[0].same_key(&module.imports[1]));
    assert!(!module.is_consistent());
    module.imports[1].module = String::from("host");
    assert!(module.is_consistent());
}

#[test]
fn passive_segments_have_one_index_each() {
    let mut module = module();
    module.passive_data.push(PassiveData { index: DataIndex(1), data: vec![1, 2] });
    module.passive_elements.push(PassiveElements { index: ElemIndex(4), elements: vec![] });
    assert!(module.is_consistent());
    module.passive_data[1].index = DataIndex(0);
    assert!(!module.is_consistent());
    module.passive_data[1].index = DataIndex(2);
    module.passive_elements[1].index = ElemIndex(3);
    assert!(!module.is_consistent());
    assert!(keys_distinct(&Vec::<PassiveData>::new()));
}

#[test]
fn copies_are_equal_to_their_sources() {
    let module = module();
    assert_eq!(duplicates(&module.exports), module.exports);
    assert_eq!(duplicates(&module.passive_data), module.passive_data);
    assert_eq!(duplicates(&module.table_initializers), module.table_initializers);
    assert_eq!(duplicates(&module.passive_elements), module.passive_elements);
    assert_eq!(module.passive_data[0].duplicate(), module.passive_data[0]);
}
