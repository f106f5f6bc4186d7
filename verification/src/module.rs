//! The description of a module: what it imports, exports, declares and
//! defines. It is made elsewhere and only read here.

use crate::types::{
    distinct, keys, keys_distinct, views, DataIndex, Duplicate, ElemIndex, ExportIndex, Features,
    FunctionIndex, FunctionType, FunctionTypeView, GlobalIndex, GlobalInit, GlobalType,
    ImportCounts, ImportIndex, Keyed, MemoryStyle, MemoryType, SignatureIndex, TableIndex,
    TableStyle, TableType,
};
use vstd::prelude::*;
use vstd::slice::slice_to_vec;

verus! {

/// One import of a module.
#[derive(Clone, Debug, PartialEq, Eq)]
pub struct Import {
    /// The name of the module that the import comes from.
    pub module: String,
    /// The name of the import within that module.
    pub field: String,
    /// The slot of the import among the imports.
    pub import_no: u32,
    /// What is imported.
    pub index: ImportIndex,
}

/// What an `Import` is in contracts.
pub struct ImportView {
    pub module: Seq<char>,
    pub field: Seq<char>,
    pub import_no: u32,
    pub index: ImportIndex,
}

impl View for Import {
    type V = ImportView;

    open spec fn view(&self) -> ImportView {
        ImportView {
            module: self.module@,
            field: self.field@,
            import_no: self.import_no,
            index: self.index,
        }
    }
}

/// One export of a module.
#[derive(Clone, Debug, PartialEq, Eq)]
pub struct Export {
    pub name: String,
    pub index: ExportIndex,
}

/// What an `Export` is in contracts.
pub struct ExportView {
    pub name: Seq<char>,
    pub index: ExportIndex,
}

impl View for Export {
    type V = ExportView;

    open spec fn view(&self) -> ExportView {
        ExportView { name: self.name@, index: self.index }
    }
}

impl Duplicate for Export {
    fn duplicate(&self) -> (copy: Export) {
        Export { name: self.name.clone(), index: self.index }
    }
}

impl Keyed for Export {
    type Key = Seq<char>;

    /// An export is found by its name.
    open spec fn key(&self) -> Seq<char> {
        self.name@
    }

    fn same_key(&self, other: &Export) -> (same: bool) {
        self.name == other.name
    }
}

impl Keyed for Import {
    type Key = (Seq<char>, Seq<char>, u32);

    /// An import is found by the module it comes from, its name there, and
    /// its slot.
    open spec fn key(&self) -> (Seq<char>, Seq<char>, u32) {
        (self.module@, self.field@, self.import_no)
    }

    fn same_key(&self, other: &Import) -> (same: bool) {
        self.module == other.module && self.field == other.field && self.import_no
            == other.import_no
    }
}

/// A data segment that is written only when the code asks for it.
#[derive(Clone, Debug, PartialEq, Eq)]
pub struct PassiveData {
    pub index: DataIndex,
    pub data: Vec<u8>,
}

/// What a `PassiveData` is in contracts.
pub struct PassiveDataView {
    pub index: DataIndex,
    pub data: Seq<u8>,
}

impl View for PassiveData {
    type V = PassiveDataView;

    open spec fn view(&self) -> PassiveDataView {
        PassiveDataView { index: self.index, data: self.data@ }
    }
}

impl Duplicate for PassiveData {
    fn duplicate(&self) -> (copy: PassiveData) {
        PassiveData { index: self.index, data: slice_to_vec(self.data.as_slice()) }
    }
}

impl Keyed for PassiveData {
    type Key = DataIndex;

    /// A passive data segment is found by its index.
    open spec fn key(&self) -> DataIndex {
        self.index
    }

    fn same_key(&self, other: &PassiveData) -> (same: bool) {
        self.index == other.index
    }
}

/// An element segment that is written only when the code asks for it.
#[derive(Clone, Debug, PartialEq, Eq)]
pub struct PassiveElements {
    pub index: ElemIndex,
    pub elements: Vec<FunctionIndex>,
}

/// What a `PassiveElements` is in contracts.
pub struct PassiveElementsView {
    pub index: ElemIndex,
    pub elements: Seq<FunctionIndex>,
}

impl View for PassiveElements {
    type V = PassiveElementsView;

    open spec fn view(&self) -> PassiveElementsView {
        PassiveElementsView { index: self.index, elements: self.elements@ }
    }
}

impl Duplicate for PassiveElements {
    fn duplicate(&self) -> (copy: PassiveElements) {
        PassiveElements { index: self.index, elements: slice_to_vec(self.elements.as_slice()) }
    }
}

impl Keyed for PassiveElements {
    type Key = ElemIndex;

    /// A passive element segment is found by its index.
    open spec fn key(&self) -> ElemIndex {
        self.index
    }

    fn same_key(&self, other: &PassiveElements) -> (same: bool) {
        self.index == other.index
    }
}

/// Functions that are written to a table when the module is instantiated.
#[derive(Clone, Debug, PartialEq, Eq)]
pub struct OwnedTableInitializer {
    /// The table that is written.
    pub table_index: TableIndex,
    /// The global that holds the base of the offset, if there is one.
    pub base: Option<GlobalIndex>,
    /// Where in the table the first function goes.
    pub offset: usize,
    /// The functions, in order.
    pub elements: Vec<FunctionIndex>,
}

/// What an `OwnedTableInitializer` is in contracts.
pub struct TableInitializerView {
    pub table_index: TableIndex,
    pub base: Option<GlobalIndex>,
    pub offset: usize,
    pub elements: Seq<FunctionIndex>,
}

impl View for OwnedTableInitializer {
    type V = TableInitializerView;

    open spec fn view(&self) -> TableInitializerView {
        TableInitializerView {
            table_index: self.table_index,
            base: self.base,
            offset: self.offset,
            elements: self.elements@,
        }
    }
}

impl Duplicate for OwnedTableInitializer {
    fn duplicate(&self) -> (copy: OwnedTableInitializer) {
        OwnedTableInitializer {
            table_index: self.table_index,
            base: self.base,
            offset: self.offset,
            elements: slice_to_vec(self.elements.as_slice()),
        }
    }
}

/// The description of a module. In each index space the imported entities
/// come first: the local index of an entity is its index less the number of
/// imports.
#[derive(Clone, Debug, PartialEq, Eq)]
pub struct ModuleInfo {
    /// The function types that the module declares.
    pub signatures: Vec<FunctionType>,
    /// The type of each function, imported functions first.
    pub functions: Vec<SignatureIndex>,
    /// The type of each table, imported tables first.
    pub tables: Vec<TableType>,
    /// The type of each memory, imported memories first.
    pub memories: Vec<MemoryType>,
    /// The type of each global, imported globals first.
    pub globals: Vec<GlobalType>,
    /// The initializer of each global that the module defines.
    pub global_initializers: Vec<GlobalInit>,
    /// The imports, in the module's order.
    pub imports: Vec<Import>,
    /// The exports, in the module's order.
    pub exports: Vec<Export>,
    /// How many entities of each kind are imported.
    pub import_counts: ImportCounts,
    /// The function that is run when the module is instantiated.
    pub start_function: Option<FunctionIndex>,
    /// The data segments that are written only when the code asks for it.
    pub passive_data: Vec<PassiveData>,
    /// The functions that are written to tables on instantiation.
    pub table_initializers: Vec<OwnedTableInitializer>,
    /// The element segments that are written only when the code asks for it.
    pub passive_elements: Vec<PassiveElements>,
}

/// What a `ModuleInfo` is in contracts.
pub struct ModuleView {
    pub signatures: Seq<FunctionTypeView>,
    pub functions: Seq<SignatureIndex>,
    pub tables: Seq<TableType>,
    pub memories: Seq<MemoryType>,
    pub globals: Seq<GlobalType>,
    pub global_initializers: Seq<GlobalInit>,
    pub imports: Seq<ImportView>,
    pub exports: Seq<ExportView>,
    pub import_counts: ImportCounts,
    pub start_function: Option<FunctionIndex>,
    pub passive_data: Seq<PassiveDataView>,
    pub table_initializers: Seq<TableInitializerView>,
    pub passive_elements: Seq<PassiveElementsView>,
}

impl View for ModuleInfo {
    type V = ModuleView;

    open spec fn view(&self) -> ModuleView {
        ModuleView {
            signatures: views(self.signatures@),
            functions: self.functions@,
            tables: self.tables@,
            memories: self.memories@,
            globals: self.globals@,
            global_initializers: self.global_initializers@,
            imports: views(self.imports@),
            exports: views(self.exports@),
            import_counts: self.import_counts,
            start_function: self.start_function,
            passive_data: views(self.passive_data@),
            table_initializers: views(self.table_initializers@),
            passive_elements: views(self.passive_elements@),
        }
    }
}

impl ImportIndex {
    /// The import refers to an entity that the module has.
    pub open spec fn in_range(self, module: ModuleView) -> bool {
        match self {
            ImportIndex::Function(index) => index.0 < module.functions.len(),
            ImportIndex::Table(index) => index.0 < module.tables.len(),
            ImportIndex::Memory(index) => index.0 < module.memories.len(),
            ImportIndex::Global(index) => index.0 < module.globals.len(),
        }
    }
}

impl ModuleView {
    /// The name of each export.
    pub open spec fn export_names(self) -> Seq<Seq<char>> {
        Seq::new(self.exports.len(), |i: int| self.exports[i].name)
    }

    /// What each import is found by: the module it comes from, its name
    /// there, and its slot.
    pub open spec fn import_keys(self) -> Seq<(Seq<char>, Seq<char>, u32)> {
        Seq::new(
            self.imports.len(),
            |i: int| (self.imports[i].module, self.imports[i].field, self.imports[i].import_no),
        )
    }

    /// The index of each passive data segment.
    pub open spec fn passive_data_indices(self) -> Seq<DataIndex> {
        Seq::new(self.passive_data.len(), |i: int| self.passive_data[i].index)
    }

    /// The index of each passive element segment.
    pub open spec fn passive_element_indices(self) -> Seq<ElemIndex> {
        Seq::new(self.passive_elements.len(), |i: int| self.passive_elements[i].index)
    }

    /// The lists that stand for maps hold no key twice: no two exports have
    /// the same name, no two imports the same origin, name and slot, and no
    /// two passive segments of one kind the same index.
    pub open spec fn keys_distinct(self) -> bool {
        &&& distinct(self.export_names())
        &&& distinct(self.import_keys())
        &&& distinct(self.passive_data_indices())
        &&& distinct(self.passive_element_indices())
    }

    /// The parts of the description fit one another: each index space has
    /// room for its imports and for 32-bit indices, each function has a
    /// declared type, each defined global has an initializer, each import
    /// refers to an entity that the module has, and no key occurs twice in a
    /// list that stands for a map.
    pub open spec fn consistent(self) -> bool {
        &&& self.keys_distinct()
        &&& self.signatures.len() <= u32::MAX
        &&& self.import_counts.functions <= self.functions.len() <= u32::MAX
        &&& self.import_counts.tables <= self.tables.len() <= u32::MAX
        &&& self.import_counts.memories <= self.memories.len() <= u32::MAX
        &&& self.import_counts.globals <= self.globals.len() <= u32::MAX
        &&& self.global_initializers.len() == self.globals.len() - self.import_counts.globals
        &&& forall|f: int|
            0 <= f < self.functions.len() ==> (#[trigger] self.functions[f]).0
                < self.signatures.len()
        &&& forall|i: int|
            0 <= i < self.imports.len() ==> (#[trigger] self.imports[i]).index.in_range(self)
    }

    /// The number of functions that the module defines.
    pub open spec fn local_functions(self) -> int {
        self.functions.len() - self.import_counts.functions
    }

    /// The declared type of the function that the module defines as its
    /// `i`-th.
    pub open spec fn local_signature(self, i: int) -> SignatureIndex {
        self.functions[self.import_counts.functions + i]
    }
}

impl ModuleInfo {
    /// Tells whether the parts of the description fit one another.
    pub fn is_consistent(&self) -> (yes: bool)
        ensures
            yes == self@.consistent(),
    {
        let limit = u32::MAX as usize;
        let counts = self.import_counts;
        proof {
            assert(keys(self.exports@) =~= self@.export_names());
            assert(keys(self.imports@) =~= self@.import_keys());
            assert(keys(self.passive_data@) =~= self@.passive_data_indices());
            assert(keys(self.passive_elements@) =~= self@.passive_element_indices());
        }
        if !keys_distinct(&self.exports) || !keys_distinct(&self.imports) || !keys_distinct(
            &self.passive_data,
        ) || !keys_distinct(&self.passive_elements) {
            return false;
        }
        if self.signatures.len() > limit || self.functions.len() > limit || self.tables.len()
            > limit || self.memories.len() > limit || self.globals.len() > limit {
            return false;
        }
        if counts.functions as usize > self.functions.len() || counts.tables as usize
            > self.tables.len() || counts.memories as usize > self.memories.len()
            || counts.globals as usize > self.globals.len() {
            return false;
        }
        if self.global_initializers.len() != self.globals.len() - counts.globals as usize {
            return false;
        }
        let mut f: usize = 0;
        while f < self.functions.len()
            invariant
                f <= self.functions.len(),
                forall|k: int|
                    0 <= k < f ==> (#[trigger] self@.functions[k]).0 < self@.signatures.len(),
            decreases self.functions.len() - f,
        {
            if self.functions[f].0 as usize >= self.signatures.len() {
                assert(!((#[trigger] self@.functions[f as int]).0 < self@.signatures.len()));
                return false;
            }
            f = f + 1;
        }
        let mut i: usize = 0;
        while i < self.imports.len()
            invariant
                i <= self.imports.len(),
                forall|k: int|
                    0 <= k < i ==> (#[trigger] self@.imports[k]).index.in_range(self@),
            decreases self.imports.len() - i,
        {
            let in_range = match self.imports[i].index {
                ImportIndex::Function(index) => (index.0 as usize) < self.functions.len(),
                ImportIndex::Table(index) => (index.0 as usize) < self.tables.len(),
                ImportIndex::Memory(index) => (index.0 as usize) < self.memories.len(),
                ImportIndex::Global(index) => (index.0 as usize) < self.globals.len(),
            };
            assert(in_range == (#[trigger] self@.imports[i as int]).index.in_range(self@));
            if !in_range {
                return false;
            }
            i = i + 1;
        }
        true
    }
}

/// A module description with what was chosen for compiling it: the
/// proposals it may use and the style of each memory and table.
#[derive(Clone, Debug, PartialEq, Eq)]
pub struct CompileModuleInfo {
    pub module: ModuleInfo,
    pub features: Features,
    /// The style of each memory, imported memories first.
    pub memory_styles: Vec<MemoryStyle>,
    /// The style of each table, imported tables first.
    pub table_styles: Vec<TableStyle>,
}

} // verus!
