//! The artifact: a module that is loaded, linked and published, ready to be
//! instantiated.

use crate::code_memory::{CodeMemory, CodeMemoryView};
use crate::executable::{DataInitializerView, OwnedDataInitializer};
use crate::module::{
    Export, ExportView, OwnedTableInitializer, PassiveData, PassiveDataView, PassiveElements,
    PassiveElementsView, TableInitializerView,
};
use crate::registry::VMSharedSignatureIndex;
use crate::types::{
    views, FunctionIndex, GlobalInit, GlobalType, ImportCounts, MemoryStyle, MemoryType,
    TableStyle, TableType,
};
use crate::vm::{
    EngineId, FunctionBodyPtr, SectionBodyPtr, VMImport, VMImportView, VMLocalFunction,
    VMLocalFunctionView, VMOffsets,
};
use vstd::prelude::*;

verus! {

/// A loaded module. It owns its code memory, which is published.
#[derive(Debug)]
pub struct UniversalArtifact {
    /// The engine that loaded the module; the handles of function types are
    /// those of its registry.
    pub engine_id: EngineId,
    /// The memory that holds the code and read-only data.
    pub code_memory: CodeMemory,
    /// How many entities of each kind the module imports.
    pub import_counts: ImportCounts,
    /// The function that is run when the module is instantiated.
    pub start_function: Option<FunctionIndex>,
    /// The shape of the object that the host keeps for an instance.
    pub vmoffsets: VMOffsets,
    /// The imports, resolved, in the module's order.
    pub imports: Vec<VMImport>,
    /// The dynamic trampoline of each imported function.
    pub dynamic_function_trampolines: Vec<FunctionBodyPtr>,
    /// The entry of each function that the module defines.
    pub functions: Vec<VMLocalFunction>,
    /// The exports, in the module's order.
    pub exports: Vec<Export>,
    /// The handle of each function type that the module declares.
    pub signatures: Vec<VMSharedSignatureIndex>,
    /// The type and style of each memory that the module defines.
    pub local_memories: Vec<(MemoryType, MemoryStyle)>,
    /// The type and style of each table that the module defines.
    pub local_tables: Vec<(TableType, TableStyle)>,
    /// The type and initializer of each global that the module defines.
    pub local_globals: Vec<(GlobalType, GlobalInit)>,
    /// The place of each custom section.
    pub custom_sections: Vec<SectionBodyPtr>,
    /// The data that is written to memories on instantiation.
    pub data_segments: Vec<OwnedDataInitializer>,
    /// The data segments that are written only when the code asks for it.
    pub passive_data: Vec<PassiveData>,
    /// The functions that are written to tables on instantiation.
    pub element_segments: Vec<OwnedTableInitializer>,
    /// The element segments that are written only when the code asks for it.
    pub passive_elements: Vec<PassiveElements>,
}

/// What a `UniversalArtifact` is in contracts.
pub struct ArtifactView {
    pub engine_id: EngineId,
    pub code_memory: CodeMemoryView,
    pub import_counts: ImportCounts,
    pub start_function: Option<FunctionIndex>,
    pub vmoffsets: VMOffsets,
    pub imports: Seq<VMImportView>,
    pub dynamic_function_trampolines: Seq<int>,
    pub functions: Seq<VMLocalFunctionView>,
    pub exports: Seq<ExportView>,
    pub signatures: Seq<VMSharedSignatureIndex>,
    pub local_memories: Seq<(MemoryType, MemoryStyle)>,
    pub local_tables: Seq<(TableType, TableStyle)>,
    pub local_globals: Seq<(GlobalType, GlobalInit)>,
    pub custom_sections: Seq<int>,
    pub data_segments: Seq<DataInitializerView>,
    pub passive_data: Seq<PassiveDataView>,
    pub element_segments: Seq<TableInitializerView>,
    pub passive_elements: Seq<PassiveElementsView>,
}

impl View for UniversalArtifact {
    type V = ArtifactView;

    open spec fn view(&self) -> ArtifactView {
        ArtifactView {
            engine_id: self.engine_id,
            code_memory: self.code_memory@,
            import_counts: self.import_counts,
            start_function: self.start_function,
            vmoffsets: self.vmoffsets,
            imports: views(self.imports@),
            dynamic_function_trampolines: views(self.dynamic_function_trampolines@),
            functions: views(self.functions@),
            exports: views(self.exports@),
            signatures: self.signatures@,
            local_memories: self.local_memories@,
            local_tables: self.local_tables@,
            local_globals: self.local_globals@,
            custom_sections: views(self.custom_sections@),
            data_segments: views(self.data_segments@),
            passive_data: views(self.passive_data@),
            element_segments: views(self.element_segments@),
            passive_elements: views(self.passive_elements@),
        }
    }
}

/// The index of the first of the first `n` exports that has the given name.
pub open spec fn first_named(exports: Seq<ExportView>, name: Seq<char>, n: int) -> Option<int>
    decreases n,
{
    if n <= 0 {
        None
    } else {
        match first_named(exports, name, n - 1) {
            Some(index) => Some(index),
            None => if exports[n - 1].name == name {
                Some(n - 1)
            } else {
                None
            },
        }
    }
}

proof fn lemma_first_named_stays(exports: Seq<ExportView>, name: Seq<char>, i: int, n: int)
    requires
        first_named(exports, name, i) is Some,
        i <= n,
    ensures
        first_named(exports, name, n) == first_named(exports, name, i),
    decreases n - i,
{
    if i < n {
        lemma_first_named_stays(exports, name, i, n - 1);
    }
}

impl UniversalArtifact {
    /// The first export with the given name, if the module has one.
    pub fn export(&self, name: &String) -> (found: Option<&Export>)
        ensures
            match first_named(self@.exports, name@, self.exports@.len() as int) {
                Some(index) => 0 <= index < self.exports@.len() && found == Some(
                    &self.exports@[index],
                ),
                None => found is None,
            },
    {
        let ghost exports = self@.exports;
        let mut i: usize = 0;
        while i < self.exports.len()
            invariant
                i <= self.exports.len(),
                exports == views(self.exports@),
                first_named(exports, name@, i as int) is None,
            decreases self.exports.len() - i,
        {
            if self.exports[i].name == *name {
                proof {
                    assert(exports[i as int].name == name@);
                    lemma_first_named_stays(exports, name@, i + 1, self.exports.len() as int);
                }
                return Some(&self.exports[i]);
            }
            i = i + 1;
        }
        None
    }
}

} // verus!
