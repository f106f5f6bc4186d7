//! The executable of a module: the relocatable output of compiling it, owned
//! or borrowed from a buffer, and what a backend and a translator hand over.

use crate::module::{CompileModuleInfo, ModuleInfo, ModuleView};
use crate::section::{
    custom_section_refs, function_body_refs, CustomSection, CustomSectionRef, CustomSectionView,
    FunctionBody, FunctionBodyRef, FunctionBodyView,
};
use crate::types::{
    views, Duplicate, Features, FunctionType, GlobalIndex, JumpTable, LocalFunctionIndex,
    MemoryIndex, MemoryStyle, SectionIndex, TableStyle,
};
use vstd::prelude::*;
use vstd::slice::slice_to_vec;

verus! {

/// How the value of a relocation is computed and how wide it is.
#[derive(Clone, Copy, Debug, PartialEq, Eq, Structural)]
pub enum RelocationKind {
    /// The address of the target, 8 bytes.
    Abs8,
    /// The distance from the patched place to the target, 4 bytes.
    X86PCRel4,
    /// The distance from the patched place to the target, 8 bytes.
    X86PCRel8,
    /// The distance from the patched place to the target of a call, 4 bytes.
    X86CallPCRel4,
}

impl RelocationKind {
    /// The number of bytes that a relocation of this kind patches.
    pub open spec fn spec_width(self) -> int {
        match self {
            RelocationKind::Abs8 => 8,
            RelocationKind::X86PCRel4 => 4,
            RelocationKind::X86PCRel8 => 8,
            RelocationKind::X86CallPCRel4 => 4,
        }
    }

    /// The number of bytes that a relocation of this kind patches.
    pub fn width(self) -> (width: usize)
        ensures
            width == self.spec_width(),
    {
        match self {
            RelocationKind::Abs8 => 8,
            RelocationKind::X86PCRel4 => 4,
            RelocationKind::X86PCRel8 => 8,
            RelocationKind::X86CallPCRel4 => 4,
        }
    }
}

/// What a relocation refers to.
#[derive(Clone, Copy, Debug, PartialEq, Eq, Structural)]
pub enum RelocationTarget {
    /// A function that the module defines.
    LocalFunc(LocalFunctionIndex),
    /// A jump table of a function that the module defines.
    JumpTable(LocalFunctionIndex, JumpTable),
    /// A custom section.
    CustomSection(SectionIndex),
    /// A slot of the section of trampolines to far targets.
    Trampoline(u32),
}

/// A patch to generated code or data: write, at `offset` from the start of
/// the body or section, the address of the target plus `addend`, in the way
/// of `kind`.
#[derive(Clone, Copy, Debug, PartialEq, Eq, Structural)]
pub struct Relocation {
    pub kind: RelocationKind,
    pub reloc_target: RelocationTarget,
    pub offset: u32,
    pub addend: i64,
}

/// Where a trap may happen in a function, and which.
#[derive(Clone, Copy, Debug, PartialEq, Eq, Structural)]
pub struct TrapInformation {
    pub code_offset: u32,
    pub trap_code: u32,
}

/// What is kept of a function for reporting traps.
#[derive(Clone, Debug, PartialEq, Eq)]
pub struct CompiledFunctionFrameInfo {
    pub traps: Vec<TrapInformation>,
}

/// What a `CompiledFunctionFrameInfo` is in contracts.
pub struct FrameInfoView {
    pub traps: Seq<TrapInformation>,
}

impl View for CompiledFunctionFrameInfo {
    type V = FrameInfoView;

    open spec fn view(&self) -> FrameInfoView {
        FrameInfoView { traps: self.traps@ }
    }
}

/// Where the DWARF unwind information of an executable is.
#[derive(Clone, Copy, Debug, PartialEq, Eq, Structural)]
pub struct Dwarf {
    pub eh_frame: SectionIndex,
}

/// The custom section that holds trampolines to far targets: `slots`
/// trampolines of `size` bytes each, from the start of the section.
#[derive(Clone, Copy, Debug, PartialEq, Eq, Structural)]
pub struct TrampolinesSection {
    pub section_index: SectionIndex,
    pub slots: usize,
    pub size: usize,
}

/// Where a data initializer writes.
#[derive(Clone, Copy, Debug, PartialEq, Eq)]
pub struct DataInitializerLocation {
    pub memory_index: MemoryIndex,
    pub base: Option<GlobalIndex>,
    pub offset: usize,
}

/// Data that is written to a memory when the module is instantiated.
#[derive(Clone, Debug, PartialEq, Eq)]
pub struct OwnedDataInitializer {
    pub location: DataInitializerLocation,
    pub data: Vec<u8>,
}

/// What an `OwnedDataInitializer` is in contracts.
pub struct DataInitializerView {
    pub location: DataInitializerLocation,
    pub data: Seq<u8>,
}

impl View for OwnedDataInitializer {
    type V = DataInitializerView;

    open spec fn view(&self) -> DataInitializerView {
        DataInitializerView { location: self.location, data: self.data@ }
    }
}

impl Duplicate for OwnedDataInitializer {
    fn duplicate(&self) -> (copy: OwnedDataInitializer) {
        OwnedDataInitializer {
            location: self.location,
            data: slice_to_vec(self.data.as_slice()),
        }
    }
}

/// The executable of a module: immutable, relocatable, and loadable any
/// number of times.
#[derive(Clone, Debug, PartialEq, Eq)]
pub struct UniversalExecutable {
    /// The body of each function that the module defines.
    pub function_bodies: Vec<FunctionBody>,
    /// The relocations of each function body.
    pub function_relocations: Vec<Vec<Relocation>>,
    /// The offset of each jump table of each function, from the start of its
    /// body.
    pub function_jt_offsets: Vec<Vec<u32>>,
    /// What is kept of each function for reporting traps.
    pub function_frame_info: Vec<CompiledFunctionFrameInfo>,
    /// One trampoline for each function type that the module declares.
    pub function_call_trampolines: Vec<FunctionBody>,
    /// One trampoline for each imported function.
    pub dynamic_function_trampolines: Vec<FunctionBody>,
    /// The custom sections.
    pub custom_sections: Vec<CustomSection>,
    /// The relocations of each custom section.
    pub custom_section_relocations: Vec<Vec<Relocation>>,
    /// Where the DWARF unwind information is, if there is any.
    pub debug: Option<Dwarf>,
    /// The section of trampolines to far targets, if there is one.
    pub trampolines: Option<TrampolinesSection>,
    /// The description of the module, with the styles chosen for it.
    pub compile_info: CompileModuleInfo,
    /// The data that is written to memories on instantiation.
    pub data_initializers: Vec<OwnedDataInitializer>,
    /// The instruction-set capabilities that the code assumes, one bit each.
    pub cpu_features: u64,
}

/// An executable whose bytes stay in the buffer that they were read from:
/// the parts of an executable, by reference.
#[derive(Clone, Debug)]
pub struct UniversalExecutableRef<'a> {
    pub function_bodies: Vec<FunctionBodyRef<'a>>,
    pub function_relocations: &'a [Vec<Relocation>],
    pub function_jt_offsets: &'a [Vec<u32>],
    pub function_frame_info: &'a [CompiledFunctionFrameInfo],
    pub function_call_trampolines: Vec<FunctionBodyRef<'a>>,
    pub dynamic_function_trampolines: Vec<FunctionBodyRef<'a>>,
    pub custom_sections: Vec<CustomSectionRef<'a>>,
    pub custom_section_relocations: &'a [Vec<Relocation>],
    pub debug: Option<Dwarf>,
    pub trampolines: Option<TrampolinesSection>,
    pub compile_info: &'a CompileModuleInfo,
    pub data_initializers: &'a [OwnedDataInitializer],
    pub cpu_features: u64,
}

/// What an executable is in contracts.
pub struct ExecutableView {
    pub function_bodies: Seq<FunctionBodyView>,
    pub function_relocations: Seq<Seq<Relocation>>,
    pub function_jt_offsets: Seq<Seq<u32>>,
    pub function_frame_info: Seq<FrameInfoView>,
    pub function_call_trampolines: Seq<FunctionBodyView>,
    pub dynamic_function_trampolines: Seq<FunctionBodyView>,
    pub custom_sections: Seq<CustomSectionView>,
    pub custom_section_relocations: Seq<Seq<Relocation>>,
    pub debug: Option<Dwarf>,
    pub trampolines: Option<TrampolinesSection>,
    pub module: ModuleView,
    pub features: Features,
    pub memory_styles: Seq<MemoryStyle>,
    pub table_styles: Seq<TableStyle>,
    pub data_initializers: Seq<DataInitializerView>,
    pub cpu_features: u64,
}

impl View for UniversalExecutable {
    type V = ExecutableView;

    open spec fn view(&self) -> ExecutableView {
        ExecutableView {
            function_bodies: views(self.function_bodies@),
            function_relocations: views(self.function_relocations@),
            function_jt_offsets: views(self.function_jt_offsets@),
            function_frame_info: views(self.function_frame_info@),
            function_call_trampolines: views(self.function_call_trampolines@),
            dynamic_function_trampolines: views(self.dynamic_function_trampolines@),
            custom_sections: views(self.custom_sections@),
            custom_section_relocations: views(self.custom_section_relocations@),
            debug: self.debug,
            trampolines: self.trampolines,
            module: self.compile_info.module@,
            features: self.compile_info.features,
            memory_styles: self.compile_info.memory_styles@,
            table_styles: self.compile_info.table_styles@,
            data_initializers: views(self.data_initializers@),
            cpu_features: self.cpu_features,
        }
    }
}

impl<'a> View for UniversalExecutableRef<'a> {
    type V = ExecutableView;

    open spec fn view(&self) -> ExecutableView {
        ExecutableView {
            function_bodies: views(self.function_bodies@),
            function_relocations: views(self.function_relocations@),
            function_jt_offsets: views(self.function_jt_offsets@),
            function_frame_info: views(self.function_frame_info@),
            function_call_trampolines: views(self.function_call_trampolines@),
            dynamic_function_trampolines: views(self.dynamic_function_trampolines@),
            custom_sections: views(self.custom_sections@),
            custom_section_relocations: views(self.custom_section_relocations@),
            debug: self.debug,
            trampolines: self.trampolines,
            module: self.compile_info.module@,
            features: self.compile_info.features,
            memory_styles: self.compile_info.memory_styles@,
            table_styles: self.compile_info.table_styles@,
            data_initializers: views(self.data_initializers@),
            cpu_features: self.cpu_features,
        }
    }
}

impl Relocation {
    /// The relocation patches bytes of an item of `length` bytes, and refers
    /// to a part that `executable` has.
    pub open spec fn fits(self, executable: ExecutableView, length: int) -> bool {
        &&& self.offset + self.kind.spec_width() <= length
        &&& match self.reloc_target {
            RelocationTarget::LocalFunc(index) => index.0 < executable.function_bodies.len(),
            RelocationTarget::JumpTable(index, table) => index.0
                < executable.function_jt_offsets.len() && table.0
                < executable.function_jt_offsets[index.0 as int].len(),
            RelocationTarget::CustomSection(index) => index.0 < executable.custom_sections.len(),
            RelocationTarget::Trampoline(slot) => executable.has_trampoline(slot as int),
        }
    }
}

impl ExecutableView {
    /// The executable has a section of trampolines that lies within a custom
    /// section, and `slot` is one of its slots.
    pub open spec fn has_trampoline(self, slot: int) -> bool {
        &&& self.trampolines matches Some(trampolines)
        &&& trampolines.section_index.0 < self.custom_sections.len()
        &&& 0 <= slot < trampolines.slots
        &&& trampolines.slots * trampolines.size
            <= self.custom_sections[trampolines.section_index.0 as int].bytes.len()
    }

    /// Every relocation of `relocations` fits an item of `length` bytes.
    pub open spec fn relocations_fit(self, relocations: Seq<Relocation>, length: int) -> bool {
        forall|r: int| 0 <= r < relocations.len() ==> (#[trigger] relocations[r]).fits(self, length)
    }

    /// The parts of the executable fit one another: the module description
    /// is consistent; there is one body, one list of relocations and one list
    /// of jump tables for each function that the module defines, one call
    /// trampoline for each function type, one style for each memory and
    /// table, one list of relocations for each custom section; and every
    /// relocation patches bytes of its item and refers to a part that is
    /// there.
    pub open spec fn consistent(self) -> bool {
        &&& self.module.consistent()
        &&& self.function_bodies.len() == self.module.local_functions()
        &&& self.function_relocations.len() == self.function_bodies.len()
        &&& self.function_jt_offsets.len() == self.function_bodies.len()
        &&& self.function_call_trampolines.len() == self.module.signatures.len()
        &&& self.memory_styles.len() == self.module.memories.len()
        &&& self.table_styles.len() == self.module.tables.len()
        &&& self.custom_section_relocations.len() == self.custom_sections.len()
        &&& forall|i: int|
            0 <= i < self.function_bodies.len() ==> self.relocations_fit(
                #[trigger] self.function_relocations[i],
                self.function_bodies[i].body.len() as int,
            )
        &&& forall|s: int|
            0 <= s < self.custom_sections.len() ==> self.relocations_fit(
                #[trigger] self.custom_section_relocations[s],
                self.custom_sections[s].bytes.len() as int,
            )
    }

    /// The function bodies in the order in which they are laid out: call
    /// trampolines, the module's own functions, dynamic trampolines.
    pub open spec fn laid_out_bodies(self) -> Seq<FunctionBodyView> {
        self.function_call_trampolines + self.function_bodies
            + self.dynamic_function_trampolines
    }
}

impl UniversalExecutable {
    /// The same executable, borrowed.
    pub fn as_ref(&self) -> (borrowed: UniversalExecutableRef<'_>)
        ensures
            borrowed@ == self@,
    {
        UniversalExecutableRef {
            function_bodies: function_body_refs(&self.function_bodies),
            function_relocations: self.function_relocations.as_slice(),
            function_jt_offsets: self.function_jt_offsets.as_slice(),
            function_frame_info: self.function_frame_info.as_slice(),
            function_call_trampolines: function_body_refs(&self.function_call_trampolines),
            dynamic_function_trampolines: function_body_refs(&self.dynamic_function_trampolines),
            custom_sections: custom_section_refs(&self.custom_sections),
            custom_section_relocations: self.custom_section_relocations.as_slice(),
            debug: self.debug,
            trampolines: self.trampolines,
            compile_info: &self.compile_info,
            data_initializers: self.data_initializers.as_slice(),
            cpu_features: self.cpu_features,
        }
    }

}

impl<'a> UniversalExecutableRef<'a> {
    fn has_trampoline(&self, slot: u32) -> (yes: bool)
        ensures
            yes == self@.has_trampoline(slot as int),
    {
        match self.trampolines {
            Some(trampolines) => {
                let section = trampolines.section_index.0 as usize;
                if section < self.custom_sections.len() && (slot as usize) < trampolines.slots {
                    let length = self.custom_sections[section].bytes.len();
                    match trampolines.slots.checked_mul(trampolines.size) {
                        Some(size) => size <= length,
                        None => false,
                    }
                } else {
                    false
                }
            },
            None => false,
        }
    }

    fn relocations_fit(&self, relocations: &Vec<Relocation>, length: usize) -> (yes: bool)
        ensures
            yes == self@.relocations_fit(relocations@, length as int),
    {
        let mut r: usize = 0;
        while r < relocations.len()
            invariant
                r <= relocations.len(),
                forall|k: int| 0 <= k < r ==> (#[trigger] relocations@[k]).fits(self@, length as int),
            decreases relocations.len() - r,
        {
            let relocation = relocations[r];
            let width = relocation.kind.width();
            let in_item = relocation.offset as usize <= length && width <= length
                - relocation.offset as usize;
            let target_there = match relocation.reloc_target {
                RelocationTarget::LocalFunc(index) => (index.0 as usize)
                    < self.function_bodies.len(),
                RelocationTarget::JumpTable(index, table) => {
                    if (index.0 as usize) < self.function_jt_offsets.len() {
                        (table.0 as usize) < self.function_jt_offsets[index.0 as usize].len()
                    } else {
                        false
                    }
                },
                RelocationTarget::CustomSection(index) => (index.0 as usize)
                    < self.custom_sections.len(),
                RelocationTarget::Trampoline(slot) => self.has_trampoline(slot),
            };
            assert((in_item && target_there) == (#[trigger] relocations@[r as int]).fits(
                self@,
                length as int,
            ));
            if !(in_item && target_there) {
                return false;
            }
            r = r + 1;
        }
        true
    }

    /// Tells whether the parts of the executable fit one another.
    pub fn is_consistent(&self) -> (yes: bool)
        ensures
            yes == self@.consistent(),
    {
        let module = &self.compile_info.module;
        if !module.is_consistent() {
            return false;
        }
        let functions = self.function_bodies.len();
        let sections = self.custom_sections.len();
        if functions != module.functions.len() - module.import_counts.functions as usize
            || self.function_relocations.len() != functions || self.function_jt_offsets.len()
            != functions || self.function_call_trampolines.len() != module.signatures.len()
            || self.compile_info.memory_styles.len() != module.memories.len()
            || self.compile_info.table_styles.len() != module.tables.len()
            || self.custom_section_relocations.len() != sections {
            return false;
        }
        let mut i: usize = 0;
        while i < functions
            invariant
                i <= functions,
                functions == self.function_bodies.len(),
                self.function_relocations.len() == functions,
                forall|k: int|
                    0 <= k < i ==> self@.relocations_fit(
                        #[trigger] self@.function_relocations[k],
                        self@.function_bodies[k].body.len() as int,
                    ),
            decreases functions - i,
        {
            if !self.relocations_fit(
                &self.function_relocations[i],
                self.function_bodies[i].body.len(),
            ) {
                assert(!self@.relocations_fit(
                    #[trigger] self@.function_relocations[i as int],
                    self@.function_bodies[i as int].body.len() as int,
                ));
                return false;
            }
            i = i + 1;
        }
        let mut s: usize = 0;
        while s < sections
            invariant
                s <= sections,
                sections == self.custom_sections.len(),
                self.custom_section_relocations.len() == sections,
                forall|k: int|
                    0 <= k < s ==> self@.relocations_fit(
                        #[trigger] self@.custom_section_relocations[k],
                        self@.custom_sections[k].bytes.len() as int,
                    ),
            decreases sections - s,
        {
            if !self.relocations_fit(
                &self.custom_section_relocations[s],
                self.custom_sections[s].bytes.len(),
            ) {
                assert(!self@.relocations_fit(
                    #[trigger] self@.custom_section_relocations[s as int],
                    self@.custom_sections[s as int].bytes.len() as int,
                ));
                return false;
            }
            s = s + 1;
        }
        true
    }
}

/// The raw code of one function as the translator found it.
#[derive(Clone, Debug, PartialEq, Eq)]
pub struct FunctionBodyData {
    pub data: Vec<u8>,
    pub module_offset: usize,
}

/// What the translator keeps for the backend beside the module description.
#[derive(Clone, Debug, PartialEq, Eq)]
pub struct ModuleTranslationState {
    pub wasm_types: Vec<FunctionType>,
}

/// What the translator makes of the bytes of a module.
#[derive(Clone, Debug, PartialEq, Eq)]
pub struct ModuleTranslation {
    pub module: ModuleInfo,
    pub function_body_inputs: Vec<FunctionBodyData>,
    pub data_initializers: Vec<OwnedDataInitializer>,
    pub module_translation_state: ModuleTranslationState,
}

/// What a backend makes of a translated module.
#[derive(Clone, Debug, PartialEq, Eq)]
pub struct Compilation {
    pub function_bodies: Vec<FunctionBody>,
    pub function_relocations: Vec<Vec<Relocation>>,
    pub function_jt_offsets: Vec<Vec<u32>>,
    pub function_frame_info: Vec<CompiledFunctionFrameInfo>,
    pub function_call_trampolines: Vec<FunctionBody>,
    pub dynamic_function_trampolines: Vec<FunctionBody>,
    pub custom_sections: Vec<CustomSection>,
    pub custom_section_relocations: Vec<Vec<Relocation>>,
    pub debug: Option<Dwarf>,
    pub trampolines: Option<TrampolinesSection>,
}

} // verus!
