//! Linking: patching the code and data in code memory with the addresses
//! that the layout gave to functions, jump tables and custom sections.

use crate::align::lemma_round_up_bounds;
use crate::code_memory::{CodeMemory, CodeMemoryView};
use crate::error::CodegenError;
use crate::executable::{
    ExecutableView, Relocation, RelocationKind, RelocationTarget, UniversalExecutableRef,
};
use crate::layout::{
    is_page_size, lemma_allocation_size, lemma_functions_size, lemma_section_in_zone,
    lemma_zones_in_order, place, CodeLayout, ARCH_FUNCTION_ALIGNMENT,
};
use crate::vm::{SectionBodyPtr, VMLocalFunction};
use vstd::bytes::{spec_u32_to_le_bytes, spec_u64_to_le_bytes, u32_to_le_bytes, u64_to_le_bytes};
use vstd::prelude::*;

verus! {

/// Where the parts of `executable` go in memory of the given page size.
pub open spec fn layout_of(executable: ExecutableView, page_size: int) -> CodeLayout {
    CodeLayout {
        function_bodies: executable.laid_out_bodies(),
        custom_sections: executable.custom_sections,
        page_size,
    }
}

/// All that the value of a relocation depends on: the executable, the page
/// size of its code memory, and the address at which the first byte of that
/// memory will be when the code runs.
pub struct LinkContext {
    pub executable: ExecutableView,
    pub page_size: int,
    pub base: int,
}

impl LinkContext {
    /// Where the parts of the executable go.
    pub open spec fn layout(self) -> CodeLayout {
        layout_of(self.executable, self.page_size)
    }

    /// The offset in code memory of the body of the `i`-th function that the
    /// module defines.
    pub open spec fn function_offset(self, i: int) -> int {
        self.layout().body_offset(self.executable.function_call_trampolines.len() + i)
    }

    /// The address of what a relocation refers to.
    pub open spec fn target_address(self, target: RelocationTarget) -> int {
        self.base + match target {
            RelocationTarget::LocalFunc(index) => self.function_offset(index.0 as int),
            RelocationTarget::JumpTable(index, table) => self.function_offset(index.0 as int)
                + self.executable.function_jt_offsets[index.0 as int][table.0 as int],
            RelocationTarget::CustomSection(index) => self.layout().section_offset(index.0 as int),
            RelocationTarget::Trampoline(slot) => self.trampoline_offset(slot as int),
        }
    }

    /// The offset in code memory of a slot of the section of trampolines to
    /// far targets.
    pub open spec fn trampoline_offset(self, slot: int) -> int {
        let trampolines = self.executable.trampolines->Some_0;
        self.layout().section_offset(trampolines.section_index.0 as int) + slot
            * trampolines.size
    }

    /// The number that a relocation writes at offset `place` of code memory:
    /// the address of the target plus the addend, or its distance from the
    /// patched place.
    pub open spec fn value(self, relocation: Relocation, place: int) -> int {
        match relocation.kind {
            RelocationKind::Abs8 => self.target_address(relocation.reloc_target)
                + relocation.addend,
            _ => self.target_address(relocation.reloc_target) + relocation.addend - (self.base
                + place),
        }
    }

    /// Every relocation of an item at `item_offset` has a value that can be
    /// written.
    pub open spec fn relocations_in_range(
        self,
        relocations: Seq<Relocation>,
        item_offset: int,
    ) -> bool {
        forall|r: int|
            0 <= r < relocations.len() ==> in_range(
                (#[trigger] relocations[r]).kind,
                self.value(relocations[r], item_offset + relocations[r].offset),
            )
    }

    /// Every relocation of the executable has a value that can be written.
    pub open spec fn in_range(self) -> bool {
        &&& forall|i: int|
            0 <= i < self.executable.function_bodies.len() ==> self.relocations_in_range(
                #[trigger] self.executable.function_relocations[i],
                self.function_offset(i),
            )
        &&& forall|s: int|
            0 <= s < self.executable.custom_sections.len() ==> self.relocations_in_range(
                #[trigger] self.executable.custom_section_relocations[s],
                self.layout().section_offset(s),
            )
    }

    /// `bytes` with the first `n` of the relocations of an item at
    /// `item_offset` applied, in order.
    pub open spec fn patched(
        self,
        bytes: Seq<u8>,
        relocations: Seq<Relocation>,
        item_offset: int,
        n: int,
    ) -> Seq<u8>
        decreases n,
    {
        if n <= 0 {
            bytes
        } else {
            let relocation = relocations[n - 1];
            let at = item_offset + relocation.offset;
            place(
                self.patched(bytes, relocations, item_offset, n - 1),
                at,
                encoding(relocation.kind, self.value(relocation, at)),
            )
        }
    }

    /// `bytes` with the relocations of the first `n` function bodies
    /// applied.
    pub open spec fn linked_functions(self, bytes: Seq<u8>, n: int) -> Seq<u8>
        decreases n,
    {
        if n <= 0 {
            bytes
        } else {
            let relocations = self.executable.function_relocations[n - 1];
            self.patched(
                self.linked_functions(bytes, n - 1),
                relocations,
                self.function_offset(n - 1),
                relocations.len() as int,
            )
        }
    }

    /// `bytes` with the relocations of the first `n` custom sections
    /// applied.
    pub open spec fn linked_sections(self, bytes: Seq<u8>, n: int) -> Seq<u8>
        decreases n,
    {
        if n <= 0 {
            bytes
        } else {
            let relocations = self.executable.custom_section_relocations[n - 1];
            self.patched(
                self.linked_sections(bytes, n - 1),
                relocations,
                self.layout().section_offset(n - 1),
                relocations.len() as int,
            )
        }
    }

    /// `bytes` with every relocation of the executable applied: those of the
    /// function bodies first, then those of the custom sections.
    pub open spec fn linked(self, bytes: Seq<u8>) -> Seq<u8> {
        self.linked_sections(
            self.linked_functions(bytes, self.executable.function_bodies.len() as int),
            self.executable.custom_sections.len() as int,
        )
    }
}

/// Whether `value` can be written by a relocation of the given kind: an
/// address must fit in 64 bits without a sign, a distance in 32 or 64 bits
/// with one.
pub open spec fn in_range(kind: RelocationKind, value: int) -> bool {
    match kind {
        RelocationKind::Abs8 => 0 <= value <= u64::MAX,
        RelocationKind::X86PCRel4 | RelocationKind::X86CallPCRel4 => i32::MIN <= value
            <= i32::MAX,
        RelocationKind::X86PCRel8 => i64::MIN <= value <= i64::MAX,
    }
}

/// The bytes that a relocation of the given kind writes for `value`: little
/// endian, a negative distance in two's complement.
pub open spec fn encoding(kind: RelocationKind, value: int) -> Seq<u8> {
    match kind {
        RelocationKind::Abs8 => spec_u64_to_le_bytes(value as u64),
        RelocationKind::X86PCRel4 | RelocationKind::X86CallPCRel4 => spec_u32_to_le_bytes(
            (if value < 0 {
                value + 0x1_0000_0000
            } else {
                value
            }) as u32,
        ),
        RelocationKind::X86PCRel8 => spec_u64_to_le_bytes(
            (if value < 0 {
                value + 0x1_0000_0000_0000_0000
            } else {
                value
            }) as u64,
        ),
    }
}

/// Linking keeps the length of the image.
pub proof fn lemma_linked_len(context: LinkContext, bytes: Seq<u8>)
    ensures
        context.linked(bytes).len() == bytes.len(),
{
    let functions = context.executable.function_bodies.len() as int;
    lemma_linked_functions_len(context, bytes, functions);
    lemma_linked_sections_len(
        context,
        context.linked_functions(bytes, functions),
        context.executable.custom_sections.len() as int,
    );
}

proof fn lemma_patched_len(
    context: LinkContext,
    bytes: Seq<u8>,
    relocations: Seq<Relocation>,
    item_offset: int,
    n: int,
)
    ensures
        context.patched(bytes, relocations, item_offset, n).len() == bytes.len(),
    decreases n,
{
    if n > 0 {
        lemma_patched_len(context, bytes, relocations, item_offset, n - 1);
    }
}

proof fn lemma_linked_functions_len(context: LinkContext, bytes: Seq<u8>, n: int)
    ensures
        context.linked_functions(bytes, n).len() == bytes.len(),
    decreases n,
{
    if n > 0 {
        lemma_linked_functions_len(context, bytes, n - 1);
        let relocations = context.executable.function_relocations[n - 1];
        lemma_patched_len(
            context,
            context.linked_functions(bytes, n - 1),
            relocations,
            context.function_offset(n - 1),
            relocations.len() as int,
        );
    }
}

proof fn lemma_linked_sections_len(context: LinkContext, bytes: Seq<u8>, n: int)
    ensures
        context.linked_sections(bytes, n).len() == bytes.len(),
    decreases n,
{
    if n > 0 {
        lemma_linked_sections_len(context, bytes, n - 1);
        let relocations = context.executable.custom_section_relocations[n - 1];
        lemma_patched_len(
            context,
            context.linked_sections(bytes, n - 1),
            relocations,
            context.layout().section_offset(n - 1),
            relocations.len() as int,
        );
    }
}

/// The bytes of a relocation value, or `None` where the value cannot be
/// written.
pub fn encode(kind: RelocationKind, value: i128) -> (bytes: Option<Vec<u8>>)
    ensures
        match bytes {
            Some(bytes) => in_range(kind, value as int) && bytes@ == encoding(kind, value as int)
                && bytes@.len() == kind.spec_width(),
            None => !in_range(kind, value as int),
        },
{
    match kind {
        RelocationKind::Abs8 => {
            if value < 0 || value > 0xffff_ffff_ffff_ffff {
                None
            } else {
                Some(u64_to_le_bytes(value as u64))
            }
        },
        RelocationKind::X86PCRel4 | RelocationKind::X86CallPCRel4 => {
            if value < -0x8000_0000 || value > 0x7fff_ffff {
                None
            } else if value < 0 {
                Some(u32_to_le_bytes((value + 0x1_0000_0000) as u32))
            } else {
                Some(u32_to_le_bytes(value as u32))
            }
        },
        RelocationKind::X86PCRel8 => {
            if value < -0x8000_0000_0000_0000 || value > 0x7fff_ffff_ffff_ffff {
                None
            } else if value < 0 {
                Some(u64_to_le_bytes((value + 0x1_0000_0000_0000_0000) as u64))
            } else {
                Some(u64_to_le_bytes(value as u64))
            }
        },
    }
}

fn apply_relocations(
    memory: &mut CodeMemory,
    executable: &UniversalExecutableRef<'_>,
    base: usize,
    functions: &Vec<VMLocalFunction>,
    custom_sections: &Vec<SectionBodyPtr>,
    relocations: &Vec<Relocation>,
    item_offset: usize,
    Ghost(context): Ghost<LinkContext>,
    Ghost(length): Ghost<int>,
) -> (result: Result<(), CodegenError>)
    requires
        linkable(*old(memory), *executable, base, *functions, *custom_sections, context),
        context.executable.relocations_fit(relocations@, length),
        item_offset + length <= old(memory)@.bytes.len(),
    ensures
        final(memory)@.bytes.len() == old(memory)@.bytes.len(),
        match result {
            Ok(()) => {
                &&& context.relocations_in_range(relocations@, item_offset as int)
                &&& final(memory)@ == (CodeMemoryView {
                    bytes: context.patched(
                        old(memory)@.bytes,
                        relocations@,
                        item_offset as int,
                        relocations.len() as int,
                    ),
                    ..old(memory)@
                })
            },
            Err(error) => {
                &&& !context.relocations_in_range(relocations@, item_offset as int)
                &&& error == CodegenError::RelocationOutOfRange
                &&& final(memory)@ == (CodeMemoryView {
                    bytes: final(memory)@.bytes,
                    ..old(memory)@
                })
            },
        },
{
    let trampolines = executable.function_call_trampolines.len();
    let mut r: usize = 0;
    while r < relocations.len()
        invariant
            r <= relocations.len(),
            linkable(*old(memory), *executable, base, *functions, *custom_sections, context),
            context.executable.relocations_fit(relocations@, length),
            item_offset + length <= old(memory)@.bytes.len(),
            trampolines == executable.function_call_trampolines.len(),
            forall|k: int|
                0 <= k < r ==> in_range(
                    (#[trigger] relocations@[k]).kind,
                    context.value(relocations@[k], item_offset + relocations@[k].offset),
                ),
            memory@ == (CodeMemoryView {
                bytes: context.patched(
                    old(memory)@.bytes,
                    relocations@,
                    item_offset as int,
                    r as int,
                ),
                ..old(memory)@
            }),
            memory@.bytes.len() == old(memory)@.bytes.len(),
        decreases relocations.len() - r,
    {
        let relocation = relocations[r];
        assert(relocations@[r as int].fits(context.executable, length));
        let at = item_offset + relocation.offset as usize;
        let target: i128 = match relocation.reloc_target {
            RelocationTarget::LocalFunc(index) => {
                functions[index.0 as usize].body.offset() as i128
            },
            RelocationTarget::JumpTable(index, table) => {
                let function = functions[index.0 as usize].body.offset() as i128;
                let tables = &executable.function_jt_offsets[index.0 as usize];
                function + tables[table.0 as usize] as i128
            },
            RelocationTarget::CustomSection(index) => {
                custom_sections[index.0 as usize].offset() as i128
            },
            RelocationTarget::Trampoline(slot) => {
                let trampolines = executable.trampolines.unwrap();
                let section = custom_sections[trampolines.section_index.0 as usize].offset();
                proof {
                    lemma_section_in_zone(
                        context.layout(),
                        trampolines.section_index.0 as int,
                    );
                    lemma_zones_in_order(context.layout());
                    assert(0 <= slot * trampolines.size <= trampolines.slots * trampolines.size)
                        by (nonlinear_arith)
                        requires
                            0 <= slot < trampolines.slots,
                            0 <= trampolines.size,
                    ;
                }
                let within = slot as usize * trampolines.size;
                section as i128 + within as i128
            },
        };
        assert(base + target == context.target_address(relocation.reloc_target));
        let value: i128 = match relocation.kind {
            RelocationKind::Abs8 => base as i128 + target + relocation.addend as i128,
            _ => base as i128 + target + relocation.addend as i128 - (base as i128 + at as i128),
        };
        assert(value == context.value(relocation, at as int));
        let bytes = match encode(relocation.kind, value) {
            Some(bytes) => bytes,
            None => {
                return Err(CodegenError::RelocationOutOfRange);
            },
        };
        // The patch lies within its item, and so within the memory.
        match memory.patch(at, bytes.as_slice()) {
            Ok(()) => {},
            Err(_) => {
                return Err(CodegenError::RelocationOutOfRange);
            },
        }
        r = r + 1;
    }
    Ok(())
}

/// What linking starts from: code memory of the size of the layout that is
/// not published, a consistent executable, and the resolved entries of the
/// module's functions and of the custom sections.
pub open spec fn linkable(
    memory: CodeMemory,
    executable: UniversalExecutableRef<'_>,
    base: usize,
    functions: Vec<VMLocalFunction>,
    custom_sections: Vec<SectionBodyPtr>,
    context: LinkContext,
) -> bool {
    &&& context.executable == executable@
    &&& context.base == base
    &&& is_page_size(context.page_size)
    &&& executable@.consistent()
    &&& !memory@.published
    &&& memory@.bytes.len() == context.layout().total_size()
    &&& context.layout().total_size() <= usize::MAX
    &&& functions@.len() == executable@.function_bodies.len()
    &&& forall|i: int|
        0 <= i < functions@.len() ==> (#[trigger] functions@[i]).body@ == context.function_offset(
            i,
        )
    &&& custom_sections@.len() == executable@.custom_sections.len()
    &&& forall|s: int|
        0 <= s < custom_sections@.len() ==> (#[trigger] custom_sections@[s])@
            == context.layout().section_offset(s)
}

/// Each body of a function that the module defines lies within the code
/// memory.
proof fn lemma_function_in_memory(context: LinkContext, i: int)
    requires
        is_page_size(context.page_size),
        0 <= i < context.executable.function_bodies.len(),
    ensures
        0 <= context.function_offset(i),
        context.function_offset(i) + context.executable.function_bodies[i].body.len()
            <= context.layout().total_size(),
{
    let layout = context.layout();
    let funcs = layout.function_bodies;
    let k = context.executable.function_call_trampolines.len() + i;
    assert(funcs[k] == context.executable.function_bodies[i]);
    lemma_zones_in_order(layout);
    lemma_functions_size(funcs, k, k + 1);
    lemma_functions_size(funcs, k + 1, funcs.len() as int);
    lemma_allocation_size(funcs[k]);
    lemma_round_up_bounds(funcs[k].allocation_size(), ARCH_FUNCTION_ALIGNMENT as int);
}

/// Applies every relocation of the executable to its code memory: those of
/// the function bodies, then those of the custom sections. Fails where the
/// value of a relocation cannot be written.
pub(crate) fn link_module(
    memory: &mut CodeMemory,
    executable: &UniversalExecutableRef<'_>,
    base: usize,
    functions: &Vec<VMLocalFunction>,
    custom_sections: &Vec<SectionBodyPtr>,
    Ghost(context): Ghost<LinkContext>,
) -> (result: Result<(), CodegenError>)
    requires
        linkable(*old(memory), *executable, base, *functions, *custom_sections, context),
    ensures
        match result {
            Ok(()) => {
                &&& context.in_range()
                &&& final(memory)@ == (CodeMemoryView {
                    bytes: context.linked(old(memory)@.bytes),
                    ..old(memory)@
                })
            },
            Err(error) => {
                &&& !context.in_range()
                &&& error == CodegenError::RelocationOutOfRange
                &&& final(memory)@ == (CodeMemoryView {
                    bytes: final(memory)@.bytes,
                    ..old(memory)@
                })
                &&& final(memory)@.bytes.len() == old(memory)@.bytes.len()
            },
        },
{
    let function_count = executable.function_bodies.len();
    let section_count = executable.custom_sections.len();
    let mut i: usize = 0;
    while i < function_count
        invariant
            i <= function_count,
            function_count == executable.function_bodies.len(),
            linkable(*old(memory), *executable, base, *functions, *custom_sections, context),
            linkable(*memory, *executable, base, *functions, *custom_sections, context),
            forall|k: int|
                0 <= k < i ==> context.relocations_in_range(
                    #[trigger] context.executable.function_relocations[k],
                    context.function_offset(k),
                ),
            memory@ == (CodeMemoryView {
                bytes: context.linked_functions(old(memory)@.bytes, i as int),
                ..old(memory)@
            }),
        decreases function_count - i,
    {
        proof {
            lemma_function_in_memory(context, i as int);
            assert(context.executable.relocations_fit(
                #[trigger] context.executable.function_relocations[i as int],
                context.executable.function_bodies[i as int].body.len() as int,
            ));
        }
        match apply_relocations(
            memory,
            executable,
            base,
            functions,
            custom_sections,
            &executable.function_relocations[i],
            functions[i].body.offset(),
            Ghost(context),
            Ghost(executable@.function_bodies[i as int].body.len() as int),
        ) {
            Ok(()) => {},
            Err(error) => {
                assert(!context.relocations_in_range(
                    #[trigger] context.executable.function_relocations[i as int],
                    context.function_offset(i as int),
                ));
                return Err(error);
            },
        }
        i = i + 1;
    }
    let ghost middle = memory@.bytes;
    let mut s: usize = 0;
    while s < section_count
        invariant
            s <= section_count,
            section_count == executable.custom_sections.len(),
            linkable(*old(memory), *executable, base, *functions, *custom_sections, context),
            linkable(*memory, *executable, base, *functions, *custom_sections, context),
            context.in_range() <==> forall|k: int|
                0 <= k < section_count ==> context.relocations_in_range(
                    #[trigger] context.executable.custom_section_relocations[k],
                    context.layout().section_offset(k),
                ),
            forall|k: int|
                0 <= k < s ==> context.relocations_in_range(
                    #[trigger] context.executable.custom_section_relocations[k],
                    context.layout().section_offset(k),
                ),
            memory@ == (CodeMemoryView {
                bytes: context.linked_sections(middle, s as int),
                ..old(memory)@
            }),
        decreases section_count - s,
    {
        proof {
            lemma_section_in_zone(context.layout(), s as int);
            lemma_zones_in_order(context.layout());
            assert(context.executable.relocations_fit(
                #[trigger] context.executable.custom_section_relocations[s as int],
                context.executable.custom_sections[s as int].bytes.len() as int,
            ));
        }
        match apply_relocations(
            memory,
            executable,
            base,
            functions,
            custom_sections,
            &executable.custom_section_relocations[s],
            custom_sections[s].offset(),
            Ghost(context),
            Ghost(executable@.custom_sections[s as int].bytes.len() as int),
        ) {
            Ok(()) => {},
            Err(error) => {
                assert(!context.relocations_in_range(
                    #[trigger] context.executable.custom_section_relocations[s as int],
                    context.layout().section_offset(s as int),
                ));
                return Err(error);
            },
        }
        s = s + 1;
    }
    Ok(())
}

} // verus!
