//! Writing the parts of an executable to fresh code memory, each at the
//! offset that the layout gives it.

use crate::align::{
    lemma_multiple_of_multiple, lemma_power_of_two_divides, lemma_power_of_two_positive,
    lemma_round_up_bounds, lemma_round_up_coarser, lemma_round_up_of_multiple,
    lemma_round_up_shift, lemma_small_powers_of_two, round_up_spec,
};
use crate::code_memory::{written, CodeMemory, CodeMemoryError, CodeMemoryView};
use crate::layout::{
    functions_end, functions_image, functions_size, is_page_size, lemma_allocation_size,
    lemma_functions_size, lemma_section_in_zone, lemma_zones_in_order,
    place, sections_size, CodeLayout, ARCH_FUNCTION_ALIGNMENT, DATA_SECTION_ALIGNMENT,
    UNWIND_INFO_ALIGNMENT,
};
use crate::section::{
    CompiledFunctionUnwindInfoRef, CustomSectionProtection, CustomSectionRef, FunctionBodyRef,
};
use crate::types::views;
use vstd::prelude::*;

verus! {

/// From `position` on, `bytes` is zero.
pub open spec fn zero_from(bytes: Seq<u8>, position: int) -> bool {
    forall|p: int| position <= p < bytes.len() ==> bytes[p] == 0u8
}

/// A write into bytes that are zero is a plain placement of the input.
proof fn lemma_written_is_place(bytes: Seq<u8>, position: int, offset: int, input: Seq<u8>)
    requires
        zero_from(bytes, position),
        0 <= position <= offset,
        offset + input.len() <= bytes.len(),
    ensures
        written(bytes, position, offset, input) == place(bytes, offset, input),
        zero_from(place(bytes, offset, input), offset + input.len()),
{
    assert(written(bytes, position, offset, input) =~= place(bytes, offset, input));
}

/// What is written for the first `i` function bodies ends in the slot of the
/// last: rounded up, it is the size of the slots.
proof fn lemma_functions_end_rounds(layout: CodeLayout, i: int)
    requires
        0 <= i <= layout.function_bodies.len(),
    ensures
        round_up_spec(functions_end(layout.function_bodies, i), ARCH_FUNCTION_ALIGNMENT as int)
            == functions_size(layout.function_bodies, i),
{
    let funcs = layout.function_bodies;
    if i == 0 {
        lemma_round_up_of_multiple(0, ARCH_FUNCTION_ALIGNMENT as int);
    } else {
        lemma_functions_size(funcs, i - 1, i);
        lemma_round_up_shift(
            functions_size(funcs, i - 1),
            funcs[i - 1].allocation_size(),
            ARCH_FUNCTION_ALIGNMENT as int,
        );
    }
}

/// Writes the function bodies, each followed by its unwind block where it
/// has one, to fresh code memory, and gives the offset of each body.
pub(crate) fn write_function_bodies(
    memory: &mut CodeMemory,
    function_bodies: &[FunctionBodyRef<'_>],
    Ghost(layout): Ghost<CodeLayout>,
) -> (result: Result<Vec<usize>, CodeMemoryError>)
    requires
        is_page_size(layout.page_size),
        layout.function_bodies == views(function_bodies@),
        old(memory)@ == CodeMemoryView::fresh(layout.total_size()),
        layout.total_size() <= usize::MAX,
    ensures
        result is Ok,
        result->Ok_0@.len() == function_bodies.len(),
        forall|k: int|
            0 <= k < function_bodies.len() ==> (#[trigger] result->Ok_0@[k]) == layout.body_offset(
                k,
            ),
        final(memory)@ == (CodeMemoryView {
            bytes: functions_image(
                CodeMemoryView::fresh(layout.total_size()).bytes,
                layout.function_bodies,
                function_bodies.len() as int,
            ),
            position: functions_end(layout.function_bodies, function_bodies.len() as int),
            executable_end: functions_end(layout.function_bodies, function_bodies.len() as int),
            published: false,
        }),
        zero_from(final(memory)@.bytes, final(memory)@.position),
        final(memory)@.wf(),
        final(memory)@.bytes.len() == layout.total_size(),
{
    let ghost funcs = layout.function_bodies;
    let ghost zeros = CodeMemoryView::fresh(layout.total_size()).bytes;
    let ghost total = layout.total_size();
    let count = function_bodies.len();
    let mut offsets: Vec<usize> = Vec::new();
    let mut i: usize = 0;
    proof {
        lemma_zones_in_order(layout);
    }
    while i < count
        invariant
            i <= count,
            count == function_bodies.len(),
            is_page_size(layout.page_size),
            funcs == layout.function_bodies,
            funcs == views(function_bodies@),
            zeros == CodeMemoryView::fresh(layout.total_size()).bytes,
            total == layout.total_size(),
            total <= usize::MAX,
            layout.functions_size() <= total,
            offsets@.len() == i,
            forall|k: int| 0 <= k < i ==> (#[trigger] offsets@[k]) == layout.body_offset(k),
            memory@ == (CodeMemoryView {
                bytes: functions_image(zeros, funcs, i as int),
                position: functions_end(funcs, i as int),
                executable_end: functions_end(funcs, i as int),
                published: false,
            }),
            memory@.bytes.len() == total,
            memory@.wf(),
            zero_from(memory@.bytes, memory@.position),
        decreases count - i,
    {
        let func = function_bodies[i];
        let ghost before = memory@;
        let ghost slot = functions_size(funcs, i as int);
        proof {
            lemma_small_powers_of_two();
            lemma_functions_end_rounds(layout, i as int);
            lemma_functions_size(funcs, i as int, i + 1);
            lemma_functions_size(funcs, i + 1, count as int);
            lemma_allocation_size(funcs[i as int]);
            lemma_round_up_bounds(funcs[i as int].allocation_size(), ARCH_FUNCTION_ALIGNMENT as int);
            lemma_round_up_bounds(before.position, ARCH_FUNCTION_ALIGNMENT as int);
            lemma_round_up_bounds(func@.body.len() as int, UNWIND_INFO_ALIGNMENT as int);
        }
        let offset = match memory.write_executable(ARCH_FUNCTION_ALIGNMENT, func.body) {
            Ok(offset) => offset,
            Err(error) => {
                return Err(error);
            },
        };
        proof {
            lemma_written_is_place(before.bytes, before.position, offset as int, func.body@);
        }
        if let Some(CompiledFunctionUnwindInfoRef::WindowsX64(info)) = func.unwind_info {
            let ghost middle = memory@;
            proof {
                lemma_multiple_of_multiple(
                    slot,
                    UNWIND_INFO_ALIGNMENT as int,
                    ARCH_FUNCTION_ALIGNMENT as int,
                );
                lemma_round_up_shift(
                    slot,
                    func@.body.len() as int,
                    UNWIND_INFO_ALIGNMENT as int,
                );
            }
            let unwind_offset = match memory.write_executable(UNWIND_INFO_ALIGNMENT, info) {
                Ok(offset) => offset,
                Err(error) => {
                    return Err(error);
                },
            };
            proof {
                lemma_written_is_place(
                    middle.bytes,
                    middle.position,
                    unwind_offset as int,
                    info@,
                );
            }
        }
        offsets.push(offset);
        i = i + 1;
    }
    Ok(offsets)
}

/// Writes the executable custom sections after the function bodies, and
/// records the offset of each in `offsets`.
pub(crate) fn write_executable_sections(
    memory: &mut CodeMemory,
    custom_sections: &[CustomSectionRef<'_>],
    offsets: &mut Vec<usize>,
    Ghost(layout): Ghost<CodeLayout>,
) -> (result: Result<(), CodeMemoryError>)
    requires
        is_page_size(layout.page_size),
        layout.custom_sections == views(custom_sections@),
        layout.total_size() <= usize::MAX,
        old(offsets)@.len() == custom_sections.len(),
        old(memory)@.wf(),
        !old(memory)@.published,
        old(memory)@.bytes.len() == layout.total_size(),
        old(memory)@.position == old(memory)@.executable_end,
        old(memory)@.position == functions_end(
            layout.function_bodies,
            layout.function_bodies.len() as int,
        ),
        zero_from(old(memory)@.bytes, old(memory)@.position),
    ensures
        result is Ok,
        final(offsets)@.len() == custom_sections.len(),
        forall|s: int|
            0 <= s < custom_sections.len() ==> (#[trigger] final(offsets)@[s])
                == if custom_sections@[s].protection == CustomSectionProtection::ReadExecute {
                layout.section_offset(s)
            } else {
                old(offsets)@[s] as int
            },
        final(memory)@ == (CodeMemoryView {
            bytes: layout.sections_image(
                old(memory)@.bytes,
                CustomSectionProtection::ReadExecute,
                custom_sections.len() as int,
            ),
            position: layout.executable_end(),
            executable_end: layout.executable_end(),
            published: false,
        }),
        zero_from(final(memory)@.bytes, final(memory)@.position),
        round_up_spec(layout.executable_end(), ARCH_FUNCTION_ALIGNMENT as int)
            == layout.executable_size(),
        final(memory)@.wf(),
        final(memory)@.bytes.len() == layout.total_size(),
{
    let ghost sections = layout.custom_sections;
    let ghost start = old(memory)@.position;
    let ghost image = old(memory)@.bytes;
    let ghost total = layout.total_size();
    let ghost rx = CustomSectionProtection::ReadExecute;
    let ghost a = ARCH_FUNCTION_ALIGNMENT as int;
    let count = custom_sections.len();
    let mut i: usize = 0;
    proof {
        lemma_zones_in_order(layout);
        lemma_functions_end_rounds(layout, layout.function_bodies.len() as int);
    }
    while i < count
        invariant
            i <= count,
            count == custom_sections.len(),
            is_page_size(layout.page_size),
            sections == layout.custom_sections,
            sections == views(custom_sections@),
            rx == CustomSectionProtection::ReadExecute,
            a == ARCH_FUNCTION_ALIGNMENT as int,
            total == layout.total_size(),
            total <= usize::MAX,
            layout.functions_size() % a == 0,
            layout.executable_size() <= total,
            offsets@.len() == count,
            forall|s: int|
                0 <= s < count ==> (#[trigger] offsets@[s]) == if s < i && sections[s].protection
                    == rx {
                    layout.section_offset(s)
                } else {
                    old(offsets)@[s] as int
                },
            memory@ == (CodeMemoryView {
                bytes: layout.sections_image(image, rx, i as int),
                position: layout.sections_end(rx, start, i as int),
                executable_end: layout.sections_end(rx, start, i as int),
                published: false,
            }),
            memory@.bytes.len() == total,
            memory@.wf(),
            zero_from(memory@.bytes, memory@.position),
            round_up_spec(memory@.position, a) == layout.functions_size() + sections_size(
                sections,
                rx,
                a,
                i as int,
            ),
        decreases count - i,
    {
        let section = custom_sections[i];
        let ghost before = memory@;
        if let CustomSectionProtection::ReadExecute = section.protection {
            proof {
                assert(sections[i as int] == section@);
                lemma_small_powers_of_two();
                lemma_section_in_zone(layout, i as int);
                lemma_round_up_bounds(before.position, a);
                lemma_round_up_shift(layout.section_offset(i as int), section@.bytes.len() as int, a);
                assert(layout.section_offset(i as int) == round_up_spec(before.position, a));
            }
            let offset = match memory.write_executable(ARCH_FUNCTION_ALIGNMENT, section.bytes) {
                Ok(offset) => offset,
                Err(error) => {
                    return Err(error);
                },
            };
            proof {
                lemma_written_is_place(before.bytes, before.position, offset as int, section.bytes@);
            }
            offsets.set(i, offset);
        }
        i = i + 1;
    }
    Ok(())
}

/// Writes the data custom sections, the first on a page boundary, and
/// records the offset of each in `offsets`.
pub(crate) fn write_data_sections(
    memory: &mut CodeMemory,
    custom_sections: &[CustomSectionRef<'_>],
    offsets: &mut Vec<usize>,
    page_size: usize,
    Ghost(layout): Ghost<CodeLayout>,
) -> (result: Result<(), CodeMemoryError>)
    requires
        is_page_size(layout.page_size),
        layout.page_size == page_size,
        layout.custom_sections == views(custom_sections@),
        layout.total_size() <= usize::MAX,
        old(offsets)@.len() == custom_sections.len(),
        old(memory)@.wf(),
        !old(memory)@.published,
        old(memory)@.bytes.len() == layout.total_size(),
        old(memory)@.position == layout.executable_end(),
        old(memory)@.executable_end == layout.executable_end(),
        zero_from(old(memory)@.bytes, old(memory)@.position),
        round_up_spec(layout.executable_end(), ARCH_FUNCTION_ALIGNMENT as int)
            == layout.executable_size(),
    ensures
        result is Ok,
        final(offsets)@.len() == custom_sections.len(),
        forall|s: int|
            0 <= s < custom_sections.len() ==> (#[trigger] final(offsets)@[s])
                == if custom_sections@[s].protection == CustomSectionProtection::Read {
                layout.section_offset(s)
            } else {
                old(offsets)@[s] as int
            },
        final(memory)@ == (CodeMemoryView {
            bytes: layout.sections_image(
                old(memory)@.bytes,
                CustomSectionProtection::Read,
                custom_sections.len() as int,
            ),
            position: layout.written_end(),
            executable_end: layout.executable_end(),
            published: false,
        }),
{
    let ghost sections = layout.custom_sections;
    let ghost start = old(memory)@.position;
    let ghost image = old(memory)@.bytes;
    let ghost total = layout.total_size();
    let ghost ro = CustomSectionProtection::Read;
    let ghost a = DATA_SECTION_ALIGNMENT as int;
    let count = custom_sections.len();
    let mut alignment: usize = page_size;
    let mut i: usize = 0;
    proof {
        lemma_zones_in_order(layout);
        lemma_small_powers_of_two();
        lemma_power_of_two_positive(page_size as int);
        lemma_power_of_two_divides(ARCH_FUNCTION_ALIGNMENT as int, page_size as int);
        lemma_round_up_coarser(start, ARCH_FUNCTION_ALIGNMENT as int, page_size as int);
    }
    while i < count
        invariant
            i <= count,
            count == custom_sections.len(),
            is_page_size(layout.page_size),
            layout.page_size == page_size,
            sections == layout.custom_sections,
            sections == views(custom_sections@),
            ro == CustomSectionProtection::Read,
            a == DATA_SECTION_ALIGNMENT as int,
            total == layout.total_size(),
            total <= usize::MAX,
            layout.data_start() % a == 0,
            alignment == page_size || alignment == DATA_SECTION_ALIGNMENT,
            offsets@.len() == count,
            forall|s: int|
                0 <= s < count ==> (#[trigger] offsets@[s]) == if s < i && sections[s].protection
                    == ro {
                    layout.section_offset(s)
                } else {
                    old(offsets)@[s] as int
                },
            memory@ == (CodeMemoryView {
                bytes: layout.sections_image(image, ro, i as int),
                position: layout.sections_end(ro, start, i as int),
                executable_end: old(memory)@.executable_end,
                published: false,
            }),
            memory@.bytes.len() == total,
            memory@.wf(),
            zero_from(memory@.bytes, memory@.position),
            round_up_spec(memory@.position, alignment as int) == layout.data_start()
                + sections_size(sections, ro, a, i as int),
        decreases count - i,
    {
        let section = custom_sections[i];
        let ghost before = memory@;
        if let CustomSectionProtection::Read = section.protection {
            proof {
                assert(sections[i as int] == section@);
                lemma_small_powers_of_two();
                lemma_power_of_two_positive(alignment as int);
                lemma_section_in_zone(layout, i as int);
                lemma_round_up_bounds(before.position, alignment as int);
                lemma_round_up_shift(layout.section_offset(i as int), section@.bytes.len() as int, a);
                assert(layout.section_offset(i as int) == round_up_spec(
                    before.position,
                    alignment as int,
                ));
            }
            let offset = match memory.write_aligned(alignment, section.bytes) {
                Ok(offset) => offset,
                Err(error) => {
                    return Err(error);
                },
            };
            proof {
                lemma_written_is_place(before.bytes, before.position, offset as int, section.bytes@);
            }
            alignment = DATA_SECTION_ALIGNMENT;
            offsets.set(i, offset);
        }
        i = i + 1;
    }
    Ok(())
}

} // verus!
