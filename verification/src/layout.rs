//! Where the parts of an executable go in its code memory.
//!
//! The executable zone comes first: the function bodies (call trampolines,
//! then the module's own functions, then dynamic trampolines), each in a slot
//! that is a multiple of the function alignment, then the executable custom
//! sections in such slots. The data zone starts on the next page boundary and
//! holds the read-only custom sections, each in a slot that is a multiple of
//! the data alignment.

use crate::align::{
    checked_round_up, is_power_of_two, lemma_multiple_of_multiple, lemma_power_of_two_divides,
    lemma_power_of_two_positive, lemma_round_up_bounds, lemma_round_up_overflows,
    lemma_round_up_shift, lemma_small_powers_of_two, lemma_sum_of_multiples, round_up,
    round_up_spec,
};
use crate::section::{
    CompiledFunctionUnwindInfoRef, CustomSectionProtection, CustomSectionRef, CustomSectionView,
    FunctionBodyRef, FunctionBodyView,
};
use crate::types::views;
use vstd::arithmetic::div_mod::{lemma_fundamental_div_mod, lemma_mod_multiples_basic};
use vstd::prelude::*;

verus! {

/// Function bodies and executable sections start on a multiple of this.
pub const ARCH_FUNCTION_ALIGNMENT: usize = 16;

/// Data sections start on a multiple of this.
pub const DATA_SECTION_ALIGNMENT: usize = 64;

/// The unwind block that follows a function body starts on a multiple of
/// this.
pub const UNWIND_INFO_ALIGNMENT: usize = 4;

/// The page sizes that code memory can be laid out for: powers of two that
/// the data alignment divides.
pub open spec fn is_page_size(page_size: int) -> bool {
    is_power_of_two(page_size) && page_size >= DATA_SECTION_ALIGNMENT
}

impl FunctionBodyView {
    /// The bytes from the first byte of the body to the end of its unwind
    /// block: the body alone, or the body padded to the unwind alignment and
    /// then the block.
    pub open spec fn allocation_size(self) -> int {
        match self.unwind_block() {
            Some(info) => round_up_spec(self.body.len() as int, UNWIND_INFO_ALIGNMENT as int)
                + info.len(),
            None => self.body.len() as int,
        }
    }
}

/// The sum of the slots of the first `n` function bodies: each allocation
/// size rounded up to the function alignment.
pub open spec fn functions_size(funcs: Seq<FunctionBodyView>, n: int) -> int
    decreases n,
{
    if n <= 0 {
        0
    } else {
        functions_size(funcs, n - 1) + round_up_spec(
            funcs[n - 1].allocation_size(),
            ARCH_FUNCTION_ALIGNMENT as int,
        )
    }
}

/// The sum of the slots of those of the first `n` sections that have the
/// given protection: each length rounded up to `alignment`.
pub open spec fn sections_size(
    sections: Seq<CustomSectionView>,
    protection: CustomSectionProtection,
    alignment: int,
    n: int,
) -> int
    decreases n,
{
    if n <= 0 {
        0
    } else {
        sections_size(sections, protection, alignment, n - 1) + if sections[n - 1].protection
            == protection {
            round_up_spec(sections[n - 1].bytes.len() as int, alignment)
        } else {
            0
        }
    }
}

/// `image` with `bytes` written at `offset`.
pub open spec fn place(image: Seq<u8>, offset: int, bytes: Seq<u8>) -> Seq<u8> {
    Seq::new(
        image.len(),
        |p: int|
            if offset <= p < offset + bytes.len() {
                bytes[p - offset]
            } else {
                image[p]
            },
    )
}

/// `image` with the first `n` function bodies, and their unwind blocks,
/// written to their slots.
pub open spec fn functions_image(image: Seq<u8>, funcs: Seq<FunctionBodyView>, n: int) -> Seq<u8>
    decreases n,
{
    if n <= 0 {
        image
    } else {
        let offset = functions_size(funcs, n - 1);
        let func = funcs[n - 1];
        let with_body = place(functions_image(image, funcs, n - 1), offset, func.body);
        match func.unwind_block() {
            Some(info) => place(
                with_body,
                offset + round_up_spec(func.body.len() as int, UNWIND_INFO_ALIGNMENT as int),
                info,
            ),
            None => with_body,
        }
    }
}

/// The position after the last byte written for the first `n` function
/// bodies.
pub open spec fn functions_end(funcs: Seq<FunctionBodyView>, n: int) -> int {
    if n <= 0 {
        0
    } else {
        functions_size(funcs, n - 1) + funcs[n - 1].allocation_size()
    }
}

/// All that decides where the parts of an executable go.
pub struct CodeLayout {
    /// Call trampolines, then the module's own functions, then dynamic
    /// trampolines.
    pub function_bodies: Seq<FunctionBodyView>,
    /// The custom sections, in the executable's order.
    pub custom_sections: Seq<CustomSectionView>,
    /// The size of a page of the memory that will hold the code.
    pub page_size: int,
}

impl CodeLayout {
    /// Offset of the first byte of the body of function `k`.
    pub open spec fn body_offset(self, k: int) -> int {
        functions_size(self.function_bodies, k)
    }

    /// Offset of the unwind block of function `k`, where it has one.
    pub open spec fn unwind_offset(self, k: int) -> int {
        self.body_offset(k) + round_up_spec(
            self.function_bodies[k].body.len() as int,
            UNWIND_INFO_ALIGNMENT as int,
        )
    }

    /// The size of the slots of all function bodies; the executable sections
    /// follow.
    pub open spec fn functions_size(self) -> int {
        functions_size(self.function_bodies, self.function_bodies.len() as int)
    }

    /// The size of the executable zone: the slots of the function bodies and
    /// of the executable sections.
    pub open spec fn executable_size(self) -> int {
        self.functions_size() + sections_size(
            self.custom_sections,
            CustomSectionProtection::ReadExecute,
            ARCH_FUNCTION_ALIGNMENT as int,
            self.custom_sections.len() as int,
        )
    }

    /// Offset of the data zone: the executable zone rounded up to a page.
    pub open spec fn data_start(self) -> int {
        round_up_spec(self.executable_size(), self.page_size)
    }

    /// The size of the whole code memory: the data zone ends with the slot of
    /// the last data section.
    pub open spec fn total_size(self) -> int {
        self.data_start() + sections_size(
            self.custom_sections,
            CustomSectionProtection::Read,
            DATA_SECTION_ALIGNMENT as int,
            self.custom_sections.len() as int,
        )
    }

    /// Offset of the first byte of custom section `s`.
    pub open spec fn section_offset(self, s: int) -> int {
        match self.custom_sections[s].protection {
            CustomSectionProtection::ReadExecute => self.functions_size() + sections_size(
                self.custom_sections,
                CustomSectionProtection::ReadExecute,
                ARCH_FUNCTION_ALIGNMENT as int,
                s,
            ),
            CustomSectionProtection::Read => self.data_start() + sections_size(
                self.custom_sections,
                CustomSectionProtection::Read,
                DATA_SECTION_ALIGNMENT as int,
                s,
            ),
        }
    }

    /// The position after the last byte written for those of the first `n`
    /// sections that have the given protection; `start` where there is none.
    pub open spec fn sections_end(
        self,
        protection: CustomSectionProtection,
        start: int,
        n: int,
    ) -> int
        decreases n,
    {
        if n <= 0 {
            start
        } else if self.custom_sections[n - 1].protection == protection {
            self.section_offset(n - 1) + self.custom_sections[n - 1].bytes.len()
        } else {
            self.sections_end(protection, start, n - 1)
        }
    }

    /// `image` with those of the first `n` sections that have the given
    /// protection written at their offsets.
    pub open spec fn sections_image(
        self,
        image: Seq<u8>,
        protection: CustomSectionProtection,
        n: int,
    ) -> Seq<u8>
        decreases n,
    {
        if n <= 0 {
            image
        } else if self.custom_sections[n - 1].protection == protection {
            place(
                self.sections_image(image, protection, n - 1),
                self.section_offset(n - 1),
                self.custom_sections[n - 1].bytes,
            )
        } else {
            self.sections_image(image, protection, n - 1)
        }
    }

    /// The position after the last byte of the executable zone that is
    /// written.
    pub open spec fn executable_end(self) -> int {
        self.sections_end(
            CustomSectionProtection::ReadExecute,
            functions_end(self.function_bodies, self.function_bodies.len() as int),
            self.custom_sections.len() as int,
        )
    }

    /// The position after the last byte that is written.
    pub open spec fn written_end(self) -> int {
        self.sections_end(
            CustomSectionProtection::Read,
            self.executable_end(),
            self.custom_sections.len() as int,
        )
    }

    /// The contents of the code memory before relocations are applied: zero
    /// but for the function bodies, unwind blocks and sections.
    pub open spec fn image(self) -> Seq<u8> {
        let zeros = Seq::new(self.total_size() as nat, |p: int| 0u8);
        let functions = functions_image(
            zeros,
            self.function_bodies,
            self.function_bodies.len() as int,
        );
        let executable = self.sections_image(
            functions,
            CustomSectionProtection::ReadExecute,
            self.custom_sections.len() as int,
        );
        self.sections_image(
            executable,
            CustomSectionProtection::Read,
            self.custom_sections.len() as int,
        )
    }
}

/// The slots of function bodies are multiples of the function alignment, and
/// a longer prefix takes no less.
pub proof fn lemma_functions_size(funcs: Seq<FunctionBodyView>, i: int, j: int)
    requires
        i <= j,
    ensures
        functions_size(funcs, i) % (ARCH_FUNCTION_ALIGNMENT as int) == 0,
        0 <= functions_size(funcs, i) <= functions_size(funcs, j),
    decreases j - i,
{
    lemma_aligned_prefix(funcs, i);
    if i < j {
        lemma_functions_size(funcs, i, j - 1);
        lemma_allocation_size(funcs[j - 1]);
        lemma_round_up_bounds(funcs[j - 1].allocation_size(), ARCH_FUNCTION_ALIGNMENT as int);
    }
}

proof fn lemma_aligned_prefix(funcs: Seq<FunctionBodyView>, i: int)
    ensures
        functions_size(funcs, i) % (ARCH_FUNCTION_ALIGNMENT as int) == 0,
        0 <= functions_size(funcs, i),
    decreases i,
{
    if i > 0 {
        lemma_aligned_prefix(funcs, i - 1);
        lemma_allocation_size(funcs[i - 1]);
        lemma_round_up_bounds(funcs[i - 1].allocation_size(), ARCH_FUNCTION_ALIGNMENT as int);
        lemma_sum_of_multiples(
            functions_size(funcs, i - 1),
            round_up_spec(funcs[i - 1].allocation_size(), ARCH_FUNCTION_ALIGNMENT as int),
            ARCH_FUNCTION_ALIGNMENT as int,
        );
    }
}

/// A body and its unwind block take no less than the body, and the block
/// starts at or after the end of the body.
pub proof fn lemma_allocation_size(func: FunctionBodyView)
    ensures
        func.body.len() <= func.allocation_size(),
        func.body.len() <= round_up_spec(func.body.len() as int, UNWIND_INFO_ALIGNMENT as int),
{
    lemma_round_up_bounds(func.body.len() as int, UNWIND_INFO_ALIGNMENT as int);
}

/// The slots of sections are multiples of their alignment, and a longer
/// prefix takes no less.
pub proof fn lemma_sections_size(
    sections: Seq<CustomSectionView>,
    protection: CustomSectionProtection,
    alignment: int,
    i: int,
    j: int,
)
    requires
        alignment > 0,
        i <= j,
    ensures
        sections_size(sections, protection, alignment, i) % alignment == 0,
        0 <= sections_size(sections, protection, alignment, i) <= sections_size(
            sections,
            protection,
            alignment,
            j,
        ),
    decreases j - i,
{
    lemma_aligned_sections(sections, protection, alignment, i);
    if i < j {
        lemma_sections_size(sections, protection, alignment, i, j - 1);
        lemma_round_up_bounds(sections[j - 1].bytes.len() as int, alignment);
    }
}

proof fn lemma_aligned_sections(
    sections: Seq<CustomSectionView>,
    protection: CustomSectionProtection,
    alignment: int,
    i: int,
)
    requires
        alignment > 0,
    ensures
        sections_size(sections, protection, alignment, i) % alignment == 0,
        0 <= sections_size(sections, protection, alignment, i),
    decreases i,
{
    if i > 0 {
        lemma_aligned_sections(sections, protection, alignment, i - 1);
        lemma_round_up_bounds(sections[i - 1].bytes.len() as int, alignment);
        let before = sections_size(sections, protection, alignment, i - 1);
        if sections[i - 1].protection == protection {
            let slot = round_up_spec(sections[i - 1].bytes.len() as int, alignment);
            assert(sections_size(sections, protection, alignment, i) == before + slot);
            lemma_sum_of_multiples(before, slot, alignment);
        } else {
            assert(sections_size(sections, protection, alignment, i) == before);
        }
    } else {
        lemma_mod_multiples_basic(0, alignment);
    }
}

/// The zones follow one another: function slots, executable section slots,
/// padding to the page, data section slots.
pub proof fn lemma_zones_in_order(layout: CodeLayout)
    requires
        is_page_size(layout.page_size),
    ensures
        0 <= layout.functions_size() <= layout.executable_size() <= layout.data_start()
            <= layout.total_size(),
        layout.functions_size() % (ARCH_FUNCTION_ALIGNMENT as int) == 0,
        layout.executable_size() % (ARCH_FUNCTION_ALIGNMENT as int) == 0,
        layout.data_start() % layout.page_size == 0,
        layout.data_start() % (DATA_SECTION_ALIGNMENT as int) == 0,
        layout.data_start() - layout.executable_size() < layout.page_size,
        layout.total_size() % (DATA_SECTION_ALIGNMENT as int) == 0,
{
    let n = layout.function_bodies.len() as int;
    let m = layout.custom_sections.len() as int;
    lemma_functions_size(layout.function_bodies, n, n);
    lemma_sections_size(
        layout.custom_sections,
        CustomSectionProtection::ReadExecute,
        ARCH_FUNCTION_ALIGNMENT as int,
        m,
        m,
    );
    lemma_sections_size(
        layout.custom_sections,
        CustomSectionProtection::Read,
        DATA_SECTION_ALIGNMENT as int,
        m,
        m,
    );
    lemma_sum_of_multiples(
        layout.functions_size(),
        sections_size(
            layout.custom_sections,
            CustomSectionProtection::ReadExecute,
            ARCH_FUNCTION_ALIGNMENT as int,
            m,
        ),
        ARCH_FUNCTION_ALIGNMENT as int,
    );
    lemma_power_of_two_positive(layout.page_size);
    lemma_round_up_bounds(layout.executable_size(), layout.page_size);
    lemma_small_powers_of_two();
    lemma_power_of_two_divides(DATA_SECTION_ALIGNMENT as int, layout.page_size);
    lemma_multiple_of_multiple(
        layout.data_start(),
        DATA_SECTION_ALIGNMENT as int,
        layout.page_size,
    );
    lemma_sum_of_multiples(
        layout.data_start(),
        sections_size(
            layout.custom_sections,
            CustomSectionProtection::Read,
            DATA_SECTION_ALIGNMENT as int,
            m,
        ),
        DATA_SECTION_ALIGNMENT as int,
    );
}

/// The code memory has no slack but the padding: the slot of each function
/// body is the size of the body and its unwind block and less than one
/// alignment more, the executable zone is padded by less than a page, what
/// is written ends within the memory, and the image has the size of the
/// layout.
pub proof fn lemma_layout_total(layout: CodeLayout)
    requires
        is_page_size(layout.page_size),
    ensures
        layout.image().len() == layout.total_size(),
        forall|k: int|
            0 <= k < layout.function_bodies.len() ==> {
                &&& layout.function_bodies[k].allocation_size() <= #[trigger] layout.body_offset(
                    k + 1,
                ) - layout.body_offset(k)
                &&& layout.body_offset(k + 1) - layout.body_offset(k)
                    < layout.function_bodies[k].allocation_size() + ARCH_FUNCTION_ALIGNMENT
            },
        layout.data_start() - layout.executable_size() < layout.page_size,
        layout.written_end() <= layout.total_size(),
{
    lemma_zones_in_order(layout);
    assert forall|k: int| 0 <= k < layout.function_bodies.len() implies {
        &&& layout.function_bodies[k].allocation_size() <= #[trigger] layout.body_offset(k + 1)
            - layout.body_offset(k)
        &&& layout.body_offset(k + 1) - layout.body_offset(k)
            < layout.function_bodies[k].allocation_size() + ARCH_FUNCTION_ALIGNMENT
    } by {
        lemma_round_up_bounds(
            layout.function_bodies[k].allocation_size(),
            ARCH_FUNCTION_ALIGNMENT as int,
        );
    }
    lemma_written_end(layout);
    lemma_image_len(layout);
}

/// The slots of two different function bodies do not overlap, and all lie in
/// the executable zone.
pub proof fn lemma_function_slots_disjoint(layout: CodeLayout, i: int, j: int)
    requires
        0 <= i < j < layout.function_bodies.len(),
    ensures
        0 <= layout.body_offset(i),
        layout.body_offset(i) + layout.function_bodies[i].allocation_size() <= layout.body_offset(
            j,
        ),
        layout.body_offset(j) + layout.function_bodies[j].allocation_size()
            <= layout.functions_size(),
{
    let funcs = layout.function_bodies;
    lemma_functions_size(funcs, i, i + 1);
    lemma_functions_size(funcs, i + 1, j);
    lemma_functions_size(funcs, j + 1, funcs.len() as int);
    lemma_round_up_bounds(funcs[i].allocation_size(), ARCH_FUNCTION_ALIGNMENT as int);
    lemma_round_up_bounds(funcs[j].allocation_size(), ARCH_FUNCTION_ALIGNMENT as int);
}

/// The slot of a custom section lies in the zone of its protection: an
/// executable section between the function slots and the end of the
/// executable zone, a data section between the start of the data zone and
/// the end of the code memory.
pub proof fn lemma_section_in_zone(layout: CodeLayout, s: int)
    requires
        is_page_size(layout.page_size),
        0 <= s < layout.custom_sections.len(),
    ensures
        layout.custom_sections[s].protection == CustomSectionProtection::ReadExecute ==> {
            &&& layout.functions_size() <= layout.section_offset(s)
            &&& layout.section_offset(s) + layout.custom_sections[s].bytes.len()
                <= layout.executable_size()
            &&& layout.section_offset(s) % (ARCH_FUNCTION_ALIGNMENT as int) == 0
        },
        layout.custom_sections[s].protection == CustomSectionProtection::Read ==> {
            &&& layout.data_start() <= layout.section_offset(s)
            &&& layout.section_offset(s) + layout.custom_sections[s].bytes.len()
                <= layout.total_size()
            &&& layout.section_offset(s) % (DATA_SECTION_ALIGNMENT as int) == 0
        },
{
    let sections = layout.custom_sections;
    let m = sections.len() as int;
    lemma_zones_in_order(layout);
    match sections[s].protection {
        CustomSectionProtection::ReadExecute => {
            let a = ARCH_FUNCTION_ALIGNMENT as int;
            lemma_sections_size(sections, CustomSectionProtection::ReadExecute, a, s, s + 1);
            lemma_sections_size(sections, CustomSectionProtection::ReadExecute, a, s + 1, m);
            lemma_round_up_bounds(sections[s].bytes.len() as int, a);
            lemma_sum_of_multiples(
                layout.functions_size(),
                sections_size(sections, CustomSectionProtection::ReadExecute, a, s),
                a,
            );
        },
        CustomSectionProtection::Read => {
            let a = DATA_SECTION_ALIGNMENT as int;
            lemma_sections_size(sections, CustomSectionProtection::Read, a, s, s + 1);
            lemma_sections_size(sections, CustomSectionProtection::Read, a, s + 1, m);
            lemma_round_up_bounds(sections[s].bytes.len() as int, a);
            lemma_sum_of_multiples(
                layout.data_start(),
                sections_size(sections, CustomSectionProtection::Read, a, s),
                a,
            );
        },
    }
}

/// The slots of two custom sections with the same protection do not overlap.
pub proof fn lemma_section_slots_disjoint(layout: CodeLayout, s: int, t: int)
    requires
        is_page_size(layout.page_size),
        0 <= s < t < layout.custom_sections.len(),
        layout.custom_sections[s].protection == layout.custom_sections[t].protection,
    ensures
        layout.section_offset(s) + layout.custom_sections[s].bytes.len() <= layout.section_offset(
            t,
        ),
{
    let sections = layout.custom_sections;
    let protection = sections[s].protection;
    let a = match protection {
        CustomSectionProtection::ReadExecute => ARCH_FUNCTION_ALIGNMENT as int,
        CustomSectionProtection::Read => DATA_SECTION_ALIGNMENT as int,
    };
    lemma_sections_size(sections, protection, a, s, s + 1);
    lemma_sections_size(sections, protection, a, s + 1, t);
    lemma_round_up_bounds(sections[s].bytes.len() as int, a);
}

/// The data zone starts on a page boundary, and no byte of the executable
/// zone lies on a page that holds a byte of the data zone.
pub proof fn lemma_page_isolation(layout: CodeLayout, executable_byte: int, data_byte: int)
    requires
        is_page_size(layout.page_size),
        0 <= executable_byte < layout.executable_size(),
        layout.data_start() <= data_byte,
    ensures
        layout.data_start() % layout.page_size == 0,
        executable_byte / layout.page_size < data_byte / layout.page_size,
{
    lemma_zones_in_order(layout);
    let page = layout.page_size;
    let start = layout.data_start();
    lemma_fundamental_div_mod(start, page);
    lemma_fundamental_div_mod(executable_byte, page);
    lemma_fundamental_div_mod(data_byte, page);
    let qe = executable_byte / page;
    let qs = start / page;
    let qd = data_byte / page;
    assert(qe < qs) by (nonlinear_arith)
        requires
            page > 0,
            page * qe + executable_byte % page < page * qs,
            0 <= executable_byte % page,
    ;
    assert(qs <= qd) by (nonlinear_arith)
        requires
            page > 0,
            page * qs <= page * qd + data_byte % page,
            data_byte % page < page,
    ;
}

/// What is written for the sections of one protection ends within their
/// zone.
proof fn lemma_sections_end(
    layout: CodeLayout,
    protection: CustomSectionProtection,
    start: int,
    n: int,
)
    requires
        is_page_size(layout.page_size),
        0 <= n <= layout.custom_sections.len(),
    ensures
        layout.sections_end(protection, start, n) == start || (protection
            == CustomSectionProtection::ReadExecute && layout.functions_size()
            <= layout.sections_end(protection, start, n) <= layout.executable_size()) || (
        protection == CustomSectionProtection::Read && layout.data_start() <= layout.sections_end(
            protection,
            start,
            n,
        ) <= layout.total_size()),
    decreases n,
{
    if n > 0 {
        if layout.custom_sections[n - 1].protection == protection {
            lemma_section_in_zone(layout, n - 1);
        } else {
            lemma_sections_end(layout, protection, start, n - 1);
        }
    }
}

/// What is written ends within the code memory, the executable part within
/// the executable zone.
pub proof fn lemma_written_end(layout: CodeLayout)
    requires
        is_page_size(layout.page_size),
    ensures
        0 <= layout.executable_end() <= layout.executable_size(),
        layout.executable_end() <= layout.written_end() <= layout.total_size(),
{
    let funcs = layout.function_bodies;
    let n = funcs.len() as int;
    let m = layout.custom_sections.len() as int;
    lemma_zones_in_order(layout);
    if n > 0 {
        lemma_functions_size(funcs, n - 1, n);
        lemma_allocation_size(funcs[n - 1]);
        lemma_round_up_bounds(funcs[n - 1].allocation_size(), ARCH_FUNCTION_ALIGNMENT as int);
    }
    lemma_sections_end(layout, CustomSectionProtection::ReadExecute, functions_end(funcs, n), m);
    lemma_sections_end(layout, CustomSectionProtection::Read, layout.executable_end(), m);
}

/// Writing function bodies to an image keeps its length.
pub proof fn lemma_functions_image_len(image: Seq<u8>, funcs: Seq<FunctionBodyView>, n: int)
    ensures
        functions_image(image, funcs, n).len() == image.len(),
    decreases n,
{
    if n > 0 {
        lemma_functions_image_len(image, funcs, n - 1);
    }
}

/// Writing sections to an image keeps its length.
pub proof fn lemma_sections_image_len(
    layout: CodeLayout,
    image: Seq<u8>,
    protection: CustomSectionProtection,
    n: int,
)
    ensures
        layout.sections_image(image, protection, n).len() == image.len(),
    decreases n,
{
    if n > 0 {
        lemma_sections_image_len(layout, image, protection, n - 1);
    }
}

/// The image of a layout has the size of the layout.
pub proof fn lemma_image_len(layout: CodeLayout)
    requires
        is_page_size(layout.page_size),
    ensures
        layout.image().len() == layout.total_size(),
{
    lemma_zones_in_order(layout);
    let zeros = Seq::new(layout.total_size() as nat, |p: int| 0u8);
    let m = layout.custom_sections.len() as int;
    lemma_functions_image_len(zeros, layout.function_bodies, layout.function_bodies.len() as int);
    let functions = functions_image(
        zeros,
        layout.function_bodies,
        layout.function_bodies.len() as int,
    );
    lemma_sections_image_len(layout, functions, CustomSectionProtection::ReadExecute, m);
    let executable = layout.sections_image(functions, CustomSectionProtection::ReadExecute, m);
    lemma_sections_image_len(layout, executable, CustomSectionProtection::Read, m);
}

impl CodeLayout {
    /// Where the zone of the sections with the given protection starts:
    /// executable sections follow the function bodies, data sections start
    /// the data zone.
    pub open spec fn zone_start(self, protection: CustomSectionProtection) -> int {
        match protection {
            CustomSectionProtection::ReadExecute => self.functions_size(),
            CustomSectionProtection::Read => self.data_start(),
        }
    }
}

/// The alignment of the sections with the given protection.
pub open spec fn slot_alignment(protection: CustomSectionProtection) -> int {
    match protection {
        CustomSectionProtection::ReadExecute => ARCH_FUNCTION_ALIGNMENT as int,
        CustomSectionProtection::Read => DATA_SECTION_ALIGNMENT as int,
    }
}

/// Writing more function bodies changes nothing below the slots of those
/// written before.
pub proof fn lemma_functions_image_below(
    image: Seq<u8>,
    funcs: Seq<FunctionBodyView>,
    k: int,
    m: int,
    p: int,
)
    requires
        0 <= k <= m,
        0 <= p < image.len(),
        p < functions_size(funcs, k),
    ensures
        functions_image(image, funcs, m)[p] == functions_image(image, funcs, k)[p],
    decreases m - k,
{
    if k < m {
        lemma_functions_image_below(image, funcs, k, m - 1, p);
        lemma_functions_image_len(image, funcs, m - 1);
        lemma_functions_size(funcs, k, m - 1);
        lemma_allocation_size(funcs[m - 1]);
    }
}

/// Writing more sections changes nothing below the slots of those of the
/// same protection written before, and nothing below their zone.
pub proof fn lemma_sections_image_below(
    layout: CodeLayout,
    image: Seq<u8>,
    protection: CustomSectionProtection,
    s: int,
    m: int,
    p: int,
)
    requires
        is_page_size(layout.page_size),
        0 <= s <= m <= layout.custom_sections.len(),
        0 <= p < image.len(),
        p < layout.zone_start(protection) + sections_size(
            layout.custom_sections,
            protection,
            slot_alignment(protection),
            s,
        ),
    ensures
        layout.sections_image(image, protection, m)[p] == layout.sections_image(
            image,
            protection,
            s,
        )[p],
    decreases m - s,
{
    if s < m {
        lemma_sections_image_below(layout, image, protection, s, m - 1, p);
        lemma_sections_image_len(layout, image, protection, m - 1);
        lemma_sections_size(
            layout.custom_sections,
            protection,
            slot_alignment(protection),
            s,
            m - 1,
        );
    }
}

/// The image holds every function body where the layout puts it: the bytes
/// of the body are not touched by what is written after it.
pub proof fn lemma_image_holds_body(layout: CodeLayout, k: int, j: int)
    requires
        is_page_size(layout.page_size),
        0 <= k < layout.function_bodies.len(),
        0 <= j < layout.function_bodies[k].body.len(),
    ensures
        0 <= layout.body_offset(k) + j < layout.image().len(),
        layout.image()[layout.body_offset(k) + j] == layout.function_bodies[k].body[j],
{
    let funcs = layout.function_bodies;
    let n = funcs.len() as int;
    let m = layout.custom_sections.len() as int;
    let p = layout.body_offset(k) + j;
    lemma_image_parts(layout, k);
    let zeros = Seq::new(layout.total_size() as nat, |q: int| 0u8);
    let functions = functions_image(zeros, funcs, n);
    let executable = layout.sections_image(functions, CustomSectionProtection::ReadExecute, m);
    lemma_functions_image_len(zeros, funcs, k);
    lemma_functions_image_below(zeros, funcs, k + 1, n, p);
    lemma_sections_image_below(layout, functions, CustomSectionProtection::ReadExecute, 0, m, p);
    lemma_sections_image_below(layout, executable, CustomSectionProtection::Read, 0, m, p);
}

/// The image holds the unwind block of every function body that has one,
/// where the layout puts it.
pub proof fn lemma_image_holds_unwind_block(layout: CodeLayout, k: int, j: int)
    requires
        is_page_size(layout.page_size),
        0 <= k < layout.function_bodies.len(),
        layout.function_bodies[k].unwind_block() is Some,
        0 <= j < layout.function_bodies[k].unwind_block()->Some_0.len(),
    ensures
        0 <= layout.unwind_offset(k) + j < layout.image().len(),
        layout.image()[layout.unwind_offset(k) + j]
            == layout.function_bodies[k].unwind_block()->Some_0[j],
{
    let funcs = layout.function_bodies;
    let n = funcs.len() as int;
    let m = layout.custom_sections.len() as int;
    let p = layout.unwind_offset(k) + j;
    lemma_image_parts(layout, k);
    let zeros = Seq::new(layout.total_size() as nat, |q: int| 0u8);
    let functions = functions_image(zeros, funcs, n);
    let executable = layout.sections_image(functions, CustomSectionProtection::ReadExecute, m);
    lemma_functions_image_len(zeros, funcs, k);
    lemma_functions_image_below(zeros, funcs, k + 1, n, p);
    lemma_sections_image_below(layout, functions, CustomSectionProtection::ReadExecute, 0, m, p);
    lemma_sections_image_below(layout, executable, CustomSectionProtection::Read, 0, m, p);
}

/// What the proofs about the image of function `k` start from: its slot lies
/// in the function zone, and the images of the passes have the size of the
/// layout.
proof fn lemma_image_parts(layout: CodeLayout, k: int)
    requires
        is_page_size(layout.page_size),
        0 <= k < layout.function_bodies.len(),
    ensures
        0 <= layout.body_offset(k),
        layout.function_bodies[k].body.len() <= round_up_spec(
            layout.function_bodies[k].body.len() as int,
            UNWIND_INFO_ALIGNMENT as int,
        ),
        layout.body_offset(k) + layout.function_bodies[k].allocation_size()
            <= layout.body_offset(k + 1) <= layout.functions_size() <= layout.data_start()
            <= layout.total_size(),
        layout.image().len() == layout.total_size(),
        functions_image(
            Seq::new(layout.total_size() as nat, |q: int| 0u8),
            layout.function_bodies,
            layout.function_bodies.len() as int,
        ).len() == layout.total_size(),
        layout.sections_image(
            functions_image(
                Seq::new(layout.total_size() as nat, |q: int| 0u8),
                layout.function_bodies,
                layout.function_bodies.len() as int,
            ),
            CustomSectionProtection::ReadExecute,
            layout.custom_sections.len() as int,
        ).len() == layout.total_size(),
{
    let funcs = layout.function_bodies;
    let n = funcs.len() as int;
    let m = layout.custom_sections.len() as int;
    lemma_zones_in_order(layout);
    lemma_image_len(layout);
    lemma_functions_size(funcs, k, k + 1);
    lemma_functions_size(funcs, k + 1, n);
    lemma_allocation_size(funcs[k]);
    lemma_round_up_bounds(funcs[k].allocation_size(), ARCH_FUNCTION_ALIGNMENT as int);
    let zeros = Seq::new(layout.total_size() as nat, |q: int| 0u8);
    lemma_functions_image_len(zeros, funcs, n);
    lemma_sections_image_len(
        layout,
        functions_image(zeros, funcs, n),
        CustomSectionProtection::ReadExecute,
        m,
    );
}

/// The image holds every custom section where the layout puts it.
pub proof fn lemma_image_holds_section(layout: CodeLayout, s: int, j: int)
    requires
        is_page_size(layout.page_size),
        0 <= s < layout.custom_sections.len(),
        0 <= j < layout.custom_sections[s].bytes.len(),
    ensures
        0 <= layout.section_offset(s) + j < layout.image().len(),
        layout.image()[layout.section_offset(s) + j] == layout.custom_sections[s].bytes[j],
{
    let funcs = layout.function_bodies;
    let sections = layout.custom_sections;
    let n = funcs.len() as int;
    let m = sections.len() as int;
    let p = layout.section_offset(s) + j;
    let protection = sections[s].protection;
    lemma_zones_in_order(layout);
    lemma_image_len(layout);
    lemma_section_in_zone(layout, s);
    lemma_sections_size(sections, protection, slot_alignment(protection), s, s + 1);
    lemma_round_up_bounds(sections[s].bytes.len() as int, slot_alignment(protection));
    let zeros = Seq::new(layout.total_size() as nat, |q: int| 0u8);
    let functions = functions_image(zeros, funcs, n);
    lemma_functions_image_len(zeros, funcs, n);
    let executable = layout.sections_image(functions, CustomSectionProtection::ReadExecute, m);
    lemma_sections_image_len(layout, functions, CustomSectionProtection::ReadExecute, m);
    match protection {
        CustomSectionProtection::ReadExecute => {
            lemma_sections_image_len(layout, functions, protection, s);
            lemma_sections_image_below(layout, functions, protection, s + 1, m, p);
            lemma_sections_image_below(layout, executable, CustomSectionProtection::Read, 0, m, p);
        },
        CustomSectionProtection::Read => {
            lemma_sections_image_len(layout, executable, protection, s);
            lemma_sections_image_below(layout, executable, protection, s + 1, m, p);
        },
    }
}

/// The bytes that a function body and its unwind block take from the start
/// of the body.
pub fn function_allocation_size(func: FunctionBodyRef<'_>) -> (size: usize)
    requires
        func@.allocation_size() <= usize::MAX,
    ensures
        size == func@.allocation_size(),
{
    match func.unwind_info {
        Some(CompiledFunctionUnwindInfoRef::WindowsX64(info)) => {
            proof {
                lemma_small_powers_of_two();
                if func.body.len() > usize::MAX - (UNWIND_INFO_ALIGNMENT - 1) {
                    lemma_round_up_overflows(
                        func.body.len() as int,
                        UNWIND_INFO_ALIGNMENT as int,
                    );
                }
            }
            round_up(func.body.len(), UNWIND_INFO_ALIGNMENT) + info.len()
        },
        _ => func.body.len(),
    }
}

/// `function_allocation_size`, or `None` where the size does not fit in
/// `usize`.
pub fn checked_function_allocation_size(func: FunctionBodyRef<'_>) -> (size: Option<usize>)
    ensures
        match size {
            Some(size) => size == func@.allocation_size(),
            None => func@.allocation_size() > usize::MAX,
        },
{
    proof {
        lemma_small_powers_of_two();
    }
    let length = func.body.len();
    match func.unwind_info {
        Some(CompiledFunctionUnwindInfoRef::WindowsX64(info)) => {
            match checked_round_up(length, UNWIND_INFO_ALIGNMENT) {
                Some(padded) => {
                    if padded <= usize::MAX - info.len() {
                        Some(function_allocation_size(func))
                    } else {
                        None
                    }
                },
                None => None,
            }
        },
        _ => Some(function_allocation_size(func)),
    }
}

/// The size of the code memory for the given parts, or `None` where it does
/// not fit in `usize`.
pub fn code_size(
    function_bodies: &[FunctionBodyRef<'_>],
    custom_sections: &[CustomSectionRef<'_>],
    page_size: usize,
) -> (size: Option<usize>)
    requires
        is_page_size(page_size as int),
    ensures
        ({
            let layout = CodeLayout {
                function_bodies: views(function_bodies@),
                custom_sections: views(custom_sections@),
                page_size: page_size as int,
            };
            match size {
                Some(size) => size == layout.total_size(),
                None => layout.total_size() > usize::MAX,
            }
        }),
{
    let ghost layout = CodeLayout {
        function_bodies: views(function_bodies@),
        custom_sections: views(custom_sections@),
        page_size: page_size as int,
    };
    proof {
        lemma_zones_in_order(layout);
        lemma_small_powers_of_two();
    }
    let functions = match functions_total(function_bodies) {
        Some(size) => size,
        None => {
            return None;
        },
    };
    let executable = match sections_total(
        custom_sections,
        CustomSectionProtection::ReadExecute,
        ARCH_FUNCTION_ALIGNMENT,
        functions,
    ) {
        Some(size) => size,
        None => {
            return None;
        },
    };
    let data_start = match checked_round_up(executable, page_size) {
        Some(size) => size,
        None => {
            return None;
        },
    };
    sections_total(
        custom_sections,
        CustomSectionProtection::Read,
        DATA_SECTION_ALIGNMENT,
        data_start,
    )
}

fn functions_total(function_bodies: &[FunctionBodyRef<'_>]) -> (size: Option<usize>)
    ensures
        match size {
            Some(size) => size == functions_size(
                views(function_bodies@),
                function_bodies.len() as int,
            ),
            None => functions_size(views(function_bodies@), function_bodies.len() as int)
                > usize::MAX,
        },
{
    let ghost funcs = views(function_bodies@);
    let mut total: usize = 0;
    let mut i: usize = 0;
    while i < function_bodies.len()
        invariant
            i <= function_bodies.len(),
            funcs == views(function_bodies@),
            total == functions_size(funcs, i as int),
        decreases function_bodies.len() - i,
    {
        proof {
            lemma_small_powers_of_two();
            lemma_functions_size(funcs, i as int, i as int);
            lemma_functions_size(funcs, i + 1, function_bodies.len() as int);
            lemma_allocation_size(funcs[i as int]);
            lemma_round_up_bounds(funcs[i as int].allocation_size(), ARCH_FUNCTION_ALIGNMENT as int);
            lemma_round_up_shift(
                total as int,
                funcs[i as int].allocation_size(),
                ARCH_FUNCTION_ALIGNMENT as int,
            );
        }
        let size = match checked_function_allocation_size(function_bodies[i]) {
            Some(size) => size,
            None => {
                return None;
            },
        };
        if size > usize::MAX - total {
            return None;
        }
        total = match checked_round_up(total + size, ARCH_FUNCTION_ALIGNMENT) {
            Some(rounded) => rounded,
            None => {
                return None;
            },
        };
        i = i + 1;
    }
    Some(total)
}

fn sections_total(
    custom_sections: &[CustomSectionRef<'_>],
    protection: CustomSectionProtection,
    alignment: usize,
    start: usize,
) -> (size: Option<usize>)
    requires
        is_power_of_two(alignment as int),
        start % alignment == 0,
    ensures
        match size {
            Some(size) => size == start + sections_size(
                views(custom_sections@),
                protection,
                alignment as int,
                custom_sections.len() as int,
            ),
            None => start + sections_size(
                views(custom_sections@),
                protection,
                alignment as int,
                custom_sections.len() as int,
            ) > usize::MAX,
        },
{
    let ghost sections = views(custom_sections@);
    let mut total: usize = start;
    let mut i: usize = 0;
    proof {
        lemma_power_of_two_positive(alignment as int);
    }
    while i < custom_sections.len()
        invariant
            i <= custom_sections.len(),
            sections == views(custom_sections@),
            is_power_of_two(alignment as int),
            alignment > 0,
            start % alignment == 0,
            total == start + sections_size(sections, protection, alignment as int, i as int),
        decreases custom_sections.len() - i,
    {
        proof {
            lemma_sections_size(sections, protection, alignment as int, i as int, i as int);
            lemma_sections_size(
                sections,
                protection,
                alignment as int,
                i + 1,
                custom_sections.len() as int,
            );
            lemma_sum_of_multiples(
                start as int,
                sections_size(sections, protection, alignment as int, i as int),
                alignment as int,
            );
            lemma_round_up_bounds(sections[i as int].bytes.len() as int, alignment as int);
            lemma_round_up_shift(
                total as int,
                sections[i as int].bytes.len() as int,
                alignment as int,
            );
        }
        if custom_sections[i].protection == protection {
            let length = custom_sections[i].bytes.len();
            if length > usize::MAX - total {
                return None;
            }
            total = match checked_round_up(total + length, alignment) {
                Some(rounded) => rounded,
                None => {
                    return None;
                },
            };
        }
        i = i + 1;
    }
    Some(total)
}

} // verus!
