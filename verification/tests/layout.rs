use wasmer_engine_universal::function_allocation_size;
use wasmer_engine_universal::layout::{
    checked_function_allocation_size, code_size, ARCH_FUNCTION_ALIGNMENT,
    DATA_SECTION_ALIGNMENT, UNWIND_INFO_ALIGNMENT,
};
use wasmer_engine_universal::section::{
    CompiledFunctionUnwindInfo, CompiledFunctionUnwindInfoRef, CustomSection,
    CustomSectionProtection, CustomSectionRef, FunctionBody, FunctionBodyRef,
};

fn plain(body: &[u8]) -> FunctionBodyRef<'_> {
    FunctionBodyRef { body, unwind_info: None }
}

fn section(protection: CustomSectionProtection, bytes: &[u8]) -> CustomSectionRef<'_> {
    CustomSectionRef { protection, bytes }
}

#[test]
fn alignments_are_as_documented() {
    assert_eq!(ARCH_FUNCTION_ALIGNMENT, 16);
    assert_eq!(DATA_SECTION_ALIGNMENT, 64);
    assert_eq!(UNWIND_INFO_ALIGNMENT, 4);
}

#[test]
fn allocation_size_without_unwind_info_is_the_body() {
    let body = [0u8; 5];
    assert_eq!(function_allocation_size(plain(&body)), 5);
    assert_eq!(function_allocation_size(plain(&[])), 0);
    let dwarf =
        FunctionBodyRef { body: &body, unwind_info: Some(CompiledFunctionUnwindInfoRef::Dwarf) };
    assert_eq!(function_allocation_size(dwarf), 5);
}

#[test]
fn allocation_size_pads_the_body_before_the_unwind_block() {
    let body = [0u8; 5];
    let info = [1u8; 3];
    let func = FunctionBodyRef {
        body: &body,
        unwind_info: Some(CompiledFunctionUnwindInfoRef::WindowsX64(&info)),
    };
    assert_eq!(function_allocation_size(func), 8 + 3);
    assert_eq!(checked_function_allocation_size(func), Some(11));
    let aligned = [0u8; 8];
    let func = FunctionBodyRef {
        body: &aligned,
        unwind_info: Some(CompiledFunctionUnwindInfoRef::WindowsX64(&info)),
    };
    assert_eq!(function_allocation_size(func), 8 + 3);
}

#[test]
fn code_size_of_nothing_is_nothing() {
    assert_eq!(code_size(&[], &[], 4096), Some(0));
}

#[test]
fn code_size_rounds_the_executable_zone_to_a_page() {
    let body = [0u8; 1];
    assert_eq!(code_size(&[plain(&body)], &[], 4096), Some(4096));
    let long = [0u8; 4097];
    assert_eq!(code_size(&[plain(&long)], &[], 4096), Some(8192));
}

#[test]
fn code_size_sums_the_slots() {
    let trampoline = [0xaau8; 5];
    let body = [1u8, 2, 3];
    let code = [9u8, 9];
    let data = [7u8; 4];
    let more = [8u8; 65];
    let bodies = [plain(&trampoline), plain(&body)];
    let sections = [
        section(CustomSectionProtection::Read, &data),
        section(CustomSectionProtection::ReadExecute, &code),
        section(CustomSectionProtection::Read, &more),
    ];
    // 16 + 16 for the bodies, 16 for the executable section: 48, a page.
    // 64 + 128 for the data sections.
    assert_eq!(code_size(&bodies, &sections, 4096), Some(4096 + 64 + 128));
    assert_eq!(code_size(&bodies, &sections, 64), Some(64 + 64 + 128));
}

#[test]
fn code_size_with_data_only_starts_at_offset_zero() {
    let data = [7u8; 4];
    let sections = [section(CustomSectionProtection::Read, &data)];
    assert_eq!(code_size(&[], &sections, 4096), Some(64));
}

#[test]
fn borrowed_and_owned_parts_agree() {
    let owned = FunctionBody {
        body: vec![1, 2, 3],
        unwind_info: Some(CompiledFunctionUnwindInfo::WindowsX64(vec![4, 5])),
    };
    let borrowed = owned.as_ref();
    assert_eq!(borrowed.body, &[1u8, 2, 3][..]);
    assert_eq!(borrowed.unwind_info, Some(CompiledFunctionUnwindInfoRef::WindowsX64(&[4, 5])));
    assert_eq!(borrowed.to_owned(), owned);
    let dwarf = FunctionBody { body: vec![1], unwind_info: Some(CompiledFunctionUnwindInfo::Dwarf) };
    assert_eq!(dwarf.as_ref().to_owned(), dwarf);
    let section = CustomSection { protection: CustomSectionProtection::Read, bytes: vec![6, 7] };
    assert_eq!(section.as_ref().bytes, &[6u8, 7][..]);
    assert_eq!(section.as_ref().to_owned(), section);
}
