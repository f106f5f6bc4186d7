//! Compiled function bodies and custom sections, owned and borrowed, and
//! what they are in contracts.

use crate::types::views;
use vstd::prelude::*;
use vstd::slice::slice_to_vec;

verus! {

/// Unwind information that a backend emitted with a function body.
#[derive(Clone, Debug, PartialEq, Eq)]
pub enum CompiledFunctionUnwindInfo {
    /// Windows x64 unwind information; it is written to code memory right
    /// after the body.
    WindowsX64(Vec<u8>),
    /// The unwind information is in a custom section.
    Dwarf,
}

/// The machine code of one function, with its unwind information.
#[derive(Clone, Debug, PartialEq, Eq)]
pub struct FunctionBody {
    pub body: Vec<u8>,
    pub unwind_info: Option<CompiledFunctionUnwindInfo>,
}

/// Borrowed unwind information.
#[derive(Clone, Copy, Debug, PartialEq, Eq)]
pub enum CompiledFunctionUnwindInfoRef<'a> {
    WindowsX64(&'a [u8]),
    Dwarf,
}

/// A borrowed function body: the bytes stay where they are.
#[derive(Clone, Copy, Debug, PartialEq, Eq)]
pub struct FunctionBodyRef<'a> {
    pub body: &'a [u8],
    pub unwind_info: Option<CompiledFunctionUnwindInfoRef<'a>>,
}

/// What unwind information is in contracts.
pub enum UnwindInfoView {
    WindowsX64(Seq<u8>),
    Dwarf,
}

/// What a function body is in contracts.
pub struct FunctionBodyView {
    pub body: Seq<u8>,
    pub unwind_info: Option<UnwindInfoView>,
}

impl View for CompiledFunctionUnwindInfo {
    type V = UnwindInfoView;

    open spec fn view(&self) -> UnwindInfoView {
        match self {
            CompiledFunctionUnwindInfo::WindowsX64(info) => UnwindInfoView::WindowsX64(info@),
            CompiledFunctionUnwindInfo::Dwarf => UnwindInfoView::Dwarf,
        }
    }
}

impl<'a> View for CompiledFunctionUnwindInfoRef<'a> {
    type V = UnwindInfoView;

    open spec fn view(&self) -> UnwindInfoView {
        match self {
            CompiledFunctionUnwindInfoRef::WindowsX64(info) => UnwindInfoView::WindowsX64(info@),
            CompiledFunctionUnwindInfoRef::Dwarf => UnwindInfoView::Dwarf,
        }
    }
}

impl View for FunctionBody {
    type V = FunctionBodyView;

    open spec fn view(&self) -> FunctionBodyView {
        FunctionBodyView {
            body: self.body@,
            unwind_info: match self.unwind_info {
                Some(info) => Some(info@),
                None => None,
            },
        }
    }
}

impl<'a> View for FunctionBodyRef<'a> {
    type V = FunctionBodyView;

    open spec fn view(&self) -> FunctionBodyView {
        FunctionBodyView {
            body: self.body@,
            unwind_info: match self.unwind_info {
                Some(info) => Some(info@),
                None => None,
            },
        }
    }
}

impl FunctionBodyView {
    /// The bytes of the Windows x64 unwind block, if the body has one.
    pub open spec fn unwind_block(self) -> Option<Seq<u8>> {
        match self.unwind_info {
            Some(UnwindInfoView::WindowsX64(info)) => Some(info),
            _ => None,
        }
    }
}

impl FunctionBody {
    /// The same body, borrowed.
    pub fn as_ref(&self) -> (borrowed: FunctionBodyRef<'_>)
        ensures
            borrowed@ == self@,
    {
        FunctionBodyRef {
            body: self.body.as_slice(),
            unwind_info: match &self.unwind_info {
                Some(CompiledFunctionUnwindInfo::WindowsX64(info)) => Some(
                    CompiledFunctionUnwindInfoRef::WindowsX64(info.as_slice()),
                ),
                Some(CompiledFunctionUnwindInfo::Dwarf) => Some(
                    CompiledFunctionUnwindInfoRef::Dwarf,
                ),
                None => None,
            },
        }
    }
}

impl<'a> FunctionBodyRef<'a> {
    /// An owned copy of the body.
    pub fn to_owned(&self) -> (owned: FunctionBody)
        ensures
            owned@ == self@,
    {
        FunctionBody {
            body: slice_to_vec(self.body),
            unwind_info: match self.unwind_info {
                Some(CompiledFunctionUnwindInfoRef::WindowsX64(info)) => Some(
                    CompiledFunctionUnwindInfo::WindowsX64(slice_to_vec(info)),
                ),
                Some(CompiledFunctionUnwindInfoRef::Dwarf) => Some(
                    CompiledFunctionUnwindInfo::Dwarf,
                ),
                None => None,
            },
        }
    }
}

/// The protection that the bytes of a custom section get once the code is
/// published.
#[derive(Clone, Copy, Debug, PartialEq, Eq, Structural)]
pub enum CustomSectionProtection {
    /// Read-only data.
    Read,
    /// Code: readable and executable.
    ReadExecute,
}

/// A custom section of an executable.
#[derive(Clone, Debug, PartialEq, Eq)]
pub struct CustomSection {
    pub protection: CustomSectionProtection,
    pub bytes: Vec<u8>,
}

/// A borrowed custom section.
#[derive(Clone, Copy, Debug, PartialEq, Eq)]
pub struct CustomSectionRef<'a> {
    pub protection: CustomSectionProtection,
    pub bytes: &'a [u8],
}

/// What a custom section is in contracts.
pub struct CustomSectionView {
    pub protection: CustomSectionProtection,
    pub bytes: Seq<u8>,
}

impl View for CustomSection {
    type V = CustomSectionView;

    open spec fn view(&self) -> CustomSectionView {
        CustomSectionView { protection: self.protection, bytes: self.bytes@ }
    }
}

impl<'a> View for CustomSectionRef<'a> {
    type V = CustomSectionView;

    open spec fn view(&self) -> CustomSectionView {
        CustomSectionView { protection: self.protection, bytes: self.bytes@ }
    }
}

impl CustomSection {
    /// The same section, borrowed.
    pub fn as_ref(&self) -> (borrowed: CustomSectionRef<'_>)
        ensures
            borrowed@ == self@,
    {
        CustomSectionRef { protection: self.protection, bytes: self.bytes.as_slice() }
    }
}

impl<'a> CustomSectionRef<'a> {
    /// An owned copy of the section.
    pub fn to_owned(&self) -> (owned: CustomSection)
        ensures
            owned@ == self@,
    {
        CustomSection { protection: self.protection, bytes: slice_to_vec(self.bytes) }
    }
}

/// Borrows every function body of `bodies`.
pub fn function_body_refs(bodies: &Vec<FunctionBody>) -> (refs: Vec<FunctionBodyRef<'_>>)
    ensures
        views(refs@) == views(bodies@),
{
    let mut refs: Vec<FunctionBodyRef<'_>> = Vec::new();
    let mut i: usize = 0;
    while i < bodies.len()
        invariant
            i <= bodies.len(),
            refs.len() == i,
            forall|k: int| 0 <= k < i ==> #[trigger] refs@[k]@ == bodies@[k]@,
        decreases bodies.len() - i,
    {
        refs.push(bodies[i].as_ref());
        i = i + 1;
    }
    assert(views(refs@) =~= views(bodies@));
    refs
}

/// Borrows every custom section of `sections`.
pub fn custom_section_refs(sections: &Vec<CustomSection>) -> (refs: Vec<CustomSectionRef<'_>>)
    ensures
        views(refs@) == views(sections@),
{
    let mut refs: Vec<CustomSectionRef<'_>> = Vec::new();
    let mut i: usize = 0;
    while i < sections.len()
        invariant
            i <= sections.len(),
            refs.len() == i,
            forall|k: int| 0 <= k < i ==> #[trigger] refs@[k]@ == sections@[k]@,
        decreases sections.len() - i,
    {
        refs.push(sections[i].as_ref());
        i = i + 1;
    }
    assert(views(refs@) =~= views(sections@));
    refs
}

} // verus!
