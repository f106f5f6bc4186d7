//! The plain values that describe a module: indices, value types, function
//! types, and the types of memories, tables and globals.

use vstd::prelude::*;

verus! {

/// Index of a function type among the types that a module declares.
#[derive(Clone, Copy, Debug, PartialEq, Eq, Structural)]
pub struct SignatureIndex(pub u32);

/// Index of a function, imported functions first.
#[derive(Clone, Copy, Debug, PartialEq, Eq, Structural)]
pub struct FunctionIndex(pub u32);

/// Index of a function that the module defines, counted without the imports.
#[derive(Clone, Copy, Debug, PartialEq, Eq, Structural)]
pub struct LocalFunctionIndex(pub u32);

/// Index of a table, imported tables first.
#[derive(Clone, Copy, Debug, PartialEq, Eq, Structural)]
pub struct TableIndex(pub u32);

/// Index of a linear memory, imported memories first.
#[derive(Clone, Copy, Debug, PartialEq, Eq, Structural)]
pub struct MemoryIndex(pub u32);

/// Index of a global, imported globals first.
#[derive(Clone, Copy, Debug, PartialEq, Eq, Structural)]
pub struct GlobalIndex(pub u32);

/// Index of a custom section of an executable.
#[derive(Clone, Copy, Debug, PartialEq, Eq, Structural)]
pub struct SectionIndex(pub u32);

/// Index of a passive data segment.
#[derive(Clone, Copy, Debug, PartialEq, Eq, Structural)]
pub struct DataIndex(pub u32);

/// Index of a passive element segment.
#[derive(Clone, Copy, Debug, PartialEq, Eq, Structural)]
pub struct ElemIndex(pub u32);

/// Index of a jump table within one function.
#[derive(Clone, Copy, Debug, PartialEq, Eq, Structural)]
pub struct JumpTable(pub u32);

/// A WebAssembly value type.
#[derive(Clone, Copy, Debug, PartialEq, Eq, Structural)]
pub enum Type {
    I32,
    I64,
    F32,
    F64,
    V128,
    ExternRef,
    FuncRef,
}

/// The type of a function: its parameters and its results.
#[derive(Clone, Debug, PartialEq, Eq)]
pub struct FunctionType {
    pub params: Vec<Type>,
    pub results: Vec<Type>,
}

/// What a `FunctionType` is in contracts.
pub struct FunctionTypeView {
    pub params: Seq<Type>,
    pub results: Seq<Type>,
}

impl View for FunctionType {
    type V = FunctionTypeView;

    open spec fn view(&self) -> FunctionTypeView {
        FunctionTypeView { params: self.params@, results: self.results@ }
    }
}

fn same_types(a: &Vec<Type>, b: &Vec<Type>) -> (same: bool)
    ensures
        same == (a@ == b@),
{
    if a.len() != b.len() {
        return false;
    }
    let mut i: usize = 0;
    while i < a.len()
        invariant
            a.len() == b.len(),
            i <= a.len(),
            a@.take(i as int) == b@.take(i as int),
        decreases a.len() - i,
    {
        if a[i] != b[i] {
            return false;
        }
        assert(a@.take(i + 1) =~= a@.take(i as int).push(a@[i as int]));
        assert(b@.take(i + 1) =~= b@.take(i as int).push(b@[i as int]));
        i = i + 1;
    }
    assert(a@.take(a.len() as int) =~= a@);
    assert(b@.take(b.len() as int) =~= b@);
    true
}

fn copy_types(types: &Vec<Type>) -> (copy: Vec<Type>)
    ensures
        copy@ == types@,
{
    let mut copy: Vec<Type> = Vec::new();
    let mut i: usize = 0;
    while i < types.len()
        invariant
            i <= types.len(),
            copy@ == types@.take(i as int),
        decreases types.len() - i,
    {
        copy.push(types[i]);
        assert(types@.take(i + 1) =~= types@.take(i as int).push(types@[i as int]));
        i = i + 1;
    }
    assert(types@.take(types.len() as int) =~= types@);
    copy
}

impl FunctionType {
    /// A function type with the given parameters and results.
    pub fn new(params: Vec<Type>, results: Vec<Type>) -> (ty: FunctionType)
        ensures
            ty@ == (FunctionTypeView { params: params@, results: results@ }),
    {
        FunctionType { params, results }
    }

    /// Structural equality: the same parameters and the same results.
    pub fn same_as(&self, other: &FunctionType) -> (same: bool)
        ensures
            same == (self@ == other@),
    {
        same_types(&self.params, &other.params) && same_types(&self.results, &other.results)
    }

    /// A copy with the same parameters and results.
    pub fn duplicate(&self) -> (copy: FunctionType)
        ensures
            copy@ == self@,
    {
        FunctionType { params: copy_types(&self.params), results: copy_types(&self.results) }
    }
}

/// The type of a linear memory, in pages.
#[derive(Clone, Copy, Debug, PartialEq, Eq)]
pub struct MemoryType {
    pub minimum: u32,
    pub maximum: Option<u32>,
    pub shared: bool,
}

/// How the bounds of a linear memory are enforced.
#[derive(Clone, Copy, Debug, PartialEq, Eq)]
pub enum MemoryStyle {
    Dynamic { offset_guard_size: u64 },
    Static { bound: u32, offset_guard_size: u64 },
}

/// The type of a table.
#[derive(Clone, Copy, Debug, PartialEq, Eq)]
pub struct TableType {
    pub ty: Type,
    pub minimum: u32,
    pub maximum: Option<u32>,
}

/// How the elements of a table are checked on an indirect call.
#[derive(Clone, Copy, Debug, PartialEq, Eq, Structural)]
pub enum TableStyle {
    CallerChecksSignature,
}

/// Whether a global may be written.
#[derive(Clone, Copy, Debug, PartialEq, Eq, Structural)]
pub enum Mutability {
    Const,
    Var,
}

/// The type of a global.
#[derive(Clone, Copy, Debug, PartialEq, Eq, Structural)]
pub struct GlobalType {
    pub ty: Type,
    pub mutability: Mutability,
}

/// The initializer of a global. Floating-point and vector constants are held
/// by their bits.
#[derive(Clone, Copy, Debug, PartialEq, Eq, Structural)]
pub enum GlobalInit {
    I32Const(i32),
    I64Const(i64),
    F32Const(u32),
    F64Const(u64),
    V128Const(u128),
    GetGlobal(GlobalIndex),
    RefNullConst,
    RefFunc(FunctionIndex),
}

/// What an import refers to.
#[derive(Clone, Copy, Debug, PartialEq, Eq, Structural)]
pub enum ImportIndex {
    Function(FunctionIndex),
    Table(TableIndex),
    Memory(MemoryIndex),
    Global(GlobalIndex),
}

/// What an export refers to.
#[derive(Clone, Copy, Debug, PartialEq, Eq, Structural)]
pub enum ExportIndex {
    Function(FunctionIndex),
    Table(TableIndex),
    Memory(MemoryIndex),
    Global(GlobalIndex),
}

/// How many functions, tables, memories and globals a module imports. In each
/// index space the imported entities come first.
#[derive(Clone, Copy, Debug, PartialEq, Eq, Structural)]
pub struct ImportCounts {
    pub functions: u32,
    pub tables: u32,
    pub memories: u32,
    pub globals: u32,
}

/// The WebAssembly proposals that a module may use.
#[derive(Clone, Copy, Debug, PartialEq, Eq, Structural)]
pub struct Features {
    pub threads: bool,
    pub reference_types: bool,
    pub simd: bool,
    pub bulk_memory: bool,
    pub multi_value: bool,
    pub tail_call: bool,
    pub module_linking: bool,
    pub multi_memory: bool,
    pub memory64: bool,
    pub exceptions: bool,
}

impl Features {
    /// The proposals that are on unless asked otherwise: reference types,
    /// SIMD, bulk memory and multi-value.
    pub open spec fn spec_default() -> Features {
        Features {
            threads: false,
            reference_types: true,
            simd: true,
            bulk_memory: true,
            multi_value: true,
            tail_call: false,
            module_linking: false,
            multi_memory: false,
            memory64: false,
            exceptions: false,
        }
    }
}

impl Default for Features {
    fn default() -> (features: Features)
        ensures
            features == Features::spec_default(),
    {
        Features {
            threads: false,
            reference_types: true,
            simd: true,
            bulk_memory: true,
            multi_value: true,
            tail_call: false,
            module_linking: false,
            multi_memory: false,
            memory64: false,
            exceptions: false,
        }
    }
}

/// The machine that code is generated for: the instruction-set capabilities,
/// one bit each, that generated code may assume.
#[derive(Clone, Copy, Debug, PartialEq, Eq, Structural)]
pub struct Target {
    pub cpu_features: u64,
}

/// No value occurs twice in `entries`.
pub open spec fn distinct<T>(entries: Seq<T>) -> bool {
    forall|i: int, j: int|
        0 <= i < entries.len() && 0 <= j < entries.len() && i != j ==> entries[i] != entries[j]
}

/// What has a key by which it is found. Within a list that stands for a map
/// no key occurs twice.
pub trait Keyed {
    /// The type of the key.
    type Key;

    /// The key of this entry.
    spec fn key(&self) -> Self::Key;

    /// Tells whether two entries have the same key.
    fn same_key(&self, other: &Self) -> (same: bool)
        ensures
            same == (self.key() == other.key()),
    ;
}

/// The keys of the entries of a list.
pub open spec fn keys<T: Keyed>(entries: Seq<T>) -> Seq<T::Key> {
    Seq::new(entries.len(), |i: int| entries[i].key())
}

/// Tells whether no key occurs twice in `entries`.
pub fn keys_distinct<T: Keyed>(entries: &Vec<T>) -> (yes: bool)
    ensures
        yes == distinct(keys(entries@)),
{
    let ghost all = keys(entries@);
    let mut i: usize = 0;
    while i < entries.len()
        invariant
            i <= entries.len(),
            all == keys(entries@),
            forall|a: int, b: int| 0 <= a < b < i ==> all[a] != all[b],
        decreases entries.len() - i,
    {
        let mut j: usize = 0;
        while j < i
            invariant
                j <= i < entries.len(),
                all == keys(entries@),
                forall|a: int| 0 <= a < j ==> all[a] != all[i as int],
            decreases i - j,
        {
            if entries[j].same_key(&entries[i]) {
                assert(all[j as int] == all[i as int]);
                return false;
            }
            j = j + 1;
        }
        i = i + 1;
    }
    true
}

/// What can be copied, with the copy being in contracts what the source is.
pub trait Duplicate: View + Sized {
    /// A copy of this value.
    fn duplicate(&self) -> (copy: Self)
        ensures
            copy@ == self@,
    ;
}

/// A copy of each of `items`, in order.
pub fn duplicates<T: Duplicate>(items: &[T]) -> (copy: Vec<T>)
    ensures
        views(copy@) == views(items@),
{
    let mut copy: Vec<T> = Vec::new();
    let mut i: usize = 0;
    while i < items.len()
        invariant
            i <= items.len(),
            copy@.len() == i,
            forall|k: int| 0 <= k < i ==> (#[trigger] copy@[k])@ == items@[k]@,
        decreases items.len() - i,
    {
        copy.push(items[i].duplicate());
        i = i + 1;
    }
    assert(views(copy@) =~= views(items@));
    copy
}

/// The views of the items of a sequence.
pub open spec fn views<T: View>(items: Seq<T>) -> Seq<T::V> {
    Seq::new(items.len(), |i: int| items[i]@)
}

} // verus!
