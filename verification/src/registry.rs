//! The interning tables of an engine: one for function types, one for
//! function metadata. Each hands out one handle per distinct value, so that
//! modules that declare the same type, or refer to the same function, agree
//! on its identity.

use crate::types::{distinct, views, FunctionType, FunctionTypeView};
use vstd::prelude::*;

verus! {

/// The table after `value` is registered: `value` is appended unless it is
/// there already.
pub open spec fn intern<T>(entries: Seq<T>, value: T) -> Seq<T> {
    if entries.contains(value) {
        entries
    } else {
        entries.push(value)
    }
}

/// The handle that registering `value` gives: the index of `value` where it
/// is in the table, the index after the last entry where it is not.
pub open spec fn handle_of<T>(entries: Seq<T>, value: T) -> int {
    if entries.contains(value) {
        entries.index_of(value)
    } else {
        entries.len() as int
    }
}

/// Registering a value puts it at its handle, keeps every entry where it
/// was, and keeps the entries distinct.
pub proof fn lemma_intern<T>(entries: Seq<T>, value: T)
    requires
        distinct(entries),
    ensures
        distinct(intern(entries, value)),
        0 <= handle_of(entries, value) < intern(entries, value).len(),
        intern(entries, value)[handle_of(entries, value)] == value,
        entries.len() <= intern(entries, value).len() <= entries.len() + 1,
        forall|i: int| 0 <= i < entries.len() ==> intern(entries, value)[i] == entries[i],
{
    if entries.contains(value) {
    } else {
        let after = entries.push(value);
        assert forall|i: int, j: int|
            0 <= i < after.len() && 0 <= j < after.len() && i != j implies after[i] != after[j] by {
            if i < entries.len() && j < entries.len() {
            } else if i < entries.len() {
                assert(entries.contains(entries[i]));
            } else {
                assert(entries.contains(entries[j]));
            }
        }
    }
}

/// In a table of distinct entries a value has one index only.
pub proof fn lemma_handle_is_index<T>(entries: Seq<T>, i: int)
    requires
        distinct(entries),
        0 <= i < entries.len(),
    ensures
        entries.contains(entries[i]),
        handle_of(entries, entries[i]) == i,
{
    assert(entries.contains(entries[i]));
}

/// Registering the same value twice gives the same handle both times, and
/// the second time changes nothing; registering two different values gives
/// two different handles; and a handle given once is given again whatever
/// was registered in between.
pub proof fn lemma_register_idempotent<T>(entries: Seq<T>, first: T, second: T)
    requires
        distinct(entries),
    ensures
        handle_of(intern(entries, first), first) == handle_of(entries, first),
        intern(intern(entries, first), first) == intern(entries, first),
        first != second ==> handle_of(intern(entries, first), second) != handle_of(
            entries,
            first,
        ),
        handle_of(intern(intern(entries, first), second), first) == handle_of(entries, first),
{
    lemma_intern(entries, first);
    let once = intern(entries, first);
    let h = handle_of(entries, first);
    lemma_handle_is_index(once, h);
    lemma_intern(once, second);
    let twice = intern(once, second);
    lemma_handle_is_index(twice, h);
    if first != second {
        let g = handle_of(once, second);
        if g == h {
            assert(twice[g] == second);
            assert(false);
        }
    }
}

/// The handle of a function type that is registered with an engine. Two
/// function types have the same handle exactly if they are the same type.
#[derive(Clone, Copy, Debug, PartialEq, Eq, Structural)]
pub struct VMSharedSignatureIndex(pub u32);

/// The function types that are registered with one engine.
#[derive(Debug)]
pub struct SignatureRegistry {
    index_to_data: Vec<FunctionType>,
}

impl View for SignatureRegistry {
    type V = Seq<FunctionTypeView>;

    closed spec fn view(&self) -> Seq<FunctionTypeView> {
        views(self.index_to_data@)
    }
}

impl SignatureRegistry {
    /// The entries are distinct, and each has an index of 32 bits.
    pub open spec fn wf(&self) -> bool {
        distinct(self@) && self@.len() <= u32::MAX
    }

    /// An empty registry.
    pub fn new() -> (registry: SignatureRegistry)
        ensures
            registry@ == Seq::<FunctionTypeView>::empty(),
            registry.wf(),
    {
        let registry = SignatureRegistry { index_to_data: Vec::new() };
        assert(registry@ =~= Seq::<FunctionTypeView>::empty());
        registry
    }

    /// The number of function types that are registered.
    pub fn len(&self) -> (len: usize)
        ensures
            len == self@.len(),
    {
        self.index_to_data.len()
    }

    /// The handle of `func_type`, if it is registered.
    pub fn find(&self, func_type: &FunctionType) -> (found: Option<VMSharedSignatureIndex>)
        requires
            self.wf(),
        ensures
            match found {
                Some(handle) => self@.contains(func_type@) && handle.0 == handle_of(
                    self@,
                    func_type@,
                ),
                None => !self@.contains(func_type@),
            },
    {
        let mut i: usize = 0;
        while i < self.index_to_data.len()
            invariant
                self.wf(),
                i <= self.index_to_data.len(),
                forall|k: int| 0 <= k < i ==> self@[k] != func_type@,
            decreases self.index_to_data.len() - i,
        {
            if self.index_to_data[i].same_as(func_type) {
                proof {
                    assert(self@[i as int] == func_type@);
                    lemma_handle_is_index(self@, i as int);
                }
                return Some(VMSharedSignatureIndex(i as u32));
            }
            i = i + 1;
        }
        None
    }

    /// Registers a function type and gives its handle: the handle that the
    /// same type was given before, or a new one.
    pub fn register(&mut self, func_type: &FunctionType) -> (handle: VMSharedSignatureIndex)
        requires
            old(self).wf(),
            old(self)@.contains(func_type@) || old(self)@.len() < u32::MAX,
        ensures
            final(self).wf(),
            final(self)@ == intern(old(self)@, func_type@),
            handle.0 == handle_of(old(self)@, func_type@),
    {
        proof {
            lemma_intern(self@, func_type@);
        }
        match self.find(func_type) {
            Some(handle) => handle,
            None => {
                let len = self.index_to_data.len();
                self.index_to_data.push(func_type.duplicate());
                assert(self@ =~= old(self)@.push(func_type@));
                VMSharedSignatureIndex(len as u32)
            },
        }
    }

    /// The function type that has the given handle.
    pub fn lookup(&self, handle: VMSharedSignatureIndex) -> (found: Option<&FunctionType>)
        ensures
            match found {
                Some(func_type) => handle.0 < self@.len() && func_type@ == self@[handle.0 as int],
                None => handle.0 >= self@.len(),
            },
    {
        let index = handle.0 as usize;
        if index < self.index_to_data.len() {
            Some(&self.index_to_data[index])
        } else {
            None
        }
    }
}

/// What is known of a function that a function reference points to: where
/// its code is, its type, and the context it runs in. The address and the
/// context are held as numbers.
#[derive(Clone, Copy, Debug, PartialEq, Eq, Structural)]
pub struct VMCallerCheckedAnyfunc {
    pub func_ptr: usize,
    pub type_index: VMSharedSignatureIndex,
    pub vmctx: usize,
}

/// The handle of function metadata that is registered with an engine. Two
/// function references are equal exactly if their handles are.
#[derive(Clone, Copy, Debug, PartialEq, Eq, Structural)]
pub struct VMFuncRef(pub usize);

/// The function metadata that is registered with one engine.
#[derive(Debug)]
pub struct FuncDataRegistry {
    entries: Vec<VMCallerCheckedAnyfunc>,
}

impl View for FuncDataRegistry {
    type V = Seq<VMCallerCheckedAnyfunc>;

    closed spec fn view(&self) -> Seq<VMCallerCheckedAnyfunc> {
        self.entries@
    }
}

impl FuncDataRegistry {
    /// The entries are distinct.
    pub open spec fn wf(&self) -> bool {
        distinct(self@)
    }

    /// An empty registry.
    pub fn new() -> (registry: FuncDataRegistry)
        ensures
            registry@ == Seq::<VMCallerCheckedAnyfunc>::empty(),
            registry.wf(),
    {
        FuncDataRegistry { entries: Vec::new() }
    }

    /// Registers function metadata and gives its handle: the handle that the
    /// same metadata was given before, or a new one.
    pub fn register(&mut self, func_data: VMCallerCheckedAnyfunc) -> (handle: VMFuncRef)
        requires
            old(self).wf(),
        ensures
            final(self).wf(),
            final(self)@ == intern(old(self)@, func_data),
            handle.0 == handle_of(old(self)@, func_data),
    {
        proof {
            lemma_intern(self@, func_data);
        }
        let mut i: usize = 0;
        while i < self.entries.len()
            invariant
                self.wf(),
                self@ == old(self)@,
                i <= self.entries.len(),
                forall|k: int| 0 <= k < i ==> self@[k] != func_data,
            decreases self.entries.len() - i,
        {
            if self.entries[i] == func_data {
                proof {
                    lemma_handle_is_index(self@, i as int);
                }
                return VMFuncRef(i);
            }
            i = i + 1;
        }
        let len = self.entries.len();
        self.entries.push(func_data);
        VMFuncRef(len)
    }

    /// The function metadata that has the given handle.
    pub fn lookup(&self, handle: VMFuncRef) -> (found: Option<VMCallerCheckedAnyfunc>)
        ensures
            found == if handle.0 < self@.len() {
                Some(self@[handle.0 as int])
            } else {
                None
            },
    {
        if handle.0 < self.entries.len() {
            Some(self.entries[handle.0])
        } else {
            None
        }
    }
}

} // verus!
