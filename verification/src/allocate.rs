//! Allocating the code of a module: sizing the code memory, getting it from
//! the pool, writing the function bodies and custom sections to it, and
//! resolving the entries of the functions, trampolines and sections.

use crate::code_memory::{CodeMemory, CodeMemoryView, LimitedMemoryPool, PoolError, PoolView};
use crate::error::{CodegenError, CompileError, ResourceError};
use crate::layout::{code_size, CodeLayout};
use crate::placement::{write_data_sections, write_executable_sections, write_function_bodies};
use crate::registry::VMSharedSignatureIndex;
use crate::section::{CustomSectionRef, CustomSectionView, FunctionBodyRef, FunctionBodyView};
use crate::types::{views, SignatureIndex};
use crate::vm::{
    FunctionBodyPtr, SectionBodyPtr, VMLocalFunction, VMLocalFunctionView, VMTrampoline,
};
use vstd::prelude::*;

verus! {

/// The code of a module in code memory that is not yet published, with the
/// resolved entries of its parts.
#[derive(Debug)]
pub struct Allocation {
    /// The entry of each function that the module defines.
    pub functions: Vec<VMLocalFunction>,
    /// The call trampoline of each function type.
    pub trampolines: Vec<VMTrampoline>,
    /// The dynamic trampoline of each imported function.
    pub dynamic_trampolines: Vec<FunctionBodyPtr>,
    /// The place of each custom section.
    pub custom_sections: Vec<SectionBodyPtr>,
    /// The memory that holds the code.
    pub code_memory: CodeMemory,
}

/// What is to be allocated, and from what.
pub struct AllocationRequest {
    /// The bodies of the functions that the module defines.
    pub local_functions: Seq<FunctionBodyView>,
    /// One call trampoline for each function type.
    pub call_trampolines: Seq<FunctionBodyView>,
    /// One dynamic trampoline for each imported function.
    pub dynamic_trampolines: Seq<FunctionBodyView>,
    /// The custom sections.
    pub custom_sections: Seq<CustomSectionView>,
    /// For each function that the module defines, the index of its type in
    /// the module and the handle of that type in the engine.
    pub function_signature: Seq<(SignatureIndex, VMSharedSignatureIndex)>,
    /// The pool that the memory comes from.
    pub pool: PoolView,
}

/// The index of the first of the first `n` bodies that is longer than the 32
/// bits of a resolved entry can tell.
pub open spec fn first_too_large(bodies: Seq<FunctionBodyView>, n: int) -> Option<int>
    decreases n,
{
    if n <= 0 {
        None
    } else {
        match first_too_large(bodies, n - 1) {
            Some(index) => Some(index),
            None => if bodies[n - 1].body.len() > u32::MAX {
                Some(n - 1)
            } else {
                None
            },
        }
    }
}

/// Without a body that is too large among the first `n`, each of them fits
/// in 32 bits.
pub proof fn lemma_none_too_large(bodies: Seq<FunctionBodyView>, n: int, i: int)
    requires
        first_too_large(bodies, n) is None,
        0 <= i < n,
    ensures
        bodies[i].body.len() <= u32::MAX,
    decreases n,
{
    if i < n - 1 {
        lemma_none_too_large(bodies, n - 1, i);
    }
}

impl AllocationRequest {
    /// Where the parts go: call trampolines first, then the module's own
    /// functions, then the dynamic trampolines, then the custom sections.
    pub open spec fn layout(self) -> CodeLayout {
        CodeLayout {
            function_bodies: self.call_trampolines + self.local_functions
                + self.dynamic_trampolines,
            custom_sections: self.custom_sections,
            page_size: self.pool.page_size,
        }
    }

    /// Each function that the module defines has a type, and each type a
    /// call trampoline.
    pub open spec fn consistent(self) -> bool {
        &&& self.function_signature.len() == self.local_functions.len()
        &&& forall|i: int|
            0 <= i < self.function_signature.len() ==> (#[trigger] self.function_signature[i]).0.0
                < self.call_trampolines.len()
    }

    /// Why the allocation fails, if it does: the code does not fit in the
    /// address space; or the pool has fewer bytes left than the code takes;
    /// or the request is inconsistent; or a function body is too long for a
    /// resolved entry. Whenever the code takes more than the pool has left,
    /// the failure is that.
    pub open spec fn error(self) -> Option<CompileError> {
        if self.layout().total_size() > usize::MAX {
            Some(CompileError::Resource(ResourceError::CodeTooLarge))
        } else if self.layout().total_size() > self.pool.available {
            Some(
                CompileError::Resource(
                    ResourceError::PoolExhausted {
                        requested: self.layout().total_size() as usize,
                        available: self.pool.available as usize,
                    },
                ),
            )
        } else if !self.consistent() {
            Some(CompileError::CorruptExecutable)
        } else {
            match first_too_large(self.local_functions, self.local_functions.len() as int) {
                Some(index) => Some(
                    CompileError::Codegen(
                        CodegenError::FunctionTooLarge {
                            index: index as usize,
                            length: self.local_functions[index].body.len() as usize,
                        },
                    ),
                ),
                None => None,
            }
        }
    }

    /// The offset of the call trampoline of the `t`-th function type.
    pub open spec fn trampoline(self, t: int) -> int {
        self.layout().body_offset(t)
    }

    /// The resolved entry of the `i`-th function that the module defines.
    pub open spec fn function(self, i: int) -> VMLocalFunctionView {
        VMLocalFunctionView {
            body: self.layout().body_offset(self.call_trampolines.len() + i),
            length: self.local_functions[i].body.len() as u32,
            signature: self.function_signature[i].1,
            trampoline: self.trampoline(self.function_signature[i].0.0 as int),
        }
    }

    /// The offset of the `d`-th dynamic trampoline.
    pub open spec fn dynamic_trampoline(self, d: int) -> int {
        self.layout().body_offset(self.call_trampolines.len() + self.local_functions.len() + d)
    }

    /// The code memory with every part written and nothing published.
    pub open spec fn memory(self) -> CodeMemoryView {
        CodeMemoryView {
            bytes: self.layout().image(),
            position: self.layout().written_end(),
            executable_end: self.layout().executable_end(),
            published: false,
        }
    }

    /// The allocation that the request gives where it does not fail.
    pub open spec fn fulfilled_by(self, allocation: Allocation) -> bool {
        &&& views(allocation.trampolines@) == Seq::new(
            self.call_trampolines.len(),
            |t: int| self.trampoline(t),
        )
        &&& views(allocation.functions@) == Seq::new(
            self.local_functions.len(),
            |i: int| self.function(i),
        )
        &&& views(allocation.dynamic_trampolines@) == Seq::new(
            self.dynamic_trampolines.len(),
            |d: int| self.dynamic_trampoline(d),
        )
        &&& views(allocation.custom_sections@) == Seq::new(
            self.custom_sections.len(),
            |s: int| self.layout().section_offset(s),
        )
        &&& allocation.code_memory@ == self.memory()
    }
}

fn append<'a>(all: &mut Vec<FunctionBodyRef<'a>>, more: &[FunctionBodyRef<'a>])
    ensures
        views(final(all)@) == views(old(all)@) + views(more@),
{
    let ghost before = all@;
    let mut i: usize = 0;
    while i < more.len()
        invariant
            i <= more.len(),
            all@.len() == before.len() + i,
            forall|k: int| 0 <= k < before.len() ==> all@[k] == before[k],
            forall|k: int| 0 <= k < i ==> all@[before.len() + k] == more@[k],
        decreases more.len() - i,
    {
        all.push(more[i]);
        i = i + 1;
    }
    assert(views(all@) =~= views(before) + views(more@));
}

fn signatures_consistent(
    function_signature: &[(SignatureIndex, VMSharedSignatureIndex)],
    local_functions: usize,
    call_trampolines: usize,
) -> (yes: bool)
    ensures
        yes == (function_signature@.len() == local_functions && forall|i: int|
            0 <= i < function_signature@.len() ==> (#[trigger] function_signature@[i]).0.0
                < call_trampolines),
{
    if function_signature.len() != local_functions {
        return false;
    }
    let mut i: usize = 0;
    while i < function_signature.len()
        invariant
            i <= function_signature.len(),
            forall|k: int|
                0 <= k < i ==> (#[trigger] function_signature@[k]).0.0 < call_trampolines,
        decreases function_signature.len() - i,
    {
        if function_signature[i].0.0 as usize >= call_trampolines {
            assert(!((#[trigger] function_signature@[i as int]).0.0 < call_trampolines));
            return false;
        }
        i = i + 1;
    }
    true
}

fn find_too_large(local_functions: &[FunctionBodyRef<'_>]) -> (found: Option<usize>)
    ensures
        match found {
            Some(index) => first_too_large(views(local_functions@), local_functions.len() as int)
                == Some(index as int) && index < local_functions.len(),
            None => first_too_large(views(local_functions@), local_functions.len() as int)
                is None,
        },
{
    let ghost bodies = views(local_functions@);
    let mut i: usize = 0;
    while i < local_functions.len()
        invariant
            i <= local_functions.len(),
            bodies == views(local_functions@),
            first_too_large(bodies, i as int) is None,
        decreases local_functions.len() - i,
    {
        if local_functions[i].body.len() > u32::MAX as usize {
            proof {
                lemma_first_too_large_stays(bodies, i + 1, local_functions.len() as int);
            }
            return Some(i);
        }
        i = i + 1;
    }
    None
}

proof fn lemma_first_too_large_stays(bodies: Seq<FunctionBodyView>, i: int, n: int)
    requires
        first_too_large(bodies, i) is Some,
        i <= n,
    ensures
        first_too_large(bodies, n) == first_too_large(bodies, i),
    decreases n - i,
{
    if i < n {
        lemma_first_too_large_stays(bodies, i, n - 1);
    }
}

/// Allocates the code of a module from `pool`: sizes the code memory, gets
/// it, writes the parts to it and resolves their entries. Where it fails the
/// pool keeps what it had.
pub(crate) fn allocate<'a>(
    pool: &mut LimitedMemoryPool,
    local_functions: &[FunctionBodyRef<'a>],
    call_trampolines: &[FunctionBodyRef<'a>],
    dynamic_trampolines: &[FunctionBodyRef<'a>],
    custom_sections: &[CustomSectionRef<'a>],
    function_signature: &[(SignatureIndex, VMSharedSignatureIndex)],
) -> (result: Result<Allocation, CompileError>)
    requires
        old(pool)@.wf(),
    ensures
        final(pool)@.wf(),
        ({
            let request = AllocationRequest {
                local_functions: views(local_functions@),
                call_trampolines: views(call_trampolines@),
                dynamic_trampolines: views(dynamic_trampolines@),
                custom_sections: views(custom_sections@),
                function_signature: function_signature@,
                pool: old(pool)@,
            };
            match result {
                Ok(allocation) => {
                    &&& request.error() is None
                    &&& request.fulfilled_by(allocation)
                    &&& final(pool)@ == (PoolView {
                        available: old(pool)@.available - request.layout().total_size(),
                        ..old(pool)@
                    })
                },
                Err(error) => request.error() == Some(error) && final(pool)@ == old(pool)@,
            }
        }),
{
    let ghost request = AllocationRequest {
        local_functions: views(local_functions@),
        call_trampolines: views(call_trampolines@),
        dynamic_trampolines: views(dynamic_trampolines@),
        custom_sections: views(custom_sections@),
        function_signature: function_signature@,
        pool: pool@,
    };
    let ghost layout = request.layout();
    let function_count = local_functions.len();
    let call_trampoline_count = call_trampolines.len();
    let mut function_bodies: Vec<FunctionBodyRef<'a>> = Vec::new();
    append(&mut function_bodies, call_trampolines);
    append(&mut function_bodies, local_functions);
    append(&mut function_bodies, dynamic_trampolines);
    assert(views(function_bodies@) =~= layout.function_bodies);

    let page_size = pool.page_size();
    let total_len = match code_size(function_bodies.as_slice(), custom_sections, page_size) {
        Some(size) => size,
        None => {
            return Err(CompileError::Resource(ResourceError::CodeTooLarge));
        },
    };
    let available = pool.available();
    if total_len > available {
        return Err(
            CompileError::Resource(
                ResourceError::PoolExhausted { requested: total_len, available },
            ),
        );
    }
    if !signatures_consistent(function_signature, function_count, call_trampoline_count) {
        return Err(CompileError::CorruptExecutable);
    }
    if let Some(index) = find_too_large(local_functions) {
        return Err(
            CompileError::Codegen(
                CodegenError::FunctionTooLarge {
                    index,
                    length: local_functions[index].body.len(),
                },
            ),
        );
    }
    // The pool has the bytes, and the memory has room for every part: none of
    // the failures below is ever met, and each is handed on all the same.
    let mut code_memory = match pool.get(total_len) {
        Ok(memory) => memory,
        Err(PoolError::Exhausted { requested, available }) => {
            return Err(
                CompileError::Resource(ResourceError::PoolExhausted { requested, available }),
            );
        },
        Err(_) => {
            return Err(CompileError::Resource(ResourceError::CodeTooLarge));
        },
    };
    let allocated_functions = match write_function_bodies(
        &mut code_memory,
        function_bodies.as_slice(),
        Ghost(layout),
    ) {
        Ok(offsets) => offsets,
        Err(_) => {
            return Err(CompileError::Resource(ResourceError::CodeTooLarge));
        },
    };
    let mut allocated_sections: Vec<usize> = vec![0usize; custom_sections.len()];
    match write_executable_sections(
        &mut code_memory,
        custom_sections,
        &mut allocated_sections,
        Ghost(layout),
    ) {
        Ok(()) => {},
        Err(_) => {
            return Err(CompileError::Resource(ResourceError::CodeTooLarge));
        },
    }
    match write_data_sections(
        &mut code_memory,
        custom_sections,
        &mut allocated_sections,
        page_size,
        Ghost(layout),
    ) {
        Ok(()) => {},
        Err(_) => {
            return Err(CompileError::Resource(ResourceError::CodeTooLarge));
        },
    }
    assert(code_memory@ == request.memory());

    let allocated_count = allocated_functions.len();
    let mut trampolines: Vec<VMTrampoline> = Vec::new();
    let mut t: usize = 0;
    while t < call_trampoline_count
        invariant
            t <= call_trampoline_count,
            call_trampoline_count == call_trampolines.len(),
            call_trampoline_count <= allocated_functions@.len(),
            forall|k: int|
                0 <= k < allocated_functions@.len() ==> (#[trigger] allocated_functions@[k])
                    == layout.body_offset(k),
            layout == request.layout(),
            trampolines@.len() == t,
            forall|k: int| 0 <= k < t ==> (#[trigger] trampolines@[k])@ == request.trampoline(k),
        decreases call_trampoline_count - t,
    {
        trampolines.push(VMTrampoline::new(allocated_functions[t]));
        t = t + 1;
    }
    let mut functions: Vec<VMLocalFunction> = Vec::new();
    let mut i: usize = 0;
    while i < function_count
        invariant
            i <= function_count,
            function_count == local_functions.len(),
            call_trampoline_count == call_trampolines.len(),
            call_trampoline_count + function_count <= allocated_functions@.len(),
            allocated_functions@.len() == allocated_count,
            forall|k: int|
                0 <= k < allocated_functions@.len() ==> (#[trigger] allocated_functions@[k])
                    == layout.body_offset(k),
            layout == request.layout(),
            request.consistent(),
            request.function_signature == function_signature@,
            request.local_functions == views(local_functions@),
            request.call_trampolines.len() == call_trampoline_count,
            first_too_large(request.local_functions, function_count as int) is None,
            trampolines@.len() == call_trampoline_count,
            forall|k: int|
                0 <= k < call_trampoline_count ==> (#[trigger] trampolines@[k])@
                    == request.trampoline(k),
            functions@.len() == i,
            forall|k: int| 0 <= k < i ==> (#[trigger] functions@[k])@ == request.function(k),
        decreases function_count - i,
    {
        let (sig_idx, sig) = function_signature[i];
        proof {
            lemma_none_too_large(request.local_functions, function_count as int, i as int);
            assert((#[trigger] function_signature@[i as int]).0.0 < call_trampoline_count);
        }
        let length = local_functions[i].body.len();
        functions.push(
            VMLocalFunction {
                body: FunctionBodyPtr::new(allocated_functions[call_trampoline_count + i]),
                length: length as u32,
                signature: sig,
                trampoline: trampolines[sig_idx.0 as usize],
            },
        );
        i = i + 1;
    }
    let first_dynamic = call_trampoline_count + function_count;
    let dynamic_count = dynamic_trampolines.len();
    let mut dynamic: Vec<FunctionBodyPtr> = Vec::new();
    let mut d: usize = 0;
    while d < dynamic_count
        invariant
            d <= dynamic_count,
            dynamic_count == dynamic_trampolines.len(),
            first_dynamic == call_trampolines.len() + local_functions.len(),
            first_dynamic + dynamic_count == allocated_functions@.len(),
            allocated_functions@.len() == allocated_count,
            forall|k: int|
                0 <= k < allocated_functions@.len() ==> (#[trigger] allocated_functions@[k])
                    == layout.body_offset(k),
            layout == request.layout(),
            request.call_trampolines.len() == call_trampolines.len(),
            request.local_functions.len() == local_functions.len(),
            dynamic@.len() == d,
            forall|k: int|
                0 <= k < d ==> (#[trigger] dynamic@[k])@ == request.dynamic_trampoline(k),
        decreases dynamic_count - d,
    {
        dynamic.push(FunctionBodyPtr::new(allocated_functions[first_dynamic + d]));
        d = d + 1;
    }
    let section_count = custom_sections.len();
    let mut sections: Vec<SectionBodyPtr> = Vec::new();
    let mut s: usize = 0;
    while s < section_count
        invariant
            s <= section_count,
            section_count == custom_sections.len(),
            allocated_sections@.len() == section_count,
            forall|k: int|
                0 <= k < section_count ==> (#[trigger] allocated_sections@[k])
                    == layout.section_offset(k),
            sections@.len() == s,
            forall|k: int| 0 <= k < s ==> (#[trigger] sections@[k])@ == layout.section_offset(k),
        decreases section_count - s,
    {
        sections.push(SectionBodyPtr::new(allocated_sections[s]));
        s = s + 1;
    }
    let allocation = Allocation {
        functions,
        trampolines,
        dynamic_trampolines: dynamic,
        custom_sections: sections,
        code_memory,
    };
    proof {
        assert(views(allocation.trampolines@) =~= Seq::new(
            request.call_trampolines.len(),
            |t: int| request.trampoline(t),
        ));
        assert(views(allocation.functions@) =~= Seq::new(
            request.local_functions.len(),
            |i: int| request.function(i),
        ));
        assert(views(allocation.dynamic_trampolines@) =~= Seq::new(
            request.dynamic_trampolines.len(),
            |d: int| request.dynamic_trampoline(d),
        ));
        assert(views(allocation.custom_sections@) =~= Seq::new(
            request.custom_sections.len(),
            |s: int| request.layout().section_offset(s),
        ));
    }
    Ok(allocation)
}

} // verus!
