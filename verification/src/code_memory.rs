//! Code memory: a region that is written once, front to back, and then
//! published, and the pool that hands such regions out under a budget.

use crate::align::{
    checked_round_up, is_power_of_two, is_power_of_two_exec, lemma_power_of_two_positive,
    lemma_round_up_bounds, round_up_spec,
};
use crate::layout::{is_page_size, place, DATA_SECTION_ALIGNMENT};
use vstd::prelude::*;

verus! {

/// `rustix::param::page_size` gives the page size of this process as the
/// operating system reports it. Nothing is claimed of the result: it depends
/// on the machine.
pub assume_specification[ rustix::param::page_size ]() -> (size: usize);

/// Why a write to code memory failed.
#[derive(Clone, Copy, Debug, PartialEq, Eq, Structural)]
pub enum CodeMemoryError {
    /// The memory is published: it can no longer be written.
    Published,
    /// Executable bytes may not follow data bytes.
    Interleaved,
    /// The bytes do not fit in what is left of the region, or lie outside it.
    Overrun,
}

/// A region of memory for the code and read-only data of one module. It is
/// written front to back, executable bytes first, and then published; after
/// that it does not change.
#[derive(Debug)]
pub struct CodeMemory {
    bytes: Vec<u8>,
    position: usize,
    executable_end: usize,
    published: bool,
}

/// What a `CodeMemory` is in contracts.
pub struct CodeMemoryView {
    /// The contents of the region; its length is the region's size.
    pub bytes: Seq<u8>,
    /// Where the next write starts, before alignment.
    pub position: int,
    /// Where the executable bytes end.
    pub executable_end: int,
    /// Whether the region is published.
    pub published: bool,
}

impl CodeMemoryView {
    /// The executable bytes end within what is written, and that within the
    /// region.
    pub open spec fn wf(self) -> bool {
        0 <= self.executable_end <= self.position <= self.bytes.len()
    }

    /// A region of `size` zero bytes, with nothing written.
    pub open spec fn fresh(size: int) -> CodeMemoryView {
        CodeMemoryView {
            bytes: Seq::new(size as nat, |p: int| 0u8),
            position: 0,
            executable_end: 0,
            published: false,
        }
    }
}

/// `bytes` after a write of `input` at `offset` that started from `position`:
/// the padding up to `offset` is zero, then comes `input`.
pub open spec fn written(bytes: Seq<u8>, position: int, offset: int, input: Seq<u8>) -> Seq<u8> {
    Seq::new(
        bytes.len(),
        |p: int|
            if position <= p < offset {
                0u8
            } else if offset <= p < offset + input.len() {
                input[p - offset]
            } else {
                bytes[p]
            },
    )
}

impl View for CodeMemory {
    type V = CodeMemoryView;

    closed spec fn view(&self) -> CodeMemoryView {
        CodeMemoryView {
            bytes: self.bytes@,
            position: self.position as int,
            executable_end: self.executable_end as int,
            published: self.published,
        }
    }
}

impl CodeMemory {
    /// A region of `size` zero bytes.
    pub(crate) fn create(size: usize) -> (memory: CodeMemory)
        requires
            size <= isize::MAX,
        ensures
            memory@ == CodeMemoryView::fresh(size as int),
    {
        let bytes = vec![0u8; size];
        assert(bytes@ =~= Seq::new(size as nat, |p: int| 0u8));
        CodeMemory { bytes, position: 0, executable_end: 0, published: false }
    }

    /// The size of the region.
    pub fn size(&self) -> (size: usize)
        ensures
            size == self@.bytes.len(),
    {
        self.bytes.len()
    }

    /// Where the next write starts, before alignment.
    pub fn position(&self) -> (position: usize)
        ensures
            position == self@.position,
    {
        self.position
    }

    /// Where the executable bytes end.
    pub fn executable_end(&self) -> (end: usize)
        ensures
            end == self@.executable_end,
    {
        self.executable_end
    }

    /// Whether the region is published.
    pub fn is_published(&self) -> (published: bool)
        ensures
            published == self@.published,
    {
        self.published
    }

    /// The contents of the region.
    pub fn as_slice(&self) -> (bytes: &[u8])
        ensures
            bytes@ == self@.bytes,
    {
        self.bytes.as_slice()
    }

    /// Writes `input` at the next multiple of `alignment`, as executable
    /// bytes, and gives the offset of its first byte. The padding before it is
    /// zeroed. Fails, and changes nothing, where the region is published,
    /// where data bytes were written before, or where `input` does not fit.
    pub fn write_executable(&mut self, alignment: usize, input: &[u8]) -> (result: Result<
        usize,
        CodeMemoryError,
    >)
        requires
            old(self)@.wf(),
            is_power_of_two(alignment as int),
        ensures
            final(self)@.wf(),
            match result {
                Ok(offset) => {
                    &&& !old(self)@.published
                    &&& old(self)@.position == old(self)@.executable_end
                    &&& offset == round_up_spec(old(self)@.position, alignment as int)
                    &&& offset + input@.len() <= old(self)@.bytes.len()
                    &&& final(self)@ == (CodeMemoryView {
                        bytes: written(old(self)@.bytes, old(self)@.position, offset as int, input@),
                        position: offset + input@.len(),
                        executable_end: offset + input@.len(),
                        published: false,
                    })
                },
                Err(error) => {
                    &&& final(self)@ == old(self)@
                    &&& error == if old(self)@.published {
                        CodeMemoryError::Published
                    } else if old(self)@.position != old(self)@.executable_end {
                        CodeMemoryError::Interleaved
                    } else {
                        CodeMemoryError::Overrun
                    }
                    &&& old(self)@.published || old(self)@.position != old(self)@.executable_end
                        || round_up_spec(old(self)@.position, alignment as int) + input@.len()
                        > old(self)@.bytes.len()
                },
            },
    {
        if self.published {
            return Err(CodeMemoryError::Published);
        }
        if self.position != self.executable_end {
            return Err(CodeMemoryError::Interleaved);
        }
        let offset = match self.write_inner(alignment, input) {
            Ok(offset) => offset,
            Err(error) => {
                return Err(error);
            },
        };
        self.executable_end = self.position;
        Ok(offset)
    }

    /// Writes `input` at the next multiple of `alignment`, as data bytes, and
    /// gives the offset of its first byte. The padding before it is zeroed.
    /// Fails, and changes nothing, where the region is published or where
    /// `input` does not fit.
    pub fn write_aligned(&mut self, alignment: usize, input: &[u8]) -> (result: Result<
        usize,
        CodeMemoryError,
    >)
        requires
            old(self)@.wf(),
            is_power_of_two(alignment as int),
        ensures
            final(self)@.wf(),
            match result {
                Ok(offset) => {
                    &&& !old(self)@.published
                    &&& offset == round_up_spec(old(self)@.position, alignment as int)
                    &&& offset + input@.len() <= old(self)@.bytes.len()
                    &&& final(self)@ == (CodeMemoryView {
                        bytes: written(old(self)@.bytes, old(self)@.position, offset as int, input@),
                        position: offset + input@.len(),
                        executable_end: old(self)@.executable_end,
                        published: false,
                    })
                },
                Err(error) => {
                    &&& final(self)@ == old(self)@
                    &&& error == if old(self)@.published {
                        CodeMemoryError::Published
                    } else {
                        CodeMemoryError::Overrun
                    }
                    &&& old(self)@.published || round_up_spec(
                        old(self)@.position,
                        alignment as int,
                    ) + input@.len() > old(self)@.bytes.len()
                },
            },
    {
        if self.published {
            return Err(CodeMemoryError::Published);
        }
        proof {
            lemma_power_of_two_positive(alignment as int);
            lemma_round_up_bounds(self.position as int, alignment as int);
        }
        self.write_inner(alignment, input)
    }

    fn write_inner(&mut self, alignment: usize, input: &[u8]) -> (result: Result<
        usize,
        CodeMemoryError,
    >)
        requires
            old(self)@.wf(),
            !old(self)@.published,
            is_power_of_two(alignment as int),
        ensures
            match result {
                Ok(offset) => {
                    &&& offset == round_up_spec(old(self)@.position, alignment as int)
                    &&& offset + input@.len() <= old(self)@.bytes.len()
                    &&& final(self)@ == (CodeMemoryView {
                        bytes: written(old(self)@.bytes, old(self)@.position, offset as int, input@),
                        position: offset + input@.len(),
                        executable_end: old(self)@.executable_end,
                        published: false,
                    })
                },
                Err(error) => {
                    &&& final(self)@ == old(self)@
                    &&& error == CodeMemoryError::Overrun
                    &&& round_up_spec(old(self)@.position, alignment as int) + input@.len() > old(
                        self,
                    )@.bytes.len()
                },
            },
    {
        proof {
            lemma_power_of_two_positive(alignment as int);
            lemma_round_up_bounds(self.position as int, alignment as int);
        }
        let size = self.bytes.len();
        let offset = match checked_round_up(self.position, alignment) {
            Some(offset) => offset,
            None => {
                return Err(CodeMemoryError::Overrun);
            },
        };
        if offset > size || input.len() > size - offset {
            return Err(CodeMemoryError::Overrun);
        }
        let ghost before = self.bytes@;
        let start = self.position;
        let mut p: usize = start;
        while p < offset
            invariant
                start <= p <= offset <= size,
                self.bytes@.len() == size,
                self.position == old(self).position,
                self.executable_end == old(self).executable_end,
                self.published == old(self).published,
                forall|q: int| start <= q < p ==> self.bytes@[q] == 0u8,
                forall|q: int| 0 <= q < size && !(start <= q < p) ==> self.bytes@[q] == before[q],
            decreases offset - p,
        {
            self.bytes.set(p, 0u8);
            p = p + 1;
        }
        let mut k: usize = 0;
        while k < input.len()
            invariant
                k <= input.len(),
                start <= offset,
                offset + input.len() <= size,
                self.bytes@.len() == size,
                self.position == old(self).position,
                self.executable_end == old(self).executable_end,
                self.published == old(self).published,
                forall|q: int| start <= q < offset ==> self.bytes@[q] == 0u8,
                forall|q: int| offset <= q < offset + k ==> self.bytes@[q] == input@[q - offset],
                forall|q: int|
                    0 <= q < size && !(start <= q < offset + k) ==> self.bytes@[q] == before[q],
            decreases input.len() - k,
        {
            self.bytes.set(offset + k, input[k]);
            k = k + 1;
        }
        self.position = offset + input.len();
        assert(self.bytes@ =~= written(before, start as int, offset as int, input@));
        Ok(offset)
    }

    /// Overwrites the bytes at `offset` with `input`: a patch to what was
    /// written. Fails, and changes nothing, where the region is published or
    /// where the patch does not lie within the region.
    pub fn patch(&mut self, offset: usize, input: &[u8]) -> (result: Result<(), CodeMemoryError>)
        ensures
            match result {
                Ok(()) => {
                    &&& !old(self)@.published
                    &&& offset + input@.len() <= old(self)@.bytes.len()
                    &&& final(self)@ == (CodeMemoryView {
                        bytes: place(old(self)@.bytes, offset as int, input@),
                        ..old(self)@
                    })
                },
                Err(error) => {
                    &&& final(self)@ == old(self)@
                    &&& error == if old(self)@.published {
                        CodeMemoryError::Published
                    } else {
                        CodeMemoryError::Overrun
                    }
                    &&& old(self)@.published || offset + input@.len() > old(self)@.bytes.len()
                },
            },
    {
        if self.published {
            return Err(CodeMemoryError::Published);
        }
        let size = self.bytes.len();
        if offset > size || input.len() > size - offset {
            return Err(CodeMemoryError::Overrun);
        }
        let ghost before = self.bytes@;
        let mut k: usize = 0;
        while k < input.len()
            invariant
                k <= input.len(),
                offset + input.len() <= size,
                self.bytes@.len() == size,
                self.position == old(self).position,
                self.executable_end == old(self).executable_end,
                self.published == old(self).published,
                forall|q: int| offset <= q < offset + k ==> self.bytes@[q] == input@[q - offset],
                forall|q: int|
                    0 <= q < size && !(offset <= q < offset + k) ==> self.bytes@[q] == before[q],
            decreases input.len() - k,
        {
            self.bytes.set(offset + k, input[k]);
            k = k + 1;
        }
        assert(self.bytes@ =~= place(before, offset as int, input@));
        Ok(())
    }

    /// Publishes the region: from now on it cannot be written. Fails where
    /// the region is published already.
    pub fn publish(&mut self) -> (result: Result<(), CodeMemoryError>)
        ensures
            final(self)@ == (CodeMemoryView { published: true, ..old(self)@ }),
            result is Ok <==> !old(self)@.published,
            result is Err ==> result == Err::<(), CodeMemoryError>(CodeMemoryError::Published),
    {
        if self.published {
            return Err(CodeMemoryError::Published);
        }
        self.published = true;
        Ok(())
    }
}

/// Why a memory pool could not be made or could not hand out memory.
#[derive(Clone, Copy, Debug, PartialEq, Eq, Structural)]
pub enum PoolError {
    /// The pool cannot hand out `requested` bytes: only `available` are left
    /// of its budget.
    Exhausted { requested: usize, available: usize },
    /// Code cannot be laid out in pages of this size.
    UnsupportedPageSize(usize),
    /// No region can have as many bytes as this budget.
    UnsupportedBudget(usize),
}

/// A pool that hands out code memory under a fixed budget of bytes. A request
/// for more than is left fails at once: the pool neither grows nor waits.
#[derive(Debug)]
pub struct LimitedMemoryPool {
    budget: usize,
    available: usize,
    page_size: usize,
}

/// What a `LimitedMemoryPool` is in contracts.
pub struct PoolView {
    /// The bytes that the pool may have handed out at any one time.
    pub budget: int,
    /// The bytes of the budget that are not handed out.
    pub available: int,
    /// The page size of the memory.
    pub page_size: int,
}

impl PoolView {
    /// No more is available than the budget, the budget is no more than a
    /// region can have, and code can be laid out in the pool's pages.
    pub open spec fn wf(self) -> bool {
        0 <= self.available <= self.budget <= isize::MAX && is_page_size(self.page_size)
    }
}

impl View for LimitedMemoryPool {
    type V = PoolView;

    closed spec fn view(&self) -> PoolView {
        PoolView {
            budget: self.budget as int,
            available: self.available as int,
            page_size: self.page_size as int,
        }
    }
}

/// Tells whether code can be laid out in pages of `page_size` bytes.
pub fn is_page_size_exec(page_size: usize) -> (yes: bool)
    ensures
        yes == is_page_size(page_size as int),
{
    is_power_of_two_exec(page_size) && page_size >= DATA_SECTION_ALIGNMENT
}

impl LimitedMemoryPool {
    /// A pool with a budget of `budget` bytes of memory in pages of the size
    /// that the host reports. Fails where code cannot be laid out in pages of
    /// that size, or where the budget is more than a region can have.
    ///
    /// The page size is asked of `rustix::param::page_size`. On Linux that
    /// call panics where the process cannot read its auxiliary vector; like
    /// running out of memory, this depends on the environment and on no
    /// argument.
    pub fn new(budget: usize) -> (result: Result<LimitedMemoryPool, PoolError>)
        ensures
            match result {
                Ok(pool) => pool@.wf() && pool@.budget == budget && pool@.available == budget,
                Err(error) => (exists|page_size: usize|
                    error == PoolError::UnsupportedPageSize(page_size) && !is_page_size(
                        page_size as int,
                    )) || (error == PoolError::UnsupportedBudget(budget) && budget > isize::MAX),
            },
    {
        let page_size = rustix::param::page_size();
        LimitedMemoryPool::with_page_size(budget, page_size)
    }

    /// A pool with a budget of `budget` bytes of memory in pages of
    /// `page_size` bytes. Fails where code cannot be laid out in pages of that
    /// size, because it is no power of two or less than the data alignment,
    /// or where the budget is more than a region can have.
    pub fn with_page_size(budget: usize, page_size: usize) -> (result: Result<
        LimitedMemoryPool,
        PoolError,
    >)
        ensures
            match result {
                Ok(pool) => {
                    &&& is_page_size(page_size as int)
                    &&& budget <= isize::MAX
                    &&& pool@ == (PoolView {
                        budget: budget as int,
                        available: budget as int,
                        page_size: page_size as int,
                    })
                },
                Err(error) => error == if !is_page_size(page_size as int) {
                    PoolError::UnsupportedPageSize(page_size)
                } else {
                    PoolError::UnsupportedBudget(budget)
                } && (!is_page_size(page_size as int) || budget > isize::MAX),
            },
    {
        if !is_page_size_exec(page_size) {
            Err(PoolError::UnsupportedPageSize(page_size))
        } else if budget > isize::MAX as usize {
            Err(PoolError::UnsupportedBudget(budget))
        } else {
            Ok(LimitedMemoryPool { budget, available: budget, page_size })
        }
    }

    /// The bytes that the pool may have handed out at any one time.
    pub fn budget(&self) -> (budget: usize)
        ensures
            budget == self@.budget,
    {
        self.budget
    }

    /// The bytes of the budget that are not handed out.
    pub fn available(&self) -> (available: usize)
        ensures
            available == self@.available,
    {
        self.available
    }

    /// The page size of the pool's memory.
    pub fn page_size(&self) -> (page_size: usize)
        ensures
            page_size == self@.page_size,
    {
        self.page_size
    }

    /// Hands out a region of exactly `size` zero bytes. Fails, handing out
    /// nothing and keeping what is available, where `size` is more than is
    /// available, and so where it is more than the budget.
    pub fn get(&mut self, size: usize) -> (result: Result<CodeMemory, PoolError>)
        requires
            old(self)@.wf(),
        ensures
            final(self)@.wf(),
            size > old(self)@.budget ==> result is Err,
            match result {
                Ok(memory) => {
                    &&& size <= old(self)@.available
                    &&& memory@ == CodeMemoryView::fresh(size as int)
                    &&& final(self)@ == (PoolView {
                        available: old(self)@.available - size,
                        ..old(self)@
                    })
                },
                Err(error) => {
                    &&& size > old(self)@.available
                    &&& error == (PoolError::Exhausted {
                        requested: size,
                        available: old(self)@.available as usize,
                    })
                    &&& final(self)@ == old(self)@
                },
            },
    {
        if size > self.available {
            return Err(PoolError::Exhausted { requested: size, available: self.available });
        }
        self.available = self.available - size;
        Ok(CodeMemory::create(size))
    }

    /// Takes a region back: its bytes are available again. A region larger
    /// than what is handed out is not of this pool; it is dropped and nothing
    /// changes.
    pub fn release(&mut self, memory: CodeMemory) -> (accepted: bool)
        requires
            old(self)@.wf(),
        ensures
            final(self)@.wf(),
            accepted == (memory@.bytes.len() <= old(self)@.budget - old(self)@.available),
            final(self)@ == (PoolView {
                available: if accepted {
                    old(self)@.available + memory@.bytes.len()
                } else {
                    old(self)@.available
                },
                ..old(self)@
            }),
    {
        let size = memory.size();
        if size > self.budget - self.available {
            return false;
        }
        self.available = self.available + size;
        true
    }
}

} // verus!
