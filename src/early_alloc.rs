//! A bump allocator for early boot, before the real byte and page
//! allocators work. One memory range serves both: bytes are handed out
//! forward from the start, pages backward from the end.
//!
//! ```text
//! [ bytes-used | avail-area | pages-used ]
//! |            | -->    <-- |            |
//! start       b_pos        p_pos       end
//! ```
//!
//! The byte area counts its allocations and is freed as a whole when the
//! count drops to zero; pages are never freed.
use vstd::prelude::*;

verus! {

/// Why an allocation failed.
#[derive(Clone, Copy, Debug, PartialEq, Eq, Structural)]
pub enum AllocError {
    /// The request does not fit in what is left.
    NoMemory,
}

/// The state of an early allocator.
pub struct EarlyAllocatorModel {
    pub start: int,
    pub end: int,
    pub b_pos: int,
    pub p_pos: int,
    pub b_count: int,
    pub p_used: int,
}

/// `addr` rounded up to a multiple of `align`.
pub open spec fn align_up_of(addr: int, align: int) -> int {
    (addr + align - 1) - (addr + align - 1) % align
}

/// `addr` rounded down to a multiple of `align`.
pub open spec fn align_down_of(addr: int, align: int) -> int {
    addr - addr % align
}

/// An early allocator whose pages are `SIZE` bytes.
pub struct EarlyAllocator<const SIZE: usize> {
    start: usize,
    end: usize,
    b_pos: usize,
    p_pos: usize,
    b_count: usize,
    p_used: usize,
}

impl<const SIZE: usize> View for EarlyAllocator<SIZE> {
    type V = EarlyAllocatorModel;

    closed spec fn view(&self) -> EarlyAllocatorModel {
        EarlyAllocatorModel {
            start: self.start as int,
            end: self.end as int,
            b_pos: self.b_pos as int,
            p_pos: self.p_pos as int,
            b_count: self.b_count as int,
            p_used: self.p_used as int,
        }
    }
}

impl<const SIZE: usize> EarlyAllocator<SIZE> {
    /// The two areas lie in order inside the range, and every position fits
    /// in a machine word.
    pub open spec fn wf(&self) -> bool {
        &&& 0 <= self@.start <= self@.b_pos <= self@.p_pos <= self@.end <= usize::MAX
        &&& 0 <= self@.b_count <= usize::MAX
        &&& 0 <= self@.p_used <= usize::MAX
    }

    /// An allocator over the empty range at address zero.
    pub fn new() -> (r: Self)
        ensures
            r.wf(),
            r@ == (EarlyAllocatorModel { start: 0, end: 0, b_pos: 0, p_pos: 0, b_count: 0, p_used: 0 }),
    {
        EarlyAllocator { start: 0, end: 0, b_pos: 0, p_pos: 0, b_count: 0, p_used: 0 }
    }

    /// Rounds `addr` up to a multiple of `align`.
    pub fn align_up(addr: usize, align: usize) -> (r: usize)
        requires
            align > 0,
            addr + align - 1 <= usize::MAX,
        ensures
            r == align_up_of(addr as int, align as int),
            r % align == 0,
            addr <= r < addr + align,
    {
        let t = addr + (align - 1);
        let r = t - t % align;
        assert(r % align == 0) by (nonlinear_arith)
            requires
                r == t - t % align,
                align > 0,
        {
            assert(t == align * (t / align) + t % align);
            assert(r == align * (t / align));
        }
        r
    }

    /// Rounds `addr` down to a multiple of `align`.
    pub fn align_down(addr: usize, align: usize) -> (r: usize)
        requires
            align > 0,
        ensures
            r == align_down_of(addr as int, align as int),
            r % align == 0,
            r <= addr < r + align,
    {
        assert(addr % align <= addr) by (nonlinear_arith)
            requires
                align > 0,
        ;
        let r = addr - addr % align;
        assert(r % align == 0) by (nonlinear_arith)
            requires
                r == addr - addr % align,
                align > 0,
        {
            assert(addr == align * (addr / align) + addr % align);
            assert(r == align * (addr / align));
        }
        r
    }

    /// Whether a byte allocation of `size` at `align` fits: the current
    /// byte position, rounded up, plus `size` stays below the page area.
    pub open spec fn bytes_fit(&self, size: usize, align: usize) -> bool {
        &&& self@.b_pos + align - 1 <= usize::MAX
        &&& align_up_of(self@.b_pos, align as int) + size <= self@.p_pos
    }

    /// Where an allocation of `num_pages` pages at `align` would start: the
    /// page position moved back by the pages, rounded down.
    pub open spec fn pages_start(&self, num_pages: usize, align: usize) -> int {
        align_down_of(self@.p_pos - num_pages * SIZE, align as int)
    }

    /// Whether an allocation of `num_pages` pages at `align` fits above the
    /// byte area.
    pub open spec fn pages_fit(&self, num_pages: usize, align: usize) -> bool {
        &&& num_pages * SIZE <= self@.p_pos
        &&& self.pages_start(num_pages, align) >= self@.b_pos
    }

    /// Takes the range of `size` bytes at `start` as the memory to manage.
    pub fn init(&mut self, start: usize, size: usize)
        requires
            start + size <= usize::MAX,
        ensures
            final(self).wf(),
            final(self)@ == (EarlyAllocatorModel {
                start: start as int,
                end: start + size,
                b_pos: start as int,
                p_pos: start + size,
                b_count: 0,
                p_used: 0,
            }),
    {
        self.start = start;
        self.end = start + size;
        self.b_pos = start;
        self.p_pos = self.end;
        self.b_count = 0;
        self.p_used = 0;
    }

    /// Adding memory is not supported: this always fails and changes nothing.
    pub fn add_memory(&mut self, _start: usize, _size: usize) -> (r: Result<(), AllocError>)
        ensures
            r == Err::<(), AllocError>(AllocError::NoMemory),
            final(self)@ == old(self)@,
    {
        Err(AllocError::NoMemory)
    }

    /// Allocates `size` bytes aligned to `align` at the front of the free
    /// area. When the request fits, the byte position moves past it and the
    /// count of live allocations goes up; the address is returned unless it
    /// is zero, which is no valid address. When it does not fit, nothing
    /// changes.
    pub fn alloc_bytes(&mut self, size: usize, align: usize) -> (r: Result<usize, AllocError>)
        requires
            old(self).wf(),
            align > 0,
            old(self)@.b_count < usize::MAX,
        ensures
            final(self).wf(),
            old(self).bytes_fit(size, align) ==> {
                let s = align_up_of(old(self)@.b_pos, align as int);
                &&& final(self)@ == (EarlyAllocatorModel {
                    b_pos: s + size,
                    b_count: old(self)@.b_count + 1,
                    ..old(self)@
                })
                &&& s != 0 ==> r == Ok::<usize, AllocError>(s as usize)
                &&& s == 0 ==> r == Err::<usize, AllocError>(AllocError::NoMemory)
            },
            !old(self).bytes_fit(size, align) ==> {
                &&& final(self)@ == old(self)@
                &&& r == Err::<usize, AllocError>(AllocError::NoMemory)
            },
    {
        if self.b_pos > usize::MAX - (align - 1) {
            return Err(AllocError::NoMemory);
        }
        let alloc_start = Self::align_up(self.b_pos, align);
        let alloc_end = match alloc_start.checked_add(size) {
            Some(e) => e,
            None => return Err(AllocError::NoMemory),
        };
        if alloc_end > self.p_pos {
            return Err(AllocError::NoMemory);
        }
        self.b_pos = alloc_end;
        self.b_count = self.b_count + 1;
        if alloc_start == 0 {
            Err(AllocError::NoMemory)
        } else {
            Ok(alloc_start)
        }
    }

    /// Releases one byte allocation; when none is left live, the whole byte
    /// area is free again.
    pub fn dealloc(&mut self, _pos: usize, _size: usize, _align: usize)
        requires
            old(self).wf(),
        ensures
            final(self).wf(),
            ({
                let count = if old(self)@.b_count > 0 {
                    old(self)@.b_count - 1
                } else {
                    0
                };
                final(self)@ == (EarlyAllocatorModel {
                    b_count: count,
                    b_pos: if count == 0 {
                        old(self)@.start
                    } else {
                        old(self)@.b_pos
                    },
                    ..old(self)@
                })
            }),
    {
        if self.b_count > 0 {
            self.b_count = self.b_count - 1;
        }
        if self.b_count == 0 {
            self.b_pos = self.start;
        }
    }

    /// Size of the managed range.
    pub fn total_bytes(&self) -> (r: usize)
        requires
            self.wf(),
        ensures
            r == self@.end - self@.start,
    {
        self.end - self.start
    }

    /// Bytes taken by the byte area and the page area together.
    pub fn used_bytes(&self) -> (r: usize)
        requires
            self.wf(),
        ensures
            r == (self@.b_pos - self@.start) + (self@.end - self@.p_pos),
    {
        (self.b_pos - self.start) + (self.end - self.p_pos)
    }

    /// Bytes between the two areas.
    pub fn available_bytes(&self) -> (r: usize)
        requires
            self.wf(),
        ensures
            r == self@.p_pos - self@.b_pos,
    {
        if self.p_pos > self.b_pos {
            self.p_pos - self.b_pos
        } else {
            0
        }
    }

    /// Allocates `num_pages` pages at the back of the free area, starting at
    /// a multiple of `align_pow2`. When they fit, the page position moves
    /// down to their start, which is returned; otherwise nothing changes.
    pub fn alloc_pages(&mut self, num_pages: usize, align_pow2: usize) -> (r: Result<
        usize,
        AllocError,
    >)
        requires
            old(self).wf(),
            align_pow2 > 0,
            old(self)@.p_used + num_pages <= usize::MAX,
        ensures
            final(self).wf(),
            old(self).pages_fit(num_pages, align_pow2) ==> {
                let s = old(self).pages_start(num_pages, align_pow2);
                &&& final(self)@ == (EarlyAllocatorModel {
                    p_pos: s,
                    p_used: old(self)@.p_used + num_pages,
                    ..old(self)@
                })
                &&& r == Ok::<usize, AllocError>(s as usize)
            },
            !old(self).pages_fit(num_pages, align_pow2) ==> {
                &&& final(self)@ == old(self)@
                &&& r == Err::<usize, AllocError>(AllocError::NoMemory)
            },
    {
        let alloc_size = match num_pages.checked_mul(SIZE) {
            Some(n) => n,
            None => return Err(AllocError::NoMemory),
        };
        let alloc_end = self.p_pos;
        let alloc_start = match alloc_end.checked_sub(alloc_size) {
            Some(s) => s,
            None => return Err(AllocError::NoMemory),
        };
        let aligned_start = Self::align_down(alloc_start, align_pow2);
        if aligned_start < self.b_pos {
            return Err(AllocError::NoMemory);
        }
        self.p_pos = aligned_start;
        self.p_used = self.p_used + num_pages;
        Ok(aligned_start)
    }

    /// Pages are never freed: this changes nothing.
    pub fn dealloc_pages(&mut self, _pos: usize, _num_pages: usize)
        ensures
            final(self)@ == old(self)@,
    {
    }

    /// Whole pages in the managed range.
    pub fn total_pages(&self) -> (r: usize)
        requires
            self.wf(),
            SIZE > 0,
        ensures
            r == (self@.end - self@.start) / (SIZE as int),
    {
        (self.end - self.start) / SIZE
    }

    /// Pages handed out so far.
    pub fn used_pages(&self) -> (r: usize)
        ensures
            r == self@.p_used,
    {
        self.p_used
    }

    /// Whole pages between the two areas.
    pub fn available_pages(&self) -> (r: usize)
        requires
            self.wf(),
            SIZE > 0,
        ensures
            r == (self@.p_pos - self@.b_pos) / (SIZE as int),
    {
        if self.p_pos > self.b_pos {
            (self.p_pos - self.b_pos) / SIZE
        } else {
            0
        }
    }
}

} // verus!
