//! The emulator instance: register file, flags register and memory, owned together.

use vstd::prelude::*;
use crate::errors::AxError;
use crate::memory::Memory;
use crate::registers::{
    merge_view, merged_cell, read_view, view_value, RegisterWrapper, Width, GPR_COUNT,
};

verus! {

/// The architectural state of one virtual CPU.
pub struct Axecutor {
    regs: Vec<u64>,
    rflags: u64,
    mem: Memory,
}

impl Axecutor {
    /// The 64-bit storage cells of the general-purpose registers, by number.
    pub closed spec fn cells(&self) -> Seq<u64> {
        self.regs@
    }

    /// The flags register.
    pub closed spec fn flags(&self) -> u64 {
        self.rflags
    }

    /// The memory.
    pub closed spec fn memory(&self) -> Memory {
        self.mem
    }

    pub open spec fn wf(&self) -> bool {
        self.cells().len() == GPR_COUNT
    }

    /// Both machines hold the same registers, flags and memory contents.
    pub open spec fn same_state(&self, other: &Axecutor) -> bool {
        &&& self.cells() == other.cells()
        &&& self.flags() == other.flags()
        &&& self.memory()@ == other.memory()@
    }

    /// What view `r` reads.
    pub open spec fn reg_value(&self, r: RegisterWrapper) -> u64 {
        view_value(self.cells()[r.number as int], r)
    }

    /// A machine with every register and flag zero and no memory initialized.
    pub fn new() -> (a: Axecutor)
        ensures
            a.wf(),
            forall|k: int| 0 <= k < GPR_COUNT ==> #[trigger] a.cells()[k] == 0,
            a.flags() == 0,
            a.memory()@ == Map::<u64, u8>::empty(),
    {
        let mut regs: Vec<u64> = Vec::new();
        let mut k: usize = 0;
        while k < GPR_COUNT
            invariant
                k <= GPR_COUNT,
                regs@.len() == k,
                forall|j: int| 0 <= j < k ==> #[trigger] regs@[j] == 0,
            decreases GPR_COUNT - k,
        {
            regs.push(0);
            k = k + 1;
        }
        Axecutor { regs, rflags: 0, mem: Memory::new() }
    }

    /// Reads register view `r`.
    pub fn reg_read(&self, r: RegisterWrapper) -> (v: u64)
        requires
            self.wf(),
            r.wf(),
        ensures
            v == self.reg_value(r),
    {
        read_view(self.regs[r.number as usize], r)
    }

    /// Writes `v` through register view `r`, under the aliasing rules of
    /// `merged_cell`; nothing else changes.
    pub fn reg_write(&mut self, r: RegisterWrapper, v: u64)
        requires
            old(self).wf(),
            r.wf(),
        ensures
            final(self).wf(),
            final(self).cells() == old(self).cells().update(
                r.number as int,
                merged_cell(old(self).cells()[r.number as int], r, v),
            ),
            final(self).flags() == old(self).flags(),
            final(self).memory() == old(self).memory(),
    {
        let n = r.number as usize;
        let c = merge_view(self.regs[n], r, v);
        self.regs.set(n, c);
    }

    /// The flags register.
    pub fn rflags(&self) -> (f: u64)
        ensures
            f == self.flags(),
    {
        self.rflags
    }

    /// Replaces the flags under `mask` by those of `set`; the other flags stay.
    pub fn update_flags(&mut self, mask: u64, set: u64)
        ensures
            final(self).flags() == (old(self).flags() & !mask) | (set & mask),
            final(self).cells() == old(self).cells(),
            final(self).memory() == old(self).memory(),
    {
        self.rflags = (self.rflags & !mask) | (set & mask);
    }

    /// Marks `[start, start + len)` as initialized and zero; see `Memory::init_region`.
    pub fn mem_init_zero(&mut self, start: u64, len: u64) -> (r: Result<(), AxError>)
        ensures
            final(self).cells() == old(self).cells(),
            final(self).flags() == old(self).flags(),
            r is Ok <==> start + len <= 0x1_0000_0000_0000_0000,
            r is Ok ==> forall|a: u64|
                #[trigger] final(self).memory()@.contains_key(a) <==> (old(
                    self,
                ).memory()@.contains_key(a) || (start <= a < start + len)),
            r is Ok ==> forall|a: u64| #[trigger]
                final(self).memory()@.contains_key(a) ==> final(self).memory()@[a] == if start
                    <= a < start + len {
                    0u8
                } else {
                    old(self).memory()@[a]
                },
            r is Err ==> final(self).memory()@ == old(self).memory()@ && r->Err_0.kind
                == crate::errors::ErrorKind::InvalidRegion && !r->Err_0.signals_normal_finish,
    {
        self.mem.init_region(start, len)
    }

    /// Reads the value of width `w` at `addr`; see `Memory::read`.
    pub fn mem_read(&self, addr: u64, w: Width) -> (r: Result<u64, AxError>)
        ensures
            r is Ok <==> self.memory().covers(addr as int, w.byte_count()),
            r is Ok ==> r->Ok_0 as int == crate::memory::le_value(
                self.memory().bytes_at(addr as int, w.byte_count()),
            ),
            r is Err ==> r->Err_0.kind == crate::errors::ErrorKind::UninitializedAccess
                && !r->Err_0.signals_normal_finish,
    {
        self.mem.read(addr, w.bytes())
    }

    /// Writes the low bytes of `v`, as many as `w` has, at `addr`; see `Memory::write`.
    pub fn mem_write(&mut self, addr: u64, w: Width, v: u64) -> (r: Result<(), AxError>)
        ensures
            final(self).cells() == old(self).cells(),
            final(self).flags() == old(self).flags(),
            r is Ok <==> old(self).memory().covers(addr as int, w.byte_count()),
            r is Ok ==> final(self).memory()@.dom() == old(self).memory()@.dom(),
            r is Ok ==> forall|a: u64| #[trigger]
                final(self).memory()@[a] == if addr <= a < addr + w.byte_count() {
                    crate::memory::le_byte(v, (a - addr) as nat)
                } else {
                    old(self).memory()@[a]
                },
            r is Err ==> final(self).memory()@ == old(self).memory()@ && r->Err_0.kind
                == crate::errors::ErrorKind::UninitializedAccess && !r->Err_0.signals_normal_finish,
    {
        self.mem.write(addr, w.bytes(), v)
    }
}

} // verus!
