//! General-purpose registers: canonical identities and the views of
//! 8, 16, 32 and 64 bits that alias one 64-bit storage cell.

use vstd::prelude::*;

verus! {

/// Number of general-purpose registers (`RAX` to `R15`).
pub const GPR_COUNT: usize = 16;

/// Canonical number of the stack pointer `RSP`.
pub const RSP_NUMBER: u8 = 4;

/// Operand width.
#[derive(Debug, Clone, Copy, PartialEq, Eq, Structural)]
pub enum Width {
    W8,
    W16,
    W32,
    W64,
}

impl Width {
    pub open spec fn bits(self) -> nat {
        match self {
            Width::W8 => 8,
            Width::W16 => 16,
            Width::W32 => 32,
            Width::W64 => 64,
        }
    }

    pub open spec fn byte_count(self) -> nat {
        self.bits() / 8
    }

    /// The mask of the low `bits()` bits.
    pub open spec fn mask(self) -> u64 {
        match self {
            Width::W8 => 0xff,
            Width::W16 => 0xffff,
            Width::W32 => 0xffff_ffff,
            Width::W64 => 0xffff_ffff_ffff_ffff,
        }
    }

    /// The mask of the low `bits()` bits.
    pub fn mask_bits(self) -> (m: u64)
        ensures
            m == self.mask(),
    {
        match self {
            Width::W8 => 0xff,
            Width::W16 => 0xffff,
            Width::W32 => 0xffff_ffff,
            Width::W64 => 0xffff_ffff_ffff_ffff,
        }
    }

    /// Width in bytes.
    pub fn bytes(self) -> (r: usize)
        ensures
            r == self.byte_count(),
    {
        match self {
            Width::W8 => 1,
            Width::W16 => 2,
            Width::W32 => 4,
            Width::W64 => 8,
        }
    }
}

/// One view of a general-purpose register: register `number` (0 = `RAX` ... 15 = `R15`,
/// in the architecture's encoding order) read or written at `width`. `high_byte`
/// selects bits 8 to 15 (`AH`, `CH`, `DH`, `BH`).
#[derive(Debug, Clone, Copy, PartialEq, Eq, Structural)]
pub struct RegisterWrapper {
    pub number: u8,
    pub width: Width,
    pub high_byte: bool,
}

impl RegisterWrapper {
    pub open spec fn wf(self) -> bool {
        &&& self.number < 16
        &&& self.high_byte ==> self.width == Width::W8 && self.number < 4
    }

    /// The full 64-bit view of register `number`.
    pub fn full(number: u8) -> (r: RegisterWrapper)
        requires
            number < 16,
        ensures
            r.wf(),
            r == (RegisterWrapper { number, width: Width::W64, high_byte: false }),
    {
        RegisterWrapper { number, width: Width::W64, high_byte: false }
    }
}

/// The value that view `r` reads from the storage cell `cell`.
pub open spec fn view_value(cell: u64, r: RegisterWrapper) -> u64 {
    if r.high_byte {
        (cell >> 8u64) & 0xff
    } else {
        cell & r.width.mask()
    }
}

/// The storage cell after writing `v` through view `r`: 8- and 16-bit writes keep the
/// other bits, a 32-bit write clears bits 32 to 63, a 64-bit write replaces the cell.
pub open spec fn merged_cell(cell: u64, r: RegisterWrapper, v: u64) -> u64 {
    if r.high_byte {
        (cell & !0xff00u64) | ((v & 0xff) << 8u64)
    } else {
        match r.width {
            Width::W8 => (cell & !0xffu64) | (v & 0xff),
            Width::W16 => (cell & !0xffffu64) | (v & 0xffff),
            Width::W32 => v & 0xffff_ffff,
            Width::W64 => v,
        }
    }
}

/// Reads view `r` of the cell.
pub fn read_view(cell: u64, r: RegisterWrapper) -> (v: u64)
    ensures
        v == view_value(cell, r),
{
    if r.high_byte {
        (cell >> 8u64) & 0xff
    } else {
        match r.width {
            Width::W8 => cell & 0xff,
            Width::W16 => cell & 0xffff,
            Width::W32 => cell & 0xffff_ffff,
            Width::W64 => {
                assert(cell & 0xffff_ffff_ffff_ffff == cell) by (bit_vector);
                cell
            },
        }
    }
}

/// Writes `v` through view `r` into the cell.
pub fn merge_view(cell: u64, r: RegisterWrapper, v: u64) -> (c: u64)
    ensures
        c == merged_cell(cell, r, v),
{
    if r.high_byte {
        (cell & !0xff00u64) | ((v & 0xff) << 8u64)
    } else {
        match r.width {
            Width::W8 => (cell & !0xffu64) | (v & 0xff),
            Width::W16 => (cell & !0xffffu64) | (v & 0xffff),
            Width::W32 => v & 0xffff_ffff,
            Width::W64 => v,
        }
    }
}

} // verus!
