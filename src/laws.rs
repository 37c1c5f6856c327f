//! Properties that relate several operations of the core, proved once for all inputs.

use vstd::prelude::*;
use crate::axecutor::Axecutor;
use crate::decoded::DecodedInstruction;
use crate::flags::{
    add_flags, parity_even, pow2, FLAG_AF, FLAG_CF, FLAG_OF, FLAG_PF, FLAG_SF, FLAG_ZF,
};
use crate::memory::{le_value, lemma_le_value_bound, pow256};
use crate::errors::AxError;
use crate::memory::Memory;
use crate::operand::{effective_address, resolution_result, resolved_operand, Operand};
use crate::pop::{pop_applied, pop_outcome};
use crate::registers::{merged_cell, view_value, RegisterWrapper, Width, RSP_NUMBER};

verus! {

proof fn lemma_flag_bits(cf: bool, of: bool, af: bool, zf: bool, sf: bool, pf: bool)
    ensures
        ({
            let f = (if cf { 0x1u64 } else { 0u64 }) | (if of { 0x800u64 } else { 0u64 }) | (if af {
                0x10u64
            } else {
                0u64
            }) | ((if zf { 0x40u64 } else { 0u64 }) | (if sf { 0x80u64 } else { 0u64 }) | (if pf {
                0x4u64
            } else {
                0u64
            }));
            &&& (f & 0x1 != 0) == cf
            &&& (f & 0x800 != 0) == of
            &&& (f & 0x10 != 0) == af
            &&& (f & 0x40 != 0) == zf
            &&& (f & 0x80 != 0) == sf
            &&& (f & 0x4 != 0) == pf
            &&& f & !0x8d5u64 == 0
        }),
{
    let c: u64 = if cf { 0x1 } else { 0 };
    let o: u64 = if of { 0x800 } else { 0 };
    let a: u64 = if af { 0x10 } else { 0 };
    let z: u64 = if zf { 0x40 } else { 0 };
    let s: u64 = if sf { 0x80 } else { 0 };
    let p: u64 = if pf { 0x4 } else { 0 };
    assert({
        let f = c | o | a | (z | s | p);
        &&& (f & 0x1 != 0) == (c != 0)
        &&& (f & 0x800 != 0) == (o != 0)
        &&& (f & 0x10 != 0) == (a != 0)
        &&& (f & 0x40 != 0) == (z != 0)
        &&& (f & 0x80 != 0) == (s != 0)
        &&& (f & 0x4 != 0) == (p != 0)
        &&& f & !0x8d5u64 == 0
    }) by (bit_vector)
        requires
            c == 0x1 || c == 0,
            o == 0x800 || o == 0,
            a == 0x10 || a == 0,
            z == 0x40 || z == 0,
            s == 0x80 || s == 0,
            p == 0x4 || p == 0,
    ;
}

/// Flag correctness of addition: for every width and all operands `d`, `s` of that
/// width, with `r` the wrapped sum, the flags that the engine returns hold exactly
/// CF when `d + s` carries out of the top bit, OF when `d` and `s` have the same
/// sign and `r` another, AF when the low nibbles carry into bit 4, ZF when `r` is
/// zero, SF when the top bit of `r` is set and PF when the low byte of `r` has an
/// even number of set bits; and no other flag.
pub proof fn lemma_add_flags_exact(d: int, s: int, w: Width)
    requires
        0 <= d < pow2(w.bits()),
        0 <= s < pow2(w.bits()),
    ensures
        ({
            let m = pow2(w.bits());
            let r = (d + s) % m;
            let f = add_flags(d, s, w.bits());
            &&& (f & FLAG_CF != 0) == (d + s >= m)
            &&& (f & FLAG_OF != 0) == ((d >= m / 2) == (s >= m / 2) && (r >= m / 2) != (d
                >= m / 2))
            &&& (f & FLAG_AF != 0) == (d % 16 + s % 16 >= 16)
            &&& (f & FLAG_ZF != 0) == (r == 0)
            &&& (f & FLAG_SF != 0) == (r >= m / 2)
            &&& (f & FLAG_PF != 0) == parity_even(r as u64)
            &&& f & !0x8d5u64 == 0
        }),
{
    let m = pow2(w.bits());
    let h = m / 2;
    let r = (d + s) % m;
    lemma_flag_bits(
        d + s >= m,
        (d >= h) == (s >= h) && (r >= h) != (d >= h),
        d % 16 + s % 16 >= 16,
        r == 0,
        r >= pow2(w.bits()) / 2,
        parity_even(r as u64),
    );
}

proof fn lemma_view_after_write(cell: u64, narrow: RegisterWrapper, wide: RegisterWrapper, v: u64)
    requires
        narrow.wf(),
        wide.wf(),
        !wide.high_byte,
        narrow.width.bits() <= wide.width.bits(),
        narrow.high_byte ==> wide.width != Width::W8,
    ensures
        !narrow.high_byte ==> view_value(merged_cell(cell, narrow, v), wide) & narrow.width.mask()
            == v & narrow.width.mask(),
        narrow.high_byte ==> (view_value(merged_cell(cell, narrow, v), wide) >> 8u64) & 0xff == v
            & 0xff,
        !narrow.high_byte && narrow.width == Width::W32 ==> merged_cell(cell, narrow, v) == v
            & 0xffff_ffff,
{
    let wm = wide.width.mask();
    assert(wm == 0xff || wm == 0xffff || wm == 0xffff_ffff || wm == 0xffff_ffff_ffff_ffff);
    if narrow.high_byte {
        assert(wm != 0xff);
        assert((((((cell & !0xff00u64) | ((v & 0xff) << 8u64)) & wm) >> 8u64) & 0xff) == v & 0xff)
            by (bit_vector)
            requires
                wm == 0xffff || wm == 0xffff_ffff || wm == 0xffff_ffff_ffff_ffff,
        ;
    } else {
        match narrow.width {
            Width::W8 => {
                assert(((((cell & !0xffu64) | (v & 0xff)) & wm) & 0xff) == v & 0xff)
                    by (bit_vector)
                    requires
                        wm == 0xff || wm == 0xffff || wm == 0xffff_ffff || wm
                            == 0xffff_ffff_ffff_ffff,
                ;
            },
            Width::W16 => {
                assert(((((cell & !0xffffu64) | (v & 0xffff)) & wm) & 0xffff) == v & 0xffff)
                    by (bit_vector)
                    requires
                        wm == 0xffff || wm == 0xffff_ffff || wm == 0xffff_ffff_ffff_ffff,
                ;
            },
            Width::W32 => {
                assert((((v & 0xffff_ffff) & wm) & 0xffff_ffff) == v & 0xffff_ffff)
                    by (bit_vector)
                    requires
                        wm == 0xffff_ffff || wm == 0xffff_ffff_ffff_ffff,
                ;
            },
            Width::W64 => {
                assert(((v & wm) & 0xffff_ffff_ffff_ffff) == v & 0xffff_ffff_ffff_ffff)
                    by (bit_vector)
                    requires
                        wm == 0xffff_ffff_ffff_ffff,
                ;
            },
        }
    }
}

/// Register aliasing: after writing `v` through a view of a register, reading a view
/// of the same register that is at least as wide (and not a high-byte view) gives
/// `v` back in the bits that the written view covers; a 32-bit write leaves bits 32
/// to 63 of the register clear.
pub proof fn lemma_register_aliasing(
    before: &Axecutor,
    after: &Axecutor,
    narrow: RegisterWrapper,
    wide: RegisterWrapper,
    v: u64,
)
    requires
        before.wf(),
        narrow.wf(),
        wide.wf(),
        narrow.number == wide.number,
        !wide.high_byte,
        narrow.width.bits() <= wide.width.bits(),
        narrow.high_byte ==> wide.width != Width::W8,
        after.cells() == before.cells().update(
            narrow.number as int,
            merged_cell(before.cells()[narrow.number as int], narrow, v),
        ),
    ensures
        !narrow.high_byte ==> after.reg_value(wide) & narrow.width.mask() == v
            & narrow.width.mask(),
        narrow.high_byte ==> (after.reg_value(wide) >> 8u64) & 0xff == v & 0xff,
        !narrow.high_byte && narrow.width == Width::W32 ==> after.cells()[narrow.number as int]
            == v & 0xffff_ffff && after.cells()[narrow.number as int] >> 32u64 == 0,
{
    lemma_view_after_write(before.cells()[narrow.number as int], narrow, wide, v);
    let x = v & 0xffff_ffff;
    assert(x >> 32u64 == 0) by (bit_vector)
        requires
            x == v & 0xffff_ffff,
    ;
}

/// Stack atomicity of a register pop of width `w`: when it succeeds, the stack
/// pointer is its old value plus the width in bytes, the popped register (a view of
/// that width, other than the stack pointer itself) holds the bytes that were at
/// the old stack pointer, and flags and memory are as before; when it fails, nothing
/// changed.
pub proof fn lemma_pop_is_atomic(
    before: &Axecutor,
    after: &Axecutor,
    i: DecodedInstruction,
    w: Width,
    r: Result<(), AxError>,
)
    requires
        before.wf(),
        i.wf(),
        pop_applied(before, after, pop_outcome(before, i, w), r),
    ensures
        r is Err ==> after.same_state(before),
        r is Ok ==> ({
            let sp = before.cells()[RSP_NUMBER as int];
            let reg = resolved_operand(i, 0)->Some_0->Register_0;
            &&& after.flags() == before.flags()
            &&& after.memory()@ == before.memory()@
            &&& (reg.number != RSP_NUMBER && reg.width == w && !reg.high_byte) ==> {
                &&& after.cells()[RSP_NUMBER as int] == (sp + w.byte_count())
                    % 0x1_0000_0000_0000_0000
                &&& after.reg_value(reg) as int == le_value(
                    before.memory().bytes_at(sp as int, w.byte_count()),
                )
            }
        }),
{
    if r is Ok {
        let sp = before.cells()[RSP_NUMBER as int];
        let bytes = before.memory().bytes_at(sp as int, w.byte_count());
        let reg = resolved_operand(i, 0)->Some_0->Register_0;
        let o = pop_outcome(before, i, w);
        assert(o is Ok);
        assert(i.op_registers@[0].wf());
        assert(reg.wf());
        if reg.number != RSP_NUMBER && reg.width == w && !reg.high_byte {
            lemma_le_value_bound(bytes);
            reveal_with_fuel(pow256, 9);
            let v = le_value(bytes) as u64;
            assert(o->Ok_0 == (reg, v, ((sp + w.byte_count()) % 0x1_0000_0000_0000_0000) as u64));
            let moved = before.cells().update(RSP_NUMBER as int, o->Ok_0.2);
            let c = moved[reg.number as int];
            assert(after.cells()[reg.number as int] == merged_cell(c, reg, v));
            assert(after.cells()[RSP_NUMBER as int] == moved[RSP_NUMBER as int]);
            assert(v <= w.mask());
            if w == Width::W8 {
                assert(((c & !0xffu64) | (v & 0xff)) & 0xff == v) by (bit_vector)
                    requires
                        v <= 0xff,
                ;
            } else if w == Width::W16 {
                assert(((c & !0xffffu64) | (v & 0xffff)) & 0xffff == v) by (bit_vector)
                    requires
                        v <= 0xffff,
                ;
            } else if w == Width::W32 {
                assert((v & 0xffff_ffff) & 0xffff_ffff == v) by (bit_vector)
                    requires
                        v <= 0xffff_ffff,
                ;
            } else {
                assert(v & 0xffff_ffff_ffff_ffff == v) by (bit_vector);
            }
            assert(after.reg_value(reg) == v);
        }
    }
}

/// Resolving the same operand of the same instruction twice gives identical
/// results, whatever the machine state in between: both succeed with equal operands
/// or both fail with the same kind of error. Two machines whose registers agree
/// compute the same effective address for a memory operand.
pub proof fn lemma_operand_resolution_idempotent(
    a: &Axecutor,
    b: &Axecutor,
    i: DecodedInstruction,
    idx: int,
    first: Result<Operand, AxError>,
    second: Result<Operand, AxError>,
)
    requires
        0 <= idx < i.op_count(),
        resolution_result(i, idx, first),
        resolution_result(i, idx, second),
    ensures
        first is Ok <==> second is Ok,
        first is Ok ==> first->Ok_0 == second->Ok_0,
        first is Err ==> first->Err_0.kind == second->Err_0.kind,
        a.cells() == b.cells() ==> (first matches Ok(Operand::Memory(m)) ==> effective_address(
            a.cells(),
            m,
        ) == effective_address(b.cells(), m)),
{
}

/// Uninitialized-memory guard: a range that holds a byte no region initialization
/// covered is not covered, so reading or writing it fails, whatever other regions
/// surround that byte.
pub proof fn lemma_uninitialized_byte_blocks_access(m: Memory, addr: int, n: nat, b: u64)
    requires
        addr <= b < addr + n,
        !m@.contains_key(b),
    ensures
        !m.covers(addr, n),
{
    if m.covers(addr, n) {
        assert(m@.contains_key((addr + (b - addr)) as u64));
    }
}

} // verus!
