//! Operand resolution: from the decoder's operand descriptors to register, memory
//! and immediate operands, and reading and writing their values.

use vstd::prelude::*;
use crate::axecutor::Axecutor;
use crate::decoded::{DecodedInstruction, DecodedRegister, OperandKind};
use crate::errors::{concat, AxError, ErrorKind};
use crate::memory::{le_byte, le_value, lemma_le_value_bound, pow256};
use crate::registers::{merged_cell, view_value, RegisterWrapper, Width};
use vstd::arithmetic::div_mod::{lemma_add_mod_noop, lemma_mod_twice, lemma_small_mod};

verus! {

/// A memory operand: `base + index * scale + displacement`, each part optional
/// but the displacement.
#[derive(Debug, Clone, Copy, PartialEq, Eq, Structural)]
pub struct MemOperand {
    pub base: Option<RegisterWrapper>,
    pub index: Option<RegisterWrapper>,
    pub scale: u32,
    pub displacement: u64,
}

/// A resolved operand. An immediate keeps its declared size in bytes.
#[derive(Debug, Clone, Copy, PartialEq, Eq, Structural)]
pub enum Operand {
    Memory(MemOperand),
    Register(RegisterWrapper),
    Immediate { data: u64, size: i8 },
}

impl MemOperand {
    pub open spec fn wf(self) -> bool {
        &&& (self.base matches Some(r) ==> r.wf())
        &&& (self.index matches Some(r) ==> r.wf())
    }
}

impl Operand {
    pub open spec fn wf(self) -> bool {
        match self {
            Operand::Memory(m) => m.wf(),
            Operand::Register(r) => r.wf(),
            Operand::Immediate { .. } => true,
        }
    }

    /// The register of a register operand.
    pub fn as_register(self) -> (r: RegisterWrapper)
        requires
            self is Register,
        ensures
            r == self->Register_0,
    {
        match self {
            Operand::Register(register) => register,
            _ => {
                proof {
                    assert(false);
                }
                RegisterWrapper { number: 0, width: Width::W64, high_byte: false }
            },
        }
    }

    /// The value of an immediate operand of one byte.
    pub fn as_u8(self) -> (v: u8)
        requires
            self matches Operand::Immediate { size, .. } && size == 1,
        ensures
            v == self->data as u8,
    {
        self.immediate_data() as u8
    }

    /// The value of an immediate operand of two bytes.
    pub fn as_u16(self) -> (v: u16)
        requires
            self matches Operand::Immediate { size, .. } && size == 2,
        ensures
            v == self->data as u16,
    {
        self.immediate_data() as u16
    }

    /// The value of an immediate operand of four bytes.
    pub fn as_u32(self) -> (v: u32)
        requires
            self matches Operand::Immediate { size, .. } && size == 4,
        ensures
            v == self->data as u32,
    {
        self.immediate_data() as u32
    }

    /// The value of an immediate operand of eight bytes.
    pub fn as_u64(self) -> (v: u64)
        requires
            self matches Operand::Immediate { size, .. } && size == 8,
        ensures
            v == self->data,
    {
        self.immediate_data()
    }

    fn immediate_data(self) -> (v: u64)
        requires
            self is Immediate,
        ensures
            v == self->data,
    {
        match self {
            Operand::Immediate { data, .. } => data,
            _ => {
                proof {
                    assert(false);
                }
                0
            },
        }
    }
}

/// The base of a memory operand: none for no register and for the instruction
/// pointer (whose displacement the decoder already made absolute); `None` when
/// unsupported.
pub open spec fn base_of(r: DecodedRegister) -> Option<Option<RegisterWrapper>> {
    match r {
        DecodedRegister::Absent | DecodedRegister::Rip => Some(None),
        DecodedRegister::Gpr(g) => Some(Some(g)),
        DecodedRegister::Other => None,
    }
}

/// The index of a memory operand; `None` when unsupported.
pub open spec fn index_of(r: DecodedRegister) -> Option<Option<RegisterWrapper>> {
    match r {
        DecodedRegister::Absent => Some(None),
        DecodedRegister::Gpr(g) => Some(Some(g)),
        _ => None,
    }
}

/// Operand `idx` of `i`, or `None` when its encoding is not supported.
pub open spec fn resolved_operand(i: DecodedInstruction, idx: int) -> Option<Operand> {
    match i.op_kinds@[idx] {
        OperandKind::Memory => match (base_of(i.memory_base), index_of(i.memory_index)) {
            (Some(base), Some(index)) => Some(
                Operand::Memory(
                    MemOperand {
                        base,
                        index,
                        scale: i.memory_index_scale,
                        displacement: i.memory_displacement,
                    },
                ),
            ),
            _ => None,
        },
        OperandKind::Register => match i.op_registers@[idx] {
            DecodedRegister::Gpr(r) => Some(Operand::Register(r)),
            _ => None,
        },
        OperandKind::Immediate8 => Some(Operand::Immediate { data: i.immediate8 as u64, size: 1 }),
        OperandKind::Immediate8_2nd => Some(
            Operand::Immediate { data: i.immediate8_2nd as u64, size: 1 },
        ),
        OperandKind::Immediate16 => Some(
            Operand::Immediate { data: i.immediate16 as u64, size: 2 },
        ),
        OperandKind::Immediate32 => Some(
            Operand::Immediate { data: i.immediate32 as u64, size: 4 },
        ),
        OperandKind::Immediate64 => Some(Operand::Immediate { data: i.immediate64, size: 8 }),
        OperandKind::Immediate8to16 => Some(
            Operand::Immediate {
                data: #[verifier::truncate] (i.immediate8to16 as u64),
                size: 2,
            },
        ),
        OperandKind::Immediate8to32 => Some(
            Operand::Immediate {
                data: #[verifier::truncate] (i.immediate8to32 as u64),
                size: 4,
            },
        ),
        OperandKind::Immediate8to64 => Some(
            Operand::Immediate {
                data: #[verifier::truncate] (i.immediate8to64 as u64),
                size: 8,
            },
        ),
        OperandKind::Immediate32to64 => Some(
            Operand::Immediate {
                data: #[verifier::truncate] (i.immediate32to64 as u64),
                size: 8,
            },
        ),
        OperandKind::Other => None,
    }
}

/// `r` is what resolving operand `idx` of `i` returns: the resolved operand, or an
/// unsupported-operand error.
pub open spec fn resolution_result(
    i: DecodedInstruction,
    idx: int,
    r: Result<Operand, AxError>,
) -> bool {
    match resolved_operand(i, idx) {
        Some(op) => r == Ok::<Operand, AxError>(op),
        None => {
            &&& r is Err
            &&& r->Err_0.kind == ErrorKind::UnsupportedOperand
            &&& !r->Err_0.signals_normal_finish
            &&& r->Err_0.message@ == "instruction_operand "@ + index_label(idx)@
                + ": unimplemented operand kind "@ + kind_label(i.op_kinds@[idx])@
        },
    }
}

/// The decimal digit of an operand index, which is below 5.
pub open spec fn index_label(idx: int) -> &'static str {
    if idx == 0 {
        "0"
    } else if idx == 1 {
        "1"
    } else if idx == 2 {
        "2"
    } else if idx == 3 {
        "3"
    } else {
        "4"
    }
}

/// The name of an operand kind.
pub open spec fn kind_label(k: OperandKind) -> &'static str {
    match k {
        OperandKind::Register => "Register",
        OperandKind::Memory => "Memory",
        OperandKind::Immediate8 => "Immediate8",
        OperandKind::Immediate8_2nd => "Immediate8_2nd",
        OperandKind::Immediate16 => "Immediate16",
        OperandKind::Immediate32 => "Immediate32",
        OperandKind::Immediate64 => "Immediate64",
        OperandKind::Immediate8to16 => "Immediate8to16",
        OperandKind::Immediate8to32 => "Immediate8to32",
        OperandKind::Immediate8to64 => "Immediate8to64",
        OperandKind::Immediate32to64 => "Immediate32to64",
        OperandKind::Other => "Other",
    }
}

fn index_name(idx: usize) -> (s: &'static str)
    requires
        idx < 5,
    ensures
        s == index_label(idx as int),
{
    match idx {
        0 => "0",
        1 => "1",
        2 => "2",
        3 => "3",
        _ => "4",
    }
}

fn kind_name(k: OperandKind) -> (s: &'static str)
    ensures
        s == kind_label(k),
{
    match k {
        OperandKind::Register => "Register",
        OperandKind::Memory => "Memory",
        OperandKind::Immediate8 => "Immediate8",
        OperandKind::Immediate8_2nd => "Immediate8_2nd",
        OperandKind::Immediate16 => "Immediate16",
        OperandKind::Immediate32 => "Immediate32",
        OperandKind::Immediate64 => "Immediate64",
        OperandKind::Immediate8to16 => "Immediate8to16",
        OperandKind::Immediate8to32 => "Immediate8to32",
        OperandKind::Immediate8to64 => "Immediate8to64",
        OperandKind::Immediate32to64 => "Immediate32to64",
        OperandKind::Other => "Other",
    }
}

/// The unsupported-operand error for operand `idx` of kind `k`, naming both.
fn unsupported_operand(idx: usize, k: OperandKind) -> (e: AxError)
    requires
        idx < 5,
    ensures
        e.kind == ErrorKind::UnsupportedOperand,
        !e.signals_normal_finish,
        e.message@ == "instruction_operand "@ + index_label(idx as int)@
            + ": unimplemented operand kind "@ + kind_label(k)@,
{
    let head = concat("instruction_operand ", index_name(idx));
    AxError::with_subject(
        ErrorKind::UnsupportedOperand,
        concat(head.as_str(), ": unimplemented operand kind ").as_str(),
        kind_name(k),
    )
}

/// `(base + index * scale + displacement) mod 2^64`, where an absent base or index
/// counts as zero and a register counts with the value of its view.
pub open spec fn effective_address(cells: Seq<u64>, m: MemOperand) -> u64 {
    let b: int = match m.base {
        Some(r) => view_value(cells[r.number as int], r) as int,
        None => 0,
    };
    let x: int = match m.index {
        Some(r) => view_value(cells[r.number as int], r) as int * m.scale,
        None => 0,
    };
    ((b + x + m.displacement) % 0x1_0000_0000_0000_0000) as u64
}

/// Adding in three wrapping steps gives the wrapped sum.
proof fn lemma_address_sum(b: int, x: int, d: int, xm: int)
    requires
        0 <= b < 0x1_0000_0000_0000_0000,
        0 <= d < 0x1_0000_0000_0000_0000,
        0 <= x,
        xm == x % 0x1_0000_0000_0000_0000,
    ensures
        ((b + xm) % 0x1_0000_0000_0000_0000 + d) % 0x1_0000_0000_0000_0000 == (b + x + d)
            % 0x1_0000_0000_0000_0000,
{
    let m: int = 0x1_0000_0000_0000_0000;
    lemma_add_mod_noop(b, x, m);
    lemma_small_mod(b as nat, m as nat);
    lemma_mod_twice(x, m);
    lemma_add_mod_noop(b + x, d, m);
    lemma_small_mod(d as nat, m as nat);
}

/// A value of `w.byte_count()` bytes fits the width.
proof fn lemma_width_bound(w: Width)
    ensures
        forall|bs: Seq<u8>|
            bs.len() == w.byte_count() ==> le_value(bs) <= w.mask() as int,
{
    assert forall|bs: Seq<u8>| bs.len() == w.byte_count() implies le_value(bs) <= w.mask() as int
    by {
        lemma_le_value_bound(bs);
        reveal_with_fuel(pow256, 9);
    }
}

impl Axecutor {
    /// The value of `op` at width `w`, or `None` when it is in memory that is not
    /// initialized. An immediate is cut to `w`.
    pub open spec fn operand_value(&self, op: Operand, w: Width) -> Option<u64> {
        match op {
            Operand::Register(r) => Some(self.reg_value(r) & w.mask()),
            Operand::Memory(m) => {
                let a = effective_address(self.cells(), m);
                if self.memory().covers(a as int, w.byte_count()) {
                    Some(le_value(self.memory().bytes_at(a as int, w.byte_count())) as u64)
                } else {
                    None
                }
            },
            Operand::Immediate { data, .. } => Some(data & w.mask()),
        }
    }

    /// `new` is `old` after writing `v` at width `w` to `op`; the flags are left
    /// to the caller.
    pub open spec fn operand_written(
        old: &Axecutor,
        new: &Axecutor,
        op: Operand,
        w: Width,
        v: u64,
    ) -> bool {
        match op {
            Operand::Register(r) => {
                &&& new.cells() == old.cells().update(
                    r.number as int,
                    merged_cell(old.cells()[r.number as int], r, v),
                )
                &&& new.memory()@ == old.memory()@
            },
            Operand::Memory(m) => {
                let a = effective_address(old.cells(), m);
                &&& new.cells() == old.cells()
                &&& new.memory()@.dom() == old.memory()@.dom()
                &&& forall|x: u64| #[trigger]
                    new.memory()@[x] == if a <= x < a + w.byte_count() {
                        le_byte(v, (x - a) as nat)
                    } else {
                        old.memory()@[x]
                    }
            },
            Operand::Immediate { .. } => false,
        }
    }

    /// Reads the value of `op` at width `w`. Fails when it lies in memory that is not
    /// initialized.
    pub fn read_operand(&self, op: Operand, w: Width) -> (r: Result<u64, AxError>)
        requires
            self.wf(),
            op.wf(),
        ensures
            match self.operand_value(op, w) {
                Some(v) => r is Ok && r->Ok_0 == v && v <= w.mask(),
                None => r is Err && r->Err_0.kind == ErrorKind::UninitializedAccess
                    && !r->Err_0.signals_normal_finish,
            },
    {
        match op {
            Operand::Register(reg) => {
                let v = self.reg_read(reg);
                let m = w.mask_bits();
                assert(v & m <= m) by (bit_vector);
                Ok(v & m)
            },
            Operand::Memory(mo) => {
                let addr = self.mem_addr(mo);
                let v = self.mem_read(addr, w)?;
                proof {
                    lemma_width_bound(w);
                }
                Ok(v)
            },
            Operand::Immediate { data, .. } => {
                let m = w.mask_bits();
                assert(data & m <= m) by (bit_vector);
                Ok(data & m)
            },
        }
    }

    /// Writes `v` at width `w` to the register or memory operand `op`. Fails,
    /// changing nothing, when it lies in memory that is not initialized.
    pub fn write_operand(&mut self, op: Operand, w: Width, v: u64) -> (r: Result<(), AxError>)
        requires
            old(self).wf(),
            op.wf(),
            !(op is Immediate),
        ensures
            final(self).wf(),
            final(self).flags() == old(self).flags(),
            r is Ok <==> (op matches Operand::Memory(m) ==> old(self).memory().covers(
                effective_address(old(self).cells(), m) as int,
                w.byte_count(),
            )),
            r is Ok ==> Axecutor::operand_written(old(self), final(self), op, w, v),
            r is Err ==> final(self).same_state(old(self)) && r->Err_0.kind
                == ErrorKind::UninitializedAccess && !r->Err_0.signals_normal_finish,
    {
        match op {
            Operand::Register(reg) => {
                self.reg_write(reg, v);
                Ok(())
            },
            Operand::Memory(mo) => {
                let addr = self.mem_addr(mo);
                self.mem_write(addr, w, v)
            },
            Operand::Immediate { .. } => {
                proof {
                    assert(false);
                }
                Ok(())
            },
        }
    }

    /// The effective address of a memory operand, with 64-bit wraparound.
    pub fn mem_addr(&self, o: MemOperand) -> (addr: u64)
        requires
            self.wf(),
            o.wf(),
        ensures
            addr == effective_address(self.cells(), o),
    {
        let base: u64 = match o.base {
            Some(r) => self.reg_read(r),
            None => 0,
        };
        let scaled: u64 = match o.index {
            Some(r) => self.reg_read(r).wrapping_mul(o.scale as u64),
            None => 0,
        };
        let ghost x: int = match o.index {
            Some(r) => view_value(self.cells()[r.number as int], r) as int * o.scale,
            None => 0,
        };
        proof {
            if o.index is Some {
                assert(0 <= x) by (nonlinear_arith)
                    requires
                        x == view_value(
                            self.cells()[o.index->Some_0.number as int],
                            o.index->Some_0,
                        ) as int * o.scale,
                ;
            }
            lemma_address_sum(base as int, x, o.displacement as int, scaled as int);
        }
        // negative displacements arrive as their two's-complement encoding
        // and wrap by design
        base.wrapping_add(scaled).wrapping_add(o.displacement)
    }

    /// Resolves operand `operand_idx` of `i`. Fails when the decoder reports an
    /// operand encoding that the core does not support.
    pub fn instruction_operand(&self, i: &DecodedInstruction, operand_idx: usize) -> (r: Result<
        Operand,
        AxError,
    >)
        requires
            i.wf(),
            operand_idx < i.op_count(),
        ensures
            resolution_result(*i, operand_idx as int, r),
            r matches Ok(op) ==> op.wf(),
    {
        let unsupported = unsupported_operand(operand_idx, i.op_kinds[operand_idx]);
        assert(i.op_registers@[operand_idx as int].wf());
        match i.op_kinds[operand_idx] {
            OperandKind::Memory => {
                let base = match i.memory_base {
                    DecodedRegister::Absent => None,
                    DecodedRegister::Rip => None,
                    DecodedRegister::Gpr(r) => Some(r),
                    DecodedRegister::Other => {
                        return Err(unsupported);
                    },
                };
                let index = match i.memory_index {
                    DecodedRegister::Absent => None,
                    DecodedRegister::Gpr(r) => Some(r),
                    _ => {
                        return Err(unsupported);
                    },
                };
                Ok(
                    Operand::Memory(
                        MemOperand {
                            base,
                            index,
                            scale: i.memory_index_scale,
                            displacement: i.memory_displacement,
                        },
                    ),
                )
            },
            OperandKind::Register => match i.op_registers[operand_idx] {
                DecodedRegister::Gpr(r) => Ok(Operand::Register(r)),
                _ => Err(unsupported),
            },
            OperandKind::Immediate8 => Ok(
                Operand::Immediate { data: i.immediate8 as u64, size: 1 },
            ),
            OperandKind::Immediate8_2nd => Ok(
                Operand::Immediate { data: i.immediate8_2nd as u64, size: 1 },
            ),
            OperandKind::Immediate16 => Ok(
                Operand::Immediate { data: i.immediate16 as u64, size: 2 },
            ),
            OperandKind::Immediate32 => Ok(
                Operand::Immediate { data: i.immediate32 as u64, size: 4 },
            ),
            OperandKind::Immediate64 => Ok(Operand::Immediate { data: i.immediate64, size: 8 }),
            OperandKind::Immediate8to16 => Ok(
                Operand::Immediate {
                    data: #[verifier::truncate] (i.immediate8to16 as u64),
                    size: 2,
                },
            ),
            OperandKind::Immediate8to32 => Ok(
                Operand::Immediate {
                    data: #[verifier::truncate] (i.immediate8to32 as u64),
                    size: 4,
                },
            ),
            OperandKind::Immediate8to64 => Ok(
                Operand::Immediate {
                    data: #[verifier::truncate] (i.immediate8to64 as u64),
                    size: 8,
                },
            ),
            OperandKind::Immediate32to64 => Ok(
                Operand::Immediate {
                    data: #[verifier::truncate] (i.immediate32to64 as u64),
                    size: 8,
                },
            ),
            OperandKind::Other => Err(unsupported),
        }
    }

    /// Resolves the destination and source operands of a two-operand instruction.
    pub fn instruction_operands_2(&self, i: &DecodedInstruction) -> (r: Result<
        (Operand, Operand),
        AxError,
    >)
        requires
            i.wf(),
            i.op_count() >= 2,
        ensures
            match (resolved_operand(*i, 0), resolved_operand(*i, 1)) {
                (Some(d), Some(s)) => r == Ok::<(Operand, Operand), AxError>((d, s)) && d.wf()
                    && s.wf(),
                _ => r is Err && r->Err_0.kind == ErrorKind::UnsupportedOperand
                    && !r->Err_0.signals_normal_finish,
            },
    {
        let dest = self.instruction_operand(i, 0)?;
        let src = self.instruction_operand(i, 1)?;
        Ok((dest, src))
    }
}

} // verus!
