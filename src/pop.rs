//! The POP instruction: reads the value at the stack pointer into a register and
//! moves the stack pointer past it, as one step.

use vstd::prelude::*;
use crate::axecutor::Axecutor;
use crate::decoded::{DecodedInstruction, Encoding};
use crate::errors::{AxError, ErrorKind};
use crate::memory::le_value;
use crate::operand::{resolved_operand, Operand};
use crate::registers::{merged_cell, RegisterWrapper, Width, RSP_NUMBER};

verus! {

/// What popping a value of width `w` into the register operand of `i` does on state
/// `s`: the register, the value read at the stack pointer and the new stack pointer;
/// or the kind of the error it fails with.
pub open spec fn pop_outcome(s: &Axecutor, i: DecodedInstruction, w: Width) -> Result<
    (RegisterWrapper, u64, u64),
    ErrorKind,
> {
    if i.op_count() < 1 {
        Err(ErrorKind::Defect)
    } else {
        match resolved_operand(i, 0) {
            Some(Operand::Register(r)) => {
                let sp = s.cells()[RSP_NUMBER as int];
                if s.memory().covers(sp as int, w.byte_count()) {
                    Ok(
                        (
                            r,
                            le_value(s.memory().bytes_at(sp as int, w.byte_count())) as u64,
                            ((sp + w.byte_count()) % 0x1_0000_0000_0000_0000) as u64,
                        ),
                    )
                } else {
                    Err(ErrorKind::UninitializedAccess)
                }
            },
            Some(_) => Err(ErrorKind::Defect),
            None => Err(ErrorKind::UnsupportedOperand),
        }
    }
}

/// `new` is `old` after the pop outcome `o`: on success the stack pointer moved and
/// then the register was written, with flags and memory kept; on failure nothing
/// changed.
pub open spec fn pop_applied(
    old: &Axecutor,
    new: &Axecutor,
    o: Result<(RegisterWrapper, u64, u64), ErrorKind>,
    r: Result<(), AxError>,
) -> bool {
    match o {
        Ok((reg, v, sp)) => {
            let moved = old.cells().update(RSP_NUMBER as int, sp);
            &&& r is Ok
            &&& new.cells() == moved.update(
                reg.number as int,
                merged_cell(moved[reg.number as int], reg, v),
            )
            &&& new.flags() == old.flags()
            &&& new.memory()@ == old.memory()@
        },
        Err(k) => {
            &&& r is Err
            &&& r->Err_0.kind == k
            &&& !r->Err_0.signals_normal_finish
            &&& new.same_state(old)
        },
    }
}

impl Axecutor {
    /// Executes a POP instruction; `i` must have a POP encoding other than the
    /// 32-bit register form, which 64-bit mode cannot encode. The register forms of
    /// 16 and 64 bits are handled; the memory forms give the unimplemented signal.
    pub fn mnemonic_pop(&mut self, i: &DecodedInstruction) -> (r: Result<(), AxError>)
        requires
            old(self).wf(),
            i.wf(),
            i.code.is_pop(),
            i.code != Encoding::PopR32,
        ensures
            final(self).wf(),
            i.code == Encoding::PopR16 ==> pop_applied(
                old(self),
                final(self),
                pop_outcome(old(self), *i, Width::W16),
                r,
            ),
            i.code == Encoding::PopR64 ==> pop_applied(
                old(self),
                final(self),
                pop_outcome(old(self), *i, Width::W64),
                r,
            ),
            i.code == Encoding::PopRm16 ==> unimplemented_signal(
                old(self),
                final(self),
                r,
                "instr_pop_rm16 for Pop"@,
            ),
            i.code == Encoding::PopRm32 ==> unimplemented_signal(
                old(self),
                final(self),
                r,
                "instr_pop_rm32 for Pop"@,
            ),
            i.code == Encoding::PopRm64 ==> unimplemented_signal(
                old(self),
                final(self),
                r,
                "instr_pop_rm64 for Pop"@,
            ),
    {
        match i.code {
            Encoding::PopR16 => self.pop_register(i, Width::W16),
            Encoding::PopR64 => self.pop_register(i, Width::W64),
            Encoding::PopRm16 => Err(unimplemented_opcode("instr_pop_rm16 for Pop")),
            Encoding::PopRm32 => Err(unimplemented_opcode("instr_pop_rm32 for Pop")),
            Encoding::PopRm64 => Err(unimplemented_opcode("instr_pop_rm64 for Pop")),
            _ => {
                proof {
                    assert(false);
                }
                Ok(())
            },
        }
    }

    /// Pops a value of width `w` into the register operand of `i`.
    fn pop_register(&mut self, i: &DecodedInstruction, w: Width) -> (r: Result<(), AxError>)
        requires
            old(self).wf(),
            i.wf(),
        ensures
            final(self).wf(),
            pop_applied(old(self), final(self), pop_outcome(old(self), *i, w), r),
    {
        if i.op_kinds.len() < 1 {
            return Err(AxError::new(ErrorKind::Defect, "Pop expects one operand"));
        }
        let reg = match self.instruction_operand(i, 0)? {
            Operand::Register(reg) => reg,
            _ => {
                return Err(AxError::new(ErrorKind::Defect, "Pop expects a register operand"));
            },
        };
        let rsp = RegisterWrapper::full(RSP_NUMBER);
        let sp = self.reg_read(rsp);
        assert(sp == self.cells()[RSP_NUMBER as int]) by {
            let c = self.cells()[RSP_NUMBER as int];
            assert(c & 0xffff_ffff_ffff_ffff == c) by (bit_vector);
        }
        let value = self.mem_read(sp, w)?;
        self.reg_write(rsp, sp.wrapping_add(w.bytes() as u64));
        self.reg_write(reg, value);
        Ok(())
    }
}

/// `r` is the unimplemented-opcode signal naming `name`, and `new` is `old`.
pub open spec fn unimplemented_signal(
    old: &Axecutor,
    new: &Axecutor,
    r: Result<(), AxError>,
    name: Seq<char>,
) -> bool {
    &&& r is Err
    &&& r->Err_0.kind == ErrorKind::Unimplemented
    &&& r->Err_0.message@ == "Executed unimplemented opcode: "@ + name
    &&& !r->Err_0.signals_normal_finish
    &&& new.same_state(old)
}

/// The signal for an encoding that has no handler yet, naming it.
pub fn unimplemented_opcode(name: &str) -> (e: AxError)
    ensures
        e.kind == ErrorKind::Unimplemented,
        e.message@ == "Executed unimplemented opcode: "@ + name@,
        !e.signals_normal_finish,
{
    AxError::with_subject(ErrorKind::Unimplemented, "Executed unimplemented opcode: ", name)
}

} // verus!
