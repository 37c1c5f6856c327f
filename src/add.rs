//! The ADD instruction: all of its encodings add the source operand to the
//! destination operand at the encoding's width and define the six status flags.

use vstd::prelude::*;
use crate::axecutor::Axecutor;
use crate::decoded::{DecodedInstruction, Encoding};
use crate::errors::{AxError, ErrorKind};
use crate::flags::{add_flags, add_sized, add_value, STATUS_FLAGS};
use crate::operand::{resolved_operand, Operand};
use crate::registers::Width;

verus! {

/// The operand width of an ADD encoding.
pub open spec fn add_width(code: Encoding) -> Width {
    match code {
        Encoding::AddRm8R8 | Encoding::AddR8Rm8 | Encoding::AddAlImm8 | Encoding::AddRm8Imm8
        | Encoding::AddRm8Imm8_82 => Width::W8,
        Encoding::AddRm16R16 | Encoding::AddR16Rm16 | Encoding::AddAxImm16
        | Encoding::AddRm16Imm16 | Encoding::AddRm16Imm8 => Width::W16,
        Encoding::AddRm32R32 | Encoding::AddR32Rm32 | Encoding::AddEaxImm32
        | Encoding::AddRm32Imm32 | Encoding::AddRm32Imm8 => Width::W32,
        _ => Width::W64,
    }
}

/// What `dest += src` at width `w` does on state `s`: the destination, the value
/// written to it and the status flags; or the kind of the error it fails with.
pub open spec fn add_outcome(s: &Axecutor, i: DecodedInstruction, w: Width) -> Result<
    (Operand, u64, u64),
    ErrorKind,
> {
    if i.op_count() < 2 {
        Err(ErrorKind::Defect)
    } else {
        match (resolved_operand(i, 0), resolved_operand(i, 1)) {
            (Some(dest), Some(src)) => if dest is Immediate {
                Err(ErrorKind::Defect)
            } else {
                match (s.operand_value(dest, w), s.operand_value(src, w)) {
                    (Some(d), Some(v)) => Ok(
                        (dest, add_value(d, v, w), add_flags(d as int, v as int, w.bits())),
                    ),
                    _ => Err(ErrorKind::UninitializedAccess),
                }
            },
            _ => Err(ErrorKind::UnsupportedOperand),
        }
    }
}

/// `new` is `old` after the outcome `o` of an instruction: on success the
/// destination is written and the status flags replaced; on failure nothing changed.
pub open spec fn outcome_applied(
    old: &Axecutor,
    new: &Axecutor,
    o: Result<(Operand, u64, u64), ErrorKind>,
    w: Width,
    r: Result<(), AxError>,
) -> bool {
    match o {
        Ok((dest, v, f)) => {
            &&& r is Ok
            &&& Axecutor::operand_written(old, new, dest, w, v)
            &&& new.flags() == (old.flags() & !STATUS_FLAGS) | (f & STATUS_FLAGS)
        },
        Err(k) => {
            &&& r is Err
            &&& r->Err_0.kind == k
            &&& !r->Err_0.signals_normal_finish
            &&& new.same_state(old)
        },
    }
}

impl Axecutor {
    /// Executes an ADD instruction; `i` must have an ADD encoding.
    pub fn mnemonic_add(&mut self, i: &DecodedInstruction) -> (r: Result<(), AxError>)
        requires
            old(self).wf(),
            i.wf(),
            i.code.is_add(),
        ensures
            final(self).wf(),
            outcome_applied(
                old(self),
                final(self),
                add_outcome(old(self), *i, add_width(i.code)),
                add_width(i.code),
                r,
            ),
    {
        match i.code {
            Encoding::AddRm8R8 | Encoding::AddR8Rm8 | Encoding::AddAlImm8 | Encoding::AddRm8Imm8
            | Encoding::AddRm8Imm8_82 => self.add_operands(i, Width::W8),
            Encoding::AddRm16R16 | Encoding::AddR16Rm16 | Encoding::AddAxImm16
            | Encoding::AddRm16Imm16 | Encoding::AddRm16Imm8 => self.add_operands(i, Width::W16),
            Encoding::AddRm32R32 | Encoding::AddR32Rm32 | Encoding::AddEaxImm32
            | Encoding::AddRm32Imm32 | Encoding::AddRm32Imm8 => self.add_operands(i, Width::W32),
            Encoding::AddRm64R64 | Encoding::AddR64Rm64 | Encoding::AddRaxImm32
            | Encoding::AddRm64Imm32 | Encoding::AddRm64Imm8 => self.add_operands(i, Width::W64),
            _ => {
                proof {
                    assert(false);
                }
                Ok(())
            },
        }
    }

    /// `dest += src` at width `w`, for the two operands of `i`.
    fn add_operands(&mut self, i: &DecodedInstruction, w: Width) -> (r: Result<(), AxError>)
        requires
            old(self).wf(),
            i.wf(),
        ensures
            final(self).wf(),
            outcome_applied(old(self), final(self), add_outcome(old(self), *i, w), w, r),
    {
        if i.op_kinds.len() < 2 {
            return Err(AxError::new(ErrorKind::Defect, "Add expects two operands"));
        }
        let (dest, src) = self.instruction_operands_2(i)?;
        if let Operand::Immediate { .. } = dest {
            return Err(AxError::new(ErrorKind::Defect, "Add cannot write to an immediate"));
        }
        let d = self.read_operand(dest, w)?;
        let s = self.read_operand(src, w)?;
        let (result, flags) = add_sized(d, s, w);
        self.write_operand(dest, w, result)?;
        self.update_flags(STATUS_FLAGS, flags);
        Ok(())
    }
}

} // verus!
