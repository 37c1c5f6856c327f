//! First level of dispatch: from the mnemonic of a decoded instruction to its
//! mnemonic's handler table.

use vstd::prelude::*;
use crate::add::{add_outcome, add_width, outcome_applied};
use crate::axecutor::Axecutor;
use crate::decoded::{DecodedInstruction, Encoding, Mnemonic};
use crate::errors::{AxError, ErrorKind};
use crate::pop::{pop_applied, pop_outcome, unimplemented_opcode, unimplemented_signal};
use crate::registers::Width;

verus! {

impl Axecutor {
    /// Executes one decoded instruction. Instructions of a mnemonic without a
    /// handler table give the unimplemented-opcode signal; on any error the state
    /// is left as it was and the error's detail names the encoding.
    pub fn execute(&mut self, i: &DecodedInstruction) -> (r: Result<(), AxError>)
        requires
            old(self).wf(),
            i.wf(),
        ensures
            final(self).wf(),
            r is Err ==> final(self).same_state(old(self)) && !r->Err_0.signals_normal_finish
                && (r->Err_0.detail matches Some(d) && d@ == encoding_label(i.code)@ + ": "@),
            i.code.is_add() ==> outcome_applied(
                old(self),
                final(self),
                add_outcome(old(self), *i, add_width(i.code)),
                add_width(i.code),
                r,
            ),
            i.code == Encoding::PopR16 ==> pop_applied(
                old(self),
                final(self),
                pop_outcome(old(self), *i, Width::W16),
                r,
            ),
            i.code == Encoding::PopR64 ==> pop_applied(
                old(self),
                final(self),
                pop_outcome(old(self), *i, Width::W64),
                r,
            ),
            i.code == Encoding::PopRm16 ==> unimplemented_signal(
                old(self),
                final(self),
                r,
                "instr_pop_rm16 for Pop"@,
            ),
            i.code == Encoding::PopRm32 ==> unimplemented_signal(
                old(self),
                final(self),
                r,
                "instr_pop_rm32 for Pop"@,
            ),
            i.code == Encoding::PopRm64 ==> unimplemented_signal(
                old(self),
                final(self),
                r,
                "instr_pop_rm64 for Pop"@,
            ),
            i.code == Encoding::Other ==> r is Err && r->Err_0.kind == ErrorKind::Unimplemented,
            i.code == Encoding::PopR32 ==> r is Err && r->Err_0.kind == ErrorKind::Defect,
    {
        let r = match i.code.mnemonic() {
            Mnemonic::Add => self.mnemonic_add(i),
            Mnemonic::Pop => if let Encoding::PopR32 = i.code {
                Err(
                    AxError::new(
                        ErrorKind::Defect,
                        "There's no prefix for encoding this in 64-bit x86-64 (see Intel manual)",
                    ),
                )
            } else {
                self.mnemonic_pop(i)
            },
            Mnemonic::Other => Err(unimplemented_opcode("instruction without a handler")),
        };
        match r {
            Ok(()) => Ok(()),
            Err(e) => Err(e.in_context(encoding_name(i.code))),
        }
    }
}

/// The name of an encoding, as the decoder spells it.
pub open spec fn encoding_label(code: Encoding) -> &'static str {
    match code {
        Encoding::AddRm8R8 => "Add_rm8_r8",
        Encoding::AddRm16R16 => "Add_rm16_r16",
        Encoding::AddRm32R32 => "Add_rm32_r32",
        Encoding::AddRm64R64 => "Add_rm64_r64",
        Encoding::AddR8Rm8 => "Add_r8_rm8",
        Encoding::AddR16Rm16 => "Add_r16_rm16",
        Encoding::AddR32Rm32 => "Add_r32_rm32",
        Encoding::AddR64Rm64 => "Add_r64_rm64",
        Encoding::AddAlImm8 => "Add_AL_imm8",
        Encoding::AddAxImm16 => "Add_AX_imm16",
        Encoding::AddEaxImm32 => "Add_EAX_imm32",
        Encoding::AddRaxImm32 => "Add_RAX_imm32",
        Encoding::AddRm8Imm8 => "Add_rm8_imm8",
        Encoding::AddRm16Imm16 => "Add_rm16_imm16",
        Encoding::AddRm32Imm32 => "Add_rm32_imm32",
        Encoding::AddRm64Imm32 => "Add_rm64_imm32",
        Encoding::AddRm8Imm8_82 => "Add_rm8_imm8_82",
        Encoding::AddRm16Imm8 => "Add_rm16_imm8",
        Encoding::AddRm32Imm8 => "Add_rm32_imm8",
        Encoding::AddRm64Imm8 => "Add_rm64_imm8",
        Encoding::PopR16 => "Pop_r16",
        Encoding::PopR32 => "Pop_r32",
        Encoding::PopR64 => "Pop_r64",
        Encoding::PopRm16 => "Pop_rm16",
        Encoding::PopRm32 => "Pop_rm32",
        Encoding::PopRm64 => "Pop_rm64",
        Encoding::Other => "unsupported instruction",
    }
}

/// The name of an encoding, as the decoder spells it.
fn encoding_name(code: Encoding) -> (s: &'static str)
    ensures
        s == encoding_label(code),
{
    match code {
        Encoding::AddRm8R8 => "Add_rm8_r8",
        Encoding::AddRm16R16 => "Add_rm16_r16",
        Encoding::AddRm32R32 => "Add_rm32_r32",
        Encoding::AddRm64R64 => "Add_rm64_r64",
        Encoding::AddR8Rm8 => "Add_r8_rm8",
        Encoding::AddR16Rm16 => "Add_r16_rm16",
        Encoding::AddR32Rm32 => "Add_r32_rm32",
        Encoding::AddR64Rm64 => "Add_r64_rm64",
        Encoding::AddAlImm8 => "Add_AL_imm8",
        Encoding::AddAxImm16 => "Add_AX_imm16",
        Encoding::AddEaxImm32 => "Add_EAX_imm32",
        Encoding::AddRaxImm32 => "Add_RAX_imm32",
        Encoding::AddRm8Imm8 => "Add_rm8_imm8",
        Encoding::AddRm16Imm16 => "Add_rm16_imm16",
        Encoding::AddRm32Imm32 => "Add_rm32_imm32",
        Encoding::AddRm64Imm32 => "Add_rm64_imm32",
        Encoding::AddRm8Imm8_82 => "Add_rm8_imm8_82",
        Encoding::AddRm16Imm8 => "Add_rm16_imm8",
        Encoding::AddRm32Imm8 => "Add_rm32_imm8",
        Encoding::AddRm64Imm8 => "Add_rm64_imm8",
        Encoding::PopR16 => "Pop_r16",
        Encoding::PopR32 => "Pop_r32",
        Encoding::PopR64 => "Pop_r64",
        Encoding::PopRm16 => "Pop_rm16",
        Encoding::PopRm32 => "Pop_rm32",
        Encoding::PopRm64 => "Pop_rm64",
        Encoding::Other => "unsupported instruction",
    }
}

} // verus!
