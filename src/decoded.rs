//! The decoder boundary: what the core reads of one decoded instruction, as plain
//! values, and its conversion from the instructions that `iced_x86` decodes.

use vstd::prelude::*;
use crate::registers::{RegisterWrapper, Width};

verus! {

#[verifier::external_type_specification]
#[verifier::external_body]
pub struct ExInstruction(iced_x86::Instruction);

#[verifier::external_type_specification]
pub struct ExCode(iced_x86::Code);

#[verifier::external_type_specification]
pub struct ExOpKind(iced_x86::OpKind);

#[verifier::external_type_specification]
pub struct ExRegister(iced_x86::Register);

/// Relies on `Instruction::code` of iced_x86: the instruction's encoding.
pub assume_specification[ iced_x86::Instruction::code ](
    i: &iced_x86::Instruction,
) -> iced_x86::Code;

/// Relies on `Instruction::op_count` of iced_x86, documented to return 0 to 5.
pub assume_specification[ iced_x86::Instruction::op_count ](i: &iced_x86::Instruction) -> (r: u32)
    ensures
        r <= 5,
;

/// Relies on `Instruction::op_kind` of iced_x86, which asserts (in debug builds) that
/// `operand` is at most 4.
pub assume_specification[ iced_x86::Instruction::op_kind ](
    i: &iced_x86::Instruction,
    operand: u32,
) -> iced_x86::OpKind
    requires
        operand < 5,
;

/// Relies on `Instruction::op_register` of iced_x86, which asserts (in debug builds)
/// that `operand` is at most 4.
pub assume_specification[ iced_x86::Instruction::op_register ](
    i: &iced_x86::Instruction,
    operand: u32,
) -> iced_x86::Register
    requires
        operand < 5,
;

/// Relies on `Instruction::memory_base` of iced_x86.
pub assume_specification[ iced_x86::Instruction::memory_base ](
    i: &iced_x86::Instruction,
) -> iced_x86::Register;

/// Relies on `Instruction::memory_index` of iced_x86.
pub assume_specification[ iced_x86::Instruction::memory_index ](
    i: &iced_x86::Instruction,
) -> iced_x86::Register;

/// Relies on `Instruction::memory_index_scale` of iced_x86: `1 << s` for a two-bit `s`.
pub assume_specification[ iced_x86::Instruction::memory_index_scale ](
    i: &iced_x86::Instruction,
) -> (r: u32)
    ensures
        r == 1 || r == 2 || r == 4 || r == 8,
;

/// Relies on `Instruction::memory_displacement64` of iced_x86 (the absolute address
/// for a `RIP`-relative operand).
pub assume_specification[ iced_x86::Instruction::memory_displacement64 ](
    i: &iced_x86::Instruction,
) -> u64;

/// Relies on `Instruction::immediate8` of iced_x86.
pub assume_specification[ iced_x86::Instruction::immediate8 ](i: &iced_x86::Instruction) -> u8;

/// Relies on `Instruction::immediate8_2nd` of iced_x86.
pub assume_specification[ iced_x86::Instruction::immediate8_2nd ](
    i: &iced_x86::Instruction,
) -> u8;

/// Relies on `Instruction::immediate16` of iced_x86.
pub assume_specification[ iced_x86::Instruction::immediate16 ](i: &iced_x86::Instruction) -> u16;

/// Relies on `Instruction::immediate32` of iced_x86.
pub assume_specification[ iced_x86::Instruction::immediate32 ](i: &iced_x86::Instruction) -> u32;

/// Relies on `Instruction::immediate64` of iced_x86.
pub assume_specification[ iced_x86::Instruction::immediate64 ](i: &iced_x86::Instruction) -> u64;

/// Relies on `Instruction::immediate8to16` of iced_x86.
pub assume_specification[ iced_x86::Instruction::immediate8to16 ](
    i: &iced_x86::Instruction,
) -> i16;

/// Relies on `Instruction::immediate8to32` of iced_x86.
pub assume_specification[ iced_x86::Instruction::immediate8to32 ](
    i: &iced_x86::Instruction,
) -> i32;

/// Relies on `Instruction::immediate8to64` of iced_x86.
pub assume_specification[ iced_x86::Instruction::immediate8to64 ](
    i: &iced_x86::Instruction,
) -> i64;

/// Relies on `Instruction::immediate32to64` of iced_x86.
pub assume_specification[ iced_x86::Instruction::immediate32to64 ](
    i: &iced_x86::Instruction,
) -> i64;

/// Instruction mnemonics that have handlers.
#[derive(Debug, Clone, Copy, PartialEq, Eq, Structural)]
pub enum Mnemonic {
    Add,
    Pop,
    Other,
}

/// Opcode-encoding variants that have handlers, named after their operand shapes.
#[derive(Debug, Clone, Copy, PartialEq, Eq, Structural)]
pub enum Encoding {
    AddRm8R8,
    AddRm16R16,
    AddRm32R32,
    AddRm64R64,
    AddR8Rm8,
    AddR16Rm16,
    AddR32Rm32,
    AddR64Rm64,
    AddAlImm8,
    AddAxImm16,
    AddEaxImm32,
    AddRaxImm32,
    AddRm8Imm8,
    AddRm16Imm16,
    AddRm32Imm32,
    AddRm64Imm32,
    AddRm8Imm8_82,
    AddRm16Imm8,
    AddRm32Imm8,
    AddRm64Imm8,
    PopR16,
    PopR32,
    PopR64,
    PopRm16,
    PopRm32,
    PopRm64,
    Other,
}

impl Encoding {
    pub open spec fn is_add(self) -> bool {
        match self {
            Encoding::AddRm8R8 | Encoding::AddRm16R16 | Encoding::AddRm32R32
            | Encoding::AddRm64R64 | Encoding::AddR8Rm8 | Encoding::AddR16Rm16
            | Encoding::AddR32Rm32 | Encoding::AddR64Rm64 | Encoding::AddAlImm8
            | Encoding::AddAxImm16 | Encoding::AddEaxImm32 | Encoding::AddRaxImm32
            | Encoding::AddRm8Imm8 | Encoding::AddRm16Imm16 | Encoding::AddRm32Imm32
            | Encoding::AddRm64Imm32 | Encoding::AddRm8Imm8_82 | Encoding::AddRm16Imm8
            | Encoding::AddRm32Imm8 | Encoding::AddRm64Imm8 => true,
            _ => false,
        }
    }

    pub open spec fn is_pop(self) -> bool {
        self == Encoding::PopR16 || self == Encoding::PopR32 || self == Encoding::PopR64 || self
            == Encoding::PopRm16 || self == Encoding::PopRm32 || self == Encoding::PopRm64
    }

    pub open spec fn mnemonic_of(self) -> Mnemonic {
        if self.is_add() {
            Mnemonic::Add
        } else if self.is_pop() {
            Mnemonic::Pop
        } else {
            Mnemonic::Other
        }
    }

    /// The mnemonic that this encoding belongs to.
    pub fn mnemonic(self) -> (m: Mnemonic)
        ensures
            m == self.mnemonic_of(),
    {
        match self {
            Encoding::PopR16 | Encoding::PopR32 | Encoding::PopR64 | Encoding::PopRm16
            | Encoding::PopRm32 | Encoding::PopRm64 => Mnemonic::Pop,
            Encoding::Other => Mnemonic::Other,
            _ => Mnemonic::Add,
        }
    }
}

/// Operand kinds as the decoder reports them.
#[derive(Debug, Clone, Copy, PartialEq, Eq, Structural)]
pub enum OperandKind {
    Register,
    Memory,
    Immediate8,
    Immediate8_2nd,
    Immediate16,
    Immediate32,
    Immediate64,
    Immediate8to16,
    Immediate8to32,
    Immediate8to64,
    Immediate32to64,
    Other,
}

/// A register as the decoder reports it.
#[derive(Debug, Clone, Copy, PartialEq, Eq, Structural)]
pub enum DecodedRegister {
    /// No register.
    Absent,
    /// The instruction pointer (`RIP` or `EIP`); the displacement of an operand
    /// relative to it is already the absolute address.
    Rip,
    /// A general-purpose register view.
    Gpr(RegisterWrapper),
    /// Any other register.
    Other,
}

impl DecodedRegister {
    pub open spec fn wf(self) -> bool {
        match self {
            DecodedRegister::Gpr(r) => r.wf(),
            _ => true,
        }
    }
}

/// One decoded instruction: its encoding, the kind of each operand, the register of
/// each register operand, the fields of its memory operand and its immediates.
#[derive(Debug, Clone, PartialEq, Eq)]
pub struct DecodedInstruction {
    pub code: Encoding,
    pub op_kinds: Vec<OperandKind>,
    pub op_registers: Vec<DecodedRegister>,
    pub memory_base: DecodedRegister,
    pub memory_index: DecodedRegister,
    pub memory_index_scale: u32,
    pub memory_displacement: u64,
    pub immediate8: u8,
    pub immediate8_2nd: u8,
    pub immediate16: u16,
    pub immediate32: u32,
    pub immediate64: u64,
    pub immediate8to16: i16,
    pub immediate8to32: i32,
    pub immediate8to64: i64,
    pub immediate32to64: i64,
}

impl DecodedInstruction {
    pub open spec fn op_count(&self) -> nat {
        self.op_kinds@.len()
    }

    /// Operand registers line up with operand kinds, and every register view is valid.
    pub open spec fn wf(&self) -> bool {
        &&& self.op_registers@.len() == self.op_kinds@.len()
        &&& self.op_kinds@.len() <= 5
        &&& forall|k: int|
            0 <= k < self.op_registers@.len() ==> #[trigger] self.op_registers@[k].wf()
        &&& self.memory_base.wf()
        &&& self.memory_index.wf()
    }

    /// Reads what the core needs of an instruction that iced_x86 decoded.
    pub fn from_iced(i: &iced_x86::Instruction) -> (d: DecodedInstruction)
        ensures
            d.wf(),
            d.memory_index_scale == 1 || d.memory_index_scale == 2 || d.memory_index_scale == 4
                || d.memory_index_scale == 8,
    {
        let n = i.op_count();
        let mut op_kinds: Vec<OperandKind> = Vec::new();
        let mut op_registers: Vec<DecodedRegister> = Vec::new();
        let mut k: u32 = 0;
        while k < n
            invariant
                n <= 5,
                k <= n,
                op_kinds@.len() == k,
                op_registers@.len() == k,
                forall|j: int| 0 <= j < k ==> #[trigger] op_registers@[j].wf(),
            decreases n - k,
        {
            op_kinds.push(op_kind_from_iced(i.op_kind(k)));
            op_registers.push(register_from_iced(i.op_register(k)));
            k = k + 1;
        }
        DecodedInstruction {
            code: code_from_iced(i.code()),
            op_kinds,
            op_registers,
            memory_base: register_from_iced(i.memory_base()),
            memory_index: register_from_iced(i.memory_index()),
            memory_index_scale: i.memory_index_scale(),
            memory_displacement: i.memory_displacement64(),
            immediate8: i.immediate8(),
            immediate8_2nd: i.immediate8_2nd(),
            immediate16: i.immediate16(),
            immediate32: i.immediate32(),
            immediate64: i.immediate64(),
            immediate8to16: i.immediate8to16(),
            immediate8to32: i.immediate8to32(),
            immediate8to64: i.immediate8to64(),
            immediate32to64: i.immediate32to64(),
        }
    }
}

/// The general-purpose register view that an iced_x86 register names.
#[verifier::rlimit(50)]
fn register_from_iced(r: iced_x86::Register) -> (d: DecodedRegister)
    ensures
        d.wf(),
{
    let (number, width, high_byte): (u8, Width, bool) = match r {
        iced_x86::Register::None => {
            return DecodedRegister::Absent;
        },
        iced_x86::Register::RIP | iced_x86::Register::EIP => {
            return DecodedRegister::Rip;
        },
        iced_x86::Register::AL => (0, Width::W8, false),
        iced_x86::Register::CL => (1, Width::W8, false),
        iced_x86::Register::DL => (2, Width::W8, false),
        iced_x86::Register::BL => (3, Width::W8, false),
        iced_x86::Register::SPL => (4, Width::W8, false),
        iced_x86::Register::BPL => (5, Width::W8, false),
        iced_x86::Register::SIL => (6, Width::W8, false),
        iced_x86::Register::DIL => (7, Width::W8, false),
        iced_x86::Register::R8L => (8, Width::W8, false),
        iced_x86::Register::R9L => (9, Width::W8, false),
        iced_x86::Register::R10L => (10, Width::W8, false),
        iced_x86::Register::R11L => (11, Width::W8, false),
        iced_x86::Register::R12L => (12, Width::W8, false),
        iced_x86::Register::R13L => (13, Width::W8, false),
        iced_x86::Register::R14L => (14, Width::W8, false),
        iced_x86::Register::R15L => (15, Width::W8, false),
        iced_x86::Register::AH => (0, Width::W8, true),
        iced_x86::Register::CH => (1, Width::W8, true),
        iced_x86::Register::DH => (2, Width::W8, true),
        iced_x86::Register::BH => (3, Width::W8, true),
        iced_x86::Register::AX => (0, Width::W16, false),
        iced_x86::Register::CX => (1, Width::W16, false),
        iced_x86::Register::DX => (2, Width::W16, false),
        iced_x86::Register::BX => (3, Width::W16, false),
        iced_x86::Register::SP => (4, Width::W16, false),
        iced_x86::Register::BP => (5, Width::W16, false),
        iced_x86::Register::SI => (6, Width::W16, false),
        iced_x86::Register::DI => (7, Width::W16, false),
        iced_x86::Register::R8W => (8, Width::W16, false),
        iced_x86::Register::R9W => (9, Width::W16, false),
        iced_x86::Register::R10W => (10, Width::W16, false),
        iced_x86::Register::R11W => (11, Width::W16, false),
        iced_x86::Register::R12W => (12, Width::W16, false),
        iced_x86::Register::R13W => (13, Width::W16, false),
        iced_x86::Register::R14W => (14, Width::W16, false),
        iced_x86::Register::R15W => (15, Width::W16, false),
        iced_x86::Register::EAX => (0, Width::W32, false),
        iced_x86::Register::ECX => (1, Width::W32, false),
        iced_x86::Register::EDX => (2, Width::W32, false),
        iced_x86::Register::EBX => (3, Width::W32, false),
        iced_x86::Register::ESP => (4, Width::W32, false),
        iced_x86::Register::EBP => (5, Width::W32, false),
        iced_x86::Register::ESI => (6, Width::W32, false),
        iced_x86::Register::EDI => (7, Width::W32, false),
        iced_x86::Register::R8D => (8, Width::W32, false),
        iced_x86::Register::R9D => (9, Width::W32, false),
        iced_x86::Register::R10D => (10, Width::W32, false),
        iced_x86::Register::R11D => (11, Width::W32, false),
        iced_x86::Register::R12D => (12, Width::W32, false),
        iced_x86::Register::R13D => (13, Width::W32, false),
        iced_x86::Register::R14D => (14, Width::W32, false),
        iced_x86::Register::R15D => (15, Width::W32, false),
        iced_x86::Register::RAX => (0, Width::W64, false),
        iced_x86::Register::RCX => (1, Width::W64, false),
        iced_x86::Register::RDX => (2, Width::W64, false),
        iced_x86::Register::RBX => (3, Width::W64, false),
        iced_x86::Register::RSP => (4, Width::W64, false),
        iced_x86::Register::RBP => (5, Width::W64, false),
        iced_x86::Register::RSI => (6, Width::W64, false),
        iced_x86::Register::RDI => (7, Width::W64, false),
        iced_x86::Register::R8 => (8, Width::W64, false),
        iced_x86::Register::R9 => (9, Width::W64, false),
        iced_x86::Register::R10 => (10, Width::W64, false),
        iced_x86::Register::R11 => (11, Width::W64, false),
        iced_x86::Register::R12 => (12, Width::W64, false),
        iced_x86::Register::R13 => (13, Width::W64, false),
        iced_x86::Register::R14 => (14, Width::W64, false),
        iced_x86::Register::R15 => (15, Width::W64, false),
        _ => {
            return DecodedRegister::Other;
        },
    };
    DecodedRegister::Gpr(RegisterWrapper { number, width, high_byte })
}

fn op_kind_from_iced(k: iced_x86::OpKind) -> OperandKind {
    match k {
        iced_x86::OpKind::Register => OperandKind::Register,
        iced_x86::OpKind::Memory => OperandKind::Memory,
        iced_x86::OpKind::Immediate8 => OperandKind::Immediate8,
        iced_x86::OpKind::Immediate8_2nd => OperandKind::Immediate8_2nd,
        iced_x86::OpKind::Immediate16 => OperandKind::Immediate16,
        iced_x86::OpKind::Immediate32 => OperandKind::Immediate32,
        iced_x86::OpKind::Immediate64 => OperandKind::Immediate64,
        iced_x86::OpKind::Immediate8to16 => OperandKind::Immediate8to16,
        iced_x86::OpKind::Immediate8to32 => OperandKind::Immediate8to32,
        iced_x86::OpKind::Immediate8to64 => OperandKind::Immediate8to64,
        iced_x86::OpKind::Immediate32to64 => OperandKind::Immediate32to64,
        _ => OperandKind::Other,
    }
}

fn code_from_iced(c: iced_x86::Code) -> Encoding {
    match c {
        iced_x86::Code::Add_rm8_r8 => Encoding::AddRm8R8,
        iced_x86::Code::Add_rm16_r16 => Encoding::AddRm16R16,
        iced_x86::Code::Add_rm32_r32 => Encoding::AddRm32R32,
        iced_x86::Code::Add_rm64_r64 => Encoding::AddRm64R64,
        iced_x86::Code::Add_r8_rm8 => Encoding::AddR8Rm8,
        iced_x86::Code::Add_r16_rm16 => Encoding::AddR16Rm16,
        iced_x86::Code::Add_r32_rm32 => Encoding::AddR32Rm32,
        iced_x86::Code::Add_r64_rm64 => Encoding::AddR64Rm64,
        iced_x86::Code::Add_AL_imm8 => Encoding::AddAlImm8,
        iced_x86::Code::Add_AX_imm16 => Encoding::AddAxImm16,
        iced_x86::Code::Add_EAX_imm32 => Encoding::AddEaxImm32,
        iced_x86::Code::Add_RAX_imm32 => Encoding::AddRaxImm32,
        iced_x86::Code::Add_rm8_imm8 => Encoding::AddRm8Imm8,
        iced_x86::Code::Add_rm16_imm16 => Encoding::AddRm16Imm16,
        iced_x86::Code::Add_rm32_imm32 => Encoding::AddRm32Imm32,
        iced_x86::Code::Add_rm64_imm32 => Encoding::AddRm64Imm32,
        iced_x86::Code::Add_rm8_imm8_82 => Encoding::AddRm8Imm8_82,
        iced_x86::Code::Add_rm16_imm8 => Encoding::AddRm16Imm8,
        iced_x86::Code::Add_rm32_imm8 => Encoding::AddRm32Imm8,
        iced_x86::Code::Add_rm64_imm8 => Encoding::AddRm64Imm8,
        iced_x86::Code::Pop_r16 => Encoding::PopR16,
        iced_x86::Code::Pop_r32 => Encoding::PopR32,
        iced_x86::Code::Pop_r64 => Encoding::PopR64,
        iced_x86::Code::Pop_rm16 => Encoding::PopRm16,
        iced_x86::Code::Pop_rm32 => Encoding::PopRm32,
        iced_x86::Code::Pop_rm64 => Encoding::PopRm64,
        _ => Encoding::Other,
    }
}

} // verus!
