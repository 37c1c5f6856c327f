use axecutor_core::axecutor::Axecutor;
use axecutor_core::decoded::{DecodedInstruction, DecodedRegister, Encoding, OperandKind};
use axecutor_core::errors::ErrorKind;
use axecutor_core::flags::{
    add_sized, add_u16, add_u32, add_u64, add_u8, FLAG_AF, FLAG_CF, FLAG_OF, FLAG_PF, FLAG_SF,
    FLAG_ZF,
};
use axecutor_core::operand::{MemOperand, Operand};
use axecutor_core::registers::{RegisterWrapper, Width};

const TEST_RIP_VALUE: u64 = 0x1000;

const RAX: u8 = 0;
const RCX: u8 = 1;
const RBX: u8 = 3;
const RSP: u8 = 4;
const R11: u8 = 11;
const R12: u8 = 12;
const R15: u8 = 15;

fn reg(number: u8, width: Width) -> RegisterWrapper {
    RegisterWrapper { number, width, high_byte: false }
}

fn high(number: u8) -> RegisterWrapper {
    RegisterWrapper { number, width: Width::W8, high_byte: true }
}

fn decode(bytes: &[u8]) -> DecodedInstruction {
    let mut decoder =
        iced_x86::Decoder::with_ip(64, bytes, TEST_RIP_VALUE, iced_x86::DecoderOptions::NONE);
    let instruction = decoder.decode();
    DecodedInstruction::from_iced(&instruction)
}

fn status(a: &Axecutor) -> u64 {
    a.rflags() & (FLAG_CF | FLAG_PF | FLAG_AF | FLAG_ZF | FLAG_SF | FLAG_OF)
}

fn run(bytes: &[u8], setup: impl Fn(&mut Axecutor)) -> Axecutor {
    let mut a = Axecutor::new();
    setup(&mut a);
    let i = decode(bytes);
    a.execute(&i).expect("instruction failed");
    a
}

// add al, bl
#[test]
fn add_al_bl_pf_zf() {
    let a = run(&[0x0, 0xd8], |a| {
        a.reg_write(reg(RAX, Width::W8), 0x0);
        a.reg_write(reg(RBX, Width::W8), 0x0);
    });
    assert_eq!(a.reg_read(reg(RAX, Width::W8)), 0x0);
    assert_eq!(a.reg_read(reg(RBX, Width::W8)), 0x0);
    assert_eq!(status(&a), FLAG_PF | FLAG_ZF);
}

#[test]
fn add_al_bl_cf_pf_zf_of() {
    let a = run(&[0x0, 0xd8], |a| {
        a.reg_write(reg(RAX, Width::W8), 0x80);
        a.reg_write(reg(RBX, Width::W8), 0x80);
    });
    assert_eq!(a.reg_read(reg(RAX, Width::W8)), 0x0);
    assert_eq!(a.reg_read(reg(RBX, Width::W8)), 0x80);
    assert_eq!(status(&a), FLAG_CF | FLAG_PF | FLAG_ZF | FLAG_OF);
}

#[test]
fn add_al_bl() {
    let a = run(&[0x0, 0xd8], |a| {
        a.reg_write(reg(RAX, Width::W8), 0x0);
        a.reg_write(reg(RBX, Width::W8), 0x1);
    });
    assert_eq!(a.reg_read(reg(RAX, Width::W8)), 0x1);
    assert_eq!(status(&a), 0);
}

#[test]
fn add_al_bl_sf_of_af() {
    let a = run(&[0x0, 0xd8], |a| {
        a.reg_write(reg(RAX, Width::W8), 0x1);
        a.reg_write(reg(RBX, Width::W8), 0x7f);
    });
    assert_eq!(a.reg_read(reg(RAX, Width::W8)), 0x80);
    assert_eq!(status(&a), FLAG_SF | FLAG_OF | FLAG_AF);
}

#[test]
fn add_al_bl_cf_pf_zf_af() {
    let a = run(&[0x0, 0xd8], |a| {
        a.reg_write(reg(RAX, Width::W8), 0x1);
        a.reg_write(reg(RBX, Width::W8), 0xff);
    });
    assert_eq!(a.reg_read(reg(RAX, Width::W8)), 0x0);
    assert_eq!(status(&a), FLAG_CF | FLAG_PF | FLAG_ZF | FLAG_AF);
}

#[test]
fn add_al_bl_keeps_upper_bits_of_rax() {
    let a = run(&[0x0, 0xd8], |a| {
        a.reg_write(reg(RAX, Width::W64), 0x1122_3344_5566_7701);
        a.reg_write(reg(RBX, Width::W8), 0x02);
    });
    assert_eq!(a.reg_read(reg(RAX, Width::W64)), 0x1122_3344_5566_7703);
}

// add bx, cx
#[test]
fn add_bx_cx_cf_pf_zf_of() {
    let a = run(&[0x66, 0x1, 0xcb], |a| {
        a.reg_write(reg(RBX, Width::W16), 0x8000);
        a.reg_write(reg(RCX, Width::W16), 0x8000);
    });
    assert_eq!(a.reg_read(reg(RBX, Width::W16)), 0x0);
    assert_eq!(status(&a), FLAG_CF | FLAG_PF | FLAG_ZF | FLAG_OF);
}

// add ebx, r12d
#[test]
fn add_ebx_r12d_zero_extends() {
    let a = run(&[0x44, 0x1, 0xe3], |a| {
        a.reg_write(reg(RBX, Width::W64), 0xffff_ffff_0000_0001);
        a.reg_write(reg(R12, Width::W32), 0x7fff_ffff);
    });
    assert_eq!(a.reg_read(reg(RBX, Width::W64)), 0x8000_0000);
    assert_eq!(status(&a), FLAG_SF | FLAG_OF | FLAG_AF | FLAG_PF);
}

// add rbx, r12
#[test]
fn add_rbx_r12_cf() {
    let a = run(&[0x4c, 0x1, 0xe3], |a| {
        a.reg_write(reg(RBX, Width::W64), 0xffff_ffff_ffff_fff0);
        a.reg_write(reg(R12, Width::W64), 0x11);
    });
    assert_eq!(a.reg_read(reg(RBX, Width::W64)), 0x1);
    assert_eq!(status(&a), FLAG_CF);
}

// add rbx, qword ptr [r11+8]
#[test]
fn add_rbx_qword_ptr_r11_8() {
    let a = run(&[0x49, 0x3, 0x5b, 0x8], |a| {
        a.reg_write(reg(RBX, Width::W64), 0x0);
        a.reg_write(reg(R11, Width::W64), 0x1000);
        a.mem_init_zero(0x1008, 8).unwrap();
        a.mem_write(0x1008, Width::W64, 0x1).unwrap();
    });
    assert_eq!(a.reg_read(reg(RBX, Width::W64)), 0x1);
    assert_eq!(a.mem_read(0x1008, Width::W64).unwrap(), 0x1);
    assert_eq!(status(&a), 0);
}

#[test]
fn add_rbx_qword_ptr_r11_8_sf_af() {
    let a = run(&[0x49, 0x3, 0x5b, 0x8], |a| {
        a.reg_write(reg(RBX, Width::W64), 0x998bd641bc70c4d7);
        a.reg_write(reg(R11, Width::W64), 0x1000);
        a.mem_init_zero(0x1008, 8).unwrap();
        a.mem_write(0x1008, Width::W64, 0xf).unwrap();
    });
    assert_eq!(a.reg_read(reg(RBX, Width::W64)), 0x998bd641bc70c4e6);
    assert_eq!(a.mem_read(0x1008, Width::W64).unwrap(), 0xf);
    assert_eq!(status(&a), FLAG_SF | FLAG_AF);
}

// add byte ptr [rbx], al writes memory
#[test]
fn add_byte_ptr_rbx_al() {
    let a = run(&[0x0, 0x3], |a| {
        a.reg_write(reg(RAX, Width::W8), 0x0f);
        a.reg_write(reg(RBX, Width::W64), 0x2000);
        a.mem_init_zero(0x2000, 2).unwrap();
        a.mem_write(0x2000, Width::W16, 0x0201).unwrap();
    });
    assert_eq!(a.mem_read(0x2000, Width::W8).unwrap(), 0x10);
    assert_eq!(a.mem_read(0x2001, Width::W8).unwrap(), 0x02);
    assert_eq!(status(&a), FLAG_AF);
}

// add al, 0x7f (immediate form)
#[test]
fn add_al_imm8() {
    let a = run(&[0x04, 0x7f], |a| {
        a.reg_write(reg(RAX, Width::W8), 0x01);
    });
    assert_eq!(a.reg_read(reg(RAX, Width::W8)), 0x80);
    assert_eq!(status(&a), FLAG_SF | FLAG_OF | FLAG_AF);
}

// add rbx, -1 (sign-extended 8-bit immediate)
#[test]
fn add_rbx_imm8_sign_extended() {
    let a = run(&[0x48, 0x83, 0xc3, 0xff], |a| {
        a.reg_write(reg(RBX, Width::W64), 0x10);
    });
    assert_eq!(a.reg_read(reg(RBX, Width::W64)), 0x0f);
    assert_eq!(status(&a), FLAG_CF | FLAG_PF);
}

#[test]
fn add_with_uninitialized_memory_changes_nothing() {
    let mut a = Axecutor::new();
    a.reg_write(reg(RBX, Width::W64), 0x5);
    a.reg_write(reg(R11, Width::W64), 0x1000);
    let i = decode(&[0x49, 0x3, 0x5b, 0x8]);
    let e = a.execute(&i).unwrap_err();
    assert_eq!(e.kind, ErrorKind::UninitializedAccess);
    assert_eq!(e.text(), "Add_r64_rm64: access to uninitialized memory");
    assert_eq!(a.reg_read(reg(RBX, Width::W64)), 0x5);
    assert_eq!(a.rflags(), 0);
}

#[test]
fn engine_add_8_zero() {
    assert_eq!(add_u8(0x00, 0x00), (0x00, FLAG_ZF | FLAG_PF));
}

#[test]
fn engine_add_8_carry_overflow() {
    assert_eq!(add_u8(0x80, 0x80), (0x00, FLAG_CF | FLAG_PF | FLAG_ZF | FLAG_OF));
}

#[test]
fn engine_add_16() {
    assert_eq!(add_u16(0xffff, 0x0001), (0x0000, FLAG_CF | FLAG_PF | FLAG_ZF | FLAG_AF));
    assert_eq!(add_u16(0x7fff, 0x0001), (0x8000, FLAG_PF | FLAG_SF | FLAG_OF | FLAG_AF));
}

#[test]
fn engine_add_32() {
    assert_eq!(add_u32(0x8000_0000, 0x8000_0000), (0, FLAG_CF | FLAG_PF | FLAG_ZF | FLAG_OF));
    assert_eq!(add_u32(0x1234_5678, 0x1), (0x1234_5679, 0));
    assert_eq!(add_u32(0x1234_5677, 0x1), (0x1234_5678, FLAG_PF));
}

#[test]
fn engine_add_64() {
    assert_eq!(add_u64(u64::MAX, 2), (1, FLAG_CF | FLAG_AF));
    assert_eq!(add_u64(0x7fff_ffff_ffff_ffff, 0), (0x7fff_ffff_ffff_ffff, FLAG_PF));
}

#[test]
fn engine_add_sized_matches_widths() {
    assert_eq!(add_sized(0xff, 0x01, Width::W8), (0x00, FLAG_CF | FLAG_PF | FLAG_ZF | FLAG_AF));
    assert_eq!(add_sized(0xff, 0x01, Width::W16), (0x100, FLAG_AF | FLAG_PF));
}

#[test]
fn register_views_alias() {
    let mut a = Axecutor::new();
    a.reg_write(reg(RAX, Width::W64), 0xffff_ffff_ffff_ffff);
    a.reg_write(reg(RAX, Width::W8), 0x12);
    assert_eq!(a.reg_read(reg(RAX, Width::W64)), 0xffff_ffff_ffff_ff12);
    a.reg_write(high(RAX), 0x34);
    assert_eq!(a.reg_read(reg(RAX, Width::W16)), 0x3412);
    a.reg_write(reg(RAX, Width::W16), 0xabcd);
    assert_eq!(a.reg_read(reg(RAX, Width::W32)), 0xffff_abcd);
    a.reg_write(reg(RAX, Width::W32), 0x1);
    assert_eq!(a.reg_read(reg(RAX, Width::W64)), 0x1);
}

#[test]
fn memory_round_trip_little_endian() {
    let mut a = Axecutor::new();
    a.mem_init_zero(0x100, 8).unwrap();
    a.mem_write(0x100, Width::W32, 0x1122_3344).unwrap();
    assert_eq!(a.mem_read(0x100, Width::W8).unwrap(), 0x44);
    assert_eq!(a.mem_read(0x103, Width::W8).unwrap(), 0x11);
    assert_eq!(a.mem_read(0x100, Width::W64).unwrap(), 0x1122_3344);
}

#[test]
fn uninitialized_memory_is_refused() {
    let mut a = Axecutor::new();
    a.mem_init_zero(0x100, 4).unwrap();
    a.mem_init_zero(0x108, 4).unwrap();
    assert_eq!(a.mem_read(0x104, Width::W8).unwrap_err().kind, ErrorKind::UninitializedAccess);
    assert_eq!(a.mem_read(0x102, Width::W32).unwrap_err().kind, ErrorKind::UninitializedAccess);
    assert_eq!(
        a.mem_write(0x106, Width::W32, 7).unwrap_err().kind,
        ErrorKind::UninitializedAccess
    );
    assert_eq!(a.mem_read(0x108, Width::W32).unwrap(), 0);
}

#[test]
fn adjacent_regions_cover_a_wide_access() {
    let mut a = Axecutor::new();
    a.mem_init_zero(0x100, 2).unwrap();
    a.mem_init_zero(0x102, 2).unwrap();
    a.mem_write(0x100, Width::W32, 0xdead_beef).unwrap();
    assert_eq!(a.mem_read(0x100, Width::W32).unwrap(), 0xdead_beef);
}

#[test]
fn region_past_the_address_space_is_refused() {
    let mut a = Axecutor::new();
    assert_eq!(a.mem_init_zero(u64::MAX, 2).unwrap_err().kind, ErrorKind::InvalidRegion);
    a.mem_init_zero(u64::MAX, 1).unwrap();
    assert_eq!(a.mem_read(u64::MAX, Width::W8).unwrap(), 0);
    assert_eq!(a.mem_read(u64::MAX, Width::W16).unwrap_err().kind, ErrorKind::UninitializedAccess);
}

// pop bx
#[test]
fn pop_bx() {
    let a = run(&[0x66, 0x5b], |a| {
        a.reg_write(reg(RSP, Width::W64), 0x1000 - 2);
        a.mem_init_zero(0x1000 - 2, 2).unwrap();
        a.mem_write(0x1000 - 2, Width::W16, 0x1234).unwrap();
        a.reg_write(reg(RBX, Width::W64), 0x0);
    });
    assert_eq!(a.reg_read(reg(RBX, Width::W64)), 0x1234);
    assert_eq!(a.reg_read(reg(RSP, Width::W64)), 0x1000);
    assert_eq!(status(&a), 0);
}

// pop rbx
#[test]
fn pop_rbx() {
    let a = run(&[0x5b], |a| {
        a.reg_write(reg(RSP, Width::W64), 0x1000 - 8);
        a.mem_init_zero(0x1000 - 8, 8).unwrap();
        a.mem_write(0x1000 - 8, Width::W64, 0x1234567890ABCDEF).unwrap();
        a.reg_write(reg(RBX, Width::W64), 0x0);
    });
    assert_eq!(a.reg_read(reg(RBX, Width::W64)), 0x1234567890ABCDEF);
    assert_eq!(a.reg_read(reg(RSP, Width::W64)), 0x1000);
    assert_eq!(status(&a), 0);
}

#[test]
fn pop_from_uninitialized_stack_changes_nothing() {
    let mut a = Axecutor::new();
    a.reg_write(reg(RSP, Width::W64), 0x2000);
    let i = decode(&[0x5b]);
    assert_eq!(a.execute(&i).unwrap_err().kind, ErrorKind::UninitializedAccess);
    assert_eq!(a.reg_read(reg(RSP, Width::W64)), 0x2000);
}

// pop r32 cannot be encoded in 64-bit mode
#[test]
fn pop_r32_is_a_defect() {
    let mut a = Axecutor::new();
    let mut i = decode(&[0x5b]);
    i.code = Encoding::PopR32;
    let e = a.execute(&i).unwrap_err();
    assert_eq!(e.kind, ErrorKind::Defect);
    assert!(!e.signals_normal_finish);
    assert_eq!(e.detail.as_deref(), Some("Pop_r32: "));
}

// xor eax, dword ptr [eip+0x10]
#[test]
fn eip_relative_operand_uses_the_absolute_address() {
    let a = Axecutor::new();
    let i = decode(&[0x67, 0x33, 0x05, 0x10, 0x0, 0x0, 0x0]);
    assert_eq!(i.memory_base, DecodedRegister::Rip);
    let displacement = TEST_RIP_VALUE + 0x7 + 0x10;
    let m = MemOperand { base: None, index: None, scale: 1, displacement };
    assert_eq!(a.instruction_operand(&i, 1).unwrap(), Operand::Memory(m));
}

#[test]
fn immediate_operand_conversions() {
    assert_eq!(Operand::Immediate { data: 0x1ff, size: 1 }.as_u8(), 0xff);
    assert_eq!(Operand::Immediate { data: 0x1_ffff, size: 2 }.as_u16(), 0xffff);
    assert_eq!(Operand::Immediate { data: u64::MAX, size: 4 }.as_u32(), u32::MAX);
    assert_eq!(Operand::Immediate { data: 7, size: 8 }.as_u64(), 7);
    assert_eq!(Operand::Register(reg(RBX, Width::W16)).as_register(), reg(RBX, Width::W16));
}

// pop qword ptr [rax]
#[test]
fn pop_to_memory_is_unimplemented() {
    let mut a = Axecutor::new();
    let i = decode(&[0x8f, 0x00]);
    assert_eq!(i.code, Encoding::PopRm64);
    let e = a.execute(&i).unwrap_err();
    assert_eq!(e.kind, ErrorKind::Unimplemented);
    assert_eq!(e.text(), "Pop_rm64: Executed unimplemented opcode: instr_pop_rm64 for Pop");
}

// nop
#[test]
fn instruction_without_handler_is_unimplemented() {
    let mut a = Axecutor::new();
    let i = decode(&[0x90]);
    assert_eq!(a.execute(&i).unwrap_err().kind, ErrorKind::Unimplemented);
}

// mov byte ptr [0], 1
#[test]
fn mov_byte_ptr_0_1() {
    let a = Axecutor::new();
    let i = decode(&[0xc6, 0x4, 0x25, 0x0, 0x0, 0x0, 0x0, 0x1]);
    assert_eq!(i.op_kinds.len(), 2);
    assert_eq!(
        a.instruction_operand(&i, 0).unwrap(),
        Operand::Memory(MemOperand { base: None, index: None, scale: 1, displacement: 0 })
    );
    assert_eq!(a.instruction_operand(&i, 1).unwrap(), Operand::Immediate { data: 1, size: 1 });
}

// mov dword ptr [rsp], 1
#[test]
fn mov_dword_ptr_rsp_1() {
    let mut a = Axecutor::new();
    a.reg_write(reg(RSP, Width::W64), 0x1000);
    let i = decode(&[0xc7, 0x4, 0x24, 0x1, 0x0, 0x0, 0x0]);
    let m = MemOperand {
        base: Some(reg(RSP, Width::W64)),
        index: None,
        scale: 1,
        displacement: 0,
    };
    assert_eq!(a.instruction_operand(&i, 0).unwrap(), Operand::Memory(m));
    assert_eq!(a.instruction_operand(&i, 1).unwrap(), Operand::Immediate { data: 1, size: 4 });
    assert_eq!(a.mem_addr(m), 0x1000);
}

// mov [rsp+1], r15d
#[test]
fn mov_rsp1_r15d() {
    let mut a = Axecutor::new();
    a.reg_write(reg(RSP, Width::W64), 0x1000);
    let i = decode(&[0x44, 0x89, 0x7c, 0x24, 0x1]);
    let m = MemOperand {
        base: Some(reg(RSP, Width::W64)),
        index: None,
        scale: 1,
        displacement: 1,
    };
    assert_eq!(
        a.instruction_operands_2(&i).unwrap(),
        (Operand::Memory(m), Operand::Register(reg(R15, Width::W32)))
    );
    assert_eq!(a.mem_addr(m), 0x1001);
}

// mov [rsp-1], r15d
#[test]
fn twos_complement_wraparound_negative_displacement() {
    let mut a = Axecutor::new();
    a.reg_write(reg(RSP, Width::W64), 0x1000);
    let i = decode(&[0x44, 0x89, 0x7c, 0x24, 0xff]);
    let m = MemOperand {
        base: Some(reg(RSP, Width::W64)),
        index: None,
        scale: 1,
        displacement: u64::MAX,
    };
    assert_eq!(a.instruction_operand(&i, 0).unwrap(), Operand::Memory(m));
    assert_eq!(a.mem_addr(m), 0x0fff);
}

// xor qword ptr [r11+4*rcx], 1
#[test]
fn xor_qword_ptr_r11_4_rcx_1() {
    let mut a = Axecutor::new();
    a.reg_write(reg(R11, Width::W64), 0x8001);
    a.reg_write(reg(RCX, Width::W64), 5);
    let i = decode(&[0x49, 0x83, 0x34, 0x8b, 0x1]);
    let m = MemOperand {
        base: Some(reg(R11, Width::W64)),
        index: Some(reg(RCX, Width::W64)),
        scale: 4,
        displacement: 0,
    };
    assert_eq!(a.instruction_operand(&i, 0).unwrap(), Operand::Memory(m));
    assert_eq!(a.instruction_operand(&i, 1).unwrap(), Operand::Immediate { data: 1, size: 8 });
    assert_eq!(a.mem_addr(m), 0x8015);
}

// xor [rip+0x5], rbx
#[test]
fn rip_relative_constant() {
    let a = Axecutor::new();
    let i = decode(&[0x48, 0x31, 0x1d, 0x5, 0x0, 0x0, 0x0]);
    let displacement = TEST_RIP_VALUE + 0x7 + 0x5;
    let m = MemOperand { base: None, index: None, scale: 1, displacement };
    assert_eq!(a.instruction_operand(&i, 0).unwrap(), Operand::Memory(m));
    assert_eq!(a.instruction_operand(&i, 1).unwrap(), Operand::Register(reg(RBX, Width::W64)));
    assert_eq!(a.mem_addr(m), TEST_RIP_VALUE + 0x7 + 0x5);
}

// xor byte ptr [rip-0x20], 5
#[test]
fn xor_byte_ptr_rip0x20_5() {
    let a = Axecutor::new();
    let i = decode(&[0x80, 0x35, 0xe0, 0xff, 0xff, 0xff, 0x5]);
    let displacement = TEST_RIP_VALUE + 0x7 - 0x20;
    let m = MemOperand { base: None, index: None, scale: 1, displacement };
    assert_eq!(a.instruction_operand(&i, 0).unwrap(), Operand::Memory(m));
    assert_eq!(a.instruction_operand(&i, 1).unwrap(), Operand::Immediate { data: 5, size: 1 });
}

#[test]
fn resolving_twice_gives_the_same_operands() {
    let mut a = Axecutor::new();
    a.reg_write(reg(R11, Width::W64), 0x8001);
    let i = decode(&[0x49, 0x83, 0x34, 0x8b, 0x1]);
    let first = a.instruction_operands_2(&i).unwrap();
    let second = a.instruction_operands_2(&i).unwrap();
    assert_eq!(first, second);
}

#[test]
fn segment_register_operand_is_unsupported() {
    // mov ax, ds
    let a = Axecutor::new();
    let i = decode(&[0x66, 0x8c, 0xd8]);
    assert_eq!(i.op_registers[1], DecodedRegister::Other);
    let e = a.instruction_operand(&i, 1).unwrap_err();
    assert_eq!(e.kind, ErrorKind::UnsupportedOperand);
    assert!(!e.signals_normal_finish);
    assert_eq!(e.text(), "instruction_operand 1: unimplemented operand kind Register");
}

#[test]
fn decoded_instruction_fields() {
    let i = decode(&[0x66, 0x5b]);
    assert_eq!(i.code, Encoding::PopR16);
    assert_eq!(i.op_kinds, vec![OperandKind::Register]);
    assert_eq!(i.op_registers, vec![DecodedRegister::Gpr(reg(RBX, Width::W16))]);
    let i = decode(&[0x00, 0xfc]);
    assert_eq!(i.code, Encoding::AddRm8R8);
    assert_eq!(
        i.op_registers,
        vec![
            DecodedRegister::Gpr(high(RAX)),
            DecodedRegister::Gpr(high(RBX)),
        ]
    );
}
