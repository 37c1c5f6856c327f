use axecutor_core::errors::{AxError, ErrorKind};
use axecutor_core::pop::unimplemented_opcode;

#[test]
fn error_text_puts_detail_first() {
    let e = AxError::new(ErrorKind::Emulation, "bad access");
    assert_eq!(e.text(), "bad access");
    let d = e.add_detail("while adding: ".to_string());
    assert_eq!(d.text(), "while adding: bad access");
    assert_eq!(d.kind, ErrorKind::Emulation);
    assert!(!d.signals_normal_finish);
}

#[test]
fn end_execution_marks_normal_finish() {
    let e = AxError::new(ErrorKind::Emulation, "exit").end_execution();
    assert!(e.signals_normal_finish);
    assert_eq!(e.text(), "exit");
}

#[test]
fn error_from_string() {
    let e = AxError::from("plain message".to_string());
    assert_eq!(e.kind, ErrorKind::Emulation);
    assert_eq!(e.text(), "plain message");
    assert!(e.detail.is_none());
}

#[test]
fn unimplemented_signal_names_the_opcode() {
    let e = unimplemented_opcode("instr_add_al_imm8 for Add");
    assert_eq!(e.kind, ErrorKind::Unimplemented);
    assert_eq!(e.text(), "Executed unimplemented opcode: instr_add_al_imm8 for Add");
}

#[test]
fn context_becomes_the_detail() {
    let e = AxError::new(ErrorKind::UninitializedAccess, "access to uninitialized memory");
    let c = e.in_context("Add_rm8_r8");
    assert_eq!(c.detail.as_deref(), Some("Add_rm8_r8: "));
    assert_eq!(c.text(), "Add_rm8_r8: access to uninitialized memory");
    assert_eq!(c.kind, ErrorKind::UninitializedAccess);
}
