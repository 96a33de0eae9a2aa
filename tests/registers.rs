use nes::registers::{ByteRegister, Registers, StatusName};

#[test]
fn get_p() {
    let reg = Registers::new();
    let p = reg.get(ByteRegister::P);
    assert_eq!(p, 0x34);
}

#[test]
fn update_zero() {
    let mut reg = Registers::new();
    reg.update_zero(0);
    let p = reg.get(ByteRegister::P);
    assert_eq!(p, 0x36);
}

#[test]
fn update_negative() {
    let mut reg = Registers::new();
    reg.update_negative(0x80);
    let p = reg.get(ByteRegister::P);
    assert_eq!(p, 0xB4);
}

#[test]
fn update_zero_and_negative_clear_on_other_values() {
    let mut reg = Registers::new();
    reg.update_zero(0).update_negative(0xFF);
    assert!(reg.get_status(StatusName::zero));
    assert!(reg.get_status(StatusName::negative));
    reg.update_zero(1).update_negative(0x7F);
    assert!(!reg.get_status(StatusName::zero));
    assert!(!reg.get_status(StatusName::negative));
}

#[test]
fn status_byte_round_trip_forces_reserved() {
    let mut reg = Registers::new();
    reg.set_p(0x00);
    assert_eq!(reg.get(ByteRegister::P), 0x20);
    reg.set_p(0xFF);
    assert_eq!(reg.get(ByteRegister::P), 0xFF);
    reg.set_p(0xC3);
    assert_eq!(reg.get(ByteRegister::P), 0xE3);
    assert!(reg.get_status(StatusName::overflow));
    assert!(reg.get_status(StatusName::carry));
    assert!(!reg.get_status(StatusName::decimal_mode));
}

#[test]
fn status_bits_in_place() {
    let mut reg = Registers::new();
    reg.set_p(0x00);
    reg.set_negative(true);
    assert_eq!(reg.get(ByteRegister::P), 0xA0);
    reg.set_negative(false).set_overflow(true);
    assert_eq!(reg.get(ByteRegister::P), 0x60);
    reg.set_overflow(false).set_decimal(true);
    assert_eq!(reg.get(ByteRegister::P), 0x28);
    reg.set_decimal(false).set_interrupt(true);
    assert_eq!(reg.get(ByteRegister::P), 0x24);
    reg.set_interrupt(false).set_zero(true);
    assert_eq!(reg.get(ByteRegister::P), 0x22);
    reg.set_zero(false).set_carry(true);
    assert_eq!(reg.get(ByteRegister::P), 0x21);
    reg.set_carry(false).set_break(true);
    assert_eq!(reg.get(ByteRegister::P), 0x30);
}

#[test]
fn power_on_state() {
    let reg = Registers::new();
    assert_eq!(reg.get(ByteRegister::A), 0);
    assert_eq!(reg.get(ByteRegister::X), 0);
    assert_eq!(reg.get(ByteRegister::Y), 0);
    assert_eq!(reg.get(ByteRegister::SP), 0xFD);
    assert_eq!(reg.get_pc(), 0x8000);
}

#[test]
fn reset_restores_power_on_state() {
    let mut reg = Registers::new();
    reg.set_acc(1).set_x(2).set_y(3).set_sp(4).set_pc(5).set_p(0xFF);
    reg.reset();
    assert_eq!(reg, Registers::new());
}

#[test]
fn stack_pointer_and_pc_wrap() {
    let mut reg = Registers::new();
    reg.set_sp(0xFF).inc_sp();
    assert_eq!(reg.get(ByteRegister::SP), 0x00);
    reg.dec_sp();
    assert_eq!(reg.get(ByteRegister::SP), 0xFF);
    reg.set_pc(0xFFFF).inc_pc();
    assert_eq!(reg.get_pc(), 0x0000);
    reg.dec_pc();
    assert_eq!(reg.get_pc(), 0xFFFF);
    reg.update_pc();
    assert_eq!(reg.get_pc(), 0x0000);
}

#[test]
fn overflow_rule() {
    let mut reg = Registers::new();
    reg.set_acc(0x50).update_overflow(0x50, 0xA0);
    assert!(reg.get_status(StatusName::overflow));
    reg.set_acc(0x50).update_overflow(0xB0, 0x00);
    assert!(!reg.get_status(StatusName::overflow));
    reg.set_acc(0x90).update_overflow(0x90, 0x20);
    assert!(reg.get_status(StatusName::overflow));
}
