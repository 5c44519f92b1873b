use cpu8086::eu::{ExecutionUnit, GeneralRegister};
use cpu8086::flags::Flags;
use cpu8086::registers::Register;

fn cleared_unit() -> ExecutionUnit {
    ExecutionUnit::new(
        Register::default(),
        Register::default(),
        Register::default(),
        Register::default(),
        0,
        0,
        0,
        0,
        Flags::default(),
    )
}

#[test]
fn test_set_and_get_sp() {
    let mut eu = cleared_unit();
    eu.set_sp(0x1234);
    assert_eq!(eu.get_sp(), 0x1234);
}

#[test]
fn test_set_and_get_bp() {
    let mut eu = cleared_unit();
    eu.set_bp(0x5678);
    assert_eq!(eu.get_bp(), 0x5678);
}

#[test]
fn test_set_and_get_si() {
    let mut eu = cleared_unit();
    eu.set_si(0x9ABC);
    assert_eq!(eu.get_si(), 0x9ABC);
}

#[test]
fn test_set_and_get_di() {
    let mut eu = cleared_unit();
    eu.set_di(0xDEF0);
    assert_eq!(eu.get_di(), 0xDEF0);
}

#[test]
fn pointer_setters_leave_the_others() {
    let mut eu = cleared_unit();
    eu.set_sp(1);
    eu.set_bp(2);
    eu.set_si(3);
    eu.set_di(4);
    assert_eq!((eu.get_sp(), eu.get_bp(), eu.get_si(), eu.get_di()), (1, 2, 3, 4));
}

#[test]
fn general_registers_are_reached_by_name() {
    let mut eu = cleared_unit();
    eu.register_mut(GeneralRegister::C).set(0x1234);
    eu.register_mut(GeneralRegister::C).set_high(0x99);
    assert_eq!(eu.register(GeneralRegister::C).get(), 0x9934);
    assert_eq!(eu.register(GeneralRegister::A).get(), 0);
    assert_eq!(eu.register(GeneralRegister::B).get(), 0);
    assert_eq!(eu.register(GeneralRegister::D).get(), 0);
}

#[test]
fn flags_bank_is_reached_through_the_unit() {
    let mut eu = cleared_unit();
    eu.flags_mut().set_direction(true);
    assert!(eu.get_flags().get_direction());
    assert!(!eu.get_flags().get_carry());
}
