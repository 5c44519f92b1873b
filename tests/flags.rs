use cpu8086::flags::Flags;

fn cleared() -> Flags {
    Flags::new(
        false, false, false, false, false, false, false, false, false,
    )
}

fn bits(flags: &Flags) -> [bool; 9] {
    [
        flags.get_carry(),
        flags.get_parity(),
        flags.get_auxiliary_carry(),
        flags.get_zero(),
        flags.get_sign(),
        flags.get_overflow(),
        flags.get_interrupt_enable(),
        flags.get_direction(),
        flags.get_trap(),
    ]
}

#[test]
fn test_flags_initialization() {
    let flags = Flags::new(true, false, true, false, true, false, true, false, true);
    assert!(flags.get_carry());
    assert!(!flags.get_parity());
    assert!(flags.get_auxiliary_carry());
    assert!(!flags.get_zero());
    assert!(flags.get_sign());
    assert!(!flags.get_overflow());
    assert!(flags.get_interrupt_enable());
    assert!(!flags.get_direction());
    assert!(flags.get_trap());
}

#[test]
fn test_set_and_get_carry() {
    let mut flags = cleared();
    flags.set_carry(true);
    assert!(flags.get_carry());
}

#[test]
fn test_set_and_get_parity() {
    let mut flags = cleared();
    flags.set_parity(true);
    assert!(flags.get_parity());
}

#[test]
fn test_set_and_get_auxiliary_carry() {
    let mut flags = cleared();
    flags.set_auxiliary_carry(true);
    assert!(flags.get_auxiliary_carry());
}

#[test]
fn test_set_and_get_zero() {
    let mut flags = cleared();
    flags.set_zero(true);
    assert!(flags.get_zero());
}

#[test]
fn test_set_and_get_sign() {
    let mut flags = cleared();
    flags.set_sign(true);
    assert!(flags.get_sign());
}

#[test]
fn test_set_and_get_overflow() {
    let mut flags = cleared();
    flags.set_overflow(true);
    assert!(flags.get_overflow());
}

#[test]
fn test_set_and_get_interrupt_enable() {
    let mut flags = cleared();
    flags.set_interrupt_enable(true);
    assert!(flags.get_interrupt_enable());
}

#[test]
fn test_set_and_get_direction() {
    let mut flags = cleared();
    flags.set_direction(true);
    assert!(flags.get_direction());
}

#[test]
fn test_set_and_get_trap() {
    let mut flags = cleared();
    flags.set_trap(true);
    assert!(flags.get_trap());
}

#[test]
fn default_flags_are_clear() {
    let flags = Flags::default();
    assert_eq!(bits(&flags), [false; 9]);
}

#[test]
fn each_setter_touches_only_its_bit() {
    for start in [false, true] {
        for value in [false, true] {
            for i in 0..9usize {
                let mut flags = if start {
                    Flags::new(true, true, true, true, true, true, true, true, true)
                } else {
                    cleared()
                };
                match i {
                    0 => flags.set_carry(value),
                    1 => flags.set_parity(value),
                    2 => flags.set_auxiliary_carry(value),
                    3 => flags.set_zero(value),
                    4 => flags.set_sign(value),
                    5 => flags.set_overflow(value),
                    6 => flags.set_interrupt_enable(value),
                    7 => flags.set_direction(value),
                    8 => flags.set_trap(value),
                    _ => unreachable!(),
                }
                let after = bits(&flags);
                for j in 0..9usize {
                    if j == i {
                        assert_eq!(after[j], value);
                    } else {
                        assert_eq!(after[j], start);
                    }
                }
            }
        }
    }
}
