use gameboy::cpu::registers::FlagRegister;

#[test]
fn flag_register_test_get() {
    let mut flag_register = FlagRegister::new();
    flag_register.zero = true;
    flag_register.subtract = true;
    flag_register.half_carry = true;
    flag_register.carry = true;
    assert_eq!(flag_register.get(), 0b1111_0000);
}

#[test]
fn test_new() {
    let flag_register = FlagRegister::new();
    assert_eq!(flag_register.zero, false);
    assert_eq!(flag_register.subtract, false);
    assert_eq!(flag_register.half_carry, false);
    assert_eq!(flag_register.carry, false);
}

#[test]
fn test_set_flags() {
    let mut flag_register = FlagRegister::new();
    flag_register.set(0b1010_0000);
    assert_eq!(flag_register.zero, true);
    assert_eq!(flag_register.subtract, false);
    assert_eq!(flag_register.half_carry, true);
    assert_eq!(flag_register.carry, false);
}

#[test]
fn flag_register_test_set() {
    let mut flag_register = FlagRegister::new();
    flag_register.set(0b1111_0000);
    assert_eq!(flag_register.zero, true);
    assert_eq!(flag_register.subtract, true);
    assert_eq!(flag_register.half_carry, true);
    assert_eq!(flag_register.carry, true);
}
