use gameboy::cpu::registers::{Register, Registers};

#[test]
fn get() {
    let mut registers = Registers::new();
    registers.a = 1;
    registers.b = 2;
    registers.c = 3;
    registers.d = 4;
    registers.e = 5;
    registers.f.set(6);
    registers.h = 7;
    registers.l = 8;

    assert_eq!(registers.get(&Register::A), 1);
    assert_eq!(registers.get(&Register::B), 2);
    assert_eq!(registers.get(&Register::C), 3);
    assert_eq!(registers.get(&Register::D), 4);
    assert_eq!(registers.get(&Register::E), 5);
    // F keeps only its four flag bits
    assert_eq!(registers.get(&Register::F), 0);
    assert_eq!(registers.get(&Register::H), 7);
    assert_eq!(registers.get(&Register::L), 8);
}

#[test]
fn get_16() {
    let mut registers = Registers::new();
    registers.set_af(0x0102);
    registers.set_bc(0x0304);
    registers.set_de(0x0506);
    registers.set_hl(0x0708);
    registers.sp.set(0x090A);

    assert_eq!(registers.get_16(&Register::AF), 0x0100);
    assert_eq!(registers.get_16(&Register::BC), 0x0304);
    assert_eq!(registers.get_16(&Register::DE), 0x0506);
    assert_eq!(registers.get_16(&Register::HL), 0x0708);
    assert_eq!(registers.get_16(&Register::SP), 0x090A);
}

#[test]
fn set() {
    let mut registers = Registers::new();
    registers.set(&Register::A, 1);
    registers.set(&Register::B, 2);
    registers.set(&Register::C, 3);
    registers.set(&Register::D, 4);
    registers.set(&Register::E, 5);
    registers.set(&Register::F, 6);
    registers.set(&Register::H, 7);
    registers.set(&Register::L, 8);

    assert_eq!(registers.a, 1);
    assert_eq!(registers.b, 2);
    assert_eq!(registers.c, 3);
    assert_eq!(registers.d, 4);
    assert_eq!(registers.e, 5);
    assert_eq!(registers.f.get(), 0);
    assert_eq!(registers.h, 7);
    assert_eq!(registers.l, 8);
}

#[test]
fn set_16() {
    let mut registers = Registers::new();
    registers.set_16(&Register::AF, 0x0102);
    registers.set_16(&Register::BC, 0x0304);
    registers.set_16(&Register::DE, 0x0506);
    registers.set_16(&Register::HL, 0x0708);
    registers.set_16(&Register::SP, 0x090A);

    assert_eq!(registers.get_af(), 0x0100);
    assert_eq!(registers.get_bc(), 0x0304);
    assert_eq!(registers.get_de(), 0x0506);
    assert_eq!(registers.get_hl(), 0x0708);
    assert_eq!(registers.sp.get(), 0x090A);
}
