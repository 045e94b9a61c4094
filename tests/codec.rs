use riscv_emulator::instructions;
use riscv_emulator::instructions::{IType, ITypeDebug, Instructions, RType, RTypeDebug};
use riscv_emulator::util;

#[test]
fn test_get_digit_works() {
    let case1 = 0b110011010000000000000000u32;
    assert_eq!(util::get_digits(case1, 16, 19), 0b1101);
    assert_eq!(util::get_digits(case1, 0, 31), 0b110011010000000000000000u32);
    // test 'gentleman's agreement'
    assert_eq!(util::get_digits(case1, 0, 0), 0);
    assert_eq!(util::get_digits(case1, 16, 16), 1);
    assert_eq!(util::get_digits(case1, 31, 31), 0);
}

#[test]
fn test_rtype() {
    let r_inst1: instructions::RType = 0b0000000_10111_00111_000_01100_0110011u32.into();
    let r_inst2: instructions::RType = 0b0100000_01001_10110_000_10110_0110011u32.into();
    let r_inst3 = instructions::RTypeDebug::from(instructions::RType::new(
        0b0000000, 0b10111, 0b00111, 0b000, 0b01100, 0b0110011,
    ));
    let r_inst4 = instructions::RTypeDebug::from(instructions::RType::new(
        0b0100000, 0b01001, 0b10110, 0b000, 0b10110, 0b0110011,
    ));
    assert_eq!(
        instructions::RTypeDebug::from(r_inst1),
        instructions::RTypeDebug {
            funct7: 0b0000000,
            rs2: 0b10111,
            rs1: 0b00111,
            funct3: 0b000,
            rd: 0b01100,
            opcode: 0b0110011
        }
    );
    assert_eq!(
        instructions::RTypeDebug::from(r_inst2),
        instructions::RTypeDebug {
            funct7: 0b0100000,
            rs2: 0b01001,
            rs1: 0b10110,
            funct3: 0b000,
            rd: 0b10110,
            opcode: 0b0110011
        }
    );
    assert_eq!(
        r_inst3,
        instructions::RTypeDebug {
            funct7: 0b0000000,
            rs2: 0b10111,
            rs1: 0b00111,
            funct3: 0b000,
            rd: 0b01100,
            opcode: 0b0110011
        }
    );
    assert_eq!(
        r_inst4,
        instructions::RTypeDebug {
            funct7: 0b0100000,
            rs2: 0b01001,
            rs1: 0b10110,
            funct3: 0b000,
            rd: 0b10110,
            opcode: 0b0110011
        }
    );
}

#[test]
fn test_itype() {
    let inst1 = ITypeDebug::from(IType::new(-20, 0b11011, 0b000, 0b00110, 0b0010011));
    let inst2 = ITypeDebug::from(IType::new(240, 10, 3, 9, 3));
    let inst3 = ITypeDebug::from(IType::new(1, 9, 0, 9, 19));
    assert_eq!(
        inst1,
        ITypeDebug {
            immediate: -20,
            rs1: 0b11011,
            funct3: 0b000,
            rd: 0b00110,
            opcode: 0b0010011
        }
    );
    assert_eq!(
        inst2,
        ITypeDebug {
            immediate: 240,
            rs1: 10,
            funct3: 3,
            rd: 9,
            opcode: 3
        }
    );
    assert_eq!(
        inst3,
        ITypeDebug {
            immediate: 1,
            rs1: 9,
            funct3: 0,
            rd: 9,
            opcode: 19
        }
    );
}

#[test]
fn get_digits_reference_shift_and_mask() {
    let words = [0u32, 1, 0xdead_beef, 0x8000_0000, u32::MAX, 0x1234_5678];
    for &w in words.iter() {
        for s in 0u32..32 {
            for e in s..32 {
                let len = e - s + 1;
                let expected = if len == 32 { w } else { (w >> s) & ((1u32 << len) - 1) };
                assert_eq!(util::get_digits(w, s, e), expected);
            }
        }
    }
    assert_eq!(util::get_digits(0xdead_beef, 0, 31), 0xdead_beef);
}

#[test]
fn set_one_digits_examples() {
    assert_eq!(util::set_one_digits(0u32, 0, 31), u32::MAX);
    assert_eq!(util::set_one_digits(20u32, 0, 31), u32::MAX);
    assert_eq!(
        util::set_one_digits(0b00000000_00001111_00011110_11110111u32, 0, 15),
        0b00000000_00001111_11111111_11111111u32
    );
    assert_eq!(
        util::set_one_digits(0b00000000_00001111_00011110_11110111u32, 20, 23),
        0b00000000_11111111_00011110_11110111u32
    );
    assert_eq!(util::set_one_digits(0, 31, 31), 0x8000_0000);
}

#[test]
fn set_zero_digits_examples() {
    assert_eq!(util::set_zero_digits(20u32, 0, 31), 0);
    assert_eq!(
        util::set_zero_digits(0b00000000_00001111_00011110_11110111u32, 0, 15),
        0b00000000_00001111_00000000_00000000u32
    );
    assert_eq!(
        util::set_zero_digits(0b00000000_00001111_00011110_11110111u32, 16, 19),
        0b00000000_00000000_00011110_11110111u32
    );
    assert_eq!(util::set_zero_digits(u32::MAX, 0, 0), 0xffff_fffe);
}

#[test]
fn fill_twice_equals_fill_once() {
    let words = [0u32, 0x0f0f_0f0f, 0xdead_beef, u32::MAX];
    for &w in words.iter() {
        for &(s, e) in [(0u32, 31u32), (12, 31), (3, 9), (31, 31), (0, 0)].iter() {
            let once = util::set_one_digits(w, s, e);
            assert_eq!(util::set_one_digits(once, s, e), once);
            let once = util::set_zero_digits(w, s, e);
            assert_eq!(util::set_zero_digits(once, s, e), once);
        }
    }
}

#[test]
fn rtype_round_trip_of_all_field_extremes() {
    for &(f7, rs2, rs1, f3, rd, op) in [
        (0u8, 0u8, 0u8, 0u8, 0u8, 0u8),
        (127, 31, 31, 7, 31, 127),
        (0b0100000, 0b01001, 0b10110, 0b000, 0b10110, 0b0110011),
        (1, 2, 3, 4, 5, 6),
    ]
    .iter()
    {
        let r = RType::new(f7, rs2, rs1, f3, rd, op);
        assert_eq!(r.get_func7(), f7 as u32);
        assert_eq!(r.get_rs2(), rs2 as u32);
        assert_eq!(r.get_rs1(), rs1 as u32);
        assert_eq!(r.get_funct3(), f3 as u32);
        assert_eq!(r.get_rd(), rd as u32);
        assert_eq!(r.get_opcode(), op as u32);
        let again = RType::new(
            r.get_func7() as u8,
            r.get_rs2() as u8,
            r.get_rs1() as u8,
            r.get_funct3() as u8,
            r.get_rd() as u8,
            r.get_opcode() as u8,
        );
        assert_eq!(again, r);
    }
}

#[test]
fn rtype_pack_truncates_wide_fields() {
    let r = RType::new(0xff, 0xff, 0xff, 0xff, 0xff, 0xff);
    assert_eq!(r.0, u32::MAX);
    assert_eq!(r.get_func7(), 127);
    assert_eq!(r.get_funct3(), 7);
    let r = RType::new(0b1000_0001, 0b0010_0000, 0, 0b0000_1000, 0, 0);
    assert_eq!(r.get_func7(), 1);
    assert_eq!(r.get_rs2(), 0);
    assert_eq!(r.get_funct3(), 0);
    assert_eq!(r.0, 1 << 25);
}

#[test]
fn rtype_literal_word_decode() {
    let r = RType(0b0000000_10111_00111_000_01100_0110011u32);
    assert_eq!(r.get_func7(), 0);
    assert_eq!(r.get_rs2(), 23);
    assert_eq!(r.get_rs1(), 7);
    assert_eq!(r.get_funct3(), 0);
    assert_eq!(r.get_rd(), 12);
    assert_eq!(r.get_opcode(), 51);
    assert_eq!(RType::new(0, 23, 7, 0, 12, 51).0, 0b0000000_10111_00111_000_01100_0110011u32);
}

#[test]
fn itype_sign_extension() {
    assert_eq!(IType::new(-20, 0b11011, 0, 0b00110, 0b0010011).get_immediate(), -20);
    assert_eq!(IType::new(240, 10, 3, 9, 3).get_immediate(), 240);
    assert_eq!(IType::new(2047, 0, 0, 0, 0).get_immediate(), 2047);
    assert_eq!(IType::new(-2048, 0, 0, 0, 0).get_immediate(), -2048);
    assert_eq!(IType::new(2048, 0, 0, 0, 0).get_immediate(), -2048);
    assert_eq!(IType::new(-1, 0, 0, 0, 0).get_immediate(), -1);
    assert_eq!(IType::new(0, 0, 0, 0, 0).get_immediate(), 0);
    assert_eq!(IType(0xfff0_0000).get_immediate(), -1);
    assert_eq!(IType(0x7ff0_0000).get_immediate(), 2047);
}

#[test]
fn itype_packed_word_and_fields() {
    let i = IType::new(-20, 0b11011, 0b000, 0b00110, 0b0010011);
    assert_eq!(i.0, 0b111111101100_11011_000_00110_0010011u32);
    assert_eq!(i.get_rs1(), 0b11011);
    assert_eq!(i.get_funct3(), 0);
    assert_eq!(i.get_rd(), 0b00110);
    assert_eq!(i.get_opcode(), 0b0010011);
    let wide = IType::new(0x1001, 0xff, 0xff, 0xff, 0xff);
    assert_eq!(wide.get_immediate(), 1);
    assert_eq!(wide.get_rs1(), 31);
    assert_eq!(wide.get_funct3(), 7);
    assert_eq!(wide.get_rd(), 31);
    assert_eq!(wide.get_opcode(), 127);
}

#[test]
fn single_field_stays_in_its_range() {
    assert_eq!(RType::new(127, 0, 0, 0, 0, 0).0, 0xfe00_0000);
    assert_eq!(RType::new(0, 31, 0, 0, 0, 0).0, 0x01f0_0000);
    assert_eq!(RType::new(0, 0, 31, 0, 0, 0).0, 0x000f_8000);
    assert_eq!(RType::new(0, 0, 0, 7, 0, 0).0, 0x0000_7000);
    assert_eq!(RType::new(0, 0, 0, 0, 31, 0).0, 0x0000_0f80);
    assert_eq!(RType::new(0, 0, 0, 0, 0, 127).0, 0x0000_007f);
    assert_eq!(IType::new(-1, 0, 0, 0, 0).0, 0xfff0_0000);
    assert_eq!(IType::new(0, 31, 0, 0, 0).0, 0x000f_8000);
    assert_eq!(IType::new(0, 0, 7, 0, 0).0, 0x0000_7000);
    assert_eq!(IType::new(0, 0, 0, 31, 0).0, 0x0000_0f80);
    assert_eq!(IType::new(0, 0, 0, 0, 127).0, 0x0000_007f);
}

#[test]
fn word_conversions_and_deref() {
    let mut r = RType::from(0x1234_5678u32);
    assert_eq!(*r, 0x1234_5678);
    *r = 0x33;
    assert_eq!(r.get_opcode(), 0x33);
    let mut i: IType = 0x0010_0013u32.into();
    assert_eq!(*i, 0x0010_0013);
    *i = 0xfff0_0013;
    assert_eq!(i.get_immediate(), -1);
    let tagged = Instructions::R(r);
    assert!(matches!(tagged, Instructions::R(RType(0x33))));
    let tagged = Instructions::I(i);
    assert!(matches!(tagged, Instructions::I(IType(0xfff0_0013))));
    assert_eq!(
        RTypeDebug::from(RType(u32::MAX)),
        RTypeDebug { funct7: 127, rs2: 31, rs1: 31, funct3: 7, rd: 31, opcode: 127 }
    );
    assert_eq!(
        ITypeDebug::from(IType(0x8000_0000)),
        ITypeDebug { immediate: -2048, rs1: 0, funct3: 0, rd: 0, opcode: 0 }
    );
}
