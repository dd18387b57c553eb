use cjemu::{Alu, AluOutputs, CJEmuAlu};

fn alu() -> CJEmuAlu {
    CJEmuAlu {}
}

fn all_ops(a: u16, b: u16, c: bool) -> Vec<AluOutputs> {
    let mut u = alu();
    vec![
        u.add16(a, b),
        u.add16_carry(a, b, c),
        u.sub16(a, b),
        u.sub16_borrow(a, b, c),
        u.neg16(a),
        u.inc16(a),
        u.pass16(a),
        u.and16(a, b),
        u.or16(a, b),
        u.xor16(a, b),
        u.complement(a),
        u.shift16l(a, b),
        u.shift16r(a, b),
        u.ushift16l(a, b),
        u.ushift16r(a, b),
        u.rot16l(a, b),
        u.rot16r(a, b),
        u.rot16l_carry(a, b, c),
        u.rot16r_carry(a, b, c),
    ]
}

#[test]
fn add16_wraps_and_overflows() {
    let r = alu().add16(0xFFFF, 0x0002);
    assert_eq!(r.value, 0x0001);
    assert!(r.overflow);
    assert!(r.carry_out);
    assert!(!r.zero);
    assert!(!r.negative);
    assert!(!r.parity);
}

#[test]
fn add16_commutes() {
    let pairs = [(0u16, 0u16), (1, 0xFFFF), (0x8000, 0x8000), (0x1234, 0xABCD), (0x7FFF, 1)];
    for (a, b) in pairs {
        assert_eq!(alu().add16(a, b), alu().add16(b, a));
    }
}

#[test]
fn add16_plain_sum() {
    let r = alu().add16(0x1234, 0x0101);
    assert_eq!(r.value, 0x1335);
    assert!(!r.overflow);
    assert!(!r.carry_out);
}

#[test]
fn add16_carry_in() {
    let r = alu().add16_carry(0xFFFF, 0, true);
    assert_eq!(r.value, 0);
    assert!(r.zero);
    assert!(r.carry_out);
    assert_eq!(alu().add16_carry(2, 3, true).value, 6);
}

#[test]
fn sub16_borrow_and_signed_overflow() {
    let r = alu().sub16(1, 2);
    assert_eq!(r.value, 0xFFFF);
    assert!(r.carry_out);
    assert!(!r.overflow);
    assert!(r.negative);
    let r = alu().sub16(0x8000, 1);
    assert_eq!(r.value, 0x7FFF);
    assert!(!r.carry_out);
    assert!(r.overflow);
    let r = alu().sub16_borrow(0, 0, true);
    assert_eq!(r.value, 0xFFFF);
    assert!(r.carry_out);
    assert!(!r.overflow);
    assert_eq!(alu().sub16_borrow(10, 3, true).value, 6);
}

#[test]
fn neg16_cases() {
    let r = alu().neg16(1);
    assert_eq!(r.value, 0xFFFF);
    assert!(r.carry_out);
    assert!(!r.overflow);
    let r = alu().neg16(0x8000);
    assert_eq!(r.value, 0x8000);
    assert!(r.overflow);
    let r = alu().neg16(0);
    assert_eq!(r.value, 0);
    assert!(r.zero);
    assert!(!r.carry_out);
}

#[test]
fn inc16_wraps() {
    let r = alu().inc16(0xFFFF);
    assert_eq!(r.value, 0);
    assert!(r.zero);
    assert!(r.carry_out);
    assert!(r.overflow);
    assert_eq!(alu().inc16(41).value, 42);
}

#[test]
fn pass16_parity_is_even_ones() {
    assert!(alu().pass16(0).parity);
    assert!(!alu().pass16(1).parity);
    assert!(alu().pass16(3).parity);
    assert!(alu().pass16(0xFFFF).parity);
    assert!(!alu().pass16(0x7FFF).parity);
    let r = alu().pass16(0x8000);
    assert_eq!(r.value, 0x8000);
    assert!(r.negative);
    assert!(!r.carry_out);
    assert!(!r.overflow);
}

#[test]
fn bitwise_logic() {
    assert_eq!(alu().and16(0xF0F0, 0xFF00).value, 0xF000);
    assert_eq!(alu().or16(0xF0F0, 0x0F00).value, 0xFFF0);
    assert_eq!(alu().xor16(0xFFFF, 0x00FF).value, 0xFF00);
    assert_eq!(alu().complement(0x00FF).value, 0xFF00);
    assert!(alu().and16(0x0F0F, 0xF0F0).zero);
}

#[test]
fn complement_twice_is_identity() {
    for a in [0u16, 1, 0x00FF, 0x8000, 0x1234, 0xFFFF] {
        let once = alu().complement(a);
        assert_eq!(alu().complement(once.value).value, a);
    }
}

#[test]
fn zero_flag_matches_value_for_every_operation() {
    let inputs = [(0u16, 0u16, false), (0, 0, true), (0xFFFF, 1, false), (0x8000, 0x8000, true), (1, 16, false), (0x1234, 3, true)];
    for (a, b, c) in inputs {
        for r in all_ops(a, b, c) {
            assert_eq!(r.zero, r.value == 0);
            assert_eq!(r.negative, r.value & 0x8000 != 0);
            assert_eq!(r.parity, r.value.count_ones() % 2 == 0);
        }
    }
}

#[test]
fn logical_shifts() {
    let r = alu().ushift16l(0x8001, 1);
    assert_eq!(r.value, 0x0002);
    assert!(r.carry_out);
    let r = alu().ushift16r(0x0003, 1);
    assert_eq!(r.value, 0x0001);
    assert!(r.carry_out);
    let r = alu().ushift16r(0x0004, 2);
    assert_eq!(r.value, 0x0001);
    assert!(!r.carry_out);
    assert_eq!(alu().ushift16l(1, 17).value, 2);
    assert_eq!(alu().ushift16l(0x1234, 16).value, 0x1234);
}

#[test]
fn arithmetic_shifts_keep_sign() {
    let r = alu().shift16r(0x8000, 3);
    assert_eq!(r.value, 0xF000);
    assert!(!r.carry_out);
    assert_eq!(alu().shift16r(0x4000, 3).value, 0x0800);
    let r = alu().shift16l(0xC000, 1);
    assert_eq!(r.value, 0x8000);
    assert!(!r.overflow);
    let r = alu().shift16l(0x4000, 1);
    assert_eq!(r.value, 0);
    assert!(r.zero);
    assert!(r.carry_out);
    assert!(r.overflow);
    let r = alu().shift16l(0x0003, 2);
    assert_eq!(r.value, 0x000C);
    assert!(!r.carry_out);
    assert!(!r.overflow);
}

#[test]
fn rotations() {
    let r = alu().rot16l(0x8001, 1);
    assert_eq!(r.value, 0x0003);
    assert!(r.carry_out);
    let r = alu().rot16r(0x0001, 1);
    assert_eq!(r.value, 0x8000);
    assert!(r.carry_out);
    assert_eq!(alu().rot16l(0x1234, 4).value, 0x2341);
    assert_eq!(alu().rot16r(0x1234, 4).value, 0x4123);
}

#[test]
fn full_rotation_is_identity() {
    for a in [0u16, 1, 0x8001, 0x1234, 0xFFFF] {
        assert_eq!(alu().rot16l(a, 16).value, a);
        assert_eq!(alu().rot16r(a, 16).value, a);
        assert_eq!(alu().rot16l(a, 21), alu().rot16l(a, 5));
    }
}

#[test]
fn rotations_through_carry() {
    let r = alu().rot16l_carry(0x8000, 1, false);
    assert_eq!(r.value, 0);
    assert!(r.carry_out);
    let r = alu().rot16r_carry(0x0001, 1, true);
    assert_eq!(r.value, 0x8000);
    assert!(r.carry_out);
    let r = alu().rot16l_carry(0x0001, 1, true);
    assert_eq!(r.value, 0x0003);
    assert!(!r.carry_out);
    let r = alu().rot16l_carry(0x1234, 17, true);
    assert_eq!(r.value, 0x1234);
    assert!(r.carry_out);
}

#[test]
fn default_outputs_are_those_of_zero() {
    let d = AluOutputs::default();
    assert_eq!(d, alu().pass16(0));
    assert!(d.zero);
    assert!(d.parity);
}

#[test]
fn right_rotation_undoes_left_rotation() {
    for a in [0u16, 1, 0x8001, 0x1234, 0xBEEF] {
        for b in [0u16, 1, 7, 15, 16, 33] {
            let left = alu().rot16l(a, b).value;
            assert_eq!(alu().rot16r(left, b).value, a);
            let right = alu().rot16r(a, b).value;
            assert_eq!(alu().rot16l(right, b).value, a);
        }
    }
}

#[test]
fn arithmetic_left_shift_without_overflow_is_exact() {
    for a in [0u16, 1, 3, 0x00FF, 0x3FFF, 0x4000, 0x7FFF, 0x8000, 0xC000, 0xFFFF, 0xFF80, 0x9234] {
        for b in 0..16u16 {
            let r = alu().shift16l(a, b);
            let exact = (a as i16 as i64) * (1i64 << b);
            assert_eq!(r.overflow, exact < -0x8000 || exact > 0x7FFF);
            if !r.overflow {
                assert_eq!(r.value as i16 as i64, exact);
            }
            assert_eq!(r.value & 0x8000, a & 0x8000);
        }
    }
}
