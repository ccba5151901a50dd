use arith_trace::addcy;
use arith_trace::columns::{
    AUX_REGISTER_0, AUX_REGISTER_1, INPUT_REGISTER_0, INPUT_REGISTER_1, INPUT_REGISTER_2, IS_ADD,
    IS_ADDMOD, IS_DIV, IS_GT, IS_LT, IS_MOD, IS_MULMOD, IS_SUB, IS_SUBMOD, NUM_ARITH_COLUMNS,
    NUM_SELECTORS, OUTPUT_REGISTER,
};
use arith_trace::divmod;
use arith_trace::modular;
use arith_trace::mul;
use arith_trace::shift;
use arith_trace::utils::write_register;

fn blank() -> Vec<u64> {
    vec![0; NUM_ARITH_COLUMNS]
}

fn register(row: &[u64], base: usize) -> u64 {
    assert!(row[base] < 0x1_0000 && row[base + 1] < 0x1_0000);
    row[base] + row[base + 1] * 0x1_0000
}

#[test]
fn register_is_written_low_limb_first() {
    let mut row = blank();
    write_register(&mut row, INPUT_REGISTER_0, 0x1234_5678);
    assert_eq!(row[INPUT_REGISTER_0], 0x5678);
    assert_eq!(row[INPUT_REGISTER_0 + 1], 0x1234);
    write_register(&mut row, OUTPUT_REGISTER, u32::MAX);
    assert_eq!(row[OUTPUT_REGISTER], 0xffff);
    assert_eq!(row[OUTPUT_REGISTER + 1], 0xffff);
    write_register(&mut row, INPUT_REGISTER_0, 0);
    assert_eq!(register(&row, INPUT_REGISTER_0), 0);
    for c in 0..NUM_SELECTORS {
        assert_eq!(row[c], 0);
    }
}

#[test]
fn registers_follow_the_selectors() {
    assert_eq!(NUM_SELECTORS, 12);
    assert_eq!(INPUT_REGISTER_0, 12);
    assert_eq!(INPUT_REGISTER_1, 14);
    assert_eq!(INPUT_REGISTER_2, 16);
    assert_eq!(OUTPUT_REGISTER, 18);
    assert_eq!(AUX_REGISTER_0, 20);
    assert_eq!(AUX_REGISTER_1, 22);
    assert_eq!(NUM_ARITH_COLUMNS, 24);
}

#[test]
fn addition_keeps_its_carry() {
    let mut row = blank();
    addcy::generate(&mut row, IS_ADD, u32::MAX, 2);
    assert_eq!(register(&row, INPUT_REGISTER_0), 0xffff_ffff);
    assert_eq!(register(&row, INPUT_REGISTER_1), 2);
    assert_eq!(register(&row, OUTPUT_REGISTER), 1);
    assert_eq!(register(&row, AUX_REGISTER_0), 1);
    let mut row = blank();
    addcy::generate(&mut row, IS_ADD, 5, 7);
    assert_eq!(register(&row, OUTPUT_REGISTER), 12);
    assert_eq!(register(&row, AUX_REGISTER_0), 0);
}

#[test]
fn subtraction_keeps_its_borrow() {
    let mut row = blank();
    addcy::generate(&mut row, IS_SUB, 5, 7);
    assert_eq!(register(&row, OUTPUT_REGISTER), 0xffff_fffe);
    assert_eq!(register(&row, AUX_REGISTER_0), 1);
    let mut row = blank();
    addcy::generate(&mut row, IS_SUB, 7, 5);
    assert_eq!(register(&row, OUTPUT_REGISTER), 2);
    assert_eq!(register(&row, AUX_REGISTER_0), 0);
}

#[test]
fn comparison_keeps_the_difference() {
    let mut row = blank();
    addcy::generate(&mut row, IS_LT, 5, 7);
    assert_eq!(register(&row, OUTPUT_REGISTER), 1);
    assert_eq!(register(&row, AUX_REGISTER_0), 0xffff_fffe);
    let mut row = blank();
    addcy::generate(&mut row, IS_LT, 7, 5);
    assert_eq!(register(&row, OUTPUT_REGISTER), 0);
    assert_eq!(register(&row, AUX_REGISTER_0), 2);
    let mut row = blank();
    addcy::generate(&mut row, IS_GT, 7, 5);
    assert_eq!(register(&row, OUTPUT_REGISTER), 1);
    assert_eq!(register(&row, AUX_REGISTER_0), 0xffff_fffe);
    let mut row = blank();
    addcy::generate(&mut row, IS_GT, 5, 5);
    assert_eq!(register(&row, OUTPUT_REGISTER), 0);
    assert_eq!(register(&row, AUX_REGISTER_0), 0);
}

#[test]
fn carry_chain_relation_holds_on_its_rows() {
    let pairs: [(u32, u32); 5] = [(0, 0), (5, 7), (7, 5), (u32::MAX, u32::MAX), (0, u32::MAX)];
    for (a, b) in pairs {
        for selector in [IS_ADD, IS_SUB, IS_LT, IS_GT] {
            let mut row = blank();
            addcy::generate(&mut row, selector, a, b);
            let x: u64 = register(&row, INPUT_REGISTER_0);
            let y: u64 = register(&row, INPUT_REGISTER_1);
            let z: u64 = register(&row, OUTPUT_REGISTER);
            let w: u64 = register(&row, AUX_REGISTER_0);
            if selector == IS_ADD {
                assert_eq!(x + y, z + w * 0x1_0000_0000);
            } else if selector == IS_SUB {
                assert_eq!(y + z, x + w * 0x1_0000_0000);
            } else if selector == IS_LT {
                assert_eq!(y + w, x + z * 0x1_0000_0000);
            } else {
                assert_eq!(x + w, y + z * 0x1_0000_0000);
            }
        }
    }
}

#[test]
fn product_is_split_in_halves() {
    let mut row = blank();
    mul::generate(&mut row, 0x1_0000, 0x1_0000);
    assert_eq!(register(&row, OUTPUT_REGISTER), 0);
    assert_eq!(register(&row, AUX_REGISTER_0), 1);
    let mut row = blank();
    mul::generate(&mut row, u32::MAX, u32::MAX);
    assert_eq!(register(&row, OUTPUT_REGISTER), 1);
    assert_eq!(register(&row, AUX_REGISTER_0), 0xffff_fffe);
    let mut row = blank();
    mul::generate(&mut row, 6, 7);
    assert_eq!(register(&row, INPUT_REGISTER_0), 6);
    assert_eq!(register(&row, INPUT_REGISTER_1), 7);
    assert_eq!(register(&row, OUTPUT_REGISTER), 42);
    assert_eq!(register(&row, AUX_REGISTER_0), 0);
}

#[test]
fn division_keeps_quotient_and_remainder() {
    let mut row = blank();
    let mut next_row = blank();
    divmod::generate(&mut row, &mut next_row, IS_DIV, 10, 3, 3);
    assert_eq!(register(&row, OUTPUT_REGISTER), 3);
    assert_eq!(register(&next_row, divmod::QUOTIENT_REGISTER), 3);
    assert_eq!(register(&next_row, divmod::REMAINDER_REGISTER), 1);
    let mut row = blank();
    let mut next_row = blank();
    divmod::generate(&mut row, &mut next_row, IS_MOD, 10, 3, 1);
    assert_eq!(register(&row, INPUT_REGISTER_0), 10);
    assert_eq!(register(&row, INPUT_REGISTER_1), 3);
    assert_eq!(register(&row, OUTPUT_REGISTER), 1);
    assert_eq!(register(&next_row, divmod::QUOTIENT_REGISTER), 3);
    assert_eq!(register(&next_row, divmod::REMAINDER_REGISTER), 1);
}

#[test]
fn division_by_zero_keeps_zeros() {
    for selector in [IS_DIV, IS_MOD] {
        let mut row = blank();
        let mut next_row = blank();
        divmod::generate(&mut row, &mut next_row, selector, u32::MAX, 0, 0);
        assert_eq!(register(&row, INPUT_REGISTER_0), 0xffff_ffff);
        assert_eq!(register(&row, OUTPUT_REGISTER), 0);
        assert_eq!(register(&next_row, divmod::QUOTIENT_REGISTER), 0);
        assert_eq!(register(&next_row, divmod::REMAINDER_REGISTER), 0);
    }
}

#[test]
fn displacement_is_a_power_of_two() {
    assert_eq!(shift::displacement_of(0), 1);
    assert_eq!(shift::displacement_of(4), 16);
    assert_eq!(shift::displacement_of(31), 0x8000_0000);
    assert_eq!(shift::displacement_of(32), 0);
    assert_eq!(shift::displacement_of(u32::MAX), 0);
}

#[test]
fn shift_left_is_a_product() {
    let mut row = blank();
    let mut next_row = blank();
    shift::generate(&mut row, &mut next_row, true, 4, 0x3000_0003, 0x0000_0030);
    assert_eq!(register(&row, INPUT_REGISTER_0), 4);
    assert_eq!(register(&row, INPUT_REGISTER_1), 0x3000_0003);
    assert_eq!(register(&row, INPUT_REGISTER_2), 16);
    assert_eq!(register(&row, OUTPUT_REGISTER), 0x30);
    assert_eq!(register(&row, AUX_REGISTER_0), 3);
    assert_eq!(next_row, blank());
}

#[test]
fn shift_right_is_a_quotient() {
    let mut row = blank();
    let mut next_row = blank();
    shift::generate(&mut row, &mut next_row, false, 4, 0x35, 3);
    assert_eq!(register(&row, INPUT_REGISTER_2), 16);
    assert_eq!(register(&row, OUTPUT_REGISTER), 3);
    assert_eq!(register(&next_row, AUX_REGISTER_0), 3);
    assert_eq!(register(&next_row, AUX_REGISTER_1), 5);
}

#[test]
fn shift_by_32_has_displacement_zero() {
    for left in [true, false] {
        let mut row = blank();
        let mut next_row = blank();
        shift::generate(&mut row, &mut next_row, left, 32, u32::MAX, 0);
        assert_eq!(register(&row, INPUT_REGISTER_0), 32);
        assert_eq!(register(&row, INPUT_REGISTER_2), 0);
        assert_eq!(register(&row, OUTPUT_REGISTER), 0);
    }
}

#[test]
fn modular_keeps_the_steps() {
    let mut row = blank();
    let mut next_row = blank();
    modular::generate(&mut row, &mut next_row, IS_ADDMOD, u32::MAX, 9, 7);
    assert_eq!(register(&row, INPUT_REGISTER_2), 7);
    assert_eq!(register(&row, OUTPUT_REGISTER), 1);
    assert_eq!(register(&next_row, modular::COMBINED_REGISTER), 8);
    assert_eq!(register(&next_row, modular::DROPPED_REGISTER), 1);
    assert_eq!(register(&next_row, modular::QUOTIENT_REGISTER), 1);

    let mut row = blank();
    let mut next_row = blank();
    modular::generate(&mut row, &mut next_row, IS_MULMOD, 0x1_0000, 0x1_0003, 10);
    assert_eq!(register(&row, OUTPUT_REGISTER), 8);
    assert_eq!(register(&next_row, modular::COMBINED_REGISTER), 0x3_0000);
    assert_eq!(register(&next_row, modular::DROPPED_REGISTER), 1);
    assert_eq!(register(&next_row, modular::QUOTIENT_REGISTER), 19_660);

    let mut row = blank();
    let mut next_row = blank();
    modular::generate(&mut row, &mut next_row, IS_SUBMOD, 1, 2, 7);
    assert_eq!(register(&row, OUTPUT_REGISTER), 3);
    assert_eq!(register(&next_row, modular::COMBINED_REGISTER), 0xffff_ffff);
    assert_eq!(register(&next_row, modular::DROPPED_REGISTER), 1);
    assert_eq!(register(&next_row, modular::QUOTIENT_REGISTER), 613_566_756);
}

#[test]
fn gadgets_leave_the_selectors_alone() {
    let mut row = blank();
    let mut next_row = blank();
    row[IS_SUBMOD] = 1;
    modular::generate(&mut row, &mut next_row, IS_SUBMOD, 9, 2, 7);
    for c in 0..NUM_SELECTORS {
        let expected: u64 = if c == IS_SUBMOD { 1 } else { 0 };
        assert_eq!(row[c], expected);
        assert_eq!(next_row[c], 0);
    }
}
