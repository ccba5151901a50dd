use arith_trace::columns::{
    AUX_REGISTER_0, AUX_REGISTER_1, INPUT_REGISTER_0, INPUT_REGISTER_1, INPUT_REGISTER_2, IS_ADD,
    IS_DIV, NUM_ARITH_COLUMNS, NUM_SELECTORS, OUTPUT_REGISTER,
};
use arith_trace::operation::Operation;
use arith_trace::operator::{BinaryOperator, TernaryOperator};
use arith_trace::register_gadgets::RegisterGadgets;
use arith_trace::rows::{binary_op_to_rows, ternary_op_to_rows};

const BINARY: [BinaryOperator; 9] = [
    BinaryOperator::Add,
    BinaryOperator::Mul,
    BinaryOperator::Sub,
    BinaryOperator::Div,
    BinaryOperator::Mod,
    BinaryOperator::Lt,
    BinaryOperator::Gt,
    BinaryOperator::Shl,
    BinaryOperator::Shr,
];

const TERNARY: [TernaryOperator; 3] =
    [TernaryOperator::AddMod, TernaryOperator::MulMod, TernaryOperator::SubMod];

fn register(row: &[u64], base: usize) -> u64 {
    assert!(row[base] < 0x1_0000 && row[base + 1] < 0x1_0000);
    row[base] + row[base + 1] * 0x1_0000
}

fn check_selectors(row: &[u64], selector: usize) {
    assert_eq!(row.len(), NUM_ARITH_COLUMNS);
    for c in 0..NUM_SELECTORS {
        let expected: u64 = if c == selector { 1 } else { 0 };
        assert_eq!(row[c], expected);
    }
}

#[test]
fn add_takes_one_row() {
    let (row, next_row) = Operation::binary(BinaryOperator::Add, 5, 7).to_rows(&RegisterGadgets);
    assert_eq!(row.len(), NUM_ARITH_COLUMNS);
    assert_eq!(row[IS_ADD], 1);
    assert!(next_row.is_none());
}

#[test]
fn exactly_one_selector_is_set() {
    for op in BINARY {
        let (row, next_row) = Operation::binary(op, 0xdead_beef, 5).to_rows(&RegisterGadgets);
        check_selectors(&row, op.row_filter());
        if let Some(next_row) = next_row {
            check_selectors(&next_row, NUM_SELECTORS);
        }
    }
    for op in TERNARY {
        let (row, next_row) = Operation::ternary(op, 0xdead_beef, 5, 77).to_rows(&RegisterGadgets);
        check_selectors(&row, op.row_filter());
        check_selectors(&next_row.expect("a ternary operation has two rows"), NUM_SELECTORS);
    }
}

#[test]
fn second_row_comes_with_div_mod_shr_and_ternary() {
    for op in BINARY {
        let (_, next_row) = Operation::binary(op, 3, 5).to_rows(&RegisterGadgets);
        let two: bool =
            matches!(op, BinaryOperator::Div | BinaryOperator::Mod | BinaryOperator::Shr);
        assert_eq!(next_row.is_some(), two);
    }
    for op in TERNARY {
        let (_, next_row) = Operation::ternary(op, 3, 5, 7).to_rows(&RegisterGadgets);
        assert!(next_row.is_some());
    }
}

#[test]
fn same_instruction_gives_same_rows() {
    for op in BINARY {
        let first = Operation::binary(op, 123_456, 17).to_rows(&RegisterGadgets);
        let second = Operation::binary(op, 123_456, 17).to_rows(&RegisterGadgets);
        assert_eq!(first, second);
    }
    for op in TERNARY {
        let first = Operation::ternary(op, 123_456, 17, 1000).to_rows(&RegisterGadgets);
        let second = Operation::ternary(op, 123_456, 17, 1000).to_rows(&RegisterGadgets);
        assert_eq!(first, second);
    }
}

#[test]
fn output_register_holds_the_result() {
    let pairs: [(u32, u32); 5] = [(5, 7), (0, 0), (u32::MAX, u32::MAX), (40, 3), (3, 0x8000_0001)];
    for op in BINARY {
        for (a, b) in pairs {
            let made = Operation::binary(op, a, b);
            let (row, _) = made.to_rows(&RegisterGadgets);
            assert_eq!(register(&row, OUTPUT_REGISTER), u64::from(made.result()));
            assert_eq!(register(&row, INPUT_REGISTER_0), u64::from(a));
            assert_eq!(register(&row, INPUT_REGISTER_1), u64::from(b));
        }
    }
    for op in TERNARY {
        for (a, b) in pairs {
            let made = Operation::ternary(op, a, b, 1_000_003);
            let (row, _) = made.to_rows(&RegisterGadgets);
            assert_eq!(register(&row, OUTPUT_REGISTER), u64::from(made.result()));
            assert_eq!(register(&row, INPUT_REGISTER_2), 1_000_003);
        }
    }
}

#[test]
fn division_by_zero_is_encoded_as_zero() {
    let op = Operation::binary(BinaryOperator::Div, 10, 0);
    assert_eq!(op.result(), 0);
    let (row, next_row) = op.to_rows(&RegisterGadgets);
    let next_row = next_row.expect("a division has two rows");
    check_selectors(&row, IS_DIV);
    assert_eq!(register(&row, INPUT_REGISTER_0), 10);
    assert_eq!(register(&row, INPUT_REGISTER_1), 0);
    assert_eq!(register(&row, OUTPUT_REGISTER), 0);
    assert_eq!(register(&next_row, AUX_REGISTER_0), 0);
    assert_eq!(register(&next_row, AUX_REGISTER_1), 0);
}

#[test]
fn rows_of_an_addition() {
    let (row, next_row) = Operation::binary(BinaryOperator::Add, 5, 7).to_rows(&RegisterGadgets);
    let mut expected: Vec<u64> = vec![0; NUM_ARITH_COLUMNS];
    expected[IS_ADD] = 1;
    expected[INPUT_REGISTER_0] = 5;
    expected[INPUT_REGISTER_1] = 7;
    expected[OUTPUT_REGISTER] = 12;
    assert_eq!(row, expected);
    assert_eq!(next_row, None);
}

#[test]
fn helpers_agree_with_to_rows() {
    let gadgets = RegisterGadgets;
    for op in BINARY {
        let made = Operation::binary(op, 77, 5);
        let direct = binary_op_to_rows(&gadgets, op, 77, 5, made.result());
        assert_eq!(direct, made.to_rows(&gadgets));
    }
    for op in TERNARY {
        let made = Operation::ternary(op, 77, 5, 9);
        let direct = ternary_op_to_rows(&gadgets, op.row_filter(), 77, 5, 9, made.result());
        assert_eq!(direct, made.to_rows(&gadgets));
    }
}
