use luna::ast::{
    BinaryOperation, BooleanLiteral, Expression, NilLiteral, NumberLiteral, StringLiteral,
    UnaryOperation,
};
use luna::format::{SourceFormat, SourceFormatSettings};

fn n(text: &str) -> NumberLiteral {
    NumberLiteral::from(text)
}

fn s(text: &str) -> StringLiteral {
    StringLiteral::from(text)
}

fn render<T: SourceFormat>(node: &T) -> String {
    node.format_string(&SourceFormatSettings::default())
}

#[test]
fn add_is_spaced() {
    assert_eq!(render(&BinaryOperation::add(n("1"), n("2"))), "1 + 2");
}

#[test]
fn subtract_chain_on_the_left_is_bare() {
    let e = BinaryOperation::subtract(BinaryOperation::subtract(n("1"), n("2")), n("3"));
    assert_eq!(render(&e), "1 - 2 - 3");
}

#[test]
fn subtract_chain_on_the_right_is_parenthesized() {
    let e = BinaryOperation::subtract(n("1"), BinaryOperation::subtract(n("2"), n("3")));
    assert_eq!(render(&e), "1 - (2 - 3)");
}

#[test]
fn power_chain_on_the_right_is_bare() {
    let e = BinaryOperation::power(n("2"), BinaryOperation::power(n("3"), n("4")));
    assert_eq!(render(&e), "2 ^ 3 ^ 4");
}

#[test]
fn power_chain_on_the_left_is_parenthesized() {
    let e = BinaryOperation::power(BinaryOperation::power(n("2"), n("3")), n("4"));
    assert_eq!(render(&e), "(2 ^ 3) ^ 4");
}

#[test]
fn looser_left_operand_is_parenthesized() {
    let e = BinaryOperation::multiply(BinaryOperation::add(n("1"), n("2")), n("3"));
    assert_eq!(render(&e), "(1 + 2) * 3");
}

#[test]
fn negated_sum_is_parenthesized() {
    let e = UnaryOperation::negate(BinaryOperation::add(n("1"), n("2")));
    assert_eq!(render(&e), "-(1 + 2)");
}

#[test]
fn not_of_equality_is_parenthesized() {
    let e = UnaryOperation::not(BinaryOperation::equal(s("a"), s("b")));
    let text = render(&e);
    // `not` is always spaced, on both sides.
    assert_eq!(text, " not (a == b)");
    assert_eq!(text.trim(), "not (a == b)");
}

#[test]
fn double_negation_unspaced_by_default() {
    let e = UnaryOperation::negate(UnaryOperation::negate(s("x")));
    assert_eq!(render(&e), "--x");
}

#[test]
fn double_negation_spaced_when_asked() {
    let e = UnaryOperation::negate(UnaryOperation::negate(s("x")));
    let mut settings = SourceFormatSettings::default();
    settings.operator_spacing.negate = true;
    assert_eq!(e.format_string(&settings), " -  - x");
}

#[test]
fn tighter_operands_are_bare() {
    let e = BinaryOperation::add(
        BinaryOperation::multiply(n("1"), n("2")),
        BinaryOperation::divide(n("3"), n("4")),
    );
    assert_eq!(render(&e), "1 * 2 + 3 / 4");
}

#[test]
fn literal_operands_are_bare() {
    let e = BinaryOperation::and(NilLiteral, BooleanLiteral::from(true));
    assert_eq!(render(&e), "nil and true");
    let u = UnaryOperation::length(s("t"));
    assert_eq!(render(&u), "#t");
}

#[test]
fn full_associative_chain_is_bare() {
    let left = BinaryOperation::add(BinaryOperation::add(n("1"), n("2")), n("3"));
    assert_eq!(render(&left), "1 + 2 + 3");
    let right = BinaryOperation::add(n("1"), BinaryOperation::add(n("2"), n("3")));
    assert_eq!(render(&right), "1 + 2 + 3");
    let product = BinaryOperation::multiply(BinaryOperation::multiply(n("2"), n("3")), n("4"));
    assert_eq!(render(&product), "2 * 3 * 4");
    let both = BinaryOperation::and(
        BinaryOperation::and(s("a"), s("b")),
        BinaryOperation::and(s("c"), s("d")),
    );
    assert_eq!(render(&both), "a and b and c and d");
    let either = BinaryOperation::or(s("a"), BinaryOperation::or(s("b"), s("c")));
    assert_eq!(render(&either), "a or b or c");
}

#[test]
fn mixed_operators_of_equal_precedence_keep_the_rule() {
    // Only a repeated freely reassociating operator drops its parentheses.
    let e = BinaryOperation::add(BinaryOperation::subtract(n("1"), n("2")), n("3"));
    assert_eq!(render(&e), "(1 - 2) + 3");
    let e = BinaryOperation::add(n("1"), BinaryOperation::subtract(n("2"), n("3")));
    assert_eq!(render(&e), "1 + (2 - 3)");
    let e = BinaryOperation::multiply(n("1"), BinaryOperation::divide(n("2"), n("3")));
    assert_eq!(render(&e), "1 * (2 / 3)");
}

#[test]
fn word_operators_spaced_regardless_of_settings() {
    let mut settings = SourceFormatSettings::default();
    settings.operator_spacing.and = false;
    settings.operator_spacing.or = false;
    settings.operator_spacing.add = false;
    let e = BinaryOperation::or(
        BinaryOperation::and(s("a"), s("b")),
        BinaryOperation::add(n("1"), n("2")),
    );
    assert_eq!(e.format_string(&settings), "a and b or 1+2");
}

#[test]
fn comparison_below_equality() {
    let e = BinaryOperation::equal(BinaryOperation::less_than(n("1"), n("2")), BooleanLiteral::from(false));
    assert_eq!(render(&e), "(1 < 2) == false");
    let e = BinaryOperation::less_than(BinaryOperation::equal(n("1"), n("2")), n("3"));
    assert_eq!(render(&e), "1 == 2 < 3");
}

#[test]
fn every_binary_operator_text() {
    let cases: Vec<(BinaryOperation, &str)> = vec![
        (BinaryOperation::add(n("1"), n("2")), "1 + 2"),
        (BinaryOperation::subtract(n("1"), n("2")), "1 - 2"),
        (BinaryOperation::multiply(n("1"), n("2")), "1 * 2"),
        (BinaryOperation::divide(n("1"), n("2")), "1 / 2"),
        (BinaryOperation::modulo(n("1"), n("2")), "1 % 2"),
        (BinaryOperation::power(n("1"), n("2")), "1 ^ 2"),
        (BinaryOperation::and(n("1"), n("2")), "1 and 2"),
        (BinaryOperation::or(n("1"), n("2")), "1 or 2"),
        (BinaryOperation::equal(n("1"), n("2")), "1 == 2"),
        (BinaryOperation::not_equal(n("1"), n("2")), "1 ~= 2"),
        (BinaryOperation::less_than(n("1"), n("2")), "1 < 2"),
        (BinaryOperation::greater_than(n("1"), n("2")), "1 > 2"),
        (BinaryOperation::greater_than_or_equal(n("1"), n("2")), "1 >= 2"),
        (BinaryOperation::less_than_or_equal(n("1"), n("2")), "1 <= 2"),
    ];
    for (e, expected) in cases {
        assert_eq!(render(&e), expected);
    }
}

#[test]
fn literals_render_verbatim() {
    assert_eq!(render(&Expression::from(NilLiteral)), "nil");
    assert_eq!(render(&Expression::from(BooleanLiteral::from(true))), "true");
    assert_eq!(render(&Expression::from(BooleanLiteral::from(false))), "false");
    assert_eq!(render(&Expression::from(n("0x1F"))), "0x1F");
    assert_eq!(render(&Expression::from(s("hello"))), "hello");
    assert_eq!(NumberLiteral::default().value(), "0");
}

#[test]
fn operation_accessors() {
    let e = BinaryOperation::subtract(n("1"), n("2"));
    assert_eq!(e.operator(), luna::ast::BinaryOperator::Subtract);
    assert_eq!(e.left(), &Expression::from(n("1")));
    assert_eq!(e.right(), &Expression::from(n("2")));
    let u = UnaryOperation::not(BooleanLiteral::from(true));
    assert_eq!(u.operator(), luna::ast::UnaryOperator::Not);
    assert_eq!(u.operand(), &Expression::from(BooleanLiteral::from(true)));
}
