use luna::ast::{
    BinaryOperation, BinaryOperator, BooleanLiteral, Expression, NilLiteral, NumberLiteral,
    StringLiteral, UnaryOperation, UnaryOperator,
};
use luna::evaluation::{
    reassociated_chain, should_wrap, should_wrap_left, should_wrap_right, Associativity, AssociativityValue,
    EvaluationOrder, Precedence, PrecedenceValue,
};

fn n(text: &str) -> NumberLiteral {
    NumberLiteral::from(text)
}

#[test]
fn precedence_ladder() {
    let ladder = [
        PrecedenceValue::Relational,
        PrecedenceValue::Equality,
        PrecedenceValue::Or,
        PrecedenceValue::And,
        PrecedenceValue::Additive,
        PrecedenceValue::Multiplicative,
        PrecedenceValue::Exponentiation,
        PrecedenceValue::Unary,
        PrecedenceValue::Verbatim,
    ];
    for (i, p) in ladder.iter().enumerate() {
        assert_eq!(p.level() as usize, i + 1);
    }
    assert!(PrecedenceValue::Verbatim > PrecedenceValue::Unary);
    assert!(PrecedenceValue::Equality > PrecedenceValue::Relational);
}

#[test]
fn operator_precedence() {
    assert_eq!(BinaryOperator::Add.precedence(), PrecedenceValue::Additive);
    assert_eq!(BinaryOperator::Modulo.precedence(), PrecedenceValue::Multiplicative);
    assert_eq!(BinaryOperator::Power.precedence(), PrecedenceValue::Exponentiation);
    assert_eq!(BinaryOperator::And.precedence(), PrecedenceValue::And);
    assert_eq!(BinaryOperator::Or.precedence(), PrecedenceValue::Or);
    assert_eq!(BinaryOperator::NotEqual.precedence(), PrecedenceValue::Equality);
    assert_eq!(BinaryOperator::GreaterThanOrEqual.precedence(), PrecedenceValue::Relational);
    assert_eq!(UnaryOperator::Length.precedence(), PrecedenceValue::Unary);
    assert_eq!(NilLiteral.precedence(), PrecedenceValue::Verbatim);
    assert_eq!(StringLiteral::from("s").precedence(), PrecedenceValue::Verbatim);
    assert_eq!(Expression::from(BooleanLiteral::from(true)).precedence(), PrecedenceValue::Verbatim);
    assert_eq!(
        Expression::from(BinaryOperation::divide(n("1"), n("2"))).precedence(),
        PrecedenceValue::Multiplicative
    );
}

#[test]
fn operator_associativity() {
    assert_eq!(BinaryOperator::Add.associativity(), AssociativityValue::full());
    assert_eq!(BinaryOperator::Or.associativity(), AssociativityValue::full());
    assert_eq!(BinaryOperator::Subtract.associativity(), AssociativityValue::left());
    assert_eq!(BinaryOperator::LessThan.associativity(), AssociativityValue::left());
    assert_eq!(BinaryOperator::Power.associativity(), AssociativityValue::right());
    assert_eq!(UnaryOperator::Not.associativity(), AssociativityValue::right());
    assert_eq!(n("1").associativity(), AssociativityValue::none());
    let full = AssociativityValue::full();
    assert!(full.is_left() && full.is_right());
    let none = AssociativityValue::none();
    assert!(!none.is_left() && !none.is_right());
}

#[test]
fn evaluation_rules_of_an_operation() {
    let rules = UnaryOperation::negate(n("1")).evaluation_rules();
    assert_eq!(rules.precedence(), PrecedenceValue::Unary);
    assert!(rules.is_right_associative());
    assert!(!rules.is_left_associative());
    assert_eq!(rules.associativity(), AssociativityValue::right());
}

#[test]
fn wrap_decisions() {
    let sub = BinaryOperation::subtract(n("1"), n("2"));
    let add = BinaryOperation::add(n("1"), n("2"));
    let pow = BinaryOperation::power(n("1"), n("2"));
    let mul = BinaryOperation::multiply(n("1"), n("2"));
    // Equal precedence: the left child wraps when the parent is right-associative.
    assert!(!should_wrap_left(&sub, &sub));
    assert!(should_wrap_right(&sub, &sub));
    assert!(should_wrap_left(&pow, &pow));
    assert!(!should_wrap_right(&pow, &pow));
    assert!(should_wrap_left(&add, &add));
    assert!(should_wrap_right(&add, &add));
    // Looser children always wrap, tighter ones never.
    assert!(should_wrap_left(&mul, &add));
    assert!(!should_wrap_right(&add, &mul));
    // Literals never wrap.
    assert!(!should_wrap_left(&pow, &n("3")));
    assert!(!should_wrap_right(&UnaryOperation::not(n("1")), &NilLiteral));
    assert!(should_wrap(&mul, &mul, true));
    assert!(!should_wrap(&mul, &mul, false));
}

#[test]
fn reassociated_chains() {
    let add = BinaryOperation::add(n("1"), n("2"));
    let sub = BinaryOperation::subtract(n("1"), n("2"));
    let add_child = Expression::from(BinaryOperation::add(n("3"), n("4")));
    let sub_child = Expression::from(BinaryOperation::subtract(n("3"), n("4")));
    assert!(reassociated_chain(&add, &add_child));
    assert!(!reassociated_chain(&add, &sub_child));
    assert!(!reassociated_chain(&sub, &sub_child));
    assert!(!reassociated_chain(&add, &Expression::from(n("5"))));
    let or = BinaryOperation::or(n("1"), n("2"));
    assert!(reassociated_chain(&or, &Expression::from(BinaryOperation::or(n("3"), n("4")))));
    assert!(!reassociated_chain(&or, &Expression::from(BinaryOperation::and(n("3"), n("4")))));
}
