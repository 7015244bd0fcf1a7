use luna::ast::{BinaryOperator, CompoundAssignmentOperator, TypeOperator, UnaryOperator};

#[test]
fn unary_operator_texts() {
    assert_eq!(UnaryOperator::negate().text(), "-");
    assert_eq!(UnaryOperator::len().text(), "#");
    assert_eq!(UnaryOperator::not().text(), "not");
}

#[test]
fn binary_operator_texts_are_distinct() {
    let all = [
        (BinaryOperator::add(), "+"),
        (BinaryOperator::subtract(), "-"),
        (BinaryOperator::multiply(), "*"),
        (BinaryOperator::divide(), "/"),
        (BinaryOperator::modulo(), "%"),
        (BinaryOperator::power(), "^"),
        (BinaryOperator::and(), "and"),
        (BinaryOperator::or(), "or"),
        (BinaryOperator::equal(), "=="),
        (BinaryOperator::not_equal(), "~="),
        (BinaryOperator::less_than(), "<"),
        (BinaryOperator::greater_than(), ">"),
        (BinaryOperator::greater_than_or_equal(), ">="),
        (BinaryOperator::less_than_or_equal(), "<="),
    ];
    for (i, (a, text)) in all.iter().enumerate() {
        assert_eq!(a.text(), *text);
        assert!(!a.text().is_empty());
        for (b, _) in all.iter().skip(i + 1) {
            assert_ne!(a.text(), b.text());
        }
    }
}

#[test]
fn compound_and_type_operator_texts() {
    assert_eq!(CompoundAssignmentOperator::Add.text(), "+=");
    assert_eq!(CompoundAssignmentOperator::Subtract.text(), "-=");
    assert_eq!(CompoundAssignmentOperator::Multiply.text(), "*=");
    assert_eq!(CompoundAssignmentOperator::Divide.text(), "/=");
    assert_eq!(CompoundAssignmentOperator::Modulo.text(), "%=");
    assert_eq!(CompoundAssignmentOperator::Power.text(), "^=");
    assert_eq!(TypeOperator::union().text(), "|");
    assert_eq!(TypeOperator::intersection().text(), "&");
}
