//! Evaluation order: precedence and associativity of expressions, and the rule
//! that decides when a child expression needs parentheses inside its parent.
use crate::ast::{
    BinaryOperation, BinaryOperator, BooleanLiteral, Expression, NilLiteral, NumberLiteral,
    StringLiteral, UnaryOperation, UnaryOperator,
};
use vstd::prelude::*;

verus! {

/// Binding strength, from the loosest (`Relational`) to the tightest (`Verbatim`).
#[derive(Debug, Clone, Copy, PartialEq, Eq, PartialOrd, Ord, Hash, Structural)]
pub enum PrecedenceValue {
    Relational,
    Equality,
    Or,
    And,
    Additive,
    Multiplicative,
    Exponentiation,
    Unary,
    Verbatim,
}

impl PrecedenceValue {
    /// The rung of the precedence ladder, 1 for `Relational` up to 9 for `Verbatim`.
    pub open spec fn spec_level(self) -> nat {
        match self {
            PrecedenceValue::Relational => 1,
            PrecedenceValue::Equality => 2,
            PrecedenceValue::Or => 3,
            PrecedenceValue::And => 4,
            PrecedenceValue::Additive => 5,
            PrecedenceValue::Multiplicative => 6,
            PrecedenceValue::Exponentiation => 7,
            PrecedenceValue::Unary => 8,
            PrecedenceValue::Verbatim => 9,
        }
    }

    /// Returns the rung of the precedence ladder.
    pub fn level(&self) -> (r: u8)
        ensures
            r as nat == self.spec_level(),
    {
        match self {
            PrecedenceValue::Relational => 1,
            PrecedenceValue::Equality => 2,
            PrecedenceValue::Or => 3,
            PrecedenceValue::And => 4,
            PrecedenceValue::Additive => 5,
            PrecedenceValue::Multiplicative => 6,
            PrecedenceValue::Exponentiation => 7,
            PrecedenceValue::Unary => 8,
            PrecedenceValue::Verbatim => 9,
        }
    }
}

/// Whether neighbours of equal precedence group to the left, to the right, both or neither.
#[derive(Debug, Clone, Copy, PartialEq, Eq, Structural)]
pub struct AssociativityValue {
    pub(crate) left: bool,
    pub(crate) right: bool,
}

impl AssociativityValue {
    /// Whether the value is left-associative.
    pub open(crate) spec fn spec_is_left(&self) -> bool {
        self.left
    }

    /// Whether the value is right-associative.
    pub open(crate) spec fn spec_is_right(&self) -> bool {
        self.right
    }

    /// Neither left- nor right-associative (literals).
    pub fn none() -> (r: Self)
        ensures
            !r.spec_is_left(),
            !r.spec_is_right(),
    {
        AssociativityValue { left: false, right: false }
    }

    /// Left-associative only.
    pub fn left() -> (r: Self)
        ensures
            r.spec_is_left(),
            !r.spec_is_right(),
    {
        AssociativityValue { left: true, right: false }
    }

    /// Right-associative only.
    pub fn right() -> (r: Self)
        ensures
            !r.spec_is_left(),
            r.spec_is_right(),
    {
        AssociativityValue { left: false, right: true }
    }

    /// Both left- and right-associative (freely reassociable).
    pub fn full() -> (r: Self)
        ensures
            r.spec_is_left(),
            r.spec_is_right(),
    {
        AssociativityValue { left: true, right: true }
    }

    /// Returns whether the value is left-associative.
    pub fn is_left(&self) -> (r: bool)
        ensures
            r == self.spec_is_left(),
    {
        self.left
    }

    /// Returns whether the value is right-associative.
    pub fn is_right(&self) -> (r: bool)
        ensures
            r == self.spec_is_right(),
    {
        self.right
    }
}

/// The associativity of each unary operator: all are right-associative.
pub open spec fn unary_associativity(op: UnaryOperator) -> (bool, bool) {
    (false, true)
}

/// The associativity of each binary operator, as (left, right).
pub open spec fn binary_associativity(op: BinaryOperator) -> (bool, bool) {
    match op {
        BinaryOperator::Add | BinaryOperator::Multiply | BinaryOperator::And
        | BinaryOperator::Or => (true, true),
        BinaryOperator::Power => (false, true),
        _ => (true, false),
    }
}

/// The precedence of each binary operator.
pub open spec fn binary_precedence(op: BinaryOperator) -> PrecedenceValue {
    match op {
        BinaryOperator::Add | BinaryOperator::Subtract => PrecedenceValue::Additive,
        BinaryOperator::Multiply | BinaryOperator::Divide
        | BinaryOperator::Modulo => PrecedenceValue::Multiplicative,
        BinaryOperator::Power => PrecedenceValue::Exponentiation,
        BinaryOperator::And => PrecedenceValue::And,
        BinaryOperator::Or => PrecedenceValue::Or,
        BinaryOperator::Equal | BinaryOperator::NotEqual => PrecedenceValue::Equality,
        BinaryOperator::LessThan | BinaryOperator::GreaterThan
        | BinaryOperator::GreaterThanOrEqual
        | BinaryOperator::LessThanOrEqual => PrecedenceValue::Relational,
    }
}

/// The precedence of an expression: literals are verbatim, operations take their operator's.
pub open spec fn expression_precedence(e: Expression) -> PrecedenceValue {
    match e {
        Expression::UnaryOperation(_) => PrecedenceValue::Unary,
        Expression::BinaryOperation(b) => binary_precedence(b.spec_operator()),
        _ => PrecedenceValue::Verbatim,
    }
}

/// The associativity of an expression, as (left, right): literals have none.
pub open spec fn expression_associativity(e: Expression) -> (bool, bool) {
    match e {
        Expression::UnaryOperation(u) => unary_associativity(u.spec_operator()),
        Expression::BinaryOperation(b) => binary_associativity(b.spec_operator()),
        _ => (false, false),
    }
}

/// Whether a child of precedence `child` needs parentheses inside a parent of precedence
/// `parent`, where `associative` is the parent's associativity toward the other side.
pub open spec fn wraps(parent: PrecedenceValue, child: PrecedenceValue, associative: bool) -> bool {
    if child.spec_level() < parent.spec_level() {
        true
    } else if child.spec_level() > parent.spec_level() {
        false
    } else {
        associative
    }
}

/// Whether the left operand `child` of `parent` needs parentheses: at equal precedence,
/// when the parent is right-associative.
pub open spec fn wraps_left(parent: Expression, child: Expression) -> bool {
    wraps(
        expression_precedence(parent),
        expression_precedence(child),
        expression_associativity(parent).1,
    )
}

/// Whether the right operand `child` of `parent` needs parentheses: at equal precedence,
/// when the parent is left-associative.
pub open spec fn wraps_right(parent: Expression, child: Expression) -> bool {
    wraps(
        expression_precedence(parent),
        expression_precedence(child),
        expression_associativity(parent).0,
    )
}

/// Whether `child` is a binary operation with the same operator as `parent`, and that operator
/// reassociates freely (`+`, `*`, `and`, `or`): `a + b + c` means the same whichever way it
/// groups, so such a chain needs no parentheses on either side.
pub open spec fn reassociates(parent: Expression, child: Expression) -> bool {
    match (parent, child) {
        (Expression::BinaryOperation(p), Expression::BinaryOperation(c)) => p.spec_operator()
            == c.spec_operator() && binary_associativity(p.spec_operator()) == (true, true),
        _ => false,
    }
}

/// Whether the left operand `child` of `parent` is written in parentheses: when the
/// evaluation order asks for them, unless the two reassociate.
pub open spec fn needs_parentheses_left(parent: Expression, child: Expression) -> bool {
    wraps_left(parent, child) && !reassociates(parent, child)
}

/// Whether the right operand `child` of `parent` is written in parentheses: when the
/// evaluation order asks for them, unless the two reassociate.
pub open spec fn needs_parentheses_right(parent: Expression, child: Expression) -> bool {
    wraps_right(parent, child) && !reassociates(parent, child)
}

/// Something with a precedence.
pub trait Precedence {
    /// The precedence.
    spec fn spec_precedence(&self) -> PrecedenceValue;

    /// Returns the precedence.
    fn precedence(&self) -> (r: PrecedenceValue)
        ensures
            r == self.spec_precedence(),
    ;
}

/// Something with an associativity.
pub trait Associativity {
    /// The associativity, as (left, right).
    spec fn spec_associativity(&self) -> (bool, bool);

    /// Returns the associativity.
    fn associativity(&self) -> (r: AssociativityValue)
        ensures
            (r.spec_is_left(), r.spec_is_right()) == self.spec_associativity(),
    ;
}

impl Precedence for NilLiteral {
    open spec fn spec_precedence(&self) -> PrecedenceValue {
        PrecedenceValue::Verbatim
    }

    fn precedence(&self) -> (r: PrecedenceValue) {
        PrecedenceValue::Verbatim
    }
}

impl Associativity for NilLiteral {
    open spec fn spec_associativity(&self) -> (bool, bool) {
        (false, false)
    }

    fn associativity(&self) -> (r: AssociativityValue) {
        AssociativityValue::none()
    }
}

impl Precedence for BooleanLiteral {
    open spec fn spec_precedence(&self) -> PrecedenceValue {
        PrecedenceValue::Verbatim
    }

    fn precedence(&self) -> (r: PrecedenceValue) {
        PrecedenceValue::Verbatim
    }
}

impl Associativity for BooleanLiteral {
    open spec fn spec_associativity(&self) -> (bool, bool) {
        (false, false)
    }

    fn associativity(&self) -> (r: AssociativityValue) {
        AssociativityValue::none()
    }
}

impl Precedence for NumberLiteral {
    open spec fn spec_precedence(&self) -> PrecedenceValue {
        PrecedenceValue::Verbatim
    }

    fn precedence(&self) -> (r: PrecedenceValue) {
        PrecedenceValue::Verbatim
    }
}

impl Associativity for NumberLiteral {
    open spec fn spec_associativity(&self) -> (bool, bool) {
        (false, false)
    }

    fn associativity(&self) -> (r: AssociativityValue) {
        AssociativityValue::none()
    }
}

impl Precedence for StringLiteral {
    open spec fn spec_precedence(&self) -> PrecedenceValue {
        PrecedenceValue::Verbatim
    }

    fn precedence(&self) -> (r: PrecedenceValue) {
        PrecedenceValue::Verbatim
    }
}

impl Associativity for StringLiteral {
    open spec fn spec_associativity(&self) -> (bool, bool) {
        (false, false)
    }

    fn associativity(&self) -> (r: AssociativityValue) {
        AssociativityValue::none()
    }
}

impl Precedence for UnaryOperator {
    open spec fn spec_precedence(&self) -> PrecedenceValue {
        PrecedenceValue::Unary
    }

    fn precedence(&self) -> (r: PrecedenceValue) {
        PrecedenceValue::Unary
    }
}

impl Associativity for UnaryOperator {
    open spec fn spec_associativity(&self) -> (bool, bool) {
        unary_associativity(*self)
    }

    // Every unary operator is right-associative: `#-a` is `#(-a)`.
    fn associativity(&self) -> (r: AssociativityValue) {
        AssociativityValue::right()
    }
}

impl Precedence for BinaryOperator {
    open spec fn spec_precedence(&self) -> PrecedenceValue {
        binary_precedence(*self)
    }

    fn precedence(&self) -> (r: PrecedenceValue) {
        match self {
            BinaryOperator::Add => PrecedenceValue::Additive,
            BinaryOperator::Subtract => PrecedenceValue::Additive,
            BinaryOperator::Multiply => PrecedenceValue::Multiplicative,
            BinaryOperator::Divide => PrecedenceValue::Multiplicative,
            BinaryOperator::Modulo => PrecedenceValue::Multiplicative,
            BinaryOperator::Power => PrecedenceValue::Exponentiation,
            BinaryOperator::And => PrecedenceValue::And,
            BinaryOperator::Or => PrecedenceValue::Or,
            BinaryOperator::Equal => PrecedenceValue::Equality,
            BinaryOperator::NotEqual => PrecedenceValue::Equality,
            BinaryOperator::LessThan => PrecedenceValue::Relational,
            BinaryOperator::GreaterThan => PrecedenceValue::Relational,
            BinaryOperator::GreaterThanOrEqual => PrecedenceValue::Relational,
            BinaryOperator::LessThanOrEqual => PrecedenceValue::Relational,
        }
    }
}

impl Associativity for BinaryOperator {
    open spec fn spec_associativity(&self) -> (bool, bool) {
        binary_associativity(*self)
    }

    // Short-circuiting operators evaluate the same operands whatever the grouping, so `and`
    // and `or` reassociate freely. Comparisons group to the left.
    fn associativity(&self) -> (r: AssociativityValue) {
        match self {
            BinaryOperator::Add => AssociativityValue::full(),
            BinaryOperator::Subtract => AssociativityValue::left(),
            BinaryOperator::Multiply => AssociativityValue::full(),
            BinaryOperator::Divide => AssociativityValue::left(),
            BinaryOperator::Modulo => AssociativityValue::left(),
            BinaryOperator::Power => AssociativityValue::right(),
            BinaryOperator::And => AssociativityValue::full(),
            BinaryOperator::Or => AssociativityValue::full(),
            BinaryOperator::Equal => AssociativityValue::left(),
            BinaryOperator::NotEqual => AssociativityValue::left(),
            BinaryOperator::LessThan => AssociativityValue::left(),
            BinaryOperator::GreaterThan => AssociativityValue::left(),
            BinaryOperator::GreaterThanOrEqual => AssociativityValue::left(),
            BinaryOperator::LessThanOrEqual => AssociativityValue::left(),
        }
    }
}

impl Precedence for UnaryOperation {
    open spec fn spec_precedence(&self) -> PrecedenceValue {
        PrecedenceValue::Unary
    }

    fn precedence(&self) -> (r: PrecedenceValue) {
        self.operator().precedence()
    }
}

impl Associativity for UnaryOperation {
    open spec fn spec_associativity(&self) -> (bool, bool) {
        unary_associativity(self.spec_operator())
    }

    fn associativity(&self) -> (r: AssociativityValue) {
        self.operator().associativity()
    }
}

impl Precedence for BinaryOperation {
    open spec fn spec_precedence(&self) -> PrecedenceValue {
        binary_precedence(self.spec_operator())
    }

    fn precedence(&self) -> (r: PrecedenceValue) {
        self.operator().precedence()
    }
}

impl Associativity for BinaryOperation {
    open spec fn spec_associativity(&self) -> (bool, bool) {
        binary_associativity(self.spec_operator())
    }

    fn associativity(&self) -> (r: AssociativityValue) {
        self.operator().associativity()
    }
}

impl Precedence for Expression {
    open spec fn spec_precedence(&self) -> PrecedenceValue {
        expression_precedence(*self)
    }

    fn precedence(&self) -> (r: PrecedenceValue) {
        match self {
            Expression::NilLiteral(e) => e.precedence(),
            Expression::BooleanLiteral(e) => e.precedence(),
            Expression::NumberLiteral(e) => e.precedence(),
            Expression::StringLiteral(e) => e.precedence(),
            Expression::UnaryOperation(e) => e.precedence(),
            Expression::BinaryOperation(e) => e.precedence(),
        }
    }
}

impl Associativity for Expression {
    open spec fn spec_associativity(&self) -> (bool, bool) {
        expression_associativity(*self)
    }

    fn associativity(&self) -> (r: AssociativityValue) {
        match self {
            Expression::NilLiteral(e) => e.associativity(),
            Expression::BooleanLiteral(e) => e.associativity(),
            Expression::NumberLiteral(e) => e.associativity(),
            Expression::StringLiteral(e) => e.associativity(),
            Expression::UnaryOperation(e) => e.associativity(),
            Expression::BinaryOperation(e) => e.associativity(),
        }
    }
}

/// The precedence and associativity of a node, taken together.
#[derive(Debug, Clone, Copy, PartialEq, Eq, Structural)]
pub struct EvaluationRules {
    pub(crate) associativity: AssociativityValue,
    pub(crate) precedence: PrecedenceValue,
}

impl EvaluationRules {
    /// The associativity, as (left, right).
    pub open(crate) spec fn spec_associativity(&self) -> (bool, bool) {
        (self.associativity.left, self.associativity.right)
    }

    /// The precedence.
    pub open(crate) spec fn spec_precedence(&self) -> PrecedenceValue {
        self.precedence
    }

    /// Returns whether the node is left-associative.
    pub fn is_left_associative(&self) -> (r: bool)
        ensures
            r == self.spec_associativity().0,
    {
        self.associativity.is_left()
    }

    /// Returns whether the node is right-associative.
    pub fn is_right_associative(&self) -> (r: bool)
        ensures
            r == self.spec_associativity().1,
    {
        self.associativity.is_right()
    }

    /// Returns the associativity.
    pub fn associativity(&self) -> (r: AssociativityValue)
        ensures
            (r.spec_is_left(), r.spec_is_right()) == self.spec_associativity(),
    {
        self.associativity
    }

    /// Returns the precedence.
    pub fn precedence(&self) -> (r: PrecedenceValue)
        ensures
            r == self.spec_precedence(),
    {
        self.precedence
    }
}

/// Where a node stands in evaluation order, and whether its children need parentheses.
pub trait EvaluationOrder: Associativity + Precedence {
    /// Returns the node's precedence and associativity.
    fn evaluation_rules(&self) -> (r: EvaluationRules)
        ensures
            r.spec_precedence() == self.spec_precedence(),
            r.spec_associativity() == self.spec_associativity(),
    {
        EvaluationRules { associativity: self.associativity(), precedence: self.precedence() }
    }
}

impl EvaluationOrder for NilLiteral {

}

impl EvaluationOrder for BooleanLiteral {

}

impl EvaluationOrder for NumberLiteral {

}

impl EvaluationOrder for StringLiteral {

}

impl EvaluationOrder for UnaryOperator {

}

impl EvaluationOrder for BinaryOperator {

}

impl EvaluationOrder for UnaryOperation {

}

impl EvaluationOrder for BinaryOperation {

}

impl EvaluationOrder for Expression {

}

/// Returns whether `child` needs parentheses inside `parent`: always when it binds more
/// loosely, never when it binds more tightly, and `is_associative` at equal precedence.
pub fn should_wrap<P: EvaluationOrder, C: EvaluationOrder>(
    parent: &P,
    child: &C,
    is_associative: bool,
) -> (r: bool)
    ensures
        r == wraps(parent.spec_precedence(), child.spec_precedence(), is_associative),
{
    let parent_level = parent.evaluation_rules().precedence().level();
    let child_level = child.evaluation_rules().precedence().level();
    if child_level < parent_level {
        true
    } else if child_level > parent_level {
        false
    } else {
        is_associative
    }
}

/// Returns whether `child`, the left operand of `parent`, needs parentheses: at equal
/// precedence, when the parent is right-associative.
pub fn should_wrap_left<P: EvaluationOrder, C: EvaluationOrder>(parent: &P, child: &C) -> (r: bool)
    ensures
        r == wraps(parent.spec_precedence(), child.spec_precedence(), parent.spec_associativity().1),
{
    let is_associative = parent.evaluation_rules().is_right_associative();
    should_wrap(parent, child, is_associative)
}

/// Returns whether `child`, the right operand of `parent` (or the operand of a unary
/// operation), needs parentheses: at equal precedence, when the parent is left-associative.
pub fn should_wrap_right<P: EvaluationOrder, C: EvaluationOrder>(parent: &P, child: &C) -> (r: bool)
    ensures
        r == wraps(parent.spec_precedence(), child.spec_precedence(), parent.spec_associativity().0),
{
    let is_associative = parent.evaluation_rules().is_left_associative();
    should_wrap(parent, child, is_associative)
}

/// Returns whether `child` repeats the freely reassociating operator of `parent`.
pub fn reassociated_chain(parent: &BinaryOperation, child: &Expression) -> (r: bool)
    ensures
        r == reassociates(Expression::BinaryOperation(*parent), *child),
{
    match child {
        Expression::BinaryOperation(c) => {
            let op = parent.operator();
            let associativity = op.associativity();
            c.operator() == op && associativity.is_left() && associativity.is_right()
        },
        _ => false,
    }
}

/// Whether an expression is a literal: `nil`, a boolean, a number or a string.
pub open spec fn is_literal(e: Expression) -> bool {
    ||| e is NilLiteral
    ||| e is BooleanLiteral
    ||| e is NumberLiteral
    ||| e is StringLiteral
}

/// A child that binds more tightly than its parent needs no parentheses, on either side.
pub proof fn lemma_tighter_child_unwrapped(parent: Expression, child: Expression)
    requires
        expression_precedence(child).spec_level() > expression_precedence(parent).spec_level(),
    ensures
        !wraps_left(parent, child),
        !wraps_right(parent, child),
        !needs_parentheses_left(parent, child),
        !needs_parentheses_right(parent, child),
{
}

/// A literal child needs no parentheses, on either side, whatever its parent.
pub proof fn lemma_literal_child_unwrapped(parent: Expression, child: Expression)
    requires
        is_literal(child),
    ensures
        !wraps_left(parent, child),
        !wraps_right(parent, child),
        !needs_parentheses_left(parent, child),
        !needs_parentheses_right(parent, child),
{
}

/// A chain of one operator needs no parentheses where it groups the way the operator
/// associates: the left operand of a left-associative operator (`a - b - c` for
/// `(a - b) - c`), the right operand of a right-associative one (`a ^ b ^ c` for
/// `a ^ (b ^ c)`), and either operand of a freely reassociating one (`a + b + c`).
pub proof fn lemma_same_operator_chain_unwrapped(parent: BinaryOperation, child: BinaryOperation)
    requires
        parent.spec_operator() == child.spec_operator(),
    ensures
        binary_associativity(parent.spec_operator()).0 ==> !needs_parentheses_left(
            Expression::BinaryOperation(parent),
            Expression::BinaryOperation(child),
        ),
        binary_associativity(parent.spec_operator()).1 ==> !needs_parentheses_right(
            Expression::BinaryOperation(parent),
            Expression::BinaryOperation(child),
        ),
{
}

} // verus!
