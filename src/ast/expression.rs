//! Expressions: literals, unary and binary operations.
use crate::ast::operator::{BinaryOperator, UnaryOperator};
use vstd::prelude::*;
use vstd::std_specs::convert::IntoSpec;

verus! {

/// The `nil` literal.
#[derive(Debug, Clone, PartialEq, Eq, Hash, Default)]
pub struct NilLiteral;

/// A `true` or `false` literal.
#[derive(Debug, PartialEq, Eq, Hash, Default)]
pub struct BooleanLiteral {
    pub(crate) value: bool,
}

impl BooleanLiteral {
    /// The value of the literal.
    pub open(crate) spec fn spec_value(&self) -> bool {
        self.value
    }

    /// Returns the value of the literal.
    pub fn value(&self) -> (r: bool)
        ensures
            r == self.spec_value(),
    {
        self.value
    }
}

impl From<bool> for BooleanLiteral {
    fn from(value: bool) -> (r: Self)
        ensures
            r.spec_value() == value,
    {
        BooleanLiteral { value }
    }
}

impl vstd::std_specs::convert::FromSpecImpl<bool> for BooleanLiteral {
    open spec fn obeys_from_spec() -> bool {
        true
    }

    closed spec fn from_spec(v: bool) -> Self {
        BooleanLiteral { value: v }
    }
}

/// A string literal, holding its decoded content.
#[derive(Debug, PartialEq, Eq, Hash, Default)]
pub struct StringLiteral {
    pub(crate) value: String,
}

impl StringLiteral {
    /// The text that the literal holds.
    pub open(crate) spec fn spec_value(&self) -> Seq<char> {
        self.value@
    }

    /// Returns the text that the literal holds.
    pub fn value(&self) -> (r: &str)
        ensures
            r@ == self.spec_value(),
    {
        self.value.as_str()
    }
}

impl<'a> From<&'a str> for StringLiteral {
    fn from(value: &'a str) -> (r: Self)
        ensures
            r.spec_value() == value@,
    {
        StringLiteral { value: value.to_string() }
    }
}

impl<'a> vstd::std_specs::convert::FromSpecImpl<&'a str> for StringLiteral {
    open spec fn obeys_from_spec() -> bool {
        false
    }

    closed spec fn from_spec(v: &'a str) -> Self {
        choose|r: Self| r.value@ == v@
    }
}

impl From<String> for StringLiteral {
    fn from(value: String) -> (r: Self)
        ensures
            r.spec_value() == value@,
    {
        StringLiteral { value }
    }
}

impl vstd::std_specs::convert::FromSpecImpl<String> for StringLiteral {
    open spec fn obeys_from_spec() -> bool {
        true
    }

    closed spec fn from_spec(v: String) -> Self {
        StringLiteral { value: v }
    }
}

/// A number literal, holding its source text (never parsed to a number).
#[derive(Debug, PartialEq, Eq, Hash)]
pub struct NumberLiteral {
    pub(crate) value: String,
}

impl NumberLiteral {
    /// The text that the literal holds.
    pub open(crate) spec fn spec_value(&self) -> Seq<char> {
        self.value@
    }

    /// Returns the text that the literal holds.
    pub fn value(&self) -> (r: &str)
        ensures
            r@ == self.spec_value(),
    {
        self.value.as_str()
    }
}

impl<'a> From<&'a str> for NumberLiteral {
    fn from(value: &'a str) -> (r: Self)
        ensures
            r.spec_value() == value@,
    {
        NumberLiteral { value: value.to_string() }
    }
}

impl<'a> vstd::std_specs::convert::FromSpecImpl<&'a str> for NumberLiteral {
    open spec fn obeys_from_spec() -> bool {
        false
    }

    closed spec fn from_spec(v: &'a str) -> Self {
        choose|r: Self| r.value@ == v@
    }
}

impl From<String> for NumberLiteral {
    fn from(value: String) -> (r: Self)
        ensures
            r.spec_value() == value@,
    {
        NumberLiteral { value }
    }
}

impl vstd::std_specs::convert::FromSpecImpl<String> for NumberLiteral {
    open spec fn obeys_from_spec() -> bool {
        true
    }

    closed spec fn from_spec(v: String) -> Self {
        NumberLiteral { value: v }
    }
}

impl Default for NumberLiteral {
    /// The literal `0`.
    fn default() -> (r: Self)
        ensures
            r.spec_value() == "0"@,
    {
        NumberLiteral { value: "0".to_string() }
    }
}

/// An expression.
#[derive(Debug, PartialEq)]
pub enum Expression {
    NilLiteral(NilLiteral),
    BooleanLiteral(BooleanLiteral),
    StringLiteral(StringLiteral),
    NumberLiteral(NumberLiteral),
    UnaryOperation(UnaryOperation),
    BinaryOperation(BinaryOperation),
}

impl From<NilLiteral> for Expression {
    fn from(value: NilLiteral) -> (r: Self)
        ensures
            r == Expression::NilLiteral(value),
    {
        Expression::NilLiteral(value)
    }
}

impl vstd::std_specs::convert::FromSpecImpl<NilLiteral> for Expression {
    open spec fn obeys_from_spec() -> bool {
        true
    }

    open spec fn from_spec(v: NilLiteral) -> Self {
        Expression::NilLiteral(v)
    }
}

impl From<BooleanLiteral> for Expression {
    fn from(value: BooleanLiteral) -> (r: Self)
        ensures
            r == Expression::BooleanLiteral(value),
    {
        Expression::BooleanLiteral(value)
    }
}

impl vstd::std_specs::convert::FromSpecImpl<BooleanLiteral> for Expression {
    open spec fn obeys_from_spec() -> bool {
        true
    }

    open spec fn from_spec(v: BooleanLiteral) -> Self {
        Expression::BooleanLiteral(v)
    }
}

impl From<StringLiteral> for Expression {
    fn from(value: StringLiteral) -> (r: Self)
        ensures
            r == Expression::StringLiteral(value),
    {
        Expression::StringLiteral(value)
    }
}

impl vstd::std_specs::convert::FromSpecImpl<StringLiteral> for Expression {
    open spec fn obeys_from_spec() -> bool {
        true
    }

    open spec fn from_spec(v: StringLiteral) -> Self {
        Expression::StringLiteral(v)
    }
}

impl From<NumberLiteral> for Expression {
    fn from(value: NumberLiteral) -> (r: Self)
        ensures
            r == Expression::NumberLiteral(value),
    {
        Expression::NumberLiteral(value)
    }
}

impl vstd::std_specs::convert::FromSpecImpl<NumberLiteral> for Expression {
    open spec fn obeys_from_spec() -> bool {
        true
    }

    open spec fn from_spec(v: NumberLiteral) -> Self {
        Expression::NumberLiteral(v)
    }
}

impl From<UnaryOperation> for Expression {
    fn from(value: UnaryOperation) -> (r: Self)
        ensures
            r == Expression::UnaryOperation(value),
    {
        Expression::UnaryOperation(value)
    }
}

impl vstd::std_specs::convert::FromSpecImpl<UnaryOperation> for Expression {
    open spec fn obeys_from_spec() -> bool {
        true
    }

    open spec fn from_spec(v: UnaryOperation) -> Self {
        Expression::UnaryOperation(v)
    }
}

impl From<BinaryOperation> for Expression {
    fn from(value: BinaryOperation) -> (r: Self)
        ensures
            r == Expression::BinaryOperation(value),
    {
        Expression::BinaryOperation(value)
    }
}

impl vstd::std_specs::convert::FromSpecImpl<BinaryOperation> for Expression {
    open spec fn obeys_from_spec() -> bool {
        true
    }

    open spec fn from_spec(v: BinaryOperation) -> Self {
        Expression::BinaryOperation(v)
    }
}

/// A prefix operator applied to an operand.
#[derive(Debug, PartialEq)]
pub struct UnaryOperation {
    pub(crate) operator: UnaryOperator,
    pub(crate) operand: Box<Expression>,
}

impl UnaryOperation {
    /// The operator.
    pub open(crate) spec fn spec_operator(&self) -> UnaryOperator {
        self.operator
    }

    /// The operand.
    pub open(crate) spec fn spec_operand(&self) -> Expression {
        *self.operand
    }

    /// Constructs the operation `operator operand`.
    pub fn new<T: Into<Expression>>(operator: UnaryOperator, operand: T) -> (r: Self)
        ensures
            r.spec_operator() == operator,
            T::obeys_into_spec() ==> r.spec_operand() == operand.into_spec(),
    {
        UnaryOperation { operator, operand: Box::new(operand.into()) }
    }

    /// Constructs the negation of `operand`.
    pub fn negate<T: Into<Expression>>(operand: T) -> (r: Self)
        ensures
            r.spec_operator() == UnaryOperator::Negate,
            T::obeys_into_spec() ==> r.spec_operand() == operand.into_spec(),
    {
        Self::new(UnaryOperator::Negate, operand)
    }

    /// Constructs the length of `operand`.
    pub fn length<T: Into<Expression>>(operand: T) -> (r: Self)
        ensures
            r.spec_operator() == UnaryOperator::Length,
            T::obeys_into_spec() ==> r.spec_operand() == operand.into_spec(),
    {
        Self::new(UnaryOperator::Length, operand)
    }

    /// Constructs the logical not of `operand`.
    pub fn not<T: Into<Expression>>(operand: T) -> (r: Self)
        ensures
            r.spec_operator() == UnaryOperator::Not,
            T::obeys_into_spec() ==> r.spec_operand() == operand.into_spec(),
    {
        Self::new(UnaryOperator::Not, operand)
    }

    /// Returns the operator.
    pub fn operator(&self) -> (r: UnaryOperator)
        ensures
            r == self.spec_operator(),
    {
        self.operator
    }

    /// Returns the operand.
    pub fn operand(&self) -> (r: &Expression)
        ensures
            *r == self.spec_operand(),
    {
        &self.operand
    }
}

/// An infix operator applied to a left and a right operand.
#[derive(Debug, PartialEq)]
pub struct BinaryOperation {
    pub(crate) operator: BinaryOperator,
    pub(crate) left: Box<Expression>,
    pub(crate) right: Box<Expression>,
}

impl BinaryOperation {
    /// The operator.
    pub open(crate) spec fn spec_operator(&self) -> BinaryOperator {
        self.operator
    }

    /// The left operand.
    pub open(crate) spec fn spec_left(&self) -> Expression {
        *self.left
    }

    /// The right operand.
    pub open(crate) spec fn spec_right(&self) -> Expression {
        *self.right
    }

    /// Constructs the operation `left operator right`.
    pub fn new<L: Into<Expression>, R: Into<Expression>>(
        operator: BinaryOperator,
        left: L,
        right: R,
    ) -> (r: Self)
        ensures
            r.spec_operator() == operator,
            L::obeys_into_spec() ==> r.spec_left() == left.into_spec(),
            R::obeys_into_spec() ==> r.spec_right() == right.into_spec(),
    {
        BinaryOperation { operator, left: Box::new(left.into()), right: Box::new(right.into()) }
    }

    /// Constructs the addition of `left` and `right`.
    pub fn add<L: Into<Expression>, R: Into<Expression>>(left: L, right: R) -> (r: Self)
        ensures
            r.spec_operator() == BinaryOperator::Add,
            L::obeys_into_spec() ==> r.spec_left() == left.into_spec(),
            R::obeys_into_spec() ==> r.spec_right() == right.into_spec(),
    {
        Self::new(BinaryOperator::Add, left, right)
    }

    /// Constructs the subtraction of `left` and `right`.
    pub fn subtract<L: Into<Expression>, R: Into<Expression>>(left: L, right: R) -> (r: Self)
        ensures
            r.spec_operator() == BinaryOperator::Subtract,
            L::obeys_into_spec() ==> r.spec_left() == left.into_spec(),
            R::obeys_into_spec() ==> r.spec_right() == right.into_spec(),
    {
        Self::new(BinaryOperator::Subtract, left, right)
    }

    /// Constructs the multiplication of `left` and `right`.
    pub fn multiply<L: Into<Expression>, R: Into<Expression>>(left: L, right: R) -> (r: Self)
        ensures
            r.spec_operator() == BinaryOperator::Multiply,
            L::obeys_into_spec() ==> r.spec_left() == left.into_spec(),
            R::obeys_into_spec() ==> r.spec_right() == right.into_spec(),
    {
        Self::new(BinaryOperator::Multiply, left, right)
    }

    /// Constructs the division of `left` and `right`.
    pub fn divide<L: Into<Expression>, R: Into<Expression>>(left: L, right: R) -> (r: Self)
        ensures
            r.spec_operator() == BinaryOperator::Divide,
            L::obeys_into_spec() ==> r.spec_left() == left.into_spec(),
            R::obeys_into_spec() ==> r.spec_right() == right.into_spec(),
    {
        Self::new(BinaryOperator::Divide, left, right)
    }

    /// Constructs the modulo of `left` and `right`.
    pub fn modulo<L: Into<Expression>, R: Into<Expression>>(left: L, right: R) -> (r: Self)
        ensures
            r.spec_operator() == BinaryOperator::Modulo,
            L::obeys_into_spec() ==> r.spec_left() == left.into_spec(),
            R::obeys_into_spec() ==> r.spec_right() == right.into_spec(),
    {
        Self::new(BinaryOperator::Modulo, left, right)
    }

    /// Constructs the exponentiation of `left` and `right`.
    pub fn power<L: Into<Expression>, R: Into<Expression>>(left: L, right: R) -> (r: Self)
        ensures
            r.spec_operator() == BinaryOperator::Power,
            L::obeys_into_spec() ==> r.spec_left() == left.into_spec(),
            R::obeys_into_spec() ==> r.spec_right() == right.into_spec(),
    {
        Self::new(BinaryOperator::Power, left, right)
    }

    /// Constructs the logical and of `left` and `right`.
    pub fn and<L: Into<Expression>, R: Into<Expression>>(left: L, right: R) -> (r: Self)
        ensures
            r.spec_operator() == BinaryOperator::And,
            L::obeys_into_spec() ==> r.spec_left() == left.into_spec(),
            R::obeys_into_spec() ==> r.spec_right() == right.into_spec(),
    {
        Self::new(BinaryOperator::And, left, right)
    }

    /// Constructs the logical or of `left` and `right`.
    pub fn or<L: Into<Expression>, R: Into<Expression>>(left: L, right: R) -> (r: Self)
        ensures
            r.spec_operator() == BinaryOperator::Or,
            L::obeys_into_spec() ==> r.spec_left() == left.into_spec(),
            R::obeys_into_spec() ==> r.spec_right() == right.into_spec(),
    {
        Self::new(BinaryOperator::Or, left, right)
    }

    /// Constructs the equality of `left` and `right`.
    pub fn equal<L: Into<Expression>, R: Into<Expression>>(left: L, right: R) -> (r: Self)
        ensures
            r.spec_operator() == BinaryOperator::Equal,
            L::obeys_into_spec() ==> r.spec_left() == left.into_spec(),
            R::obeys_into_spec() ==> r.spec_right() == right.into_spec(),
    {
        Self::new(BinaryOperator::Equal, left, right)
    }

    /// Constructs the inequality of `left` and `right`.
    pub fn not_equal<L: Into<Expression>, R: Into<Expression>>(left: L, right: R) -> (r: Self)
        ensures
            r.spec_operator() == BinaryOperator::NotEqual,
            L::obeys_into_spec() ==> r.spec_left() == left.into_spec(),
            R::obeys_into_spec() ==> r.spec_right() == right.into_spec(),
    {
        Self::new(BinaryOperator::NotEqual, left, right)
    }

    /// Constructs the less-than of `left` and `right`.
    pub fn less_than<L: Into<Expression>, R: Into<Expression>>(left: L, right: R) -> (r: Self)
        ensures
            r.spec_operator() == BinaryOperator::LessThan,
            L::obeys_into_spec() ==> r.spec_left() == left.into_spec(),
            R::obeys_into_spec() ==> r.spec_right() == right.into_spec(),
    {
        Self::new(BinaryOperator::LessThan, left, right)
    }

    /// Constructs the greater-than of `left` and `right`.
    pub fn greater_than<L: Into<Expression>, R: Into<Expression>>(left: L, right: R) -> (r: Self)
        ensures
            r.spec_operator() == BinaryOperator::GreaterThan,
            L::obeys_into_spec() ==> r.spec_left() == left.into_spec(),
            R::obeys_into_spec() ==> r.spec_right() == right.into_spec(),
    {
        Self::new(BinaryOperator::GreaterThan, left, right)
    }

    /// Constructs the greater-than-or-equal of `left` and `right`.
    pub fn greater_than_or_equal<L: Into<Expression>, R: Into<Expression>>(left: L, right: R) -> (r: Self)
        ensures
            r.spec_operator() == BinaryOperator::GreaterThanOrEqual,
            L::obeys_into_spec() ==> r.spec_left() == left.into_spec(),
            R::obeys_into_spec() ==> r.spec_right() == right.into_spec(),
    {
        Self::new(BinaryOperator::GreaterThanOrEqual, left, right)
    }

    /// Constructs the less-than-or-equal of `left` and `right`.
    pub fn less_than_or_equal<L: Into<Expression>, R: Into<Expression>>(left: L, right: R) -> (r: Self)
        ensures
            r.spec_operator() == BinaryOperator::LessThanOrEqual,
            L::obeys_into_spec() ==> r.spec_left() == left.into_spec(),
            R::obeys_into_spec() ==> r.spec_right() == right.into_spec(),
    {
        Self::new(BinaryOperator::LessThanOrEqual, left, right)
    }

    /// Returns the operator.
    pub fn operator(&self) -> (r: BinaryOperator)
        ensures
            r == self.spec_operator(),
    {
        self.operator
    }

    /// Returns the left operand.
    pub fn left(&self) -> (r: &Expression)
        ensures
            *r == self.spec_left(),
    {
        &self.left
    }

    /// Returns the right operand.
    pub fn right(&self) -> (r: &Expression)
        ensures
            *r == self.spec_right(),
    {
        &self.right
    }
}

impl Clone for BooleanLiteral {
    fn clone(&self) -> (r: Self)
        ensures
            r == *self,
    {
        BooleanLiteral { value: self.value }
    }
}

impl Clone for StringLiteral {
    fn clone(&self) -> (r: Self)
        ensures
            r == *self,
    {
        StringLiteral { value: self.value.clone() }
    }
}

impl Clone for NumberLiteral {
    fn clone(&self) -> (r: Self)
        ensures
            r == *self,
    {
        NumberLiteral { value: self.value.clone() }
    }
}

impl Clone for Expression {
    fn clone(&self) -> (r: Self)
        ensures
            r == *self,
        decreases self,
    {
        match self {
            Expression::NilLiteral(_) => Expression::NilLiteral(NilLiteral),
            Expression::BooleanLiteral(e) => Expression::BooleanLiteral(e.clone()),
            Expression::StringLiteral(e) => Expression::StringLiteral(e.clone()),
            Expression::NumberLiteral(e) => Expression::NumberLiteral(e.clone()),
            Expression::UnaryOperation(e) => Expression::UnaryOperation(e.clone()),
            Expression::BinaryOperation(e) => Expression::BinaryOperation(e.clone()),
        }
    }
}

impl Clone for UnaryOperation {
    fn clone(&self) -> (r: Self)
        ensures
            r == *self,
        decreases self,
    {
        let operand: &Expression = &self.operand;
        UnaryOperation { operator: self.operator, operand: Box::new(operand.clone()) }
    }
}

impl Clone for BinaryOperation {
    fn clone(&self) -> (r: Self)
        ensures
            r == *self,
        decreases self,
    {
        let left: &Expression = &self.left;
        let right: &Expression = &self.right;
        BinaryOperation {
            operator: self.operator,
            left: Box::new(left.clone()),
            right: Box::new(right.clone()),
        }
    }
}

} // verus!
