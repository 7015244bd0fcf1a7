//! Formatting of expressions and operators.
use crate::ast::{
    BinaryOperation, BinaryOperator, BooleanLiteral, Expression, NilLiteral, NumberLiteral,
    StringLiteral, TypeOperator, UnaryOperation, UnaryOperator,
};
use crate::evaluation::{
    expression_precedence, is_literal, lemma_literal_child_unwrapped, lemma_tighter_child_unwrapped,
    needs_parentheses_left, needs_parentheses_right, reassociated_chain, reassociates,
    should_wrap_left, should_wrap_right, wraps_right,
};
use crate::format::{OperatorSpacing, SourceFormat, SourceFormatSettings, SourceItem};
use vstd::prelude::*;
use vstd::string::StringExecFns;

verus! {

/// `text` with one space on each side when `on` holds.
pub open spec fn spaced(text: Seq<char>, on: bool) -> Seq<char> {
    if on {
        " "@ + text + " "@
    } else {
        text
    }
}

/// `text` in parentheses when `on` holds.
pub open spec fn parenthesized(text: Seq<char>, on: bool) -> Seq<char> {
    if on {
        "("@ + text + ")"@
    } else {
        text
    }
}

/// Whether a unary operator is written spaced: `not` always, the others as the settings say.
pub open spec fn unary_spacing(op: UnaryOperator, spacing: OperatorSpacing) -> bool {
    match op {
        UnaryOperator::Not => true,
        UnaryOperator::Negate => spacing.negate,
        UnaryOperator::Length => spacing.length,
    }
}

/// Whether a binary operator is written spaced: `and` and `or` always, the others as the
/// settings say.
pub open spec fn binary_spacing(op: BinaryOperator, spacing: OperatorSpacing) -> bool {
    match op {
        BinaryOperator::Add => spacing.add,
        BinaryOperator::Subtract => spacing.subtract,
        BinaryOperator::Multiply => spacing.multiply,
        BinaryOperator::Divide => spacing.divide,
        BinaryOperator::Modulo => spacing.modulo,
        BinaryOperator::Power => spacing.power,
        BinaryOperator::And => true,
        BinaryOperator::Or => true,
        BinaryOperator::Equal => spacing.equal,
        BinaryOperator::NotEqual => spacing.not_equal,
        BinaryOperator::LessThan => spacing.less_than,
        BinaryOperator::GreaterThan => spacing.greater_than,
        BinaryOperator::GreaterThanOrEqual => spacing.greater_than_or_equal,
        BinaryOperator::LessThanOrEqual => spacing.less_than_or_equal,
    }
}

/// Whether a type operator is written spaced, as the settings say.
pub open spec fn type_spacing(op: TypeOperator, spacing: OperatorSpacing) -> bool {
    match op {
        TypeOperator::Union => spacing.union,
        TypeOperator::Intersection => spacing.intersection,
    }
}

/// The source text of an expression: literals verbatim, a unary operation as its operator
/// then its operand, a binary operation as its left operand, operator and right operand,
/// each operand in parentheses where the evaluation order asks for them, but for a chain of
/// one freely reassociating operator.
pub open(crate) spec fn expression_text(e: Expression, settings: SourceFormatSettings) -> Seq<char>
    decreases e,
{
    match e {
        Expression::NilLiteral(_) => "nil"@,
        Expression::BooleanLiteral(b) => if b.value {
            "true"@
        } else {
            "false"@
        },
        Expression::NumberLiteral(n) => n.value@,
        Expression::StringLiteral(s) => s.value@,
        Expression::UnaryOperation(u) => spaced(
            u.operator.spec_text(),
            unary_spacing(u.operator, settings.operator_spacing),
        ) + parenthesized(expression_text(*u.operand, settings), wraps_right(e, *u.operand)),
        Expression::BinaryOperation(b) => parenthesized(
            expression_text(*b.left, settings),
            needs_parentheses_left(e, *b.left),
        ) + spaced(b.operator.spec_text(), binary_spacing(b.operator, settings.operator_spacing))
            + parenthesized(
            expression_text(*b.right, settings),
            needs_parentheses_right(e, *b.right),
        ),
    }
}

/// Returns `text`, with one space on each side when `on` holds.
fn spaced_text(text: &str, on: bool) -> (r: String)
    ensures
        r@ == spaced(text@, on),
{
    if on {
        let mut r = " ".to_string();
        r.append(text);
        r.append(" ");
        r
    } else {
        text.to_string()
    }
}

/// Appends `text` to `buffer`, in parentheses when `on` holds.
fn append_parenthesized(buffer: &mut String, text: &str, on: bool)
    ensures
        final(buffer)@ == old(buffer)@ + parenthesized(text@, on),
{
    if on {
        buffer.append("(");
        buffer.append(text);
        buffer.append(")");
    } else {
        buffer.append(text);
    }
    assert(final(buffer)@ =~= old(buffer)@ + parenthesized(text@, on));
}

/// Returns the source text of an expression.
fn format_expression(e: &Expression, settings: &SourceFormatSettings) -> (r: String)
    ensures
        r@ == expression_text(*e, *settings),
    decreases e,
{
    match e {
        Expression::NilLiteral(_) => "nil".to_string(),
        Expression::BooleanLiteral(b) => {
            if b.value {
                "true".to_string()
            } else {
                "false".to_string()
            }
        },
        Expression::NumberLiteral(n) => n.value.clone(),
        Expression::StringLiteral(s) => s.value.clone(),
        Expression::UnaryOperation(u) => format_unary(u, settings),
        Expression::BinaryOperation(b) => format_binary(b, settings),
    }
}

/// Returns the source text of a unary operation.
fn format_unary(u: &UnaryOperation, settings: &SourceFormatSettings) -> (r: String)
    ensures
        r@ == expression_text(Expression::UnaryOperation(*u), *settings),
    decreases u,
{
    let mut buffer = format_unary_operator(&u.operator, settings);
    let operand = format_expression(&u.operand, settings);
    let wrap = should_wrap_right(u, &*u.operand);
    append_parenthesized(&mut buffer, operand.as_str(), wrap);
    buffer
}

/// Returns the source text of a binary operation.
fn format_binary(b: &BinaryOperation, settings: &SourceFormatSettings) -> (r: String)
    ensures
        r@ == expression_text(Expression::BinaryOperation(*b), *settings),
    decreases b,
{
    let left = format_expression(&b.left, settings);
    let right = format_expression(&b.right, settings);
    let operator = format_binary_operator(&b.operator, settings);
    let mut buffer = String::new();
    let wrap_left = should_wrap_left(b, &*b.left) && !reassociated_chain(b, &b.left);
    let wrap_right = should_wrap_right(b, &*b.right) && !reassociated_chain(b, &b.right);
    append_parenthesized(&mut buffer, left.as_str(), wrap_left);
    buffer.append(operator.as_str());
    append_parenthesized(&mut buffer, right.as_str(), wrap_right);
    proof {
        let e = Expression::BinaryOperation(*b);
        assert(buffer@ =~= expression_text(e, *settings));
    }
    buffer
}

/// Returns the text of a unary operator with its spacing.
fn format_unary_operator(op: &UnaryOperator, settings: &SourceFormatSettings) -> (r: String)
    ensures
        r@ == spaced(op.spec_text(), unary_spacing(*op, settings.operator_spacing)),
{
    let on = match op {
        UnaryOperator::Not => true,
        UnaryOperator::Negate => settings.operator_spacing.negate,
        UnaryOperator::Length => settings.operator_spacing.length,
    };
    spaced_text(op.text(), on)
}

/// Returns the text of a binary operator with its spacing.
fn format_binary_operator(op: &BinaryOperator, settings: &SourceFormatSettings) -> (r: String)
    ensures
        r@ == spaced(op.spec_text(), binary_spacing(*op, settings.operator_spacing)),
{
    let spacing = &settings.operator_spacing;
    let on = match op {
        BinaryOperator::Add => spacing.add,
        BinaryOperator::Subtract => spacing.subtract,
        BinaryOperator::Multiply => spacing.multiply,
        BinaryOperator::Divide => spacing.divide,
        BinaryOperator::Modulo => spacing.modulo,
        BinaryOperator::Power => spacing.power,
        BinaryOperator::And => true,
        BinaryOperator::Or => true,
        BinaryOperator::Equal => spacing.equal,
        BinaryOperator::NotEqual => spacing.not_equal,
        BinaryOperator::LessThan => spacing.less_than,
        BinaryOperator::GreaterThan => spacing.greater_than,
        BinaryOperator::GreaterThanOrEqual => spacing.greater_than_or_equal,
        BinaryOperator::LessThanOrEqual => spacing.less_than_or_equal,
    };
    spaced_text(op.text(), on)
}

impl SourceFormat for UnaryOperator {
    open spec fn spec_format(&self, settings: SourceFormatSettings) -> Seq<char> {
        spaced(self.spec_text(), unary_spacing(*self, settings.operator_spacing))
    }

    fn format(&self, settings: &SourceFormatSettings) -> (r: SourceItem) {
        SourceItem::Text(format_unary_operator(self, settings))
    }
}

impl SourceFormat for BinaryOperator {
    open spec fn spec_format(&self, settings: SourceFormatSettings) -> Seq<char> {
        spaced(self.spec_text(), binary_spacing(*self, settings.operator_spacing))
    }

    fn format(&self, settings: &SourceFormatSettings) -> (r: SourceItem) {
        SourceItem::Text(format_binary_operator(self, settings))
    }
}

impl SourceFormat for TypeOperator {
    open spec fn spec_format(&self, settings: SourceFormatSettings) -> Seq<char> {
        spaced(self.spec_text(), type_spacing(*self, settings.operator_spacing))
    }

    fn format(&self, settings: &SourceFormatSettings) -> (r: SourceItem) {
        let on = match self {
            TypeOperator::Union => settings.operator_spacing.union,
            TypeOperator::Intersection => settings.operator_spacing.intersection,
        };
        SourceItem::Text(spaced_text(self.text(), on))
    }
}

impl SourceFormat for NilLiteral {
    open spec fn spec_format(&self, settings: SourceFormatSettings) -> Seq<char> {
        "nil"@
    }

    fn format(&self, settings: &SourceFormatSettings) -> (r: SourceItem) {
        SourceItem::text("nil")
    }
}

impl SourceFormat for BooleanLiteral {
    open spec fn spec_format(&self, settings: SourceFormatSettings) -> Seq<char> {
        if self.spec_value() {
            "true"@
        } else {
            "false"@
        }
    }

    fn format(&self, settings: &SourceFormatSettings) -> (r: SourceItem) {
        if self.value() {
            SourceItem::text("true")
        } else {
            SourceItem::text("false")
        }
    }
}

impl SourceFormat for NumberLiteral {
    open spec fn spec_format(&self, settings: SourceFormatSettings) -> Seq<char> {
        self.spec_value()
    }

    fn format(&self, settings: &SourceFormatSettings) -> (r: SourceItem) {
        SourceItem::text(self.value())
    }
}

impl SourceFormat for StringLiteral {
    open spec fn spec_format(&self, settings: SourceFormatSettings) -> Seq<char> {
        self.spec_value()
    }

    fn format(&self, settings: &SourceFormatSettings) -> (r: SourceItem) {
        SourceItem::text(self.value())
    }
}

impl SourceFormat for UnaryOperation {
    open spec fn spec_format(&self, settings: SourceFormatSettings) -> Seq<char> {
        expression_text(Expression::UnaryOperation(*self), settings)
    }

    fn format(&self, settings: &SourceFormatSettings) -> (r: SourceItem) {
        SourceItem::Text(format_unary(self, settings))
    }
}

impl SourceFormat for BinaryOperation {
    open spec fn spec_format(&self, settings: SourceFormatSettings) -> Seq<char> {
        expression_text(Expression::BinaryOperation(*self), settings)
    }

    fn format(&self, settings: &SourceFormatSettings) -> (r: SourceItem) {
        SourceItem::Text(format_binary(self, settings))
    }
}

impl SourceFormat for Expression {
    open spec fn spec_format(&self, settings: SourceFormatSettings) -> Seq<char> {
        expression_text(*self, settings)
    }

    fn format(&self, settings: &SourceFormatSettings) -> (r: SourceItem) {
        SourceItem::Text(format_expression(self, settings))
    }
}

/// An operand that binds more tightly than its operation is written without parentheses.
pub proof fn lemma_tighter_operand_rendered_bare(e: Expression, settings: SourceFormatSettings)
    ensures
        e matches Expression::UnaryOperation(u) ==> (expression_precedence(u.spec_operand()).spec_level()
            > expression_precedence(e).spec_level() ==> expression_text(e, settings) == spaced(
            u.spec_operator().spec_text(),
            unary_spacing(u.spec_operator(), settings.operator_spacing),
        ) + expression_text(u.spec_operand(), settings)),
        e matches Expression::BinaryOperation(b) ==> (expression_precedence(b.spec_left()).spec_level()
            > expression_precedence(e).spec_level() ==> expression_text(e, settings) == expression_text(
            b.spec_left(),
            settings,
        ) + spaced(b.spec_operator().spec_text(), binary_spacing(b.spec_operator(), settings.operator_spacing))
            + parenthesized(expression_text(b.spec_right(), settings), needs_parentheses_right(e, b.spec_right()))),
        e matches Expression::BinaryOperation(b) ==> (expression_precedence(b.spec_right()).spec_level()
            > expression_precedence(e).spec_level() ==> expression_text(e, settings) == parenthesized(
            expression_text(b.spec_left(), settings),
            needs_parentheses_left(e, b.spec_left()),
        ) + spaced(b.spec_operator().spec_text(), binary_spacing(b.spec_operator(), settings.operator_spacing))
            + expression_text(b.spec_right(), settings)),
{
    match e {
        Expression::UnaryOperation(u) => {
            if expression_precedence(u.spec_operand()).spec_level() > expression_precedence(e).spec_level() {
                lemma_tighter_child_unwrapped(e, u.spec_operand());
            }
        },
        Expression::BinaryOperation(b) => {
            if expression_precedence(b.spec_left()).spec_level() > expression_precedence(e).spec_level() {
                lemma_tighter_child_unwrapped(e, b.spec_left());
            }
            if expression_precedence(b.spec_right()).spec_level() > expression_precedence(e).spec_level() {
                lemma_tighter_child_unwrapped(e, b.spec_right());
            }
        },
        _ => {},
    }
}

/// A literal operand is written without parentheses.
pub proof fn lemma_literal_operand_rendered_bare(e: Expression, settings: SourceFormatSettings)
    ensures
        e matches Expression::UnaryOperation(u) ==> (is_literal(u.spec_operand()) ==> expression_text(
            e,
            settings,
        ) == spaced(u.spec_operator().spec_text(), unary_spacing(u.spec_operator(), settings.operator_spacing))
            + expression_text(u.spec_operand(), settings)),
        e matches Expression::BinaryOperation(b) ==> (is_literal(b.spec_left()) ==> expression_text(
            e,
            settings,
        ) == expression_text(b.spec_left(), settings) + spaced(
            b.spec_operator().spec_text(),
            binary_spacing(b.spec_operator(), settings.operator_spacing),
        ) + parenthesized(expression_text(b.spec_right(), settings), needs_parentheses_right(e, b.spec_right()))),
        e matches Expression::BinaryOperation(b) ==> (is_literal(b.spec_right()) ==> expression_text(
            e,
            settings,
        ) == parenthesized(expression_text(b.spec_left(), settings), needs_parentheses_left(e, b.spec_left())) + spaced(
            b.spec_operator().spec_text(),
            binary_spacing(b.spec_operator(), settings.operator_spacing),
        ) + expression_text(b.spec_right(), settings)),
{
    match e {
        Expression::UnaryOperation(u) => {
            if is_literal(u.spec_operand()) {
                lemma_literal_child_unwrapped(e, u.spec_operand());
            }
        },
        Expression::BinaryOperation(b) => {
            if is_literal(b.spec_left()) {
                lemma_literal_child_unwrapped(e, b.spec_left());
            }
            if is_literal(b.spec_right()) {
                lemma_literal_child_unwrapped(e, b.spec_right());
            }
        },
        _ => {},
    }
}

/// A chain of one freely reassociating operator (`+`, `*`, `and`, `or`) is written without
/// parentheses on either side: `a + b + c` for `(a + b) + c` and for `a + (b + c)`.
pub proof fn lemma_reassociating_chain_rendered_bare(e: Expression, settings: SourceFormatSettings)
    ensures
        e matches Expression::BinaryOperation(b) ==> (reassociates(e, b.spec_left())
            ==> expression_text(e, settings) == expression_text(b.spec_left(), settings) + spaced(
            b.spec_operator().spec_text(),
            binary_spacing(b.spec_operator(), settings.operator_spacing),
        ) + parenthesized(
            expression_text(b.spec_right(), settings),
            needs_parentheses_right(e, b.spec_right()),
        )),
        e matches Expression::BinaryOperation(b) ==> (reassociates(e, b.spec_right())
            ==> expression_text(e, settings) == parenthesized(
            expression_text(b.spec_left(), settings),
            needs_parentheses_left(e, b.spec_left()),
        ) + spaced(
            b.spec_operator().spec_text(),
            binary_spacing(b.spec_operator(), settings.operator_spacing),
        ) + expression_text(b.spec_right(), settings)),
{
}

} // verus!
