//! Operator enumerations and their textual forms.
use vstd::prelude::*;

verus! {

/// A prefix operator.
#[derive(Debug, Clone, Copy, PartialEq, Eq, Hash, Structural)]
pub enum UnaryOperator {
    Negate,
    Length,
    Not,
}

impl UnaryOperator {
    /// The source text of the operator.
    pub open spec fn spec_text(self) -> Seq<char> {
        match self {
            UnaryOperator::Negate => "-"@,
            UnaryOperator::Length => "#"@,
            UnaryOperator::Not => "not"@,
        }
    }

    /// Constructs `UnaryOperator::Negate`.
    pub fn negate() -> (r: Self)
        ensures
            r == UnaryOperator::Negate,
    {
        UnaryOperator::Negate
    }

    /// Constructs `UnaryOperator::Length`.
    pub fn len() -> (r: Self)
        ensures
            r == UnaryOperator::Length,
    {
        UnaryOperator::Length
    }

    /// Constructs `UnaryOperator::Not`.
    pub fn not() -> (r: Self)
        ensures
            r == UnaryOperator::Not,
    {
        UnaryOperator::Not
    }

    /// Returns the textual form of the operator: `-`, `#` or `not`.
    pub fn text(&self) -> (r: &'static str)
        ensures
            r@ == self.spec_text(),
    {
        match self {
            UnaryOperator::Negate => "-",
            UnaryOperator::Length => "#",
            UnaryOperator::Not => "not",
        }
    }
}

/// An infix operator of an expression.
#[derive(Debug, Clone, Copy, PartialEq, Eq, Hash, Structural)]
pub enum BinaryOperator {
    Add,
    Subtract,
    Multiply,
    Divide,
    Modulo,
    Power,
    And,
    Or,
    Equal,
    NotEqual,
    LessThan,
    GreaterThan,
    GreaterThanOrEqual,
    LessThanOrEqual,
}

impl BinaryOperator {
    /// The source text of the operator.
    pub open spec fn spec_text(self) -> Seq<char> {
        match self {
            BinaryOperator::Add => "+"@,
            BinaryOperator::Subtract => "-"@,
            BinaryOperator::Multiply => "*"@,
            BinaryOperator::Divide => "/"@,
            BinaryOperator::Modulo => "%"@,
            BinaryOperator::Power => "^"@,
            BinaryOperator::And => "and"@,
            BinaryOperator::Or => "or"@,
            BinaryOperator::Equal => "=="@,
            BinaryOperator::NotEqual => "~="@,
            BinaryOperator::LessThan => "<"@,
            BinaryOperator::GreaterThan => ">"@,
            BinaryOperator::GreaterThanOrEqual => ">="@,
            BinaryOperator::LessThanOrEqual => "<="@,
        }
    }

    /// Constructs `BinaryOperator::Add`.
    pub fn add() -> (r: Self)
        ensures
            r == BinaryOperator::Add,
    {
        BinaryOperator::Add
    }

    /// Constructs `BinaryOperator::Subtract`.
    pub fn subtract() -> (r: Self)
        ensures
            r == BinaryOperator::Subtract,
    {
        BinaryOperator::Subtract
    }

    /// Constructs `BinaryOperator::Multiply`.
    pub fn multiply() -> (r: Self)
        ensures
            r == BinaryOperator::Multiply,
    {
        BinaryOperator::Multiply
    }

    /// Constructs `BinaryOperator::Divide`.
    pub fn divide() -> (r: Self)
        ensures
            r == BinaryOperator::Divide,
    {
        BinaryOperator::Divide
    }

    /// Constructs `BinaryOperator::Modulo`.
    pub fn modulo() -> (r: Self)
        ensures
            r == BinaryOperator::Modulo,
    {
        BinaryOperator::Modulo
    }

    /// Constructs `BinaryOperator::Power`.
    pub fn power() -> (r: Self)
        ensures
            r == BinaryOperator::Power,
    {
        BinaryOperator::Power
    }

    /// Constructs `BinaryOperator::And`.
    pub fn and() -> (r: Self)
        ensures
            r == BinaryOperator::And,
    {
        BinaryOperator::And
    }

    /// Constructs `BinaryOperator::Or`.
    pub fn or() -> (r: Self)
        ensures
            r == BinaryOperator::Or,
    {
        BinaryOperator::Or
    }

    /// Constructs `BinaryOperator::Equal`.
    pub fn equal() -> (r: Self)
        ensures
            r == BinaryOperator::Equal,
    {
        BinaryOperator::Equal
    }

    /// Constructs `BinaryOperator::NotEqual`.
    pub fn not_equal() -> (r: Self)
        ensures
            r == BinaryOperator::NotEqual,
    {
        BinaryOperator::NotEqual
    }

    /// Constructs `BinaryOperator::LessThan`.
    pub fn less_than() -> (r: Self)
        ensures
            r == BinaryOperator::LessThan,
    {
        BinaryOperator::LessThan
    }

    /// Constructs `BinaryOperator::GreaterThan`.
    pub fn greater_than() -> (r: Self)
        ensures
            r == BinaryOperator::GreaterThan,
    {
        BinaryOperator::GreaterThan
    }

    /// Constructs `BinaryOperator::GreaterThanOrEqual`.
    pub fn greater_than_or_equal() -> (r: Self)
        ensures
            r == BinaryOperator::GreaterThanOrEqual,
    {
        BinaryOperator::GreaterThanOrEqual
    }

    /// Constructs `BinaryOperator::LessThanOrEqual`.
    pub fn less_than_or_equal() -> (r: Self)
        ensures
            r == BinaryOperator::LessThanOrEqual,
    {
        BinaryOperator::LessThanOrEqual
    }

    /// Returns the textual form of the operator, such as `+`, `and` or `~=`.
    pub fn text(&self) -> (r: &'static str)
        ensures
            r@ == self.spec_text(),
    {
        match self {
            BinaryOperator::Add => "+",
            BinaryOperator::Subtract => "-",
            BinaryOperator::Multiply => "*",
            BinaryOperator::Divide => "/",
            BinaryOperator::Modulo => "%",
            BinaryOperator::Power => "^",
            BinaryOperator::And => "and",
            BinaryOperator::Or => "or",
            BinaryOperator::Equal => "==",
            BinaryOperator::NotEqual => "~=",
            BinaryOperator::LessThan => "<",
            BinaryOperator::GreaterThan => ">",
            BinaryOperator::GreaterThanOrEqual => ">=",
            BinaryOperator::LessThanOrEqual => "<=",
        }
    }
}

/// An operator of a compound assignment statement, such as `+=`.
#[derive(Debug, Clone, Copy, PartialEq, Eq, Hash, Structural)]
pub enum CompoundAssignmentOperator {
    Add,
    Subtract,
    Multiply,
    Divide,
    Modulo,
    Power,
}

impl CompoundAssignmentOperator {
    /// The source text of the operator.
    pub open spec fn spec_text(self) -> Seq<char> {
        match self {
            CompoundAssignmentOperator::Add => "+="@,
            CompoundAssignmentOperator::Subtract => "-="@,
            CompoundAssignmentOperator::Multiply => "*="@,
            CompoundAssignmentOperator::Divide => "/="@,
            CompoundAssignmentOperator::Modulo => "%="@,
            CompoundAssignmentOperator::Power => "^="@,
        }
    }

    /// Returns the textual form of the operator, such as `+=`.
    pub fn text(&self) -> (r: &'static str)
        ensures
            r@ == self.spec_text(),
    {
        match self {
            CompoundAssignmentOperator::Add => "+=",
            CompoundAssignmentOperator::Subtract => "-=",
            CompoundAssignmentOperator::Multiply => "*=",
            CompoundAssignmentOperator::Divide => "/=",
            CompoundAssignmentOperator::Modulo => "%=",
            CompoundAssignmentOperator::Power => "^=",
        }
    }
}

/// An operator that combines two type annotations.
#[derive(Debug, Clone, Copy, PartialEq, Eq, Hash, Structural)]
pub enum TypeOperator {
    Union,
    Intersection,
}

impl TypeOperator {
    /// The source text of the operator.
    pub open spec fn spec_text(self) -> Seq<char> {
        match self {
            TypeOperator::Union => "|"@,
            TypeOperator::Intersection => "&"@,
        }
    }

    /// Constructs `TypeOperator::Union`.
    pub fn union() -> (r: Self)
        ensures
            r == TypeOperator::Union,
    {
        TypeOperator::Union
    }

    /// Constructs `TypeOperator::Intersection`.
    pub fn intersection() -> (r: Self)
        ensures
            r == TypeOperator::Intersection,
    {
        TypeOperator::Intersection
    }

    /// Returns the textual form of the operator: `|` or `&`.
    pub fn text(&self) -> (r: &'static str)
        ensures
            r@ == self.spec_text(),
    {
        match self {
            TypeOperator::Union => "|",
            TypeOperator::Intersection => "&",
        }
    }
}

/// Within each operator enumeration, every operator has a non-empty textual form of its own.
pub proof fn lemma_operator_texts_unique()
    ensures
        forall|a: UnaryOperator| #[trigger] a.spec_text().len() > 0,
        forall|a: UnaryOperator, b: UnaryOperator|
            #[trigger] a.spec_text() == #[trigger] b.spec_text() ==> a == b,
        forall|a: BinaryOperator| #[trigger] a.spec_text().len() > 0,
        forall|a: BinaryOperator, b: BinaryOperator|
            #[trigger] a.spec_text() == #[trigger] b.spec_text() ==> a == b,
        forall|a: CompoundAssignmentOperator| #[trigger] a.spec_text().len() > 0,
        forall|a: CompoundAssignmentOperator, b: CompoundAssignmentOperator|
            #[trigger] a.spec_text() == #[trigger] b.spec_text() ==> a == b,
        forall|a: TypeOperator| #[trigger] a.spec_text().len() > 0,
        forall|a: TypeOperator, b: TypeOperator|
            #[trigger] a.spec_text() == #[trigger] b.spec_text() ==> a == b,
{
    reveal_strlit("-");
    reveal_strlit("#");
    reveal_strlit("not");
    reveal_strlit("+");
    reveal_strlit("*");
    reveal_strlit("/");
    reveal_strlit("%");
    reveal_strlit("^");
    reveal_strlit("and");
    reveal_strlit("or");
    reveal_strlit("==");
    reveal_strlit("~=");
    reveal_strlit("<");
    reveal_strlit(">");
    reveal_strlit(">=");
    reveal_strlit("<=");
    reveal_strlit("+=");
    reveal_strlit("-=");
    reveal_strlit("*=");
    reveal_strlit("/=");
    reveal_strlit("%=");
    reveal_strlit("^=");
    reveal_strlit("|");
    reveal_strlit("&");
    assert forall|a: BinaryOperator, b: BinaryOperator|
        #[trigger] a.spec_text() == #[trigger] b.spec_text() implies a == b by {
        if a != b {
            assert(a.spec_text().len() != b.spec_text().len() || a.spec_text()[0] != b.spec_text()[0]
                || a.spec_text()[1] != b.spec_text()[1]);
        }
    }
    assert forall|a: CompoundAssignmentOperator, b: CompoundAssignmentOperator|
        #[trigger] a.spec_text() == #[trigger] b.spec_text() implies a == b by {
        if a != b {
            assert(a.spec_text()[0] != b.spec_text()[0]);
        }
    }
    assert forall|a: UnaryOperator, b: UnaryOperator|
        #[trigger] a.spec_text() == #[trigger] b.spec_text() implies a == b by {
        if a != b {
            assert(a.spec_text()[0] != b.spec_text()[0]);
        }
    }
    assert forall|a: TypeOperator, b: TypeOperator|
        #[trigger] a.spec_text() == #[trigger] b.spec_text() implies a == b by {
        if a != b {
            assert(a.spec_text()[0] != b.spec_text()[0]);
        }
    }
}

} // verus!
