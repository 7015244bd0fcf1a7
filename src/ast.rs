//! The syntax tree: expressions, type annotations, bindings and operators.
pub mod annotation;
pub mod expression;
pub mod operator;
pub mod statement;
pub mod types;

pub use annotation::{
    TypeAnnotation, TypeArgument, TypeArray, TypeBuiltIn, TypeCombination, TypeFunction,
    TypeOptional, TypePrimitive, TypeSingleton, TypeTable, TypeTableEntry, TypeTableIndexer,
};
pub use expression::{
    BinaryOperation, BooleanLiteral, Expression, NilLiteral, NumberLiteral, StringLiteral,
    UnaryOperation,
};
pub use operator::{BinaryOperator, CompoundAssignmentOperator, TypeOperator, UnaryOperator};
pub use statement::{Binding, LocalAssign};
pub use types::{Basic, CombinationKind, Primitive};
