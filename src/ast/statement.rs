//! Bindings and local declaration statements.
use crate::ast::annotation::same_annotation;
use crate::ast::{Expression, TypeAnnotation};
use vstd::prelude::*;

verus! {

/// A name bound by a declaration, with an optional type annotation.
#[derive(Debug, PartialEq)]
pub struct Binding {
    pub name: String,
    pub annotation: Option<TypeAnnotation>,
}

impl Binding {
    /// Constructs a binding of `name` with an optional annotation.
    pub fn new(name: &str, annotation: Option<TypeAnnotation>) -> (r: Self)
        ensures
            r.name@ == name@,
            r.annotation == annotation,
    {
        Binding { name: name.to_string(), annotation }
    }

    /// Constructs a declared binding, without annotation.
    pub fn named(name: &str) -> (r: Self)
        ensures
            r.name@ == name@,
            r.annotation is None,
    {
        Self::new(name, None)
    }

    /// Constructs an annotated binding.
    pub fn annotated(name: &str, annotation: TypeAnnotation) -> (r: Self)
        ensures
            r.name@ == name@,
            r.annotation == Some(annotation),
    {
        Self::new(name, Some(annotation))
    }
}

/// A `local` statement: bindings, and the values assigned to them.
#[derive(Debug, PartialEq)]
pub struct LocalAssign {
    pub(crate) bindings: Vec<Binding>,
    pub(crate) values: Vec<Expression>,
}

impl LocalAssign {
    /// The bindings.
    pub open(crate) spec fn spec_bindings(&self) -> Seq<Binding> {
        self.bindings@
    }

    /// The assigned values.
    pub open(crate) spec fn spec_values(&self) -> Seq<Expression> {
        self.values@
    }

    /// Declares several bindings and assigns values to them.
    pub fn assign_many(bindings: Vec<Binding>, values: Vec<Expression>) -> (r: Self)
        ensures
            r.spec_bindings() == bindings@,
            r.spec_values() == values@,
    {
        LocalAssign { bindings, values }
    }

    /// Declares several bindings without values.
    pub fn declare_many(bindings: Vec<Binding>) -> (r: Self)
        ensures
            r.spec_bindings() == bindings@,
            r.spec_values().len() == 0,
    {
        Self::assign_many(bindings, Vec::new())
    }

    /// Declares one binding and assigns a value to it.
    pub fn assign_one(binding: Binding, value: Expression) -> (r: Self)
        ensures
            r.spec_bindings() == seq![binding],
            r.spec_values() == seq![value],
    {
        Self::assign_many(vec![binding], vec![value])
    }

    /// Declares one binding without a value.
    pub fn declare_one(binding: Binding) -> (r: Self)
        ensures
            r.spec_bindings() == seq![binding],
            r.spec_values().len() == 0,
    {
        Self::declare_many(vec![binding])
    }
}

impl Clone for Binding {
    fn clone(&self) -> (r: Self)
        ensures
            r.name == self.name,
            match self.annotation {
                Some(a) => r.annotation matches Some(b) && same_annotation(b, a),
                None => r.annotation is None,
            },
    {
        let annotation = match &self.annotation {
            Some(a) => Some(a.clone()),
            None => None,
        };
        Binding { name: self.name.clone(), annotation }
    }
}

} // verus!
