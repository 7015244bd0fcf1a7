//! Standalone type vocabulary: basic types and the kinds of type combination.
use vstd::prelude::*;

verus! {

/// A basic type of the language.
#[derive(Debug, Clone, Copy, PartialEq, Eq, Hash, Structural)]
pub enum Primitive {
    Nil,
    String,
    Number,
    Boolean,
    Thread,
    Userdata,
}

impl Primitive {
    /// The keyword of the type.
    pub open spec fn spec_text(self) -> Seq<char> {
        match self {
            Primitive::Nil => "nil"@,
            Primitive::String => "string"@,
            Primitive::Number => "number"@,
            Primitive::Boolean => "boolean"@,
            Primitive::Thread => "thread"@,
            Primitive::Userdata => "userdata"@,
        }
    }

    /// Constructs the `nil` type.
    pub fn nil() -> (r: Self)
        ensures
            r == Primitive::Nil,
    {
        Primitive::Nil
    }

    /// Constructs the `string` type.
    pub fn string() -> (r: Self)
        ensures
            r == Primitive::String,
    {
        Primitive::String
    }

    /// Constructs the `number` type.
    pub fn number() -> (r: Self)
        ensures
            r == Primitive::Number,
    {
        Primitive::Number
    }

    /// Constructs the `boolean` type.
    pub fn boolean() -> (r: Self)
        ensures
            r == Primitive::Boolean,
    {
        Primitive::Boolean
    }

    /// Constructs the `thread` type.
    pub fn thread() -> (r: Self)
        ensures
            r == Primitive::Thread,
    {
        Primitive::Thread
    }

    /// Constructs the `userdata` type.
    pub fn userdata() -> (r: Self)
        ensures
            r == Primitive::Userdata,
    {
        Primitive::Userdata
    }

    /// Returns the keyword of the type.
    pub fn text(&self) -> (r: String)
        ensures
            r@ == self.spec_text(),
    {
        match self {
            Primitive::Nil => "nil".to_string(),
            Primitive::String => "string".to_string(),
            Primitive::Number => "number".to_string(),
            Primitive::Boolean => "boolean".to_string(),
            Primitive::Thread => "thread".to_string(),
            Primitive::Userdata => "userdata".to_string(),
        }
    }
}

/// A basic type of the language.
#[derive(Debug, Clone, Copy, PartialEq, Eq, Hash, Structural)]
pub enum Basic {
    Nil,
    String,
    Number,
    Boolean,
    Thread,
    Userdata,
}

impl Basic {
    /// The keyword of the type.
    pub open spec fn spec_text(self) -> Seq<char> {
        match self {
            Basic::Nil => "nil"@,
            Basic::String => "string"@,
            Basic::Number => "number"@,
            Basic::Boolean => "boolean"@,
            Basic::Thread => "thread"@,
            Basic::Userdata => "userdata"@,
        }
    }

    /// Constructs the `nil` type.
    pub fn nil() -> (r: Self)
        ensures
            r == Basic::Nil,
    {
        Basic::Nil
    }

    /// Constructs the `string` type.
    pub fn string() -> (r: Self)
        ensures
            r == Basic::String,
    {
        Basic::String
    }

    /// Constructs the `number` type.
    pub fn number() -> (r: Self)
        ensures
            r == Basic::Number,
    {
        Basic::Number
    }

    /// Constructs the `boolean` type.
    pub fn boolean() -> (r: Self)
        ensures
            r == Basic::Boolean,
    {
        Basic::Boolean
    }

    /// Constructs the `thread` type.
    pub fn thread() -> (r: Self)
        ensures
            r == Basic::Thread,
    {
        Basic::Thread
    }

    /// Constructs the `userdata` type.
    pub fn userdata() -> (r: Self)
        ensures
            r == Basic::Userdata,
    {
        Basic::Userdata
    }

    /// Returns the keyword of the type.
    pub fn to_string(&self) -> (r: String)
        ensures
            r@ == self.spec_text(),
    {
        match self {
            Basic::Nil => "nil".to_string(),
            Basic::String => "string".to_string(),
            Basic::Number => "number".to_string(),
            Basic::Boolean => "boolean".to_string(),
            Basic::Thread => "thread".to_string(),
            Basic::Userdata => "userdata".to_string(),
        }
    }
}

/// How two types combine.
#[derive(Debug, Clone, Copy, PartialEq, Eq, Hash, Structural)]
pub enum CombinationKind {
    Union,
    Intersection,
}

} // verus!
