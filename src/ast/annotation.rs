//! Type annotations: built-in and primitive types, singletons, optionals, unions and
//! intersections, function signatures, tables and arrays.
use crate::ast::operator::TypeOperator;
use vstd::prelude::*;
use vstd::std_specs::convert::IntoSpec;

verus! {

/// A built-in type keyword.
#[derive(Debug, Clone, Copy, PartialEq, Eq, Hash, Structural)]
pub enum TypeBuiltIn {
    Never,
    Any,
    Unknown,
}

impl TypeBuiltIn {
    /// The keyword.
    pub open spec fn spec_text(self) -> Seq<char> {
        match self {
            TypeBuiltIn::Never => "never"@,
            TypeBuiltIn::Any => "any"@,
            TypeBuiltIn::Unknown => "unknown"@,
        }
    }

    /// Returns the keyword: `never`, `any` or `unknown`.
    pub fn text(&self) -> (r: &'static str)
        ensures
            r@ == self.spec_text(),
    {
        match self {
            TypeBuiltIn::Never => "never",
            TypeBuiltIn::Any => "any",
            TypeBuiltIn::Unknown => "unknown",
        }
    }
}

/// A primitive type keyword.
#[derive(Debug, Clone, Copy, PartialEq, Eq, Hash, Structural)]
pub enum TypePrimitive {
    Nil,
    Boolean,
    Number,
    String,
    Thread,
}

impl TypePrimitive {
    /// The keyword.
    pub open spec fn spec_text(self) -> Seq<char> {
        match self {
            TypePrimitive::Nil => "nil"@,
            TypePrimitive::Boolean => "boolean"@,
            TypePrimitive::Number => "number"@,
            TypePrimitive::String => "string"@,
            TypePrimitive::Thread => "thread"@,
        }
    }

    /// Constructs `TypePrimitive::Number`.
    pub fn new() -> (r: Self)
        ensures
            r == TypePrimitive::Number,
    {
        TypePrimitive::Number
    }

    /// Constructs `TypePrimitive::Nil`.
    pub fn nil() -> (r: Self)
        ensures
            r == TypePrimitive::Nil,
    {
        TypePrimitive::Nil
    }

    /// Constructs `TypePrimitive::Boolean`.
    pub fn boolean() -> (r: Self)
        ensures
            r == TypePrimitive::Boolean,
    {
        TypePrimitive::Boolean
    }

    /// Constructs `TypePrimitive::String`.
    pub fn string() -> (r: Self)
        ensures
            r == TypePrimitive::String,
    {
        TypePrimitive::String
    }

    /// Constructs `TypePrimitive::Thread`.
    pub fn thread() -> (r: Self)
        ensures
            r == TypePrimitive::Thread,
    {
        TypePrimitive::Thread
    }

    /// Returns the keyword, such as `number`.
    pub fn text(&self) -> (r: &'static str)
        ensures
            r@ == self.spec_text(),
    {
        match self {
            TypePrimitive::Nil => "nil",
            TypePrimitive::Boolean => "boolean",
            TypePrimitive::Number => "number",
            TypePrimitive::String => "string",
            TypePrimitive::Thread => "thread",
        }
    }
}

/// A literal value used as a type.
#[derive(Debug, PartialEq)]
pub enum TypeSingleton {
    String(String),
    Boolean(bool),
}

impl TypeSingleton {
    /// The source text of the value: a string as stored, a boolean as `true` or `false`.
    pub open spec fn spec_text(self) -> Seq<char> {
        match self {
            TypeSingleton::String(text) => text@,
            TypeSingleton::Boolean(b) => if b {
                "true"@
            } else {
                "false"@
            },
        }
    }

    /// Returns the source text of the value.
    pub fn text(&self) -> (r: &str)
        ensures
            r@ == self.spec_text(),
    {
        match self {
            TypeSingleton::String(text) => text.as_str(),
            TypeSingleton::Boolean(b) => if *b {
                "true"
            } else {
                "false"
            },
        }
    }
}

/// An optional type, `T?`.
#[derive(Debug, PartialEq)]
pub struct TypeOptional {
    pub(crate) annotation: Box<TypeAnnotation>,
}

impl TypeOptional {
    /// The inner annotation.
    pub open(crate) spec fn spec_annotation(&self) -> TypeAnnotation {
        *self.annotation
    }

    /// Constructs the optional form of `annotation`.
    pub fn new<T: Into<TypeAnnotation>>(annotation: T) -> (r: Self)
        ensures
            T::obeys_into_spec() ==> r.spec_annotation() == annotation.into_spec(),
    {
        TypeOptional { annotation: Box::new(annotation.into()) }
    }

    /// Returns the inner annotation.
    pub fn annotation(&self) -> (r: &TypeAnnotation)
        ensures
            *r == self.spec_annotation(),
    {
        &self.annotation
    }
}

/// A union or intersection of two annotations.
#[derive(Debug, PartialEq)]
pub struct TypeCombination {
    pub(crate) operator: TypeOperator,
    pub(crate) left: Box<TypeAnnotation>,
    pub(crate) right: Box<TypeAnnotation>,
}

impl TypeCombination {
    /// The operator.
    pub open(crate) spec fn spec_operator(&self) -> TypeOperator {
        self.operator
    }

    /// The left annotation.
    pub open(crate) spec fn spec_left(&self) -> TypeAnnotation {
        *self.left
    }

    /// The right annotation.
    pub open(crate) spec fn spec_right(&self) -> TypeAnnotation {
        *self.right
    }

    /// Constructs `left operator right`.
    pub fn new<L: Into<TypeAnnotation>, R: Into<TypeAnnotation>>(
        operator: TypeOperator,
        left: L,
        right: R,
    ) -> (r: Self)
        ensures
            r.spec_operator() == operator,
            L::obeys_into_spec() ==> r.spec_left() == left.into_spec(),
            R::obeys_into_spec() ==> r.spec_right() == right.into_spec(),
    {
        TypeCombination { operator, left: Box::new(left.into()), right: Box::new(right.into()) }
    }

    /// Returns the operator.
    pub fn operator(&self) -> (r: TypeOperator)
        ensures
            r == self.spec_operator(),
    {
        self.operator
    }

    /// Returns the left annotation.
    pub fn left(&self) -> (r: &TypeAnnotation)
        ensures
            *r == self.spec_left(),
    {
        &self.left
    }

    /// Returns the right annotation.
    pub fn right(&self) -> (r: &TypeAnnotation)
        ensures
            *r == self.spec_right(),
    {
        &self.right
    }
}

/// An argument of a function type: anonymous, `T`, or named, `name: T`.
#[derive(Debug, PartialEq)]
pub struct TypeArgument {
    pub(crate) name: Option<String>,
    pub(crate) val: TypeAnnotation,
}

impl TypeArgument {
    /// The name, if any.
    pub open(crate) spec fn spec_name(&self) -> Option<Seq<char>> {
        match self.name {
            Some(n) => Some(n@),
            None => None,
        }
    }

    /// The annotation.
    pub open(crate) spec fn spec_val(&self) -> TypeAnnotation {
        self.val
    }

    /// Constructs an argument with an optional name.
    pub fn new<T: Into<TypeAnnotation>>(name: Option<String>, val: T) -> (r: Self)
        ensures
            r.spec_name() == (match name {
                Some(n) => Some(n@),
                None => None::<Seq<char>>,
            }),
            T::obeys_into_spec() ==> r.spec_val() == val.into_spec(),
    {
        TypeArgument { name, val: val.into() }
    }

    /// Constructs an anonymous argument.
    pub fn anonymous<T: Into<TypeAnnotation>>(val: T) -> (r: Self)
        ensures
            r.spec_name() is None,
            T::obeys_into_spec() ==> r.spec_val() == val.into_spec(),
    {
        Self::new(None, val)
    }

    /// Constructs a named argument.
    pub fn named<T: Into<TypeAnnotation>>(name: String, val: T) -> (r: Self)
        ensures
            r.spec_name() == Some(name@),
            T::obeys_into_spec() ==> r.spec_val() == val.into_spec(),
    {
        Self::new(Some(name), val)
    }

    /// Returns the name, if any.
    pub fn name(&self) -> (r: Option<&String>)
        ensures
            r matches Some(n) ==> self.spec_name() == Some(n@),
            r is None ==> self.spec_name() is None,
    {
        match &self.name {
            Some(n) => Some(n),
            None => None,
        }
    }

    /// Returns the annotation.
    pub fn val(&self) -> (r: &TypeAnnotation)
        ensures
            *r == self.spec_val(),
    {
        &self.val
    }
}

/// A function type: its arguments and its results.
#[derive(Debug, PartialEq)]
pub struct TypeFunction {
    pub(crate) arguments: Vec<TypeArgument>,
    pub(crate) result: Vec<TypeAnnotation>,
}

impl TypeFunction {
    /// The arguments.
    pub open(crate) spec fn spec_arguments(&self) -> Seq<TypeArgument> {
        self.arguments@
    }

    /// The results.
    pub open(crate) spec fn spec_result(&self) -> Seq<TypeAnnotation> {
        self.result@
    }

    /// Constructs a function type from its arguments and its results.
    pub fn new(arguments: Vec<TypeArgument>, result: Vec<TypeAnnotation>) -> (r: Self)
        ensures
            r.spec_arguments() == arguments@,
            r.spec_result() == result@,
    {
        TypeFunction { arguments, result }
    }

    /// Returns the arguments.
    pub fn arguments(&self) -> (r: &Vec<TypeArgument>)
        ensures
            r@ == self.spec_arguments(),
    {
        &self.arguments
    }

    /// Returns the results.
    pub fn result(&self) -> (r: &Vec<TypeAnnotation>)
        ensures
            r@ == self.spec_result(),
    {
        &self.result
    }
}

/// The indexer of a table type, `[K]: V`.
#[derive(Debug, PartialEq)]
pub struct TypeTableIndexer {
    pub(crate) index: TypeAnnotation,
    pub(crate) value: TypeAnnotation,
}

impl TypeTableIndexer {
    /// The key annotation.
    pub open(crate) spec fn spec_index(&self) -> TypeAnnotation {
        self.index
    }

    /// The value annotation.
    pub open(crate) spec fn spec_value(&self) -> TypeAnnotation {
        self.value
    }

    /// Constructs an indexer from its key and value annotations.
    pub fn new(index: TypeAnnotation, value: TypeAnnotation) -> (r: Self)
        ensures
            r.spec_index() == index,
            r.spec_value() == value,
    {
        TypeTableIndexer { index, value }
    }

    /// Returns the key annotation.
    pub fn index(&self) -> (r: &TypeAnnotation)
        ensures
            *r == self.spec_index(),
    {
        &self.index
    }

    /// Returns the value annotation.
    pub fn value(&self) -> (r: &TypeAnnotation)
        ensures
            *r == self.spec_value(),
    {
        &self.value
    }
}

/// A named entry of a table type, `name: T`.
#[derive(Debug, PartialEq)]
pub struct TypeTableEntry {
    pub(crate) index: String,
    pub(crate) value: TypeAnnotation,
}

impl TypeTableEntry {
    /// The name.
    pub open(crate) spec fn spec_index(&self) -> Seq<char> {
        self.index@
    }

    /// The annotation.
    pub open(crate) spec fn spec_value(&self) -> TypeAnnotation {
        self.value
    }

    /// Constructs an entry from its name and annotation.
    pub fn new(index: String, value: TypeAnnotation) -> (r: Self)
        ensures
            r.spec_index() == index@,
            r.spec_value() == value,
    {
        TypeTableEntry { index, value }
    }

    /// Returns the name.
    pub fn index(&self) -> (r: &str)
        ensures
            r@ == self.spec_index(),
    {
        self.index.as_str()
    }

    /// Returns the annotation.
    pub fn value(&self) -> (r: &TypeAnnotation)
        ensures
            *r == self.spec_value(),
    {
        &self.value
    }
}

/// A table type: named entries and at most one indexer.
#[derive(Debug, PartialEq)]
pub struct TypeTable {
    pub(crate) entries: Vec<TypeTableEntry>,
    pub(crate) indexer: Option<Box<TypeTableIndexer>>,
}

impl TypeTable {
    /// The named entries.
    pub open(crate) spec fn spec_entries(&self) -> Seq<TypeTableEntry> {
        self.entries@
    }

    /// The indexer, if any.
    pub open(crate) spec fn spec_indexer(&self) -> Option<TypeTableIndexer> {
        match self.indexer {
            Some(i) => Some(*i),
            None => None,
        }
    }

    /// Constructs a table type from its entries and its indexer.
    pub fn new(entries: Vec<TypeTableEntry>, indexer: Option<Box<TypeTableIndexer>>) -> (r: Self)
        ensures
            r.spec_entries() == entries@,
            r.spec_indexer() == (match indexer {
                Some(i) => Some(*i),
                None => None::<TypeTableIndexer>,
            }),
    {
        TypeTable { entries, indexer }
    }

    /// Returns the named entries.
    pub fn entries(&self) -> (r: &Vec<TypeTableEntry>)
        ensures
            r@ == self.spec_entries(),
    {
        &self.entries
    }

    /// Returns the indexer, if any.
    pub fn indexer(&self) -> (r: &Option<Box<TypeTableIndexer>>)
        ensures
            self.spec_indexer() == (match *r {
                Some(i) => Some(*i),
                None => None::<TypeTableIndexer>,
            }),
    {
        &self.indexer
    }
}

/// An array type, `{ T }`, whose element type may be left out.
#[derive(Debug, PartialEq)]
pub struct TypeArray {
    pub(crate) item: Option<Box<TypeAnnotation>>,
}

impl TypeArray {
    /// The element type, if any.
    pub open(crate) spec fn spec_item(&self) -> Option<TypeAnnotation> {
        match self.item {
            Some(i) => Some(*i),
            None => None,
        }
    }

    /// Constructs an array type.
    pub fn new(item: Option<Box<TypeAnnotation>>) -> (r: Self)
        ensures
            r.spec_item() == (match item {
                Some(i) => Some(*i),
                None => None::<TypeAnnotation>,
            }),
    {
        TypeArray { item }
    }

    /// Returns the element type, if any.
    pub fn item(&self) -> (r: &Option<Box<TypeAnnotation>>)
        ensures
            self.spec_item() == (match *r {
                Some(i) => Some(*i),
                None => None::<TypeAnnotation>,
            }),
    {
        &self.item
    }
}

/// A type annotation.
#[derive(Debug, PartialEq)]
pub enum TypeAnnotation {
    BuiltIn(TypeBuiltIn),
    Primitive(TypePrimitive),
    Function(TypeFunction),
    Table(TypeTable),
    Array(TypeArray),
    Singleton(TypeSingleton),
    Optional(TypeOptional),
    Combination(TypeCombination),
}

impl From<TypeBuiltIn> for TypeAnnotation {
    fn from(value: TypeBuiltIn) -> (r: Self)
        ensures
            r == TypeAnnotation::BuiltIn(value),
    {
        TypeAnnotation::BuiltIn(value)
    }
}

impl vstd::std_specs::convert::FromSpecImpl<TypeBuiltIn> for TypeAnnotation {
    open spec fn obeys_from_spec() -> bool {
        true
    }

    open spec fn from_spec(v: TypeBuiltIn) -> Self {
        TypeAnnotation::BuiltIn(v)
    }
}

impl From<TypePrimitive> for TypeAnnotation {
    fn from(value: TypePrimitive) -> (r: Self)
        ensures
            r == TypeAnnotation::Primitive(value),
    {
        TypeAnnotation::Primitive(value)
    }
}

impl vstd::std_specs::convert::FromSpecImpl<TypePrimitive> for TypeAnnotation {
    open spec fn obeys_from_spec() -> bool {
        true
    }

    open spec fn from_spec(v: TypePrimitive) -> Self {
        TypeAnnotation::Primitive(v)
    }
}

impl From<TypeFunction> for TypeAnnotation {
    fn from(value: TypeFunction) -> (r: Self)
        ensures
            r == TypeAnnotation::Function(value),
    {
        TypeAnnotation::Function(value)
    }
}

impl vstd::std_specs::convert::FromSpecImpl<TypeFunction> for TypeAnnotation {
    open spec fn obeys_from_spec() -> bool {
        true
    }

    open spec fn from_spec(v: TypeFunction) -> Self {
        TypeAnnotation::Function(v)
    }
}

impl From<TypeTable> for TypeAnnotation {
    fn from(value: TypeTable) -> (r: Self)
        ensures
            r == TypeAnnotation::Table(value),
    {
        TypeAnnotation::Table(value)
    }
}

impl vstd::std_specs::convert::FromSpecImpl<TypeTable> for TypeAnnotation {
    open spec fn obeys_from_spec() -> bool {
        true
    }

    open spec fn from_spec(v: TypeTable) -> Self {
        TypeAnnotation::Table(v)
    }
}

impl From<TypeArray> for TypeAnnotation {
    fn from(value: TypeArray) -> (r: Self)
        ensures
            r == TypeAnnotation::Array(value),
    {
        TypeAnnotation::Array(value)
    }
}

impl vstd::std_specs::convert::FromSpecImpl<TypeArray> for TypeAnnotation {
    open spec fn obeys_from_spec() -> bool {
        true
    }

    open spec fn from_spec(v: TypeArray) -> Self {
        TypeAnnotation::Array(v)
    }
}

impl From<TypeSingleton> for TypeAnnotation {
    fn from(value: TypeSingleton) -> (r: Self)
        ensures
            r == TypeAnnotation::Singleton(value),
    {
        TypeAnnotation::Singleton(value)
    }
}

impl vstd::std_specs::convert::FromSpecImpl<TypeSingleton> for TypeAnnotation {
    open spec fn obeys_from_spec() -> bool {
        true
    }

    open spec fn from_spec(v: TypeSingleton) -> Self {
        TypeAnnotation::Singleton(v)
    }
}

impl From<TypeOptional> for TypeAnnotation {
    fn from(value: TypeOptional) -> (r: Self)
        ensures
            r == TypeAnnotation::Optional(value),
    {
        TypeAnnotation::Optional(value)
    }
}

impl vstd::std_specs::convert::FromSpecImpl<TypeOptional> for TypeAnnotation {
    open spec fn obeys_from_spec() -> bool {
        true
    }

    open spec fn from_spec(v: TypeOptional) -> Self {
        TypeAnnotation::Optional(v)
    }
}

impl From<TypeCombination> for TypeAnnotation {
    fn from(value: TypeCombination) -> (r: Self)
        ensures
            r == TypeAnnotation::Combination(value),
    {
        TypeAnnotation::Combination(value)
    }
}

impl vstd::std_specs::convert::FromSpecImpl<TypeCombination> for TypeAnnotation {
    open spec fn obeys_from_spec() -> bool {
        true
    }

    open spec fn from_spec(v: TypeCombination) -> Self {
        TypeAnnotation::Combination(v)
    }
}

impl Clone for TypeSingleton {
    fn clone(&self) -> (r: Self)
        ensures
            r == *self,
    {
        match self {
            TypeSingleton::String(text) => TypeSingleton::String(text.clone()),
            TypeSingleton::Boolean(b) => TypeSingleton::Boolean(*b),
        }
    }
}

/// Whether two annotations are the same tree: equal node for node, with lists compared
/// element by element.
pub open(crate) spec fn same_annotation(a: TypeAnnotation, b: TypeAnnotation) -> bool
    decreases a,
{
    match a {
        TypeAnnotation::BuiltIn(x) => b == TypeAnnotation::BuiltIn(x),
        TypeAnnotation::Primitive(x) => b == TypeAnnotation::Primitive(x),
        TypeAnnotation::Singleton(x) => b == TypeAnnotation::Singleton(x),
        TypeAnnotation::Optional(x) => match b {
            TypeAnnotation::Optional(y) => same_annotation(*x.annotation, *y.annotation),
            _ => false,
        },
        TypeAnnotation::Combination(x) => match b {
            TypeAnnotation::Combination(y) => x.operator == y.operator && same_annotation(
                *x.left,
                *y.left,
            ) && same_annotation(*x.right, *y.right),
            _ => false,
        },
        TypeAnnotation::Function(x) => match b {
            TypeAnnotation::Function(y) => same_arguments(x.arguments@, y.arguments@)
                && same_annotations(x.result@, y.result@),
            _ => false,
        },
        TypeAnnotation::Table(x) => match b {
            TypeAnnotation::Table(y) => same_entries(x.entries@, y.entries@) && match x.indexer {
                Some(i) => match y.indexer {
                    Some(j) => same_indexer(*i, *j),
                    None => false,
                },
                None => y.indexer is None,
            },
            _ => false,
        },
        TypeAnnotation::Array(x) => match b {
            TypeAnnotation::Array(y) => match x.item {
                Some(i) => match y.item {
                    Some(j) => same_annotation(*i, *j),
                    None => false,
                },
                None => y.item is None,
            },
            _ => false,
        },
    }
}

/// Whether two lists of annotations are the same, element by element.
pub open(crate) spec fn same_annotations(a: Seq<TypeAnnotation>, b: Seq<TypeAnnotation>) -> bool
    decreases a,
{
    a.len() == b.len() && (a.len() == 0 || (same_annotations(a.drop_last(), b.drop_last())
        && same_annotation(a.last(), b.last())))
}

/// Whether two function arguments are the same: equal names and the same annotation.
pub open(crate) spec fn same_argument(a: TypeArgument, b: TypeArgument) -> bool
    decreases a,
{
    a.name == b.name && same_annotation(a.val, b.val)
}

/// Whether two lists of function arguments are the same, element by element.
pub open(crate) spec fn same_arguments(a: Seq<TypeArgument>, b: Seq<TypeArgument>) -> bool
    decreases a,
{
    a.len() == b.len() && (a.len() == 0 || (same_arguments(a.drop_last(), b.drop_last())
        && same_argument(a.last(), b.last())))
}

/// Whether two table entries are the same: equal names and the same annotation.
pub open(crate) spec fn same_entry(a: TypeTableEntry, b: TypeTableEntry) -> bool
    decreases a,
{
    a.index == b.index && same_annotation(a.value, b.value)
}

/// Whether two lists of table entries are the same, element by element.
pub open(crate) spec fn same_entries(a: Seq<TypeTableEntry>, b: Seq<TypeTableEntry>) -> bool
    decreases a,
{
    a.len() == b.len() && (a.len() == 0 || (same_entries(a.drop_last(), b.drop_last())
        && same_entry(a.last(), b.last())))
}

/// Whether two table indexers are the same: the same key and value annotations.
pub open(crate) spec fn same_indexer(a: TypeTableIndexer, b: TypeTableIndexer) -> bool
    decreases a,
{
    same_annotation(a.index, b.index) && same_annotation(a.value, b.value)
}

impl Clone for TypeAnnotation {
    fn clone(&self) -> (r: Self)
        ensures
            same_annotation(r, *self),
        decreases self,
    {
        match self {
            TypeAnnotation::BuiltIn(a) => TypeAnnotation::BuiltIn(*a),
            TypeAnnotation::Primitive(a) => TypeAnnotation::Primitive(*a),
            TypeAnnotation::Function(a) => TypeAnnotation::Function(a.clone()),
            TypeAnnotation::Table(a) => TypeAnnotation::Table(a.clone()),
            TypeAnnotation::Array(a) => TypeAnnotation::Array(a.clone()),
            TypeAnnotation::Singleton(a) => TypeAnnotation::Singleton(a.clone()),
            TypeAnnotation::Optional(a) => TypeAnnotation::Optional(a.clone()),
            TypeAnnotation::Combination(a) => TypeAnnotation::Combination(a.clone()),
        }
    }
}

impl Clone for TypeOptional {
    fn clone(&self) -> (r: Self)
        ensures
            same_annotation(TypeAnnotation::Optional(r), TypeAnnotation::Optional(*self)),
        decreases self,
    {
        let annotation: &TypeAnnotation = &self.annotation;
        TypeOptional { annotation: Box::new(annotation.clone()) }
    }
}

impl Clone for TypeCombination {
    fn clone(&self) -> (r: Self)
        ensures
            same_annotation(TypeAnnotation::Combination(r), TypeAnnotation::Combination(*self)),
        decreases self,
    {
        let left: &TypeAnnotation = &self.left;
        let right: &TypeAnnotation = &self.right;
        TypeCombination {
            operator: self.operator,
            left: Box::new(left.clone()),
            right: Box::new(right.clone()),
        }
    }
}

impl Clone for TypeArgument {
    fn clone(&self) -> (r: Self)
        ensures
            same_argument(r, *self),
        decreases self,
    {
        let name = match &self.name {
            Some(n) => Some(n.clone()),
            None => None,
        };
        TypeArgument { name, val: self.val.clone() }
    }
}

impl Clone for TypeFunction {
    fn clone(&self) -> (r: Self)
        ensures
            same_annotation(TypeAnnotation::Function(r), TypeAnnotation::Function(*self)),
        decreases self,
    {
        let mut arguments: Vec<TypeArgument> = Vec::new();
        let mut i: usize = 0;
        while i < self.arguments.len()
            invariant
                i <= self.arguments.len(),
                same_arguments(arguments@, self.arguments@.take(i as int)),
            decreases self.arguments.len() - i,
        {
            proof {
                assert(decreases_to!(*self => self.arguments));
                assert(decreases_to!(self.arguments => self.arguments[i as int]));
            }
            let argument = self.arguments[i].clone();
            let ghost before = arguments@;
            arguments.push(argument);
            proof {
                assert(arguments@.drop_last() =~= before);
                assert(self.arguments@.take(i + 1).drop_last() =~= self.arguments@.take(i as int));
            }
            i = i + 1;
        }
        assert(self.arguments@.take(i as int) =~= self.arguments@);
        let mut result: Vec<TypeAnnotation> = Vec::new();
        let mut j: usize = 0;
        while j < self.result.len()
            invariant
                j <= self.result.len(),
                same_annotations(result@, self.result@.take(j as int)),
            decreases self.result.len() - j,
        {
            proof {
                assert(decreases_to!(*self => self.result));
                assert(decreases_to!(self.result => self.result[j as int]));
            }
            let annotation = self.result[j].clone();
            let ghost before = result@;
            result.push(annotation);
            proof {
                assert(result@.drop_last() =~= before);
                assert(self.result@.take(j + 1).drop_last() =~= self.result@.take(j as int));
            }
            j = j + 1;
        }
        assert(self.result@.take(j as int) =~= self.result@);
        TypeFunction { arguments, result }
    }
}

impl Clone for TypeTableIndexer {
    fn clone(&self) -> (r: Self)
        ensures
            same_indexer(r, *self),
        decreases self,
    {
        TypeTableIndexer { index: self.index.clone(), value: self.value.clone() }
    }
}

impl Clone for TypeTableEntry {
    fn clone(&self) -> (r: Self)
        ensures
            same_entry(r, *self),
        decreases self,
    {
        TypeTableEntry { index: self.index.clone(), value: self.value.clone() }
    }
}

impl Clone for TypeTable {
    fn clone(&self) -> (r: Self)
        ensures
            same_annotation(TypeAnnotation::Table(r), TypeAnnotation::Table(*self)),
        decreases self,
    {
        let mut entries: Vec<TypeTableEntry> = Vec::new();
        let mut i: usize = 0;
        while i < self.entries.len()
            invariant
                i <= self.entries.len(),
                same_entries(entries@, self.entries@.take(i as int)),
            decreases self.entries.len() - i,
        {
            proof {
                assert(decreases_to!(*self => self.entries));
                assert(decreases_to!(self.entries => self.entries[i as int]));
            }
            let entry = self.entries[i].clone();
            let ghost before = entries@;
            entries.push(entry);
            proof {
                assert(entries@.drop_last() =~= before);
                assert(self.entries@.take(i + 1).drop_last() =~= self.entries@.take(i as int));
            }
            i = i + 1;
        }
        assert(self.entries@.take(i as int) =~= self.entries@);
        let indexer = match &self.indexer {
            Some(indexer) => {
                let inner: &TypeTableIndexer = indexer;
                Some(Box::new(inner.clone()))
            },
            None => None,
        };
        TypeTable { entries, indexer }
    }
}

impl Clone for TypeArray {
    fn clone(&self) -> (r: Self)
        ensures
            same_annotation(TypeAnnotation::Array(r), TypeAnnotation::Array(*self)),
        decreases self,
    {
        let item = match &self.item {
            Some(item) => {
                let inner: &TypeAnnotation = item;
                Some(Box::new(inner.clone()))
            },
            None => None,
        };
        TypeArray { item }
    }
}

} // verus!
