//! Settings that control how source text is laid out.
use vstd::prelude::*;

verus! {

/// How one level of indentation is written.
#[derive(Debug, Clone, Copy, PartialEq, Eq, Structural)]
pub enum IndentationMode {
    Disabled,
    Spaces(usize),
    Tabs(usize),
}

impl Default for IndentationMode {
    /// Four spaces per level.
    fn default() -> (r: Self)
        ensures
            r == IndentationMode::Spaces(4),
    {
        IndentationMode::Spaces(4)
    }
}

/// For each operator, whether it is written with a space on each side.
///
/// The word operators `and`, `or` and `not` are written spaced whatever these say.
#[derive(Debug, Clone, Copy, PartialEq, Eq, Structural)]
pub struct OperatorSpacing {
    // Types
    pub union: bool,
    pub intersection: bool,
    // Unary
    pub negate: bool,
    pub length: bool,
    // Arithmetic
    pub add: bool,
    pub subtract: bool,
    pub multiply: bool,
    pub divide: bool,
    pub modulo: bool,
    pub power: bool,
    // Logical
    pub and: bool,
    pub or: bool,
    // Equality
    pub equal: bool,
    pub not_equal: bool,
    // Comparisons
    pub less_than: bool,
    pub greater_than: bool,
    pub greater_than_or_equal: bool,
    pub less_than_or_equal: bool,
}

impl OperatorSpacing {
    /// Every operator spaced but `-` (negation) and `#`.
    pub open spec fn spec_default() -> OperatorSpacing {
        OperatorSpacing {
            union: true,
            intersection: true,
            negate: false,
            length: false,
            add: true,
            subtract: true,
            multiply: true,
            divide: true,
            modulo: true,
            power: true,
            and: true,
            or: true,
            equal: true,
            not_equal: true,
            less_than: true,
            greater_than: true,
            greater_than_or_equal: true,
            less_than_or_equal: true,
        }
    }
}

impl Default for OperatorSpacing {
    /// Every operator spaced but `-` (negation) and `#`.
    fn default() -> (r: Self)
        ensures
            r == OperatorSpacing::spec_default(),
    {
        OperatorSpacing {
            // Types
            union: true,
            intersection: true,
            // Unary
            negate: false,
            length: false,
            // Arithmetic
            add: true,
            subtract: true,
            multiply: true,
            divide: true,
            modulo: true,
            power: true,
            // Logical
            and: true,
            or: true,
            // Equality
            equal: true,
            not_equal: true,
            // Comparisons
            less_than: true,
            greater_than: true,
            greater_than_or_equal: true,
            less_than_or_equal: true,
        }
    }
}

/// Everything that controls the layout of formatted source.
#[derive(Debug, Clone, Copy, PartialEq, Eq, Structural)]
pub struct SourceFormatSettings {
    pub indentation: IndentationMode,
    pub operator_spacing: OperatorSpacing,
}

impl Default for SourceFormatSettings {
    /// Four spaces per level of indentation and the default operator spacing.
    fn default() -> (r: Self)
        ensures
            r.indentation == IndentationMode::Spaces(4),
            r.operator_spacing == OperatorSpacing::spec_default(),
    {
        SourceFormatSettings {
            indentation: IndentationMode::default(),
            operator_spacing: OperatorSpacing::default(),
        }
    }
}

} // verus!
