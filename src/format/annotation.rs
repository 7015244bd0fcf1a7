//! Formatting of type annotations.
use crate::ast::{
    TypeAnnotation, TypeArgument, TypeArray, TypeBuiltIn, TypeCombination, TypeFunction,
    TypeOptional, TypePrimitive, TypeSingleton, TypeTable, TypeTableEntry, TypeTableIndexer,
};
use crate::format::{SourceFormat, SourceFormatSettings, SourceItem};
use itertools::Itertools;
use vstd::prelude::*;
use vstd::string::StringExecFns;

verus! {

/// The parts in order, with `separator` between each two.
pub open spec fn joined(parts: Seq<Seq<char>>, separator: Seq<char>) -> Seq<char>
    decreases parts.len(),
{
    if parts.len() == 0 {
        Seq::empty()
    } else if parts.len() == 1 {
        parts[0]
    } else {
        joined(parts.drop_last(), separator) + separator + parts.last()
    }
}

/// The views of a sequence of strings.
pub open spec fn views(parts: Seq<String>) -> Seq<Seq<char>> {
    parts.map_values(|p: String| p@)
}

/// Relies on `Itertools::join` of itertools: it writes the items in order, with `separator`
/// between each two, and nothing for no items.
#[verifier::external_body]
fn join(parts: &Vec<String>, separator: &str) -> (r: String)
    ensures
        r@ == joined(views(parts@), separator@),
{
    parts.iter().join(separator)
}

/// The source text of a type annotation.
pub open(crate) spec fn annotation_text(a: TypeAnnotation, settings: SourceFormatSettings) -> Seq<
    char,
>
    decreases a,
{
    match a {
        TypeAnnotation::BuiltIn(b) => b.spec_text(),
        TypeAnnotation::Primitive(p) => p.spec_text(),
        TypeAnnotation::Singleton(s) => s.spec_text(),
        TypeAnnotation::Optional(o) => annotation_text(*o.annotation, settings) + "?"@,
        TypeAnnotation::Combination(c) => annotation_text(*c.left, settings) + " "@
            + c.operator.spec_text() + " "@ + annotation_text(*c.right, settings),
        TypeAnnotation::Function(f) => "("@ + joined(argument_texts(f.arguments@, settings), ", "@)
            + ") -> "@ + if f.result@.len() == 1 {
            annotation_text(f.result@[0], settings)
        } else {
            "("@ + joined(annotation_texts(f.result@, settings), ", "@) + ")"@
        },
        TypeAnnotation::Table(t) => if t.entries@.len() == 0 && t.indexer is None {
            "{ }"@
        } else {
            "{ "@ + joined(
                entry_texts(t.entries@, settings) + match t.indexer {
                    Some(i) => seq![indexer_text(*i, settings)],
                    None => Seq::empty(),
                },
                ", "@,
            ) + " }"@
        },
        TypeAnnotation::Array(arr) => match arr.item {
            Some(item) => "{ "@ + annotation_text(*item, settings) + " }"@,
            None => "{ }"@,
        },
    }
}

/// The source texts of a sequence of annotations.
pub open(crate) spec fn annotation_texts(
    annotations: Seq<TypeAnnotation>,
    settings: SourceFormatSettings,
) -> Seq<Seq<char>>
    decreases annotations,
{
    if annotations.len() == 0 {
        Seq::empty()
    } else {
        annotation_texts(annotations.drop_last(), settings).push(
            annotation_text(annotations.last(), settings),
        )
    }
}

/// The source text of a function argument: `name: T`, or `T` when anonymous.
pub open(crate) spec fn argument_text(argument: TypeArgument, settings: SourceFormatSettings) -> Seq<
    char,
>
    decreases argument,
{
    match argument.name {
        Some(name) => name@ + ": "@ + annotation_text(argument.val, settings),
        None => annotation_text(argument.val, settings),
    }
}

/// The source texts of a sequence of function arguments.
pub open(crate) spec fn argument_texts(
    arguments: Seq<TypeArgument>,
    settings: SourceFormatSettings,
) -> Seq<Seq<char>>
    decreases arguments,
{
    if arguments.len() == 0 {
        Seq::empty()
    } else {
        argument_texts(arguments.drop_last(), settings).push(
            argument_text(arguments.last(), settings),
        )
    }
}

/// The source text of a table entry, `name: T`.
pub open(crate) spec fn entry_text(entry: TypeTableEntry, settings: SourceFormatSettings) -> Seq<
    char,
>
    decreases entry,
{
    entry.index@ + ": "@ + annotation_text(entry.value, settings)
}

/// The source texts of a sequence of table entries.
pub open(crate) spec fn entry_texts(
    entries: Seq<TypeTableEntry>,
    settings: SourceFormatSettings,
) -> Seq<Seq<char>>
    decreases entries,
{
    if entries.len() == 0 {
        Seq::empty()
    } else {
        entry_texts(entries.drop_last(), settings).push(entry_text(entries.last(), settings))
    }
}

/// The source text of a table indexer, `[K]: V`.
pub open(crate) spec fn indexer_text(indexer: TypeTableIndexer, settings: SourceFormatSettings) -> Seq<
    char,
>
    decreases indexer,
{
    "["@ + annotation_text(indexer.index, settings) + "]: "@ + annotation_text(
        indexer.value,
        settings,
    )
}

/// Returns the source text of a type annotation.
fn format_annotation(a: &TypeAnnotation, settings: &SourceFormatSettings) -> (r: String)
    ensures
        r@ == annotation_text(*a, *settings),
    decreases a,
{
    match a {
        TypeAnnotation::BuiltIn(b) => b.text().to_string(),
        TypeAnnotation::Primitive(p) => p.text().to_string(),
        TypeAnnotation::Singleton(s) => s.text().to_string(),
        TypeAnnotation::Optional(o) => format_optional(o, settings),
        TypeAnnotation::Combination(c) => format_combination(c, settings),
        TypeAnnotation::Function(f) => format_function(f, settings),
        TypeAnnotation::Table(t) => format_table(t, settings),
        TypeAnnotation::Array(arr) => format_array(arr, settings),
    }
}

/// Returns the source text of an optional type.
fn format_optional(o: &TypeOptional, settings: &SourceFormatSettings) -> (r: String)
    ensures
        r@ == annotation_text(TypeAnnotation::Optional(*o), *settings),
    decreases o,
{
    let mut r = format_annotation(&o.annotation, settings);
    r.append("?");
    r
}

/// Returns the source text of a union or intersection; the operator is always spaced.
fn format_combination(c: &TypeCombination, settings: &SourceFormatSettings) -> (r: String)
    ensures
        r@ == annotation_text(TypeAnnotation::Combination(*c), *settings),
    decreases c,
{
    let mut r = format_annotation(&c.left, settings);
    let right = format_annotation(&c.right, settings);
    r.append(" ");
    r.append(c.operator.text());
    r.append(" ");
    r.append(right.as_str());
    assert(r@ =~= annotation_text(TypeAnnotation::Combination(*c), *settings));
    r
}

/// Returns the source texts of a sequence of annotations.
fn format_annotations(annotations: &Vec<TypeAnnotation>, settings: &SourceFormatSettings) -> (r: Vec<
    String,
>)
    ensures
        views(r@) == annotation_texts(annotations@, *settings),
    decreases annotations,
{
    let mut texts: Vec<String> = Vec::new();
    let mut i: usize = 0;
    while i < annotations.len()
        invariant
            i <= annotations.len(),
            views(texts@) == annotation_texts(annotations@.take(i as int), *settings),
        decreases annotations.len() - i,
    {
        proof {
            assert(decreases_to!(*annotations => annotations[i as int]));
            assert(annotations@.take(i + 1).drop_last() =~= annotations@.take(i as int));
        }
        let text = format_annotation(&annotations[i], settings);
        let ghost before = texts@;
        texts.push(text);
        proof {
            assert(views(texts@) =~= views(before).push(text@));
        }
        i = i + 1;
    }
    assert(annotations@.take(i as int) =~= annotations@);
    texts
}

/// Returns the source text of a function argument.
fn format_argument(argument: &TypeArgument, settings: &SourceFormatSettings) -> (r: String)
    ensures
        r@ == argument_text(*argument, *settings),
    decreases argument,
{
    let value = format_annotation(&argument.val, settings);
    match &argument.name {
        Some(name) => {
            let mut r = name.clone();
            r.append(": ");
            r.append(value.as_str());
            assert(r@ =~= argument_text(*argument, *settings));
            r
        },
        None => value,
    }
}

/// Returns the source texts of a sequence of function arguments.
fn format_arguments(arguments: &Vec<TypeArgument>, settings: &SourceFormatSettings) -> (r: Vec<
    String,
>)
    ensures
        views(r@) == argument_texts(arguments@, *settings),
    decreases arguments,
{
    let mut texts: Vec<String> = Vec::new();
    let mut i: usize = 0;
    while i < arguments.len()
        invariant
            i <= arguments.len(),
            views(texts@) == argument_texts(arguments@.take(i as int), *settings),
        decreases arguments.len() - i,
    {
        proof {
            assert(decreases_to!(*arguments => arguments[i as int]));
            assert(arguments@.take(i + 1).drop_last() =~= arguments@.take(i as int));
        }
        let text = format_argument(&arguments[i], settings);
        let ghost before = texts@;
        texts.push(text);
        proof {
            assert(views(texts@) =~= views(before).push(text@));
        }
        i = i + 1;
    }
    assert(arguments@.take(i as int) =~= arguments@);
    texts
}

/// Returns the source text of a function type.
fn format_function(f: &TypeFunction, settings: &SourceFormatSettings) -> (r: String)
    ensures
        r@ == annotation_text(TypeAnnotation::Function(*f), *settings),
    decreases f,
{
    let arguments = join(&format_arguments(&f.arguments, settings), ", ");
    let results = format_annotations(&f.result, settings);
    let result = join(&results, ", ");
    // An empty result list is written `()`, as in `(number) -> ()`.
    let result_has_parenthesis = f.result.len() != 1;
    let mut r = "(".to_string();
    r.append(arguments.as_str());
    r.append(") -> ");
    if result_has_parenthesis {
        r.append("(");
        r.append(result.as_str());
        r.append(")");
    } else {
        r.append(result.as_str());
    }
    proof {
        if !result_has_parenthesis {
            assert(f.result@.drop_last().len() == 0);
            assert(annotation_texts(f.result@.drop_last(), *settings).len() == 0);
            assert(annotation_texts(f.result@, *settings) =~= seq![
                annotation_text(f.result@[0], *settings),
            ]);
        }
        assert(r@ =~= annotation_text(TypeAnnotation::Function(*f), *settings));
    }
    r
}

/// Returns the source text of a table entry.
fn format_entry(entry: &TypeTableEntry, settings: &SourceFormatSettings) -> (r: String)
    ensures
        r@ == entry_text(*entry, *settings),
    decreases entry,
{
    let value = format_annotation(&entry.value, settings);
    let mut r = entry.index.clone();
    r.append(": ");
    r.append(value.as_str());
    assert(r@ =~= entry_text(*entry, *settings));
    r
}

/// Returns the source text of a table indexer.
fn format_indexer(indexer: &TypeTableIndexer, settings: &SourceFormatSettings) -> (r: String)
    ensures
        r@ == indexer_text(*indexer, *settings),
    decreases indexer,
{
    let index = format_annotation(&indexer.index, settings);
    let value = format_annotation(&indexer.value, settings);
    let mut r = "[".to_string();
    r.append(index.as_str());
    r.append("]: ");
    r.append(value.as_str());
    assert(r@ =~= indexer_text(*indexer, *settings));
    r
}

/// Returns the source text of a table type.
fn format_table(t: &TypeTable, settings: &SourceFormatSettings) -> (r: String)
    ensures
        r@ == annotation_text(TypeAnnotation::Table(*t), *settings),
    decreases t,
{
    let mut texts: Vec<String> = Vec::new();
    let mut i: usize = 0;
    while i < t.entries.len()
        invariant
            i <= t.entries.len(),
            views(texts@) == entry_texts(t.entries@.take(i as int), *settings),
        decreases t.entries.len() - i,
    {
        proof {
            assert(decreases_to!(*t => t.entries));
            assert(decreases_to!(t.entries => t.entries[i as int]));
            assert(t.entries@.take(i + 1).drop_last() =~= t.entries@.take(i as int));
        }
        let text = format_entry(&t.entries[i], settings);
        let ghost before = texts@;
        texts.push(text);
        proof {
            assert(views(texts@) =~= views(before).push(text@));
        }
        i = i + 1;
    }
    assert(t.entries@.take(i as int) =~= t.entries@);
    let ghost entries = texts@;
    match &t.indexer {
        Some(indexer) => {
            let text = format_indexer(indexer, settings);
            texts.push(text);
            assert(views(texts@) =~= views(entries) + seq![indexer_text(**indexer, *settings)]);
        },
        None => {
            assert(views(texts@) =~= views(entries) + Seq::empty());
        },
    }
    if t.entries.len() == 0 && t.indexer.is_none() {
        "{ }".to_string()
    } else {
        let content = join(&texts, ", ");
        let mut r = "{ ".to_string();
        r.append(content.as_str());
        r.append(" }");
        assert(r@ =~= annotation_text(TypeAnnotation::Table(*t), *settings));
        r
    }
}

/// Returns the source text of an array type.
fn format_array(arr: &TypeArray, settings: &SourceFormatSettings) -> (r: String)
    ensures
        r@ == annotation_text(TypeAnnotation::Array(*arr), *settings),
    decreases arr,
{
    match &arr.item {
        Some(item) => {
            let mut r = "{ ".to_string();
            r.append(format_annotation(item, settings).as_str());
            r.append(" }");
            assert(r@ =~= annotation_text(TypeAnnotation::Array(*arr), *settings));
            r
        },
        None => "{ }".to_string(),
    }
}

impl SourceFormat for TypeBuiltIn {
    open spec fn spec_format(&self, settings: SourceFormatSettings) -> Seq<char> {
        self.spec_text()
    }

    fn format(&self, settings: &SourceFormatSettings) -> (r: SourceItem) {
        SourceItem::text(self.text())
    }
}

impl SourceFormat for TypePrimitive {
    open spec fn spec_format(&self, settings: SourceFormatSettings) -> Seq<char> {
        self.spec_text()
    }

    fn format(&self, settings: &SourceFormatSettings) -> (r: SourceItem) {
        SourceItem::text(self.text())
    }
}

impl SourceFormat for TypeSingleton {
    open spec fn spec_format(&self, settings: SourceFormatSettings) -> Seq<char> {
        self.spec_text()
    }

    fn format(&self, settings: &SourceFormatSettings) -> (r: SourceItem) {
        SourceItem::text(self.text())
    }
}

impl SourceFormat for TypeOptional {
    open spec fn spec_format(&self, settings: SourceFormatSettings) -> Seq<char> {
        annotation_text(TypeAnnotation::Optional(*self), settings)
    }

    fn format(&self, settings: &SourceFormatSettings) -> (r: SourceItem) {
        SourceItem::Text(format_optional(self, settings))
    }
}

impl SourceFormat for TypeCombination {
    open spec fn spec_format(&self, settings: SourceFormatSettings) -> Seq<char> {
        annotation_text(TypeAnnotation::Combination(*self), settings)
    }

    fn format(&self, settings: &SourceFormatSettings) -> (r: SourceItem) {
        SourceItem::Text(format_combination(self, settings))
    }
}

impl SourceFormat for TypeArgument {
    open spec fn spec_format(&self, settings: SourceFormatSettings) -> Seq<char> {
        argument_text(*self, settings)
    }

    fn format(&self, settings: &SourceFormatSettings) -> (r: SourceItem) {
        SourceItem::Text(format_argument(self, settings))
    }
}

impl SourceFormat for TypeFunction {
    open spec fn spec_format(&self, settings: SourceFormatSettings) -> Seq<char> {
        annotation_text(TypeAnnotation::Function(*self), settings)
    }

    fn format(&self, settings: &SourceFormatSettings) -> (r: SourceItem) {
        SourceItem::Text(format_function(self, settings))
    }
}

impl SourceFormat for TypeTableIndexer {
    open spec fn spec_format(&self, settings: SourceFormatSettings) -> Seq<char> {
        indexer_text(*self, settings)
    }

    fn format(&self, settings: &SourceFormatSettings) -> (r: SourceItem) {
        SourceItem::Text(format_indexer(self, settings))
    }
}

impl SourceFormat for TypeTableEntry {
    open spec fn spec_format(&self, settings: SourceFormatSettings) -> Seq<char> {
        entry_text(*self, settings)
    }

    fn format(&self, settings: &SourceFormatSettings) -> (r: SourceItem) {
        SourceItem::Text(format_entry(self, settings))
    }
}

impl SourceFormat for TypeTable {
    open spec fn spec_format(&self, settings: SourceFormatSettings) -> Seq<char> {
        annotation_text(TypeAnnotation::Table(*self), settings)
    }

    fn format(&self, settings: &SourceFormatSettings) -> (r: SourceItem) {
        SourceItem::Text(format_table(self, settings))
    }
}

impl SourceFormat for TypeArray {
    open spec fn spec_format(&self, settings: SourceFormatSettings) -> Seq<char> {
        annotation_text(TypeAnnotation::Array(*self), settings)
    }

    fn format(&self, settings: &SourceFormatSettings) -> (r: SourceItem) {
        SourceItem::Text(format_array(self, settings))
    }
}

impl SourceFormat for TypeAnnotation {
    open spec fn spec_format(&self, settings: SourceFormatSettings) -> Seq<char> {
        annotation_text(*self, settings)
    }

    fn format(&self, settings: &SourceFormatSettings) -> (r: SourceItem) {
        SourceItem::Text(format_annotation(self, settings))
    }
}

/// A function type with no results is written with an empty parenthesized result list,
/// `(args) -> ()`.
pub proof fn lemma_no_results_parenthesized(f: TypeFunction, settings: SourceFormatSettings)
    requires
        f.spec_result().len() == 0,
    ensures
        annotation_text(TypeAnnotation::Function(f), settings) == "("@ + joined(
            argument_texts(f.spec_arguments(), settings),
            ", "@,
        ) + ") -> "@ + "()"@,
{
    reveal_strlit("(");
    reveal_strlit(")");
    reveal_strlit("()");
    assert(annotation_texts(f.spec_result(), settings).len() == 0);
    assert(annotation_text(TypeAnnotation::Function(f), settings) =~= "("@ + joined(
        argument_texts(f.spec_arguments(), settings),
        ", "@,
    ) + ") -> "@ + "()"@);
}

/// A function type with exactly one result is written without parentheses around it,
/// `(args) -> T`.
pub proof fn lemma_single_result_bare(f: TypeFunction, settings: SourceFormatSettings)
    requires
        f.spec_result().len() == 1,
    ensures
        annotation_text(TypeAnnotation::Function(f), settings) == "("@ + joined(
            argument_texts(f.spec_arguments(), settings),
            ", "@,
        ) + ") -> "@ + annotation_text(f.spec_result()[0], settings),
{
}

/// A table type with no entries and an indexer is written `{ [K]: V }`.
pub proof fn lemma_indexer_only_table(t: TypeTable, settings: SourceFormatSettings)
    requires
        t.spec_entries().len() == 0,
        t.spec_indexer() is Some,
    ensures
        annotation_text(TypeAnnotation::Table(t), settings) == "{ "@ + indexer_text(
            t.spec_indexer().unwrap(),
            settings,
        ) + " }"@,
{
    assert(entry_texts(t.spec_entries(), settings).len() == 0);
    assert(entry_texts(t.spec_entries(), settings) + seq![
        indexer_text(t.spec_indexer().unwrap(), settings),
    ] =~= seq![indexer_text(t.spec_indexer().unwrap(), settings)]);
}

/// An array type without an element type is written `{ }`.
pub proof fn lemma_untyped_array(arr: TypeArray, settings: SourceFormatSettings)
    requires
        arr.spec_item() is None,
    ensures
        annotation_text(TypeAnnotation::Array(arr), settings) == "{ }"@,
{
}

} // verus!
