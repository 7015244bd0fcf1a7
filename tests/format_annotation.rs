use luna::ast::{
    TypeAnnotation, TypeArgument, TypeArray, TypeBuiltIn, TypeCombination, TypeFunction,
    TypeOperator, TypeOptional, TypePrimitive, TypeSingleton, TypeTable, TypeTableEntry,
    TypeTableIndexer,
};
use luna::format::{SourceFormat, SourceFormatSettings};

fn render<T: SourceFormat>(node: &T) -> String {
    node.format_string(&SourceFormatSettings::default())
}

fn number() -> TypeAnnotation {
    TypeAnnotation::from(TypePrimitive::new())
}

fn string() -> TypeAnnotation {
    TypeAnnotation::from(TypePrimitive::string())
}

#[test]
fn optional_number() {
    assert_eq!(render(&TypeOptional::new(TypePrimitive::new())), "number?");
}

#[test]
fn function_with_named_argument() {
    let f = TypeFunction::new(
        vec![TypeArgument::anonymous(number()), TypeArgument::named("x".to_string(), string())],
        vec![TypeAnnotation::from(TypePrimitive::boolean())],
    );
    assert_eq!(render(&f), "(number, x: string) -> boolean");
}

#[test]
fn function_without_arguments_or_results() {
    let f = TypeFunction::new(vec![], vec![]);
    assert_eq!(render(&f), "() -> ()");
}

#[test]
fn function_with_two_results() {
    let f = TypeFunction::new(vec![], vec![number(), string()]);
    assert_eq!(render(&f), "() -> (number, string)");
}

#[test]
fn function_with_arguments_and_no_results() {
    let f = TypeFunction::new(vec![TypeArgument::anonymous(number())], vec![]);
    assert_eq!(render(&f), "(number) -> ()");
}

#[test]
fn function_with_single_result_is_bare() {
    let f = TypeFunction::new(vec![TypeArgument::named("a".to_string(), number())], vec![string()]);
    assert_eq!(render(&f), "(a: number) -> string");
}

#[test]
fn union_of_primitives() {
    let c = TypeCombination::new(TypeOperator::union(), TypePrimitive::new(), TypePrimitive::string());
    assert_eq!(render(&c), "number | string");
}

#[test]
fn intersection_always_spaced() {
    let mut settings = SourceFormatSettings::default();
    settings.operator_spacing.intersection = false;
    let c = TypeCombination::new(TypeOperator::intersection(), TypeBuiltIn::Any, TypeBuiltIn::Unknown);
    assert_eq!(c.format_string(&settings), "any & unknown");
}

#[test]
fn array_of_number() {
    let a = TypeArray::new(Some(Box::new(number())));
    assert_eq!(render(&a), "{ number }");
}

#[test]
fn array_without_element_type() {
    assert_eq!(render(&TypeArray::new(None)), "{ }");
}

#[test]
fn table_with_entries() {
    let t = TypeTable::new(
        vec![TypeTableEntry::new("x".to_string(), number()), TypeTableEntry::new("y".to_string(), number())],
        None,
    );
    assert_eq!(render(&t), "{ x: number, y: number }");
}

#[test]
fn table_with_only_an_indexer() {
    let t = TypeTable::new(vec![], Some(Box::new(TypeTableIndexer::new(string(), number()))));
    assert_eq!(render(&t), "{ [string]: number }");
}

#[test]
fn table_with_entries_and_indexer() {
    let t = TypeTable::new(
        vec![TypeTableEntry::new("n".to_string(), number())],
        Some(Box::new(TypeTableIndexer::new(number(), string()))),
    );
    assert_eq!(render(&t), "{ n: number, [number]: string }");
}

#[test]
fn empty_table() {
    assert_eq!(render(&TypeTable::new(vec![], None)), "{ }");
}

#[test]
fn keywords_and_singletons() {
    assert_eq!(render(&TypeBuiltIn::Never), "never");
    assert_eq!(render(&TypeBuiltIn::Any), "any");
    assert_eq!(render(&TypeBuiltIn::Unknown), "unknown");
    assert_eq!(render(&TypePrimitive::nil()), "nil");
    assert_eq!(render(&TypePrimitive::thread()), "thread");
    assert_eq!(render(&TypeSingleton::String("\"foo\"".to_string())), "\"foo\"");
    assert_eq!(render(&TypeSingleton::Boolean(true)), "true");
    assert_eq!(render(&TypeSingleton::Boolean(false)), "false");
}

#[test]
fn nested_annotations() {
    let inner = TypeCombination::new(TypeOperator::union(), TypePrimitive::new(), TypePrimitive::nil());
    let f = TypeFunction::new(
        vec![TypeArgument::named("cb".to_string(), TypeOptional::new(inner))],
        vec![TypeAnnotation::from(TypeArray::new(Some(Box::new(string()))))],
    );
    assert_eq!(render(&TypeAnnotation::from(f)), "(cb: number | nil?) -> { string }");
}

#[test]
fn annotation_accessors() {
    let arg = TypeArgument::named("x".to_string(), number());
    assert_eq!(arg.name(), Some(&"x".to_string()));
    assert_eq!(arg.val(), &number());
    assert_eq!(TypeArgument::anonymous(number()).name(), None);
    let entry = TypeTableEntry::new("k".to_string(), string());
    assert_eq!(entry.index(), "k");
    assert_eq!(entry.value(), &string());
    let f = TypeFunction::new(vec![], vec![number()]);
    assert_eq!(f.arguments().len(), 0);
    assert_eq!(f.result(), &vec![number()]);
}

#[test]
fn clones_are_equal() {
    let t = TypeAnnotation::from(TypeTable::new(
        vec![TypeTableEntry::new("n".to_string(), number())],
        Some(Box::new(TypeTableIndexer::new(string(), TypeAnnotation::from(TypeFunction::new(
            vec![TypeArgument::named("x".to_string(), TypeOptional::new(TypePrimitive::new()))],
            vec![TypeAnnotation::from(TypeSingleton::Boolean(true))],
        ))))),
    ));
    let copy = t.clone();
    assert_eq!(copy, t);
    assert_eq!(render(&copy), render(&t));
    assert_eq!(render(&t), "{ n: number, [string]: (x: number?) -> true }");
    let b = luna::ast::Binding::annotated("v", t.clone());
    assert_eq!(b.clone(), b);
}
