use luna::ast::{
    Basic, Binding, Expression, LocalAssign, NumberLiteral, Primitive, TypeAnnotation,
    TypePrimitive,
};

#[test]
fn bindings() {
    let b = Binding::named("x");
    assert_eq!(b.name, "x");
    assert_eq!(b.annotation, None);
    let a = Binding::annotated("y", TypeAnnotation::from(TypePrimitive::new()));
    assert_eq!(a.name, "y");
    assert_eq!(a.annotation, Some(TypeAnnotation::from(TypePrimitive::Number)));
}

#[test]
fn local_statements() {
    let one = LocalAssign::assign_one(Binding::named("x"), Expression::from(NumberLiteral::from("1")));
    let same = LocalAssign::assign_many(vec![Binding::named("x")], vec![Expression::from(NumberLiteral::from("1"))]);
    assert_eq!(one, same);
    assert_eq!(LocalAssign::declare_one(Binding::named("z")), LocalAssign::declare_many(vec![Binding::named("z")]));
}

#[test]
fn basic_type_keywords() {
    assert_eq!(Primitive::nil().text(), "nil");
    assert_eq!(Primitive::string().text(), "string");
    assert_eq!(Primitive::number().text(), "number");
    assert_eq!(Primitive::boolean().text(), "boolean");
    assert_eq!(Primitive::thread().text(), "thread");
    assert_eq!(Primitive::userdata().text(), "userdata");
    assert_eq!(Basic::userdata().to_string(), "userdata");
    assert_eq!(Basic::string().to_string(), "string");
}
