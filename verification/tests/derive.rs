use const_default::generate::derive_default;
use const_default::shape::{
    DeriveError, DeriveErrorKind, FieldDescriptor, FieldKey, FieldStyle, GenericParam, TypeData,
    TypeDef,
};

fn named_field(name: &str, ty: &str, span: usize) -> FieldDescriptor {
    FieldDescriptor { key: FieldKey::Name(name.to_string()), ty: ty.to_string(), span }
}

fn positional_field(index: usize, ty: &str, span: usize) -> FieldDescriptor {
    FieldDescriptor { key: FieldKey::Index(index), ty: ty.to_string(), span }
}

fn product(ident: &str, style: FieldStyle, fields: Vec<FieldDescriptor>) -> TypeDef {
    TypeDef {
        ident: ident.to_string(),
        generics: Vec::new(),
        where_predicates: Vec::new(),
        data: TypeData::Product { style, fields },
        span: 0,
    }
}

#[test]
fn rgb_struct_derives_field_by_field() {
    let def = product(
        "Color",
        FieldStyle::Named,
        vec![named_field("r", "u8", 1), named_field("g", "u8", 2), named_field("b", "u8", 3)],
    );
    let out = const_default::derive(def).unwrap();
    assert_eq!(
        out,
        "impl ::const_default::ConstDefault for Color \
         where u8: ::const_default::ConstDefault, u8: ::const_default::ConstDefault, \
         u8: ::const_default::ConstDefault \
         { fn const_default() -> Self { Self { \
         r: <u8 as ::const_default::ConstDefault>::const_default(), \
         g: <u8 as ::const_default::ConstDefault>::const_default(), \
         b: <u8 as ::const_default::ConstDefault>::const_default() } } }"
    );
}

#[test]
fn positional_struct_derives_in_slot_order() {
    let def = product(
        "Vec3",
        FieldStyle::Positional,
        vec![
            positional_field(0, "f32", 1),
            positional_field(1, "f32", 2),
            positional_field(2, "f32", 3),
        ],
    );
    let out = const_default::derive(def).unwrap();
    assert_eq!(
        out,
        "impl ::const_default::ConstDefault for Vec3 \
         where f32: ::const_default::ConstDefault, f32: ::const_default::ConstDefault, \
         f32: ::const_default::ConstDefault \
         { fn const_default() -> Self { Self(\
         <f32 as ::const_default::ConstDefault>::const_default(), \
         <f32 as ::const_default::ConstDefault>::const_default(), \
         <f32 as ::const_default::ConstDefault>::const_default()) } }"
    );
}

#[test]
fn nested_struct_field_defers_to_the_inner_type() {
    let def = product("Outer", FieldStyle::Named, vec![named_field("inner", "Inner", 1)]);
    let out = const_default::derive(def).unwrap();
    assert_eq!(
        out,
        "impl ::const_default::ConstDefault for Outer \
         where Inner: ::const_default::ConstDefault \
         { fn const_default() -> Self { Self { \
         inner: <Inner as ::const_default::ConstDefault>::const_default() } } }"
    );
}

#[test]
fn zero_field_struct_has_no_obligations() {
    let named = product("Empty", FieldStyle::Named, Vec::new());
    let generated = derive_default(named).unwrap();
    assert!(generated.constraints.is_empty());
    assert!(generated.body.is_empty());

    let named = product("Empty", FieldStyle::Named, Vec::new());
    assert_eq!(
        const_default::derive(named).unwrap(),
        "impl ::const_default::ConstDefault for Empty \
         { fn const_default() -> Self { Self {} } }"
    );
    let positional = product("Empty", FieldStyle::Positional, Vec::new());
    assert_eq!(
        const_default::derive(positional).unwrap(),
        "impl ::const_default::ConstDefault for Empty \
         { fn const_default() -> Self { Self() } }"
    );
    let unit = product("Marker", FieldStyle::Unit, Vec::new());
    assert_eq!(
        const_default::derive(unit).unwrap(),
        "impl ::const_default::ConstDefault for Marker \
         { fn const_default() -> Self { Self } }"
    );
}

#[test]
fn duplicate_field_types_give_duplicate_obligations() {
    let def = product(
        "Pair",
        FieldStyle::Named,
        vec![named_field("first", "u8", 1), named_field("second", "u8", 2)],
    );
    let generated = derive_default(def).unwrap();
    assert_eq!(generated.constraints, vec!["u8".to_string(), "u8".to_string()]);
}

#[test]
fn constraints_follow_field_declaration_order() {
    let def = product(
        "Mixed",
        FieldStyle::Named,
        vec![
            named_field("a", "u8", 1),
            named_field("b", "String", 2),
            named_field("c", "u8", 3),
        ],
    );
    let generated = derive_default(def).unwrap();
    assert_eq!(
        generated.constraints,
        vec!["u8".to_string(), "String".to_string(), "u8".to_string()]
    );
    let keys: Vec<Option<String>> = generated.body.iter().map(|init| init.key.clone()).collect();
    assert_eq!(
        keys,
        vec![Some("a".to_string()), Some("b".to_string()), Some("c".to_string())]
    );
}

#[test]
fn sum_type_is_rejected_with_no_output() {
    let def = TypeDef {
        ident: "Either".to_string(),
        generics: Vec::new(),
        where_predicates: Vec::new(),
        data: TypeData::Sum,
        span: 42,
    };
    let err = const_default::derive(def).unwrap_err();
    assert_eq!(err, DeriveError { kind: DeriveErrorKind::UnsupportedShape, span: 42 });
    assert_eq!(err.message(), "derive can only impl ConstDefault for a struct");

    let def = TypeDef {
        ident: "Either".to_string(),
        generics: Vec::new(),
        where_predicates: Vec::new(),
        data: TypeData::Sum,
        span: 42,
    };
    assert!(derive_default(def).is_err());
}

#[test]
fn rerunning_derivation_is_byte_identical() {
    let make = || {
        product(
            "Color",
            FieldStyle::Named,
            vec![named_field("r", "u8", 1), named_field("g", "u8", 2), named_field("b", "u8", 3)],
        )
    };
    let first = const_default::derive(make()).unwrap();
    let second = const_default::derive(make()).unwrap();
    assert_eq!(first.as_bytes(), second.as_bytes());
}

#[test]
fn generic_parameters_carry_through_verbatim() {
    let def = TypeDef {
        ident: "Wrapper".to_string(),
        generics: vec![GenericParam { decl: "T: Clone".to_string(), name: "T".to_string() }],
        where_predicates: vec!["T: Clone".to_string()],
        data: TypeData::Product {
            style: FieldStyle::Positional,
            fields: vec![positional_field(0, "T", 1)],
        },
        span: 0,
    };
    let out = const_default::derive(def).unwrap();
    assert_eq!(
        out,
        "impl<T: Clone> ::const_default::ConstDefault for Wrapper<T> \
         where T: Clone, T: ::const_default::ConstDefault \
         { fn const_default() -> Self { Self(\
         <T as ::const_default::ConstDefault>::const_default()) } }"
    );
}

#[test]
fn lifetime_and_const_parameters_carry_through_verbatim() {
    let def = TypeDef {
        ident: "Buf".to_string(),
        generics: vec![
            GenericParam { decl: "'a".to_string(), name: "'a".to_string() },
            GenericParam { decl: "T".to_string(), name: "T".to_string() },
            GenericParam { decl: "const N: usize".to_string(), name: "N".to_string() },
        ],
        where_predicates: Vec::new(),
        data: TypeData::Product {
            style: FieldStyle::Named,
            fields: vec![named_field("items", "[T; N]", 1)],
        },
        span: 0,
    };
    let out = const_default::derive(def).unwrap();
    assert_eq!(
        out,
        "impl<'a, T, const N: usize> ::const_default::ConstDefault for Buf<'a, T, N> \
         where [T; N]: ::const_default::ConstDefault \
         { fn const_default() -> Self { Self { \
         items: <[T; N] as ::const_default::ConstDefault>::const_default() } } }"
    );
}
