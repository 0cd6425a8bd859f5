use getset_core::directive::{parse_visibility, Directive, GenError, Visibility};
use getset_core::generate::{has_prefix_attr, implement, Field, GenParams, Method, Shape};
use getset_core::instance::{invoke, Record};
use getset_core::mode::GenMode;
use getset_core::text::split_spaces;
use getset_core::types::{check_type_is_copy, TypeShape};

fn named(ident: &str) -> TypeShape {
    TypeShape::Path { last_ident: Some(ident.to_string()), first_type_arg: None }
}

fn option_of(inner: TypeShape) -> TypeShape {
    TypeShape::Path { last_ident: Some("Option".to_string()), first_type_arg: Some(Box::new(inner)) }
}

fn directive(path: &str, value: Option<&str>) -> Directive {
    Directive { path: path.to_string(), value: value.map(|v| v.to_string()) }
}

fn field(name: &str, ty: TypeShape, attrs: Vec<Directive>) -> Field {
    Field { name: Some(name.to_string()), ty, attrs }
}

fn params(mode: GenMode, global: Option<Directive>) -> GenParams {
    GenParams { mode, global_attr: global }
}

fn emitted(f: &Field, p: &GenParams) -> Method {
    implement(f, p).unwrap().expect("a method")
}

#[test]
fn mode_names_prefixes_suffixes() {
    assert_eq!(GenMode::Get.name(), "get");
    assert_eq!(GenMode::GetCopy.name(), "get_copy");
    assert_eq!(GenMode::GetClone.name(), "get_clone");
    assert_eq!(GenMode::Setter.name(), "set");
    assert_eq!(GenMode::GetMut.name(), "get_mut");
    assert_eq!(GenMode::Setter.prefix(), "set_");
    assert_eq!(GenMode::Get.prefix(), "");
    assert_eq!(GenMode::GetMut.suffix(), "_mut");
    assert_eq!(GenMode::GetClone.suffix(), "");
    assert!(GenMode::GetMut.is_get());
    assert!(!GenMode::Setter.is_get());
}

#[test]
fn no_directive_gives_nothing() {
    let f = field("x", named("u32"), vec![directive("set", Some("pub"))]);
    assert!(implement(&f, &params(GenMode::Get, None)).unwrap().is_none());
}

#[test]
fn skip_gives_nothing() {
    let f = field("x", named("u32"), vec![directive("get", Some("pub")), directive("skip", None)]);
    let global = directive("get", Some("pub with_prefix"));
    assert!(implement(&f, &params(GenMode::Get, Some(global))).unwrap().is_none());
    let g = field("y", named("u32"), vec![]);
    assert!(implement(&g, &params(GenMode::Setter, Some(directive("skip", None)))).unwrap().is_none());
}

#[test]
fn copy_getter_is_idempotent() {
    let f = field("count", named("u32"), vec![directive("get_copy", None)]);
    let m = emitted(&f, &params(GenMode::GetCopy, None));
    assert_eq!(m.shape, Shape::ByCopy);
    let mut rec = Record { fields: vec![("count".to_string(), 7)] };
    let first = invoke(&m, &mut rec, 1);
    let second = invoke(&m, &mut rec, 2);
    assert_eq!(first, Some(7));
    assert_eq!(first, second);
    assert_eq!(rec.fields, vec![("count".to_string(), 7)]);
}

#[test]
fn set_then_get_round_trip() {
    let f = field("count", named("u32"), vec![directive("set", None), directive("get", None)]);
    let setter = emitted(&f, &params(GenMode::Setter, None));
    let getter = emitted(&f, &params(GenMode::Get, None));
    assert_eq!(setter.name, "set_count");
    assert_eq!(setter.shape, Shape::Assign);
    let mut rec = Record { fields: vec![("other".to_string(), 1), ("count".to_string(), 2)] };
    assert_eq!(invoke(&setter, &mut rec, 99), None);
    assert_eq!(invoke(&getter, &mut rec, 0), Some(99));
    assert_eq!(rec.fields[0], ("other".to_string(), 1));
}

#[test]
fn scalar_getter_promotes_to_copy() {
    let f = field("n", named("u32"), vec![directive("get", None)]);
    let m = emitted(&f, &params(GenMode::Get, None));
    assert_eq!(m.shape, Shape::ByCopy);
    assert_eq!(m.name, "n");
    let s = field("s", named("String"), vec![directive("get", None)]);
    assert_eq!(emitted(&s, &params(GenMode::Get, None)).shape, Shape::ByRef);
}

#[test]
fn optional_scalar_getter_copies_and_is_public() {
    let f = field("maybe", option_of(named("u32")), vec![directive("get", None)]);
    let m = emitted(&f, &params(GenMode::Get, None));
    assert_eq!(m.shape, Shape::ByCopy);
    assert!(matches!(m.visibility, Visibility::Public));
    let g = field("text", option_of(named("String")), vec![directive("get", None)]);
    assert_eq!(emitted(&g, &params(GenMode::Get, None)).shape, Shape::OptionRef);
}

#[test]
fn legacy_prefix_names_the_getter() {
    let f = field("accessible", named("String"), vec![directive("get", Some("with_prefix"))]);
    let m = emitted(&f, &params(GenMode::Get, None));
    assert_eq!(m.name, "get_accessible");
    assert!(matches!(m.visibility, Visibility::Public));
    assert!(has_prefix_attr(&f, &params(GenMode::Get, None)));
}

#[test]
fn raw_identifier_keeps_its_name() {
    let f = field("r#type", named("String"), vec![directive("get", None)]);
    let m = emitted(&f, &params(GenMode::Get, None));
    assert_eq!(m.name, "r#type");
    assert_eq!(m.field, "r#type");
    let s = field("r#type", named("String"), vec![directive("set", None)]);
    assert_eq!(emitted(&s, &params(GenMode::Setter, None)).name, "set_type");
    let p = field("r#type", named("String"), vec![directive("get", Some("with_prefix"))]);
    assert_eq!(emitted(&p, &params(GenMode::Get, None)).name, "get_type");
}

#[test]
fn last_directive_wins() {
    let f = field("x", named("String"), vec![directive("get", None), directive("get", Some("pub"))]);
    assert!(matches!(emitted(&f, &params(GenMode::Get, None)).visibility, Visibility::Public));
    let g = field("x", named("String"), vec![directive("get", Some("pub")), directive("get", Some("pub(crate)"))]);
    match emitted(&g, &params(GenMode::Get, None)).visibility {
        Visibility::Restricted(t) => assert_eq!(t, "pub(crate)"),
        other => panic!("unexpected {:?}", other),
    }
}

#[test]
fn field_directive_overrides_struct_directive() {
    let global = directive("get", Some("pub(crate)"));
    let f = field("x", named("String"), vec![directive("get", Some("pub"))]);
    assert!(matches!(emitted(&f, &params(GenMode::Get, Some(global.clone()))).visibility, Visibility::Public));
    let g = field("x", named("String"), vec![]);
    assert!(matches!(emitted(&g, &params(GenMode::Get, Some(global))).visibility, Visibility::Restricted(_)));
}

#[test]
fn mutable_getter_names() {
    let f = field("buf", named("Vec"), vec![directive("get_mut", None)]);
    let m = emitted(&f, &params(GenMode::GetMut, None));
    assert_eq!(m.name, "buf_mut");
    assert_eq!(m.shape, Shape::MutRef);
    let global = directive("get_mut", Some("with_prefix"));
    let g = field("buf", named("Vec"), vec![]);
    assert_eq!(emitted(&g, &params(GenMode::GetMut, Some(global.clone()))).name, "buf_mut");
    assert!(!has_prefix_attr(&g, &params(GenMode::GetMut, Some(global))));
}

#[test]
fn setter_ignores_prefix_marker() {
    let f = field("x", named("u8"), vec![directive("set", Some("pub with_prefix"))]);
    assert_eq!(emitted(&f, &params(GenMode::Setter, None)).name, "set_x");
    let global = directive("set", Some("with_prefix"));
    let g = field("x", named("u8"), vec![]);
    assert!(!has_prefix_attr(&g, &params(GenMode::Setter, Some(global.clone()))));
    assert_eq!(emitted(&g, &params(GenMode::Setter, Some(global))).name, "set_x");
}

#[test]
fn struct_wide_prefix_for_copy_getter() {
    let global = directive("get_copy", Some("with_prefix"));
    let g = field("x", named("u8"), vec![]);
    assert!(has_prefix_attr(&g, &params(GenMode::GetCopy, Some(global.clone()))));
    assert_eq!(emitted(&g, &params(GenMode::GetCopy, Some(global))).name, "get_x");
}

#[test]
fn type_named_copy_is_not_promoted() {
    assert!(!check_type_is_copy(&named("Copy")));
    let f = field("c", named("Copy"), vec![directive("get", None)]);
    assert_eq!(emitted(&f, &params(GenMode::Get, None)).shape, Shape::ByRef);
}

#[test]
fn unnamed_field_is_an_error() {
    let f = Field { name: None, ty: named("u8"), attrs: vec![directive("get", None)] };
    assert!(matches!(implement(&f, &params(GenMode::Get, None)), Err(GenError::MissingName)));
}

#[test]
fn bad_visibility_is_an_error() {
    let f = field("x", named("u8"), vec![directive("get", Some("nonsense"))]);
    assert!(matches!(implement(&f, &params(GenMode::Get, None)), Err(GenError::InvalidVisibility(_))));
}

#[test]
fn visibility_parsing() {
    let d = directive("get", Some("with_prefix pub(super)"));
    match parse_visibility(Some(&d), "get").unwrap() {
        Some(Visibility::Restricted(t)) => assert_eq!(t, "pub(super)"),
        other => panic!("unexpected {:?}", other),
    }
    assert!(matches!(parse_visibility(Some(&d), "set").unwrap(), None));
    let crate_only = directive("get", Some("pub(crate) with_prefix"));
    match parse_visibility(Some(&crate_only), "get").unwrap() {
        Some(Visibility::Restricted(t)) => assert_eq!(t, "pub(crate)"),
        other => panic!("unexpected {:?}", other),
    }
    let empty = directive("get", Some(""));
    assert!(matches!(parse_visibility(Some(&empty), "get").unwrap(), Some(Visibility::Inherited)));
    let only_marker = directive("get", Some("with_prefix"));
    assert!(matches!(parse_visibility(Some(&only_marker), "get").unwrap(), None));
    assert!(matches!(parse_visibility(None, "get").unwrap(), None));
}

#[test]
fn copy_table_and_shapes() {
    let tuple = TypeShape::Tuple {
        first: Box::new(named("u8")),
        rest: Box::new(TypeShape::Tuple {
            first: Box::new(TypeShape::Array(Box::new(named("i32")))),
            rest: Box::new(TypeShape::EmptyTuple),
        }),
    };
    assert!(check_type_is_copy(&tuple));
    assert!(check_type_is_copy(&TypeShape::BareFn));
    assert!(check_type_is_copy(&TypeShape::Paren(Box::new(named("char")))));
    assert!(!check_type_is_copy(&named("String")));
    assert!(!check_type_is_copy(&TypeShape::Other));
    assert!(!check_type_is_copy(&TypeShape::Path { last_ident: None, first_type_arg: None }));
    let mixed = TypeShape::Tuple { first: Box::new(named("u8")), rest: Box::new(TypeShape::Tuple {
        first: Box::new(named("String")),
        rest: Box::new(TypeShape::EmptyTuple),
    }) };
    assert!(!check_type_is_copy(&mixed));
}

#[test]
fn splitting_on_spaces() {
    assert_eq!(split_spaces("pub with_prefix"), vec!["pub".to_string(), "with_prefix".to_string()]);
    assert_eq!(split_spaces(""), vec!["".to_string()]);
    assert_eq!(split_spaces("a  b"), vec!["a".to_string(), "".to_string(), "b".to_string()]);
}
