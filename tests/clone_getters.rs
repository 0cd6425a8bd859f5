use getset_core::directive::Directive;
use getset_core::generate::{implement, Field, GenParams, Method, Shape};
use getset_core::instance::{invoke, Record};
use getset_core::mode::GenMode;
use getset_core::types::TypeShape;

fn named(ident: &str) -> TypeShape {
    TypeShape::Path { last_ident: Some(ident.to_string()), first_type_arg: None }
}

fn doc(line: &str) -> Directive {
    Directive { path: "doc".to_string(), value: Some(line.to_string()) }
}

fn get_clone(value: &str) -> Directive {
    Directive { path: "get_clone".to_string(), value: Some(value.to_string()) }
}

fn field(name: &str, ty: TypeShape, attrs: Vec<Directive>) -> Field {
    Field { name: Some(name.to_string()), ty, attrs }
}

/// The fields of a structure marked `#[get_clone]` as a whole, whose fields
/// are all of type `ty`.
fn clone_getter_fields(ty: &str, with_prefixed: bool) -> Vec<Field> {
    let mut fields = vec![
        field(
            "private_accessible",
            named(ty),
            vec![doc(" A doc comment."), doc(" Multiple lines, even.")],
        ),
        field("public_accessible", named(ty), vec![doc(" A doc comment."), get_clone("pub")]),
    ];
    if with_prefixed {
        fields.push(field("private_prefixed", named(ty), vec![get_clone("with_prefix")]));
        fields.push(field("public_prefixed", named(ty), vec![get_clone("pub with_prefix")]));
    }
    fields
}

fn struct_wide_get_clone() -> GenParams {
    GenParams {
        mode: GenMode::GetClone,
        global_attr: Some(Directive { path: "get_clone".to_string(), value: None }),
    }
}

fn method_named(fields: &[Field], params: &GenParams, name: &str) -> Method {
    for f in fields {
        if let Some(m) = implement(f, params).unwrap() {
            if m.name == name {
                return m;
            }
        }
    }
    panic!("no method {}", name)
}

fn plain_default() -> Record {
    Record {
        fields: vec![
            ("private_accessible".to_string(), 17),
            ("public_accessible".to_string(), 18),
            ("private_prefixed".to_string(), 19),
            ("public_prefixed".to_string(), 20),
        ],
    }
}

fn generic_default() -> Record {
    Record {
        fields: vec![
            ("private_accessible".to_string(), usize::default() as u64),
            ("public_accessible".to_string(), usize::default() as u64),
        ],
    }
}

fn call(m: &Method, val: &mut Record) -> u64 {
    invoke(m, val, 0).unwrap()
}

#[test]
fn test_plain() {
    let mut val = plain_default();
    let m = method_named(&clone_getter_fields("usize", true), &struct_wide_get_clone(), "private_accessible");
    call(&m, &mut val);
}

#[test]
fn test_generic() {
    let mut val = generic_default();
    let m = method_named(&clone_getter_fields("T", false), &struct_wide_get_clone(), "private_accessible");
    call(&m, &mut val);
}

#[test]
fn test_where() {
    let mut val = generic_default();
    let m = method_named(&clone_getter_fields("T", false), &struct_wide_get_clone(), "private_accessible");
    call(&m, &mut val);
}

#[test]
fn clone_getters_test_plain() {
    let mut val = plain_default();
    let m = method_named(&clone_getter_fields("usize", true), &struct_wide_get_clone(), "public_accessible");
    assert_eq!(18, call(&m, &mut val));
}

#[test]
fn clone_getters_test_generic() {
    let mut val = generic_default();
    let m = method_named(&clone_getter_fields("T", false), &struct_wide_get_clone(), "public_accessible");
    assert_eq!(usize::default() as u64, call(&m, &mut val));
}

#[test]
fn clone_getters_test_where() {
    let mut val = generic_default();
    let m = method_named(&clone_getter_fields("T", false), &struct_wide_get_clone(), "public_accessible");
    assert_eq!(usize::default() as u64, call(&m, &mut val));
}

#[test]
fn clone_getters_keep_docs_and_shape() {
    let fields = clone_getter_fields("usize", true);
    let m = method_named(&fields, &struct_wide_get_clone(), "private_accessible");
    assert_eq!(m.docs, vec![" A doc comment.".to_string(), " Multiple lines, even.".to_string()]);
    assert_eq!(m.shape, Shape::ByClone);
    assert_eq!(m.field, "private_accessible");
}

#[test]
fn clone_getters_prefixed_names() {
    let fields = clone_getter_fields("usize", true);
    let params = struct_wide_get_clone();
    let mut val = plain_default();
    let m = method_named(&fields, &params, "get_private_prefixed");
    assert_eq!(19, call(&m, &mut val));
    let m = method_named(&fields, &params, "get_public_prefixed");
    assert_eq!(20, call(&m, &mut val));
}
