use vstd::prelude::*;
use crate::text::str_eq;

verus! {

/// What the accessor rules read of a field's declared type.
#[derive(Debug)]
pub enum TypeShape {
    /// A path such as `u32` or `std::option::Option<T>`: the identifier of its
    /// last segment (none for an empty path) and the first type argument given
    /// to that segment in angle brackets, if any.
    Path { last_ident: Option<String>, first_type_arg: Option<Box<TypeShape>> },
    /// `[T; N]`
    Array(Box<TypeShape>),
    /// `()`, also the end of a tuple's chain of elements.
    EmptyTuple,
    /// A tuple of at least one element: its first element, and the tuple of
    /// the others (`(A, B)` is `Tuple(A, Tuple(B, EmptyTuple))`).
    Tuple { first: Box<TypeShape>, rest: Box<TypeShape> },
    /// An invisible group around a type.
    Group(Box<TypeShape>),
    /// `(T)`
    Paren(Box<TypeShape>),
    /// A function pointer `fn(..) -> ..`.
    BareFn,
    /// Any other type: references, trait objects, slices, macros.
    Other,
}

/// The fixed table of type names that are copied rather than borrowed.
pub open spec fn is_copy_name(s: Seq<char>) -> bool {
    s == "i8"@ || s == "i16"@ || s == "i32"@ || s == "i64"@ || s == "i128"@
        || s == "u8"@ || s == "u16"@ || s == "u32"@ || s == "u64"@ || s == "u128"@
        || s == "isize"@ || s == "usize"@ || s == "f32"@ || s == "f64"@
        || s == "bool"@ || s == "char"@
}

/// A type built only of table scalars, arrays and tuples of them, groups and
/// parentheses around them, and function pointers.
pub open spec fn is_copy_type(t: TypeShape) -> bool
    decreases t,
{
    match t {
        TypeShape::Path { last_ident, .. } => match last_ident {
            Some(id) => is_copy_name(id@),
            None => false,
        },
        TypeShape::Array(e) => is_copy_type(*e),
        TypeShape::EmptyTuple => true,
        TypeShape::Tuple { first, rest } => is_copy_type(*first) && is_copy_type(*rest),
        TypeShape::Group(e) => is_copy_type(*e),
        TypeShape::Paren(e) => is_copy_type(*e),
        TypeShape::BareFn => true,
        TypeShape::Other => false,
    }
}

/// The type wrapped by `Option<..>`, when `t` is written that way.
pub open spec fn option_inner(t: TypeShape) -> Option<TypeShape> {
    match t {
        TypeShape::Path { last_ident, first_type_arg } => {
            if last_ident is Some && last_ident->0@ == "Option"@ && first_type_arg is Some {
                Some(*first_type_arg->0)
            } else {
                None
            }
        },
        _ => None,
    }
}

/// A type whose plain getter returns a copy: a copy type, or an option of one.
pub open spec fn copy_promotable(t: TypeShape) -> bool {
    is_copy_type(t) || (option_inner(t) matches Some(inner) && is_copy_type(inner))
}

pub fn is_copy_ident(ident: &str) -> (r: bool)
    ensures
        r == is_copy_name(ident@),
{
    str_eq(ident, "i8") || str_eq(ident, "i16") || str_eq(ident, "i32") || str_eq(ident, "i64")
        || str_eq(ident, "i128") || str_eq(ident, "u8") || str_eq(ident, "u16") || str_eq(
        ident,
        "u32",
    ) || str_eq(ident, "u64") || str_eq(ident, "u128") || str_eq(ident, "isize") || str_eq(
        ident,
        "usize",
    ) || str_eq(ident, "f32") || str_eq(ident, "f64") || str_eq(ident, "bool") || str_eq(
        ident,
        "char",
    )
}

pub fn check_type_is_copy(ty: &TypeShape) -> (r: bool)
    ensures
        r == is_copy_type(*ty),
    decreases ty,
{
    match ty {
        TypeShape::Path { last_ident, .. } => match last_ident {
            Some(id) => {
                let r = is_copy_ident(id.as_str());
                assert(is_copy_type(*ty) == is_copy_name(id@));
                r
            },
            None => false,
        },
        TypeShape::Array(e) => check_type_is_copy(e),
        TypeShape::EmptyTuple => true,
        TypeShape::Tuple { first, rest } => check_type_is_copy(first) && check_type_is_copy(rest),
        TypeShape::Group(e) => check_type_is_copy(e),
        TypeShape::Paren(e) => check_type_is_copy(e),
        TypeShape::BareFn => true,
        TypeShape::Other => false,
    }
}

pub fn extract_option_type(ty: &TypeShape) -> (r: Option<&TypeShape>)
    ensures
        match r {
            Some(inner) => option_inner(*ty) == Some(*inner),
            None => option_inner(*ty) is None,
        },
{
    match ty {
        TypeShape::Path { last_ident: Some(id), first_type_arg: Some(arg) } => {
            if str_eq(id.as_str(), "Option") {
                Some(&**arg)
            } else {
                None
            }
        },
        _ => None,
    }
}

} // verus!
