use vstd::prelude::*;
use vstd::string::*;
use crate::directive::{
    has_prefix_marker, meta_has_prefix, parse_visibility, spec_parse_visibility, vis_token, Directive,
    ErrorKind, GenError, VisView, Visibility,
};
use crate::mode::GenMode;
use crate::text::{is_raw, starts_raw, str_eq, strip_raw, unraw, views};
use crate::types::{check_type_is_copy, copy_promotable, extract_option_type, option_inner, TypeShape};

verus! {

/// A named or unnamed field of a structure, with the directives written on it.
#[derive(Debug)]
pub struct Field {
    /// The field's name as written, `r#type` for a raw one; none for a
    /// tuple field.
    pub name: Option<String>,
    pub ty: TypeShape,
    pub attrs: Vec<Directive>,
}

/// The accessor kind requested and the structure-wide directive for it.
#[derive(Debug)]
pub struct GenParams {
    pub mode: GenMode,
    pub global_attr: Option<Directive>,
}

/// What the emitted method does with the field.
#[derive(PartialEq, Eq, Copy, Clone, Debug, Structural)]
pub enum Shape {
    /// `fn name(&self) -> &T { &self.field }`
    ByRef,
    /// `fn name(&self) -> Option<&T> { self.field.as_ref() }` for an `Option<T>` field.
    OptionRef,
    /// `fn name(&self) -> T { self.field }`
    ByCopy,
    /// `fn name(&self) -> T { self.field.clone() }`
    ByClone,
    /// `fn name(&mut self, val: T) -> &mut Self { self.field = val; self }`
    Assign,
    /// `fn name(&mut self) -> &mut T { &mut self.field }`
    MutRef,
}

/// One method to emit.
#[derive(Clone, Debug)]
pub struct Method {
    /// The field's documentation lines, in order.
    pub docs: Vec<String>,
    pub visibility: Visibility,
    pub name: String,
    /// The field it reads or writes, as written.
    pub field: String,
    pub shape: Shape,
}

pub struct MethodView {
    pub docs: Seq<Seq<char>>,
    pub visibility: VisView,
    pub name: Seq<char>,
    pub field: Seq<char>,
    pub shape: Shape,
}

impl View for Method {
    type V = MethodView;

    open spec fn view(&self) -> MethodView {
        MethodView {
            docs: views(self.docs@),
            visibility: self.visibility@,
            name: self.name@,
            field: self.field@,
            shape: self.shape,
        }
    }
}

pub open spec fn result_view(r: Result<Option<Method>, GenError>) -> Result<
    Option<MethodView>,
    ErrorKind,
> {
    match r {
        Ok(Some(m)) => Ok(Some(m@)),
        Ok(None) => Ok(None),
        Err(e) => Err(e.kind()),
    }
}

/// A directive that concerns `mode`: one named after it, or `skip`.
pub open spec fn is_relevant(d: Directive, mode: GenMode) -> bool {
    d.path@ == mode.spec_name() || d.path@ == "skip"@
}

/// The last directive that concerns `mode`.
pub open spec fn last_relevant(attrs: Seq<Directive>, mode: GenMode) -> Option<Directive>
    decreases attrs.len(),
{
    if attrs.len() == 0 {
        None
    } else if is_relevant(attrs.last(), mode) {
        Some(attrs.last())
    } else {
        last_relevant(attrs.drop_last(), mode)
    }
}

/// The field's own last directive for `mode`, else the structure-wide one.
pub open spec fn resolved_attr(field: Field, params: GenParams) -> Option<Directive> {
    match last_relevant(field.attrs@, params.mode) {
        Some(d) => Some(d),
        None => params.global_attr,
    }
}

pub open spec fn is_getter_path(p: Seq<char>) -> bool {
    p == "get"@ || p == "get_copy"@ || p == "get_clone"@
}

/// The first directive that concerns `mode` and names a getter kind.
pub open spec fn first_getter_directive(attrs: Seq<Directive>, mode: GenMode) -> Option<Directive>
    decreases attrs.len(),
{
    if attrs.len() == 0 {
        None
    } else if is_relevant(attrs[0], mode) && is_getter_path(attrs[0].path@) {
        Some(attrs[0])
    } else {
        first_getter_directive(attrs.drop_first(), mode)
    }
}

/// The kinds whose names may carry the `get_` prefix: the three getters
/// that read the field without handing out a mutable reference.
pub open spec fn takes_legacy_prefix(mode: GenMode) -> bool {
    mode is Get || mode is GetCopy || mode is GetClone
}

/// For a kind that may carry it, the field's getter directive or the
/// structure-wide one asks for `get_`-prefixed names; never for the setter
/// or the mutable getter.
pub open spec fn wants_prefix(field: Field, params: GenParams) -> bool {
    takes_legacy_prefix(params.mode) && ((first_getter_directive(field.attrs@, params.mode) matches Some(
        d,
    ) && has_prefix_marker(d)) || (params.global_attr matches Some(g) && has_prefix_marker(g)))
}

/// The emitted method's name. A raw field name is kept as it is for a
/// getter without prefix and without suffix; otherwise the name is `get_`
/// (when asked for and the kind takes it), the kind's prefix, the field name
/// without its raw marker and the kind's suffix.
pub open spec fn method_name(name: Seq<char>, mode: GenMode, prefixed: bool) -> Seq<char> {
    if !prefixed && mode.spec_is_get() && mode.spec_suffix().len() == 0 && is_raw(name) {
        name
    } else {
        (if prefixed && takes_legacy_prefix(mode) {
            "get_"@
        } else {
            ""@
        }) + mode.spec_prefix() + unraw(name) + mode.spec_suffix()
    }
}

/// The kind in effect: a plain getter of a copy type, or of an option of
/// one, returns a copy.
pub open spec fn effective_mode(mode: GenMode, ty: TypeShape) -> GenMode {
    if mode is Get && copy_promotable(ty) {
        GenMode::GetCopy
    } else {
        mode
    }
}

pub open spec fn shape_for(mode: GenMode, ty: TypeShape) -> Shape {
    match effective_mode(mode, ty) {
        GenMode::Get => if option_inner(ty) is Some {
            Shape::OptionRef
        } else {
            Shape::ByRef
        },
        GenMode::GetCopy => Shape::ByCopy,
        GenMode::GetClone => Shape::ByClone,
        GenMode::Setter => Shape::Assign,
        GenMode::GetMut => Shape::MutRef,
    }
}

/// Accessors are public unless a directive names another visibility.
pub open spec fn resolve_default(v: Option<VisView>) -> VisView {
    match v {
        None => VisView::Public,
        Some(VisView::Inherited) => VisView::Public,
        Some(x) => x,
    }
}

/// The values of the `doc` directives, in order.
pub open spec fn doc_lines(attrs: Seq<Directive>) -> Seq<Seq<char>>
    decreases attrs.len(),
{
    if attrs.len() == 0 {
        Seq::empty()
    } else {
        let r = doc_lines(attrs.drop_last());
        let d = attrs.last();
        if d.path@ == "doc"@ && d.value is Some {
            r.push(d.value->0@)
        } else {
            r
        }
    }
}

/// The decision for one field and one accessor kind.
pub open spec fn spec_implement(field: Field, params: GenParams) -> Result<
    Option<MethodView>,
    ErrorKind,
> {
    match field.name {
        None => Err(ErrorKind::MissingName),
        Some(n) => {
            let attr = resolved_attr(field, params);
            match spec_parse_visibility(attr, params.mode.spec_name()) {
                Err(e) => Err(e),
                Ok(v) => match attr {
                    None => Ok(None),
                    Some(d) => if d.path@ == "skip"@ {
                        Ok(None)
                    } else {
                        Ok(
                            Some(
                                MethodView {
                                    docs: doc_lines(field.attrs@),
                                    visibility: resolve_default(v),
                                    name: method_name(n@, params.mode, wants_prefix(field, params)),
                                    field: n@,
                                    shape: shape_for(params.mode, field.ty),
                                },
                            ),
                        )
                    },
                },
            }
        },
    }
}

fn relevant(d: &Directive, mode: GenMode) -> (r: bool)
    ensures
        r == is_relevant(*d, mode),
{
    str_eq(d.path.as_str(), mode.name()) || str_eq(d.path.as_str(), "skip")
}

fn last_relevant_attr(attrs: &Vec<Directive>, mode: GenMode) -> (r: Option<&Directive>)
    ensures
        match r {
            Some(d) => last_relevant(attrs@, mode) == Some(*d),
            None => last_relevant(attrs@, mode) is None,
        },
{
    let mut found: Option<&Directive> = None;
    let mut i: usize = 0;
    while i < attrs.len()
        invariant
            i <= attrs.len(),
            match found {
                Some(d) => last_relevant(attrs@.subrange(0, i as int), mode) == Some(*d),
                None => last_relevant(attrs@.subrange(0, i as int), mode) is None,
            },
        decreases attrs.len() - i,
    {
        assert(attrs@.subrange(0, i + 1).drop_last() =~= attrs@.subrange(0, i as int));
        if relevant(&attrs[i], mode) {
            found = Some(&attrs[i]);
        }
        i = i + 1;
    }
    assert(attrs@.subrange(0, attrs.len() as int) =~= attrs@);
    found
}

fn first_getter_attr(attrs: &Vec<Directive>, mode: GenMode) -> (r: Option<&Directive>)
    ensures
        match r {
            Some(d) => first_getter_directive(attrs@, mode) == Some(*d),
            None => first_getter_directive(attrs@, mode) is None,
        },
{
    let mut i: usize = 0;
    assert(attrs@.subrange(0, attrs.len() as int) =~= attrs@);
    while i < attrs.len()
        invariant
            i <= attrs.len(),
            first_getter_directive(attrs@, mode) == first_getter_directive(
                attrs@.subrange(i as int, attrs.len() as int),
                mode,
            ),
        decreases attrs.len() - i,
    {
        let ghost rest = attrs@.subrange(i as int, attrs.len() as int);
        assert(rest.drop_first() =~= attrs@.subrange(i + 1, attrs.len() as int));
        let d = &attrs[i];
        if relevant(d, mode) && (str_eq(d.path.as_str(), "get") || str_eq(d.path.as_str(), "get_copy")
            || str_eq(d.path.as_str(), "get_clone")) {
            return Some(d);
        }
        i = i + 1;
    }
    None
}

fn prefixable(mode: GenMode) -> (r: bool)
    ensures
        r == takes_legacy_prefix(mode),
{
    match mode {
        GenMode::Get | GenMode::GetCopy | GenMode::GetClone => true,
        GenMode::Setter | GenMode::GetMut => false,
    }
}

/// Whether the field's getter directive, or the structure-wide directive,
/// asks for `get_`-prefixed names; always false for the setter and the
/// mutable getter.
pub fn has_prefix_attr(f: &Field, params: &GenParams) -> (r: bool)
    ensures
        r == wants_prefix(*f, *params),
{
    if !prefixable(params.mode) {
        return false;
    }
    let field_attr_has_prefix = match first_getter_attr(&f.attrs, params.mode) {
        Some(d) => meta_has_prefix(d),
        None => false,
    };
    let global_attr_has_prefix = match &params.global_attr {
        Some(g) => meta_has_prefix(g),
        None => false,
    };
    field_attr_has_prefix || global_attr_has_prefix
}

fn doc_attrs(attrs: &Vec<Directive>) -> (r: Vec<String>)
    ensures
        views(r@) == doc_lines(attrs@),
{
    let mut out: Vec<String> = Vec::new();
    let mut i: usize = 0;
    while i < attrs.len()
        invariant
            i <= attrs.len(),
            views(out@) == doc_lines(attrs@.subrange(0, i as int)),
        decreases attrs.len() - i,
    {
        assert(attrs@.subrange(0, i + 1).drop_last() =~= attrs@.subrange(0, i as int));
        let d = &attrs[i];
        if str_eq(d.path.as_str(), "doc") {
            match &d.value {
                Some(v) => {
                    let ghost before = out@;
                    out.push(v.clone());
                    assert(views(out@) =~= views(before).push(v@));
                },
                None => {},
            }
        }
        i = i + 1;
    }
    assert(attrs@.subrange(0, attrs.len() as int) =~= attrs@);
    out
}

fn build_name(name: &str, mode: GenMode, prefixed: bool) -> (r: String)
    ensures
        r@ == method_name(name@, mode, prefixed),
{
    if !prefixed && mode.is_get() && mode.suffix().unicode_len() == 0 && starts_raw(name) {
        String::from_str(name)
    } else {
        let lead = if prefixed && prefixable(mode) {
            "get_"
        } else {
            ""
        };
        String::from_str(lead).concat(mode.prefix()).concat(strip_raw(name)).concat(mode.suffix())
    }
}

fn shape_of(mode: GenMode, ty: &TypeShape) -> (r: Shape)
    ensures
        r == shape_for(mode, *ty),
{
    let mut mode = mode;
    if mode == GenMode::Get && (check_type_is_copy(ty) || match extract_option_type(ty) {
        Some(inner) => check_type_is_copy(inner),
        None => false,
    }) {
        mode = GenMode::GetCopy;
    }
    match mode {
        GenMode::Get => if extract_option_type(ty).is_some() {
            Shape::OptionRef
        } else {
            Shape::ByRef
        },
        GenMode::GetCopy => Shape::ByCopy,
        GenMode::GetClone => Shape::ByClone,
        GenMode::Setter => Shape::Assign,
        GenMode::GetMut => Shape::MutRef,
    }
}

/// Decides the accessor of kind `params.mode` for `field`: none when no
/// directive of the field or of the structure requests it or when the
/// resolved directive is `skip`; an error for an unnamed field or a
/// visibility token that is not a visibility.
pub fn implement(field: &Field, params: &GenParams) -> (r: Result<Option<Method>, GenError>)
    ensures
        result_view(r) == spec_implement(*field, *params),
        ({
            let t = vis_token(resolved_attr(*field, *params), params.mode.spec_name());
            field.name is Some && (t is None || t == Some("pub"@) || t == Some(""@)) ==> (r is Ok
                && (r matches Ok(Some(m)) ==> m.visibility@ == VisView::Public))
        }),
{
    let field_name = match &field.name {
        Some(n) => n,
        None => return Err(GenError::MissingName),
    };
    let prefixed = has_prefix_attr(field, params);
    let fn_name = build_name(field_name.as_str(), params.mode, prefixed);
    let shape = shape_of(params.mode, &field.ty);
    let docs = doc_attrs(&field.attrs);
    let attr: Option<&Directive> = match last_relevant_attr(&field.attrs, params.mode) {
        Some(d) => Some(d),
        None => match &params.global_attr {
            Some(g) => Some(g),
            None => None,
        },
    };
    let visibility = match parse_visibility(attr, params.mode.name()) {
        Ok(v) => v,
        Err(e) => return Err(e),
    };
    let visibility = match visibility {
        None => Visibility::Public,
        Some(Visibility::Inherited) => Visibility::Public,
        Some(v) => v,
    };
    match attr {
        Some(meta) => if str_eq(meta.path.as_str(), "skip") {
            Ok(None)
        } else {
            Ok(
                Some(
                    Method {
                        docs,
                        visibility,
                        name: fn_name,
                        field: field_name.clone(),
                        shape,
                    },
                ),
            )
        },
        None => Ok(None),
    }
}

} // verus!
