use vstd::prelude::*;
use crate::directive::{vis_token, ErrorKind, VisView};
use crate::generate::{
    last_relevant, resolved_attr, spec_implement, Field, GenParams, MethodView, Shape,
};
use crate::instance::{apply, lemma_first_slot, lemma_slot_of_first, slot_of};
use crate::mode::GenMode;
use crate::types::{is_copy_type, option_inner};

verus! {

proof fn lemma_skip_is_no_kind(mode: GenMode)
    ensures
        "skip"@ != mode.spec_name(),
{
    reveal_strlit("skip");
    reveal_strlit("get");
    reveal_strlit("get_copy");
    reveal_strlit("get_clone");
    reveal_strlit("set");
    reveal_strlit("get_mut");
    assert("skip"@.len() != mode.spec_name().len());
}

proof fn lemma_last_relevant_without_kind(attrs: Seq<crate::directive::Directive>, mode: GenMode)
    requires
        forall|i: int| 0 <= i < attrs.len() ==> #[trigger] attrs[i].path@ != mode.spec_name(),
    ensures
        last_relevant(attrs, mode) matches Some(d) ==> d.path@ == "skip"@,
    decreases attrs.len(),
{
    if attrs.len() > 0 {
        assert(attrs.last() == attrs[attrs.len() - 1]);
        lemma_last_relevant_without_kind(attrs.drop_last(), mode);
    }
}

/// A named field that resolves to a `skip` directive gets no method, whatever
/// the kind and whatever else the directives say.
pub proof fn lemma_skip_emits_nothing(field: Field, params: GenParams)
    requires
        field.name is Some,
        resolved_attr(field, params) matches Some(d) && d.path@ == "skip"@,
    ensures
        spec_implement(field, params) == Ok::<Option<MethodView>, ErrorKind>(None),
{
    lemma_skip_is_no_kind(params.mode);
}

/// A named field with no directive for the kind, in a structure with no
/// structure-wide directive, gets no method.
pub proof fn lemma_no_directive_emits_nothing(field: Field, params: GenParams)
    requires
        field.name is Some,
        forall|i: int|
            0 <= i < field.attrs.len() ==> #[trigger] field.attrs@[i].path@
                != params.mode.spec_name(),
        params.global_attr is None,
    ensures
        spec_implement(field, params) == Ok::<Option<MethodView>, ErrorKind>(None),
{
    lemma_last_relevant_without_kind(field.attrs@, params.mode);
    if resolved_attr(field, params) is Some {
        lemma_skip_emits_nothing(field, params);
    }
}

/// A plain getter for a field of a copy type returns the field by value.
pub proof fn lemma_copy_type_getter_copies(field: Field, params: GenParams)
    requires
        params.mode is Get,
        is_copy_type(field.ty),
    ensures
        spec_implement(field, params) matches Ok(Some(m)) ==> m.shape == Shape::ByCopy,
{
}

/// A plain getter for an `Option` of a copy type, under directives that name
/// no visibility, returns the option by value and is public.
pub proof fn lemma_optional_copy_getter(field: Field, params: GenParams)
    requires
        params.mode is Get,
        option_inner(field.ty) matches Some(inner) && is_copy_type(inner),
        vis_token(resolved_attr(field, params), params.mode.spec_name()) is None,
    ensures
        spec_implement(field, params) matches Ok(Some(m)) ==> m.shape == Shape::ByCopy
            && m.visibility == VisView::Public,
{
}

/// A method that returns the field by copy or by clone leaves the record as
/// it was, and a second call returns what the first returned.
pub proof fn lemma_copy_getter_idempotent(
    field: Field,
    params: GenParams,
    r: Seq<(Seq<char>, u64)>,
    a: u64,
    b: u64,
)
    requires
        spec_implement(field, params) matches Ok(Some(m)) && (m.shape == Shape::ByCopy
            || m.shape == Shape::ByClone),
    ensures
        ({
            let m = spec_implement(field, params)->Ok_0->Some_0;
            let first = apply(m, r, a);
            &&first.0 == r && apply(m, first.0, b).1 == first.1
        }),
{
}

/// After a field's setter stores `v`, any getter of the same field returns
/// `v`.
pub proof fn lemma_set_then_get(
    field: Field,
    set_params: GenParams,
    get_params: GenParams,
    r: Seq<(Seq<char>, u64)>,
    v: u64,
    w: u64,
)
    requires
        set_params.mode is Setter,
        get_params.mode.spec_is_get(),
        spec_implement(field, set_params) is Ok,
        spec_implement(field, set_params)->Ok_0 is Some,
        spec_implement(field, get_params) is Ok,
        spec_implement(field, get_params)->Ok_0 is Some,
        slot_of(r, field.name->0@) is Some,
    ensures
        ({
            let ms = spec_implement(field, set_params)->Ok_0->Some_0;
            let mg = spec_implement(field, get_params)->Ok_0->Some_0;
            apply(mg, apply(ms, r, v).0, w).1 == Some(v)
        }),
{
    let ms = spec_implement(field, set_params)->Ok_0->Some_0;
    let mg = spec_implement(field, get_params)->Ok_0->Some_0;
    assert(ms.field == field.name->0@ && ms.shape == Shape::Assign);
    assert(mg.field == field.name->0@ && mg.shape != Shape::Assign);
    lemma_apply_set_get(ms, mg, r, v, w);
}

proof fn lemma_apply_set_get(
    ms: MethodView,
    mg: MethodView,
    r: Seq<(Seq<char>, u64)>,
    v: u64,
    w: u64,
)
    requires
        ms.shape == Shape::Assign,
        mg.shape != Shape::Assign,
        ms.field == mg.field,
        slot_of(r, ms.field) is Some,
    ensures
        apply(mg, apply(ms, r, v).0, w).1 == Some(v),
{
    let name = ms.field;
    let i = slot_of(r, name)->0;
    lemma_slot_of_first(r, name);
    assert(0 <= i < r.len() && r[i].0 == name && forall|j: int| 0 <= j < i ==> r[j].0 != name);
    let r2 = r.update(i, (name, v));
    assert(r2[i].0 == name);
    assert forall|j: int| 0 <= j < i implies r2[j].0 != name by {
        assert(r2[j] == r[j]);
    }
    lemma_first_slot(r2, name, i);
}

} // verus!
