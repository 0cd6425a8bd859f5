use vstd::prelude::*;
use crate::text::{first_other, pieces, split_spaces, str_eq, views};

verus! {

/// One directive attached to a field or to a structure: its path (`get`,
/// `set`, `skip`, `doc`, ...) and, when it is written `path = "..."`, the
/// text of its string value.
#[derive(Clone, Debug)]
pub struct Directive {
    pub path: String,
    pub value: Option<String>,
}

/// The token that asks for `get_`-prefixed getter names.
pub open spec fn prefix_marker() -> Seq<char> {
    "with_prefix"@
}

/// Whether a directive's value lists the prefix marker among its tokens.
pub open spec fn has_prefix_marker(d: Directive) -> bool {
    d.value is Some && pieces(d.value->0@).contains(prefix_marker())
}

/// The kind of visibility that a text denotes.
#[derive(PartialEq, Eq, Copy, Clone, Debug, Structural)]
pub enum VisClass {
    Inherited,
    Public,
    Restricted,
}

/// What syn makes of a text read as a visibility: `None` when it is not one.
pub uninterp spec fn parsed_visibility(s: Seq<char>) -> Option<VisClass>;

/// Relies on `syn::parse_str::<syn::Visibility>`: the text parses as a
/// visibility (and then of which kind) or it does not, as a function of the
/// text alone; the empty text is the inherited visibility, `pub` the public
/// one, and `pub(crate)`, `pub(self)` and `pub(super)` restricted ones.
#[verifier::external_body]
fn classify_visibility(s: &str) -> (r: Result<VisClass, String>)
    ensures
        match r {
            Ok(c) => parsed_visibility(s@) == Some(c),
            Err(_) => parsed_visibility(s@) is None,
        },
        s@.len() == 0 ==> r matches Ok(VisClass::Inherited),
        s@ == "pub"@ ==> r matches Ok(VisClass::Public),
        s@ == "pub(crate)"@ || s@ == "pub(self)"@ || s@ == "pub(super)"@ ==> r matches Ok(
            VisClass::Restricted,
        ),
{
    match syn::parse_str::<syn::Visibility>(s) {
        Ok(syn::Visibility::Inherited) => Ok(VisClass::Inherited),
        Ok(syn::Visibility::Public(_)) => Ok(VisClass::Public),
        Ok(syn::Visibility::Restricted(_)) => Ok(VisClass::Restricted),
        Err(e) => Err(e.to_string()),
    }
}

/// A visibility read out of a directive; a restricted one keeps its text
/// (`pub(crate)`, `pub(in a::b)`).
#[derive(Clone, Debug)]
pub enum Visibility {
    Inherited,
    Public,
    Restricted(String),
}

pub enum VisView {
    Inherited,
    Public,
    Restricted(Seq<char>),
}

impl View for Visibility {
    type V = VisView;

    open spec fn view(&self) -> VisView {
        match self {
            Visibility::Inherited => VisView::Inherited,
            Visibility::Public => VisView::Public,
            Visibility::Restricted(t) => VisView::Restricted(t@),
        }
    }
}

/// Why no decision could be made for a field.
#[derive(Clone, Debug)]
pub enum GenError {
    /// The field has no name.
    MissingName,
    /// A directive's visibility token is not a visibility; syn's message.
    InvalidVisibility(String),
}

pub enum ErrorKind {
    MissingName,
    InvalidVisibility,
}

impl GenError {
    pub open spec fn kind(&self) -> ErrorKind {
        match self {
            GenError::MissingName => ErrorKind::MissingName,
            GenError::InvalidVisibility(_) => ErrorKind::InvalidVisibility,
        }
    }
}

/// The visibility token of a directive that requests `meta_name`: the first
/// token of its value other than the prefix marker.
pub open spec fn vis_token(attr: Option<Directive>, meta_name: Seq<char>) -> Option<Seq<char>> {
    match attr {
        Some(d) => if d.path@ == meta_name && d.value is Some {
            first_other(pieces(d.value->0@), prefix_marker())
        } else {
            None
        },
        None => None,
    }
}

/// The visibility a directive states, if any; an error when its token is
/// not a visibility.
pub open spec fn spec_parse_visibility(attr: Option<Directive>, meta_name: Seq<char>) -> Result<
    Option<VisView>,
    ErrorKind,
> {
    match vis_token(attr, meta_name) {
        None => Ok(None),
        Some(t) => match parsed_visibility(t) {
            None => Err(ErrorKind::InvalidVisibility),
            Some(VisClass::Inherited) => Ok(Some(VisView::Inherited)),
            Some(VisClass::Public) => Ok(Some(VisView::Public)),
            Some(VisClass::Restricted) => Ok(Some(VisView::Restricted(t))),
        },
    }
}

pub open spec fn vis_result_view(r: Result<Option<Visibility>, GenError>) -> Result<
    Option<VisView>,
    ErrorKind,
> {
    match r {
        Ok(Some(v)) => Ok(Some(v@)),
        Ok(None) => Ok(None),
        Err(e) => Err(e.kind()),
    }
}

/// Whether the directive's value lists the prefix marker.
pub fn meta_has_prefix(d: &Directive) -> (r: bool)
    ensures
        r == has_prefix_marker(*d),
{
    match &d.value {
        None => false,
        Some(v) => {
            let ps = split_spaces(v.as_str());
            let mut i: usize = 0;
            while i < ps.len()
                invariant
                    d.value is Some && d.value->0@ == v@,
                    views(ps@) == pieces(v@),
                    i <= ps.len(),
                    forall|j: int| 0 <= j < i ==> ps@[j]@ != prefix_marker(),
                decreases ps.len() - i,
            {
                if str_eq(ps[i].as_str(), "with_prefix") {
                    assert(views(ps@)[i as int] == ps@[i as int]@);
                    assert(pieces(v@)[i as int] == prefix_marker());
                    assert(pieces(v@).contains(prefix_marker()));
                    return true;
                }
                i = i + 1;
            }
            assert(!pieces(v@).contains(prefix_marker())) by {
                if pieces(v@).contains(prefix_marker()) {
                    let j = choose|j: int| 0 <= j < pieces(v@).len() && pieces(v@)[j] == prefix_marker();
                    assert(ps@[j]@ == prefix_marker());
                }
            }
            false
        },
    }
}

/// The first token of `value` other than the prefix marker.
fn first_vis_token(value: &str) -> (r: Option<String>)
    ensures
        match r {
            Some(t) => first_other(pieces(value@), prefix_marker()) == Some(t@),
            None => first_other(pieces(value@), prefix_marker()) is None,
        },
{
    let ps = split_spaces(value);
    let mut i: usize = 0;
    assert(pieces(value@).subrange(0, pieces(value@).len() as int) =~= pieces(value@));
    while i < ps.len()
        invariant
            views(ps@) == pieces(value@),
            i <= ps.len(),
            first_other(pieces(value@), prefix_marker()) == first_other(
                pieces(value@).subrange(i as int, pieces(value@).len() as int),
                prefix_marker(),
            ),
        decreases ps.len() - i,
    {
        let ghost rest = pieces(value@).subrange(i as int, pieces(value@).len() as int);
        assert(rest.drop_first() =~= pieces(value@).subrange(i + 1, pieces(value@).len() as int));
        assert(views(ps@)[i as int] == ps@[i as int]@);
        assert(rest[0] == ps@[i as int]@);
        if !str_eq(ps[i].as_str(), "with_prefix") {
            return Some(ps[i].clone());
        }
        i = i + 1;
    }
    None
}

/// The visibility stated by `attr` when it is a directive named `meta_name`
/// whose value holds a token other than the prefix marker.
pub fn parse_visibility(attr: Option<&Directive>, meta_name: &str) -> (r: Result<
    Option<Visibility>,
    GenError,
>)
    ensures
        vis_result_view(r) == spec_parse_visibility(
            match attr {
                Some(d) => Some(*d),
                None => None,
            },
            meta_name@,
        ),
        ({
            let t = vis_token(
                match attr {
                    Some(d) => Some(*d),
                    None => None,
                },
                meta_name@,
            );
            &&& t == Some("pub"@) ==> (r matches Ok(Some(Visibility::Public)))
            &&& t == Some(""@) ==> (r matches Ok(Some(Visibility::Inherited)))
            &&& (t == Some("pub(crate)"@) || t == Some("pub(self)"@) || t == Some("pub(super)"@))
                ==> (r matches Ok(Some(v)) && v@ == VisView::Restricted(t->0))
        }),
{
    let d = match attr {
        Some(d) => d,
        None => return Ok(None),
    };
    if !str_eq(d.path.as_str(), meta_name) {
        return Ok(None);
    }
    let value = match &d.value {
        Some(v) => v,
        None => return Ok(None),
    };
    let token = match first_vis_token(value.as_str()) {
        Some(t) => t,
        None => return Ok(None),
    };
    proof {
        reveal_strlit("");
    }
    match classify_visibility(token.as_str()) {
        Ok(VisClass::Inherited) => Ok(Some(Visibility::Inherited)),
        Ok(VisClass::Public) => Ok(Some(Visibility::Public)),
        Ok(VisClass::Restricted) => Ok(Some(Visibility::Restricted(token))),
        Err(msg) => Err(GenError::InvalidVisibility(msg)),
    }
}

} // verus!
