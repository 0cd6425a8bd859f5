use vstd::prelude::*;
use vstd::string::*;

verus! {

/// Character-wise equality of two strings.
pub fn str_eq(a: &str, b: &str) -> (r: bool)
    ensures
        r == (a@ == b@),
{
    let n = a.unicode_len();
    if n != b.unicode_len() {
        return false;
    }
    let mut i: usize = 0;
    while i < n
        invariant
            n == a@.len(),
            n == b@.len(),
            i <= n,
            a@.subrange(0, i as int) == b@.subrange(0, i as int),
        decreases n - i,
    {
        if a.get_char(i) != b.get_char(i) {
            assert(a@[i as int] != b@[i as int]);
            return false;
        }
        assert(a@.subrange(0, i + 1) == a@.subrange(0, i as int).push(a@[i as int]));
        assert(b@.subrange(0, i + 1) == b@.subrange(0, i as int).push(b@[i as int]));
        i = i + 1;
    }
    assert(a@ == a@.subrange(0, n as int));
    assert(b@ == b@.subrange(0, n as int));
    true
}


/// The views of a sequence of strings.
pub open spec fn views(v: Seq<String>) -> Seq<Seq<char>> {
    v.map_values(|x: String| x@)
}

/// The pieces between single spaces, in order, as `str::split(' ')` yields
/// them: one more piece than there are spaces, empty pieces included.
pub open spec fn pieces(s: Seq<char>) -> Seq<Seq<char>>
    decreases s.len(),
{
    if s.len() == 0 {
        seq![Seq::<char>::empty()]
    } else {
        let rest = pieces(s.drop_last());
        if s.last() == ' ' {
            rest.push(Seq::<char>::empty())
        } else {
            rest.update(rest.len() - 1, rest.last().push(s.last()))
        }
    }
}

/// The first of the pieces that differs from `skip`.
pub open spec fn first_other(ps: Seq<Seq<char>>, skip: Seq<char>) -> Option<Seq<char>>
    decreases ps.len(),
{
    if ps.len() == 0 {
        None
    } else if ps[0] != skip {
        Some(ps[0])
    } else {
        first_other(ps.drop_first(), skip)
    }
}

/// Splits `s` at every single space.
pub fn split_spaces(s: &str) -> (r: Vec<String>)
    ensures
        views(r@) == pieces(s@),
{
    let n = s.unicode_len();
    let mut out: Vec<String> = Vec::new();
    let mut start: usize = 0;
    let mut i: usize = 0;
    assert(s@.subrange(0, 0) =~= Seq::<char>::empty());
    assert(views(out@) =~= Seq::<Seq<char>>::empty());
    assert(views(out@).push(s@.subrange(0, 0)) =~= pieces(s@.subrange(0, 0)));
    while i < n
        invariant
            n == s@.len(),
            start <= i <= n,
            pieces(s@.subrange(0, i as int)) == views(out@).push(s@.subrange(start as int, i as int)),
        decreases n - i,
    {
        let c = s.get_char(i);
        let ghost pre = s@.subrange(0, i + 1);
        assert(pre.drop_last() == s@.subrange(0, i as int));
        assert(pre.last() == c);
        if c == ' ' {
            let piece = String::from_str(s.substring_char(start, i));
            let ghost before = out@;
            out.push(piece);
            assert(views(out@) =~= views(before).push(piece@));
            start = i + 1;
            assert(s@.subrange(start as int, i + 1) =~= Seq::<char>::empty());
        } else {
            assert(s@.subrange(start as int, i + 1) =~= s@.subrange(start as int, i as int).push(c));
        }
        i = i + 1;
    }
    let last = String::from_str(s.substring_char(start, n));
    let ghost before = out@;
    out.push(last);
    assert(s@.subrange(0, n as int) == s@);
    assert(views(out@) =~= views(before).push(last@));
    out
}

/// Whether a name is written in raw form (`r#type`).
pub open spec fn is_raw(name: Seq<char>) -> bool {
    name.len() >= 2 && name[0] == 'r' && name[1] == '#'
}

/// A name with its raw marker taken off.
pub open spec fn unraw(name: Seq<char>) -> Seq<char> {
    if is_raw(name) {
        name.subrange(2, name.len() as int)
    } else {
        name
    }
}

pub fn starts_raw(name: &str) -> (r: bool)
    ensures
        r == is_raw(name@),
{
    let n = name.unicode_len();
    n >= 2 && name.get_char(0) == 'r' && name.get_char(1) == '#'
}

pub fn strip_raw(name: &str) -> (r: &str)
    ensures
        r@ == unraw(name@),
{
    if starts_raw(name) {
        let n = name.unicode_len();
        name.substring_char(2, n)
    } else {
        name
    }
}

} // verus!
