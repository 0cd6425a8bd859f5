use vstd::prelude::*;
use crate::generate::{Method, MethodView, Shape};
use crate::text::str_eq;

verus! {

/// A value of the structure: each named field with its current value.
#[derive(Clone, Debug)]
pub struct Record {
    pub fields: Vec<(String, u64)>,
}

pub open spec fn slots_view(fs: Seq<(String, u64)>) -> Seq<(Seq<char>, u64)> {
    fs.map_values(|p: (String, u64)| (p.0@, p.1))
}

impl View for Record {
    type V = Seq<(Seq<char>, u64)>;

    open spec fn view(&self) -> Seq<(Seq<char>, u64)> {
        slots_view(self.fields@)
    }
}

/// The position of the first slot named `name`.
pub open spec fn slot_of(r: Seq<(Seq<char>, u64)>, name: Seq<char>) -> Option<int> {
    if exists|i: int| 0 <= i < r.len() && r[i].0 == name {
        Some(
            choose|i: int|
                0 <= i < r.len() && r[i].0 == name && forall|j: int| 0 <= j < i ==> r[j].0 != name,
        )
    } else {
        None
    }
}

/// Whether a method of this shape only reads the field.
pub open spec fn is_read_shape(s: Shape) -> bool {
    !(s is Assign)
}

/// Running a method on a record: a reader hands out the field's value and
/// leaves the record as it was; a setter stores `arg` in the field and hands
/// out nothing. A method whose field the record lacks changes nothing.
pub open spec fn apply(m: MethodView, r: Seq<(Seq<char>, u64)>, arg: u64) -> (
    Seq<(Seq<char>, u64)>,
    Option<u64>,
) {
    match slot_of(r, m.field) {
        None => (r, None),
        Some(i) => if is_read_shape(m.shape) {
            (r, Some(r[i].1))
        } else {
            (r.update(i, (m.field, arg)), None)
        },
    }
}

pub proof fn lemma_first_slot(r: Seq<(Seq<char>, u64)>, name: Seq<char>, i: int)
    requires
        0 <= i < r.len(),
        r[i].0 == name,
        forall|j: int| 0 <= j < i ==> r[j].0 != name,
    ensures
        slot_of(r, name) == Some(i),
{
    let k = choose|k: int|
        0 <= k < r.len() && r[k].0 == name && forall|j: int| 0 <= j < k ==> r[j].0 != name;
    assert(!(k < i));
    assert(!(i < k));
}

proof fn lemma_min_slot_exists(r: Seq<(Seq<char>, u64)>, name: Seq<char>, i: int)
    requires
        0 <= i < r.len(),
        r[i].0 == name,
    ensures
        exists|k: int|
            0 <= k <= i && r[k].0 == name && forall|j: int| 0 <= j < k ==> r[j].0 != name,
    decreases i,
{
    if exists|j: int| 0 <= j < i && r[j].0 == name {
        let j = choose|j: int| 0 <= j < i && r[j].0 == name;
        lemma_min_slot_exists(r, name, j);
    } else {
        assert(forall|j: int| 0 <= j < i ==> r[j].0 != name);
    }
}

/// The slot found is the first with that name.
pub proof fn lemma_slot_of_first(r: Seq<(Seq<char>, u64)>, name: Seq<char>)
    requires
        slot_of(r, name) is Some,
    ensures
        ({
            let i = slot_of(r, name)->0;
            &&& 0 <= i < r.len()
            &&& r[i].0 == name
            &&& forall|j: int| 0 <= j < i ==> r[j].0 != name
        }),
{
    let w = choose|i: int| 0 <= i < r.len() && r[i].0 == name;
    lemma_min_slot_exists(r, name, w);
}

fn find_slot(rec: &Record, name: &str) -> (r: Option<usize>)
    ensures
        match r {
            Some(i) => slot_of(rec@, name@) == Some(i as int) && i < rec.fields.len(),
            None => slot_of(rec@, name@) is None,
        },
{
    let mut i: usize = 0;
    while i < rec.fields.len()
        invariant
            i <= rec.fields.len(),
            forall|j: int| 0 <= j < i ==> rec@[j].0 != name@,
        decreases rec.fields.len() - i,
    {
        if str_eq(rec.fields[i].0.as_str(), name) {
            proof {
                lemma_first_slot(rec@, name@, i as int);
            }
            return Some(i);
        }
        i = i + 1;
    }
    None
}

/// Runs method `m` on `rec`, with `arg` as the value a setter stores.
pub fn invoke(m: &Method, rec: &mut Record, arg: u64) -> (r: Option<u64>)
    ensures
        (final(rec)@, r) == apply(m@, old(rec)@, arg),
{
    match find_slot(rec, m.field.as_str()) {
        None => None,
        Some(i) => match m.shape {
            Shape::Assign => {
                let ghost before = rec@;
                rec.fields.set(i, (m.field.clone(), arg));
                assert(rec@ =~= before.update(i as int, (m@.field, arg)));
                None
            },
            _ => Some(rec.fields[i].1),
        },
    }
}

} // verus!
