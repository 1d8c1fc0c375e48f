use vstd::prelude::*;
use vstd::string::StringExecFns;

verus! {

/// A value of one field of a topic or of a device report. Numbers are held in
/// thousandths of the unit that the device reports.
pub enum Field {
    Null,
    Bool(bool),
    Num(i64),
    Text(String),
    Names(Vec<String>),
}

/// A field value seen as plain values.
pub enum FieldV {
    Null,
    Bool(bool),
    Num(int),
    Text(Seq<char>),
    Names(Seq<Seq<char>>),
}

pub open spec fn names_view(v: Seq<String>) -> Seq<Seq<char>> {
    v.map_values(|s: String| s@)
}

impl View for Field {
    type V = FieldV;

    open spec fn view(&self) -> FieldV {
        match self {
            Field::Null => FieldV::Null,
            Field::Bool(b) => FieldV::Bool(*b),
            Field::Num(x) => FieldV::Num(*x as int),
            Field::Text(s) => FieldV::Text(s@),
            Field::Names(v) => FieldV::Names(names_view(v@)),
        }
    }
}

/// A list of named fields seen as plain values.
pub type FieldsV = Seq<(Seq<char>, FieldV)>;

pub open spec fn fields_view(v: Seq<(String, Field)>) -> FieldsV {
    v.map_values(|e: (String, Field)| (e.0@, e.1@))
}

/// The value of `name` among `fields`: the last entry of that name, `Null`
/// when there is none (a later entry overrides an earlier one).
pub open spec fn field_of(fields: FieldsV, name: Seq<char>) -> FieldV
    decreases fields.len(),
{
    if fields.len() == 0 {
        FieldV::Null
    } else if fields.last().0 == name {
        fields.last().1
    } else {
        field_of(fields.drop_last(), name)
    }
}

pub fn copy_names(v: &Vec<String>) -> (r: Vec<String>)
    ensures
        names_view(r@) == names_view(v@),
{
    let mut r: Vec<String> = Vec::new();
    let mut i: usize = 0;
    while i < v.len()
        invariant
            i <= v@.len(),
            names_view(r@) == names_view(v@).take(i as int),
        decreases v.len() - i,
    {
        let ghost before = r@;
        r.push(v[i].clone());
        assert(r@ == before.push(v@[i as int]));
        assert(names_view(r@) =~= names_view(before).push(v@[i as int]@));
        assert(names_view(r@) =~= names_view(v@).take(i as int + 1));
        i = i + 1;
    }
    assert(names_view(v@).take(v@.len() as int) =~= names_view(v@));
    r
}

impl Field {
    pub fn copy(&self) -> (r: Field)
        ensures
            r@ == self@,
    {
        match self {
            Field::Null => Field::Null,
            Field::Bool(b) => Field::Bool(*b),
            Field::Num(x) => Field::Num(*x),
            Field::Text(s) => Field::Text(s.clone()),
            Field::Names(v) => Field::Names(copy_names(v)),
        }
    }
}

/// `s@ == lit@`, by building the literal as a `String`.
pub fn is_named(s: &String, lit: &str) -> (r: bool)
    ensures
        r == (s@ == lit@),
{
    let t = <String as StringExecFns>::from_str(lit);
    *s == t
}

/// The value of `name` among `fields` (see `field_of`).
pub fn get_field(fields: &Vec<(String, Field)>, name: &String) -> (r: Field)
    ensures
        r@ == field_of(fields_view(fields@), name@),
{
    let mut r = Field::Null;
    let mut i: usize = 0;
    while i < fields.len()
        invariant
            i <= fields@.len(),
            r@ == field_of(fields_view(fields@).take(i as int), name@),
        decreases fields.len() - i,
    {
        assert(fields_view(fields@).take(i as int + 1).drop_last() =~= fields_view(fields@).take(
            i as int,
        ));
        if fields[i].0 == *name {
            r = fields[i].1.copy();
        }
        i = i + 1;
    }
    assert(fields_view(fields@).take(fields@.len() as int) =~= fields_view(fields@));
    r
}

/// Whether `name` is among `names`.
pub fn contains_name(names: &Vec<String>, name: &String) -> (r: bool)
    ensures
        r == names_view(names@).contains(name@),
{
    let mut i: usize = 0;
    while i < names.len()
        invariant
            i <= names@.len(),
            forall|j: int| 0 <= j < i ==> names_view(names@)[j] != name@,
        decreases names.len() - i,
    {
        if names[i] == *name {
            assert(names_view(names@)[i as int] == name@);
            return true;
        }
        i = i + 1;
    }
    false
}

/// Appends the entry `name: v`.
pub fn push_field(p: &mut Vec<(String, Field)>, name: &str, v: Field)
    ensures
        fields_view(final(p)@) == fields_view(old(p)@).push((name@, v@)),
{
    let k = <String as StringExecFns>::from_str(name);
    p.push((k, v));
    assert(fields_view(final(p)@) =~= fields_view(old(p)@).push((name@, v@)));
}

/// `stored` with each entry of `patch` written over it, in order: an entry of
/// a name already present replaces its value, any other is appended.
pub open spec fn apply_spec(stored: FieldsV, patch: FieldsV) -> FieldsV
    decreases patch.len(),
{
    if patch.len() == 0 {
        stored
    } else {
        set_spec(apply_spec(stored, patch.drop_last()), patch.last().0, patch.last().1)
    }
}

/// One entry after writing `name: v`.
pub open spec fn overwrite(e: (Seq<char>, FieldV), name: Seq<char>, v: FieldV) -> (Seq<char>, FieldV) {
    if e.0 == name {
        (name, v)
    } else {
        e
    }
}

/// Whether some entry of `fields` has the name `name`.
pub open spec fn has_name(fields: FieldsV, name: Seq<char>) -> bool {
    exists|j: int| 0 <= j < fields.len() && fields[j].0 == name
}

/// `fields` with every entry of `name` given the value `v`, or with `name: v`
/// appended where there is none.
pub open spec fn set_spec(fields: FieldsV, name: Seq<char>, v: FieldV) -> FieldsV {
    if has_name(fields, name) {
        Seq::new(fields.len(), |j: int| overwrite(fields[j], name, v))
    } else {
        fields.push((name, v))
    }
}

proof fn lemma_field_of_overwrite(fields: FieldsV, name: Seq<char>, v: FieldV, other: Seq<char>)
    ensures
        field_of(Seq::new(fields.len(), |j: int| overwrite(fields[j], name, v)), other) == if other
            == name && has_name(fields, name) {
            v
        } else {
            field_of(fields, other)
        },
    decreases fields.len(),
{
    if fields.len() > 0 {
        let m = Seq::new(fields.len(), |j: int| overwrite(fields[j], name, v));
        let d = fields.drop_last();
        assert(m.drop_last() =~= Seq::new(d.len(), |j: int| overwrite(d[j], name, v)));
        lemma_field_of_overwrite(d, name, v, other);
        if fields.last().0 != name && has_name(fields, name) {
            let j = choose|j: int| 0 <= j < fields.len() && fields[j].0 == name;
            assert(0 <= j < d.len() && d[j].0 == name);
        }
        if has_name(d, name) {
            let j = choose|j: int| 0 <= j < d.len() && d[j].0 == name;
            assert(fields[j].0 == name);
        }
    }
}

/// Reading a field after a write: the written value for its own name, the old
/// value for any other.
pub proof fn lemma_field_of_set(fields: FieldsV, name: Seq<char>, v: FieldV, other: Seq<char>)
    ensures
        field_of(set_spec(fields, name, v), other) == if other == name {
            v
        } else {
            field_of(fields, other)
        },
{
    if has_name(fields, name) {
        lemma_field_of_overwrite(fields, name, v, other);
    } else {
        assert(fields.push((name, v)).drop_last() =~= fields);
    }
}

/// Writes `name: v` into `fields` as `set_spec` says.
pub fn set_field(fields: &mut Vec<(String, Field)>, name: &String, v: &Field)
    ensures
        fields_view(final(fields)@) == set_spec(fields_view(old(fields)@), name@, v@),
{
    let ghost orig = fields_view(fields@);
    let mut found = false;
    let mut i: usize = 0;
    while i < fields.len()
        invariant
            i <= fields@.len(),
            fields@.len() == orig.len(),
            orig == fields_view(old(fields)@),
            forall|j: int| 0 <= j < i ==> fields_view(fields@)[j] == overwrite(orig[j], name@, v@),
            forall|j: int| i <= j < orig.len() ==> fields_view(fields@)[j] == orig[j],
            found == exists|j: int| 0 <= j < i && orig[j].0 == name@,
        decreases fields.len() - i,
    {
        let ghost before = fields@;
        if fields[i].0 == *name {
            let k = name.clone();
            fields.set(i, (k, v.copy()));
            assert(forall|j: int|
                0 <= j < fields@.len() && j != i ==> fields_view(fields@)[j] == fields_view(
                    before,
                )[j]);
            found = true;
            assert(fields_view(fields@)[i as int] == (name@, v@));
            assert(orig[i as int].0 == name@);
            assert(overwrite(orig[i as int], name@, v@) == (name@, v@));
        } else {
            assert(overwrite(orig[i as int], name@, v@) == orig[i as int]);
        }
        assert forall|j: int| 0 <= j < i + 1 implies fields_view(fields@)[j] == overwrite(
            orig[j],
            name@,
            v@,
        ) by {
            if j < i {
                assert(fields_view(before)[j] == overwrite(orig[j], name@, v@));
            }
        }
        assert(found == exists|j: int| 0 <= j < i + 1 && orig[j].0 == name@) by {
            if exists|j: int| 0 <= j < i + 1 && orig[j].0 == name@ {
                let j = choose|j: int| 0 <= j < i + 1 && orig[j].0 == name@;
                if j < i {
                    assert(exists|j: int| 0 <= j < i && orig[j].0 == name@);
                }
            }
        }
        i = i + 1;
    }
    if found {
        assert(fields_view(fields@) =~= Seq::new(orig.len(), |j: int| overwrite(orig[j], name@, v@)));
    } else {
        assert(fields_view(fields@) =~= orig);
        fields.push((name.clone(), v.copy()));
        assert(fields_view(fields@) =~= orig.push((name@, v@)));
    }
}

/// Writes every entry of `patch` into `stored`, as `apply_spec` says.
pub fn apply_patch(stored: &mut Vec<(String, Field)>, patch: &Vec<(String, Field)>)
    ensures
        fields_view(final(stored)@) == apply_spec(fields_view(old(stored)@), fields_view(patch@)),
{
    let mut i: usize = 0;
    while i < patch.len()
        invariant
            i <= patch@.len(),
            fields_view(stored@) == apply_spec(
                fields_view(old(stored)@),
                fields_view(patch@).take(i as int),
            ),
        decreases patch.len() - i,
    {
        assert(fields_view(patch@).take(i as int + 1).drop_last() =~= fields_view(patch@).take(
            i as int,
        ));
        set_field(stored, &patch[i].0, &patch[i].1);
        i = i + 1;
    }
    assert(fields_view(patch@).take(patch@.len() as int) =~= fields_view(patch@));
}

/// Reading a field after a patch: the patch's value where the patch names the
/// field, the old value elsewhere.
pub proof fn lemma_field_of_apply(stored: FieldsV, patch: FieldsV, name: Seq<char>)
    ensures
        field_of(apply_spec(stored, patch), name) == if has_name(patch, name) {
            field_of(patch, name)
        } else {
            field_of(stored, name)
        },
    decreases patch.len(),
{
    if patch.len() > 0 {
        let d = patch.drop_last();
        lemma_field_of_apply(stored, d, name);
        lemma_field_of_set(apply_spec(stored, d), patch.last().0, patch.last().1, name);
        if has_name(d, name) {
            let j = choose|j: int| 0 <= j < d.len() && d[j].0 == name;
            assert(patch[j].0 == name);
        }
        if patch.last().0 != name && has_name(patch, name) {
            let j = choose|j: int| 0 <= j < patch.len() && patch[j].0 == name;
            assert(d[j].0 == name);
        }
        if patch.last().0 == name {
            assert(patch[patch.len() - 1].0 == name);
        }
    }
}

} // verus!
