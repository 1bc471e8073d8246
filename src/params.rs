use vstd::prelude::*;

verus! {

/// A value of a request field, as it is sent.
pub enum ParamValue {
    Str(String),
    UInt(u64),
    Bool(bool),
    StrList(Vec<String>),
    /// A number already written as JSON text (a fraction such as `0.7`).
    Number(String),
}

/// What a field value means: the model of `ParamValue`.
pub enum JsonValue {
    Str(Seq<char>),
    UInt(nat),
    Bool(bool),
    StrList(Seq<Seq<char>>),
    Number(Seq<char>),
}

impl View for ParamValue {
    type V = JsonValue;

    open spec fn view(&self) -> JsonValue {
        match self {
            ParamValue::Str(s) => JsonValue::Str(s@),
            ParamValue::UInt(n) => JsonValue::UInt(*n as nat),
            ParamValue::Bool(b) => JsonValue::Bool(*b),
            ParamValue::StrList(l) => JsonValue::StrList(l@.map_values(|s: String| s@)),
            ParamValue::Number(t) => JsonValue::Number(t@),
        }
    }
}

/// A list of strings as a field value.
pub fn str_list(items: &Vec<&str>) -> (r: ParamValue)
    ensures
        r@ == JsonValue::StrList(items@.map_values(|s: &str| s@)),
{
    let mut l: Vec<String> = Vec::new();
    let mut i: usize = 0;
    while i < items.len()
        invariant
            0 <= i <= items.len(),
            l@.len() == i,
            forall|j: int| 0 <= j < i ==> l@[j]@ == items@[j]@,
        decreases items.len() - i,
    {
        let s: &str = items[i];
        l.push(s.to_owned());
        i = i + 1;
    }
    assert(l@.map_values(|s: String| s@) =~= items@.map_values(|s: &str| s@));
    ParamValue::StrList(l)
}

/// One field of a request body: its name and its value.
pub type Field = (Seq<char>, JsonValue);

pub open spec fn field_view(e: (String, ParamValue)) -> Field {
    (e.0@, e.1@)
}

pub open spec fn fields_view(v: Seq<(String, ParamValue)>) -> Seq<Field> {
    v.map_values(|e: (String, ParamValue)| field_view(e))
}

pub open spec fn names_of(s: Seq<Field>) -> Seq<Seq<char>> {
    s.map_values(|e: Field| e.0)
}

/// The distinct names of `names`, in the order of their first appearance.
pub open spec fn first_names(names: Seq<Seq<char>>) -> Seq<Seq<char>>
    decreases names.len(),
{
    if names.len() == 0 {
        seq![]
    } else {
        let p = first_names(names.drop_last());
        if p.contains(names.last()) {
            p
        } else {
            p.push(names.last())
        }
    }
}

/// The value last assigned to each name.
pub open spec fn last_writes(s: Seq<Field>) -> Map<Seq<char>, JsonValue>
    decreases s.len(),
{
    if s.len() == 0 {
        map![]
    } else {
        last_writes(s.drop_last()).insert(s.last().0, s.last().1)
    }
}

/// The body that a sequence of assignments produces: each name once, in the
/// order in which it was first assigned, with the value it was last assigned.
pub open spec fn assemble(s: Seq<Field>) -> Seq<Field> {
    first_names(names_of(s)).map_values(|k: Seq<char>| (k, last_writes(s)[k]))
}

pub open spec fn distinct_names(s: Seq<Field>) -> bool {
    forall|i: int, j: int| 0 <= i < s.len() && 0 <= j < s.len() && i != j ==> s[i].0 != s[j].0
}

proof fn lemma_names_push(s: Seq<Field>, e: Field)
    ensures
        names_of(s.push(e)) == names_of(s).push(e.0),
        names_of(s.push(e)).drop_last() == names_of(s),
{
    assert(names_of(s.push(e)) =~= names_of(s).push(e.0));
    assert(names_of(s.push(e)).drop_last() =~= names_of(s));
}

proof fn lemma_first_names(names: Seq<Seq<char>>)
    ensures
        forall|k: Seq<char>| first_names(names).contains(k) <==> names.contains(k),
        forall|i: int, j: int|
            0 <= i < first_names(names).len() && 0 <= j < first_names(names).len() && i != j
                ==> first_names(names)[i] != first_names(names)[j],
    decreases names.len(),
{
    if names.len() > 0 {
        let d = names.drop_last();
        lemma_first_names(d);
        assert forall|k: Seq<char>| names.contains(k) <==> (d.contains(k) || k == names.last()) by {
            if names.contains(k) {
                let i = choose|i: int| 0 <= i < names.len() && names[i] == k;
                if i < names.len() - 1 {
                    assert(d[i] == k);
                }
            }
            if d.contains(k) {
                let i = choose|i: int| 0 <= i < d.len() && d[i] == k;
                assert(names[i] == k);
            }
            if k == names.last() {
                assert(names[names.len() - 1] == k);
            }
        }
        let p = first_names(d);
        if !p.contains(names.last()) {
            assert forall|k: Seq<char>| p.push(names.last()).contains(k) <==> (p.contains(k) || k
                == names.last()) by {
                if p.push(names.last()).contains(k) {
                    let i = choose|i: int| 0 <= i < p.len() + 1 && p.push(names.last())[i] == k;
                    if i < p.len() {
                        assert(p[i] == k);
                    }
                }
                if p.contains(k) {
                    let i = choose|i: int| 0 <= i < p.len() && p[i] == k;
                    assert(p.push(names.last())[i] == k);
                }
                if k == names.last() {
                    assert(p.push(names.last())[p.len() as int] == k);
                }
            }
        }
    }
}

proof fn lemma_last_writes_domain(s: Seq<Field>)
    ensures
        forall|k: Seq<char>| last_writes(s).contains_key(k) <==> names_of(s).contains(k),
    decreases s.len(),
{
    if s.len() > 0 {
        let d = s.drop_last();
        lemma_last_writes_domain(d);
        lemma_names_push(d, s.last());
        assert(d.push(s.last()) =~= s);
        lemma_first_names(names_of(s));
        lemma_first_names(names_of(d));
        assert forall|k: Seq<char>| last_writes(s).contains_key(k) <==> names_of(s).contains(k) by {
            let ns = names_of(s);
            let nd = names_of(d);
            assert(ns.drop_last() =~= nd);
            if nd.contains(k) {
                let i = choose|i: int| 0 <= i < nd.len() && nd[i] == k;
                assert(ns[i] == k);
            }
            if k == s.last().0 {
                assert(ns[ns.len() - 1] == k);
            }
            if ns.contains(k) && k != s.last().0 {
                let i = choose|i: int| 0 <= i < ns.len() && ns[i] == k;
                assert(i < ns.len() - 1);
                assert(nd[i] == k);
            }
        }
    }
}

/// What assigning one field does to a body whose names are distinct.
pub open spec fn put_field(b: Seq<Field>, e: Field) -> Seq<Field> {
    if exists|j: int| 0 <= j < b.len() && b[j].0 == e.0 {
        b.update(choose|j: int| 0 <= j < b.len() && b[j].0 == e.0, e)
    } else {
        b.push(e)
    }
}

/// Assembling one more assignment is putting it into the body assembled so far.
proof fn lemma_assemble_push(s: Seq<Field>, e: Field)
    ensures
        assemble(s.push(e)) == put_field(assemble(s), e),
        distinct_names(assemble(s)),
        distinct_names(assemble(s.push(e))),
{
    let t = s.push(e);
    lemma_names_push(s, e);
    let p = first_names(names_of(s));
    lemma_first_names(names_of(s));
    lemma_first_names(names_of(t));
    assert(t.drop_last() =~= s);
    let a = assemble(s);
    let lw = last_writes(s);
    let lw2 = last_writes(t);
    assert(lw2 == lw.insert(e.0, e.1));
    if p.contains(e.0) {
        let j0 = choose|j: int| 0 <= j < p.len() && p[j] == e.0;
        assert(a[j0].0 == e.0);
        let j = choose|j: int| 0 <= j < a.len() && a[j].0 == e.0;
        assert(p[j] == e.0);
        assert(assemble(t) =~= a.update(j, e));
    } else {
        assert forall|j: int| 0 <= j < a.len() implies a[j].0 != e.0 by {
            assert(a[j].0 == p[j]);
        }
        assert(assemble(t) =~= a.push(e));
    }
}

/// Puts one field into a body whose names are distinct: a field of the same
/// name takes the new value in its place, or the field comes last.
pub fn put(body: &mut Vec<(String, ParamValue)>, name: String, value: ParamValue)
    requires
        distinct_names(fields_view(old(body)@)),
    ensures
        fields_view(final(body)@) == put_field(fields_view(old(body)@), (name@, value@)),
{
    let ghost b = fields_view(body@);
    let ghost e = (name@, value@);
    let mut j: usize = 0;
    while j < body.len()
        invariant
            0 <= j <= body.len(),
            fields_view(body@) == b,
            distinct_names(b),
            e == (name@, value@),
            b == fields_view(old(body)@),
            forall|i: int| 0 <= i < j ==> b[i].0 != e.0,
        decreases body.len() - j,
    {
        proof {
            assert(b[j as int] == field_view(body@[j as int]));
        }
        let same = body[j].0 == name;
        if same {
            proof {
                assert(b[j as int].0 == e.0);
                let c = choose|c: int| 0 <= c < b.len() && b[c].0 == e.0;
                assert(c == j);
            }
            body.set(j, (name, value));
            assert(fields_view(body@) =~= b.update(j as int, e));
            return;
        }
        j = j + 1;
    }
    body.push((name, value));
    assert(fields_view(body@) =~= b.push(e));
}

/// The body that `fields` produce, assigned in order: each name once, where it
/// first appears, with the value it was last given.
pub fn assemble_body(fields: Vec<(String, ParamValue)>) -> (r: Vec<(String, ParamValue)>)
    ensures
        fields_view(r@) == assemble(fields_view(fields@)),
{
    let ghost all = fields_view(fields@);
    let mut rest = fields;
    let mut body: Vec<(String, ParamValue)> = Vec::new();
    let ghost done: nat = 0;
    assert(all.take(0) =~= seq![]);
    assert(assemble(seq![]) =~= seq![]);
    while rest.len() > 0
        invariant
            done + rest.len() == all.len(),
            fields_view(rest@) == all.skip(done as int),
            fields_view(body@) == assemble(all.take(done as int)),
        decreases rest.len(),
    {
        let ghost before = rest@;
        proof {
            assert(fields_view(before)[0] == field_view(before[0]));
            assert(all.skip(done as int)[0] == all[done as int]);
        }
        let (name, value) = rest.remove(0);
        proof {
            assert(rest@ =~= before.subrange(1, before.len() as int));
            assert(fields_view(rest@) =~= fields_view(before).subrange(1, before.len() as int));
            lemma_assemble_push(all.take(done as int), (name@, value@));
            assert(all[done as int] == (name@, value@));
            assert(all.take(done as int).push((name@, value@)) =~= all.take(done + 1 as int));
            assert(fields_view(rest@) =~= all.skip(done + 1 as int));
        }
        put(&mut body, name, value);
        proof {
            done = done + 1;
        }
    }
    assert(all.take(done as int) =~= all);
    body
}

proof fn lemma_last_writes_concat(s: Seq<Field>, t: Seq<Field>)
    ensures
        last_writes(s + t) == last_writes(s).union_prefer_right(last_writes(t)),
    decreases t.len(),
{
    if t.len() == 0 {
        assert(s + t =~= s);
        assert(last_writes(s).union_prefer_right(last_writes(t)) =~= last_writes(s));
    } else {
        let d = t.drop_last();
        lemma_last_writes_concat(s, d);
        assert((s + t).drop_last() =~= s + d);
        assert((s + t).last() == t.last());
        assert(last_writes(s + t) =~= last_writes(s).union_prefer_right(last_writes(t)));
    }
}

proof fn lemma_last_writes_distinct(r: Seq<Field>)
    requires
        distinct_names(r),
    ensures
        forall|i: int| 0 <= i < r.len() ==> #[trigger] last_writes(r)[r[i].0] == r[i].1,
    decreases r.len(),
{
    if r.len() > 0 {
        let d = r.drop_last();
        assert(distinct_names(d)) by {
            assert forall|i: int, j: int| 0 <= i < d.len() && 0 <= j < d.len() && i != j implies d[i].0
                != d[j].0 by {
                assert(d[i] == r[i] && d[j] == r[j]);
            }
        }
        lemma_last_writes_distinct(d);
        assert forall|i: int| 0 <= i < r.len() implies #[trigger] last_writes(r)[r[i].0] == r[i].1 by {
            assert(last_writes(r) == last_writes(d).insert(r.last().0, r.last().1));
            if i < r.len() - 1 {
                assert(r[i].0 != r[r.len() - 1].0);
                assert(d[i] == r[i]);
                assert(last_writes(d)[d[i].0] == d[i].1);
            }
        }
    }
}

proof fn lemma_last_writes_assemble(s: Seq<Field>)
    ensures
        distinct_names(assemble(s)),
        names_of(assemble(s)) == first_names(names_of(s)),
        last_writes(assemble(s)) == last_writes(s),
{
    let a = assemble(s);
    let p = first_names(names_of(s));
    if s.len() > 0 {
        lemma_assemble_push(s.drop_last(), s.last());
        assert(s.drop_last().push(s.last()) =~= s);
    } else {
        assert(a =~= seq![]);
    }
    assert(names_of(a) =~= p);
    lemma_first_names(names_of(s));
    lemma_last_writes_domain(s);
    lemma_last_writes_domain(a);
    lemma_last_writes_distinct(a);
    assert forall|k: Seq<char>| #[trigger] last_writes(a).contains_key(k) implies last_writes(a)[k]
        == last_writes(s)[k] by {
        assert(names_of(a).contains(k));
        let i = choose|i: int| 0 <= i < names_of(a).len() && names_of(a)[i] == k;
        assert(names_of(a)[i] == a[i].0);
        assert(a[i] == (p[i], last_writes(s)[p[i]]));
        assert(last_writes(a)[a[i].0] == a[i].1);
    }
    assert forall|k: Seq<char>| #[trigger] last_writes(a).contains_key(k) <==> last_writes(
        s,
    ).contains_key(k) by {
        assert(last_writes(a).contains_key(k) <==> names_of(a).contains(k));
        assert(names_of(a).contains(k) <==> p.contains(k));
        assert(p.contains(k) <==> names_of(s).contains(k));
        assert(last_writes(s).contains_key(k) <==> names_of(s).contains(k));
    }
    assert(last_writes(a) =~= last_writes(s));
}

/// A body made of mandatory fields (distinct names) followed by optional
/// assignments holds each name once, and exactly the mandatory names and the
/// assigned ones; an assigned name has the value it was last assigned, and a
/// mandatory field that no assignment names keeps its value.
pub proof fn lemma_body_fields(required: Seq<Field>, optional: Seq<Field>)
    requires
        distinct_names(required),
    ensures
        distinct_names(assemble(required + optional)),
        forall|k: Seq<char>|
            names_of(assemble(required + optional)).contains(k) <==> (names_of(required).contains(k)
                || names_of(optional).contains(k)),
        forall|i: int|
            0 <= i < assemble(required + optional).len() ==> names_of(optional).contains(
                (#[trigger] assemble(required + optional)[i]).0,
            ) ==> assemble(required + optional)[i].1 == last_writes(optional)[assemble(
                required + optional,
            )[i].0],
        forall|i: int, j: int|
            0 <= i < assemble(required + optional).len() && 0 <= j < required.len()
                && #[trigger] assemble(required + optional)[i].0 == #[trigger] required[j].0
                && !names_of(optional).contains(required[j].0) ==> assemble(required + optional)[i]
                == required[j],
{
    let s = required + optional;
    let a = assemble(s);
    lemma_last_writes_assemble(s);
    lemma_last_writes_concat(required, optional);
    lemma_last_writes_domain(optional);
    lemma_last_writes_domain(required);
    lemma_last_writes_distinct(required);
    lemma_last_writes_distinct(a);
    lemma_first_names(names_of(s));
    assert(names_of(s) =~= names_of(required) + names_of(optional));
    assert forall|k: Seq<char>| names_of(s).contains(k) <==> (names_of(required).contains(k)
        || names_of(optional).contains(k)) by {
        let nr = names_of(required);
        let no = names_of(optional);
        if names_of(s).contains(k) {
            let i = choose|i: int| 0 <= i < names_of(s).len() && names_of(s)[i] == k;
            if i < nr.len() {
                assert(nr[i] == k);
            } else {
                assert(no[i - nr.len()] == k);
            }
        }
        if nr.contains(k) {
            let i = choose|i: int| 0 <= i < nr.len() && nr[i] == k;
            assert(names_of(s)[i] == k);
        }
        if no.contains(k) {
            let i = choose|i: int| 0 <= i < no.len() && no[i] == k;
            assert(names_of(s)[nr.len() + i] == k);
        }
    }
    assert forall|i: int, j: int|
        0 <= i < a.len() && 0 <= j < required.len() && #[trigger] a[i].0 == #[trigger] required[j].0
            && !names_of(optional).contains(required[j].0) implies a[i] == required[j] by {
        let k = required[j].0;
        assert(last_writes(a)[a[i].0] == a[i].1);
        assert(!last_writes(optional).contains_key(k));
        assert(names_of(required)[j] == k);
        assert(last_writes(required).contains_key(k));
        assert(last_writes(s)[k] == last_writes(required)[k]);
        assert(last_writes(required)[required[j].0] == required[j].1);
        assert(a[i].1 == required[j].1);
    }
    assert forall|i: int|
        0 <= i < a.len() implies names_of(optional).contains((#[trigger] a[i]).0) ==> a[i].1
        == last_writes(optional)[a[i].0] by {
        assert(last_writes(a)[a[i].0] == a[i].1);
    }
}

} // verus!
