use vstd::prelude::*;
use crate::params::{ParamValue, JsonValue, Field, fields_view};

verus! {

/// A string as serde_json writes it: in double quotes, with its special
/// characters escaped.
pub uninterp spec fn json_quoted(s: Seq<char>) -> Seq<char>;

/// The decimal digits of `n`, most significant first.
pub open spec fn decimal(n: nat) -> Seq<char>
    decreases n,
{
    if n < 10 {
        seq!["0123456789"@[n as int]]
    } else {
        decimal(n / 10).push("0123456789"@[(n % 10) as int])
    }
}

/// Relies on serde_json::to_string on a `str`: the string in JSON form. It
/// writes into a `Vec<u8>`, which cannot fail, so the error arm is never taken.
#[verifier::external_body]
fn quote(s: &str) -> (r: String)
    ensures
        r@ == json_quoted(s@),
{
    match serde_json::to_string(s) {
        Ok(t) => t,
        Err(_) => String::new(),
    }
}

/// Relies on serde_json::to_string on a `u64`: its decimal digits (written by
/// itoa, without sign, padding or exponent). It writes into a `Vec<u8>`, which
/// cannot fail, so the error arm is never taken.
#[verifier::external_body]
fn write_u64(n: u64) -> (r: String)
    ensures
        r@ == decimal(n as nat),
{
    match serde_json::to_string(&n) {
        Ok(t) => t,
        Err(_) => String::new(),
    }
}

/// The parts, separated by commas.
pub open spec fn joined(parts: Seq<Seq<char>>) -> Seq<char>
    decreases parts.len(),
{
    if parts.len() == 0 {
        seq![]
    } else if parts.len() == 1 {
        parts[0]
    } else {
        joined(parts.drop_last()) + ","@ + parts.last()
    }
}

pub open spec fn strings_view(v: Seq<String>) -> Seq<Seq<char>> {
    v.map_values(|s: String| s@)
}

/// The JSON text of a field value.
pub open spec fn value_text(v: JsonValue) -> Seq<char> {
    match v {
        JsonValue::Str(s) => json_quoted(s),
        JsonValue::UInt(n) => decimal(n),
        JsonValue::Bool(b) => if b {
            "true"@
        } else {
            "false"@
        },
        JsonValue::StrList(l) => "["@ + joined(l.map_values(|s: Seq<char>| json_quoted(s))) + "]"@,
        JsonValue::Number(t) => t,
    }
}

/// The JSON text of one member of an object: `"name":value`.
pub open spec fn member_text(f: Field) -> Seq<char> {
    json_quoted(f.0) + ":"@ + value_text(f.1)
}

/// The JSON object that holds the fields, in their order.
pub open spec fn object_text(fields: Seq<Field>) -> Seq<char> {
    "{"@ + joined(fields.map_values(|f: Field| member_text(f))) + "}"@
}

/// Writes `open`, the parts separated by commas, then `close`.
pub fn join(parts: &Vec<String>, open: &str, close: &str) -> (r: String)
    ensures
        r@ == open@ + joined(strings_view(parts@)) + close@,
{
    let ghost ps = strings_view(parts@);
    let mut acc = open.to_owned();
    let mut i: usize = 0;
    assert(ps.take(0) =~= seq![]);
    while i < parts.len()
        invariant
            0 <= i <= parts.len(),
            ps == strings_view(parts@),
            acc@ == open@ + joined(ps.take(i as int)),
        decreases parts.len() - i,
    {
        let ghost before = acc@;
        assert(ps.take(i + 1 as int).drop_last() =~= ps.take(i as int));
        assert(ps[i as int] == parts@[i as int]@);
        if i > 0 {
            acc.append(",");
        }
        acc.append(parts[i].as_str());
        i = i + 1;
        proof {
            if i == 1 {
                assert(before == open@ + seq![]);
                assert(acc@ =~= open@ + ps.take(1)[0]);
            } else {
                assert(acc@ =~= open@ + (joined(ps.take(i - 1 as int)) + ","@ + ps[i - 1]));
            }
        }
    }
    assert(ps.take(i as int) =~= ps);
    acc.append(close);
    acc
}

/// Writes a field value as JSON.
pub fn encode_value(v: &ParamValue) -> (r: String)
    ensures
        r@ == value_text(v@),
{
    match v {
        ParamValue::Str(s) => quote(s.as_str()),
        ParamValue::UInt(n) => write_u64(*n),
        ParamValue::Bool(b) => if *b {
            "true".to_owned()
        } else {
            "false".to_owned()
        },
        ParamValue::StrList(l) => {
            let mut items: Vec<String> = Vec::new();
            let mut i: usize = 0;
            while i < l.len()
                invariant
                    0 <= i <= l.len(),
                    items@.len() == i,
                    forall|j: int| 0 <= j < i ==> items@[j]@ == json_quoted(l@[j]@),
                decreases l.len() - i,
            {
                items.push(quote(l[i].as_str()));
                i = i + 1;
            }
            let r = join(&items, "[", "]");
            assert(strings_view(items@) =~= strings_view(l@).map_values(
                |s: Seq<char>| json_quoted(s),
            ));
            r
        },
        ParamValue::Number(t) => t.clone(),
    }
}

/// Writes a body as a JSON object, its members in the order of the fields.
pub fn encode_object(body: &Vec<(String, ParamValue)>) -> (r: String)
    ensures
        r@ == object_text(fields_view(body@)),
{
    let mut members: Vec<String> = Vec::new();
    let mut i: usize = 0;
    while i < body.len()
        invariant
            0 <= i <= body.len(),
            members@.len() == i,
            forall|j: int|
                0 <= j < i ==> members@[j]@ == member_text(fields_view(body@)[j]),
        decreases body.len() - i,
    {
        let (name, value) = (&body[i].0, &body[i].1);
        let mut m = quote(name.as_str());
        m.append(":");
        let v = encode_value(value);
        m.append(v.as_str());
        assert(fields_view(body@)[i as int] == (name@, value@));
        members.push(m);
        i = i + 1;
    }
    let r = join(&members, "{", "}");
    assert(strings_view(members@) =~= fields_view(body@).map_values(|f: Field| member_text(f)));
    r
}

} // verus!
