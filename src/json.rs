//! A JSON document model that the library reads and builds, and the two
//! places where it meets serde_json: reading text and writing it back.
use vstd::prelude::*;
use crate::text::chars_of;
use serde_json::Value as SerdeValue;

verus! {

/// A JSON value. Numbers that fit in a 64-bit integer (signed or unsigned)
/// are held exactly; any other number keeps its decimal text.
#[derive(Debug)]
pub enum JsonValue {
    Null,
    Bool(bool),
    Integer(i128),
    Decimal(String),
    Str(String),
    Array(Vec<JsonValue>),
    Object(Vec<JsonMember>),
}

/// One `key: value` member of an object, in document order.
#[derive(Debug)]
pub struct JsonMember {
    pub key: String,
    pub value: JsonValue,
}

/// The value of the first member named `key`, if any.
pub open spec fn member_value(members: Seq<JsonMember>, key: Seq<char>) -> Option<JsonValue>
    decreases members.len(),
{
    if members.len() == 0 {
        None
    } else if members[0].key@ == key {
        Some(members[0].value)
    } else {
        member_value(members.drop_first(), key)
    }
}

/// `v[key]` when `v` is an object holding `key`.
pub open spec fn field_of(v: JsonValue, key: Seq<char>) -> Option<JsonValue> {
    match v {
        JsonValue::Object(members) => member_value(members@, key),
        _ => None,
    }
}

/// The text of `v[key]` when it is a string.
pub open spec fn str_field_of(v: JsonValue, key: Seq<char>) -> Option<Seq<char>> {
    match field_of(v, key) {
        Some(JsonValue::Str(s)) => Some(s@),
        _ => None,
    }
}

pub open spec fn opt_view(o: Option<String>) -> Option<Seq<char>> {
    match o {
        Some(s) => Some(s@),
        None => None,
    }
}

/// Equality of a string with a literal, character by character.
pub fn str_eq(a: &str, b: &str) -> (r: bool)
    ensures
        r == (a@ == b@),
{
    let x = chars_of(a);
    let y = chars_of(b);
    if x.len() != y.len() {
        return false;
    }
    let mut i: usize = 0;
    while i < x.len()
        invariant
            x@ == a@,
            y@ == b@,
            x.len() == y.len(),
            i <= x.len(),
            forall|k: int| 0 <= k < i ==> x@[k] == y@[k],
        decreases x.len() - i,
    {
        if x[i] != y[i] {
            return false;
        }
        i = i + 1;
    }
    assert(x@ =~= y@);
    true
}

/// The value of the first member named `key`.
pub fn find_member<'a>(members: &'a Vec<JsonMember>, key: &str) -> (r: Option<&'a JsonValue>)
    ensures
        match r {
            Some(v) => member_value(members@, key@) == Some(*v),
            None => member_value(members@, key@) is None,
        },
{
    let mut i: usize = 0;
    assert(members@.subrange(0, members@.len() as int) =~= members@);
    while i < members.len()
        invariant
            i <= members.len(),
            member_value(members@, key@) == member_value(members@.subrange(i as int, members@.len() as int), key@),
        decreases members.len() - i,
    {
        let ghost rest = members@.subrange(i as int, members@.len() as int);
        assert(rest.drop_first() =~= members@.subrange(i + 1, members@.len() as int));
        assert(rest[0] == members@[i as int]);
        if str_eq(members[i].key.as_str(), key) {
            assert(member_value(rest, key@) == Some(rest[0].value));
            return Some(&members[i].value);
        }
        i = i + 1;
    }
    None
}

impl JsonValue {
    /// The value of the first member named `key`, when `self` is an object.
    pub fn get(&self, key: &str) -> (r: Option<&JsonValue>)
        ensures
            match r {
                Some(v) => field_of(*self, key@) == Some(*v),
                None => field_of(*self, key@) is None,
            },
    {
        match self {
            JsonValue::Object(members) => find_member(members, key),
            _ => None,
        }
    }

    /// The text of `self[key]` when it is a string.
    pub fn get_str(&self, key: &str) -> (r: Option<String>)
        ensures
            opt_view(r) == str_field_of(*self, key@),
    {
        match self.get(key) {
            Some(JsonValue::Str(s)) => Some(s.clone()),
            _ => None,
        }
    }

}

proof fn lemma_member_remove(m: Seq<JsonMember>, i: int, key: Seq<char>, k: Seq<char>)
    requires
        0 <= i < m.len(),
        m[i].key@ == key,
        k != key,
    ensures
        member_value(m.remove(i), k) == member_value(m, k),
    decreases i,
{
    if i == 0 {
        assert(m.remove(0) =~= m.drop_first());
    } else {
        assert(m.remove(i)[0] == m[0]);
        assert(m.remove(i).drop_first() =~= m.drop_first().remove(i - 1));
        lemma_member_remove(m.drop_first(), i - 1, key, k);
    }
}

/// What appending a member does to lookups: a key already present keeps its
/// value, and the new member answers for its key otherwise.
pub proof fn lemma_member_push(m: Seq<JsonMember>, x: JsonMember, k: Seq<char>)
    ensures
        member_value(m.push(x), k) == match member_value(m, k) {
            Some(v) => Some(v),
            None => if x.key@ == k {
                Some(x.value)
            } else {
                None
            },
        },
    decreases m.len(),
{
    let mx = m.push(x);
    if m.len() > 0 {
        assert(mx[0] == m[0]);
        assert(mx.drop_first() =~= m.drop_first().push(x));
        lemma_member_push(m.drop_first(), x, k);
        if m[0].key@ != k {
            assert(member_value(mx, k) == member_value(mx.drop_first(), k));
            assert(member_value(m, k) == member_value(m.drop_first(), k));
        }
    } else {
        assert(mx[0] == x);
        assert(mx.drop_first() =~= Seq::<JsonMember>::empty());
        assert(member_value(m, k) is None);
        if x.key@ != k {
            assert(member_value(mx, k) == member_value(mx.drop_first(), k));
        }
    }
}

/// Takes the value of the first member named `key` out of an object; every
/// other key keeps its value, and a value that is no object is handed back as it is.
pub fn take_field(v: JsonValue, key: &str) -> (r: (JsonValue, Option<JsonValue>))
    ensures
        r.1 == field_of(v, key@),
        forall|k: Seq<char>| k != key@ ==> #[trigger] field_of(r.0, k) == field_of(v, k),
{
    match v {
        JsonValue::Object(members) => {
            let ghost all = members@;
            assert(forall|k: Seq<char>| #[trigger] field_of(v, k) == member_value(all, k));
            let mut members = members;
            let mut i: usize = 0;
            assert(all.subrange(0, all.len() as int) =~= all);
            while i < members.len()
                invariant
                    i <= members.len(),
                    members@ == all,
                    forall|k: Seq<char>| #[trigger] field_of(v, k) == member_value(all, k),
                    member_value(all, key@) == member_value(all.subrange(i as int, all.len() as int), key@),
                decreases members.len() - i,
            {
                let ghost rest = all.subrange(i as int, all.len() as int);
                assert(rest.drop_first() =~= all.subrange(i + 1, all.len() as int));
                assert(rest[0] == all[i as int]);
                if str_eq(members[i].key.as_str(), key) {
                    assert(member_value(rest, key@) == Some(rest[0].value));
                    let taken = members.remove(i);
                    assert forall|k: Seq<char>| k != key@ implies #[trigger] member_value(members@, k) == member_value(all, k) by {
                        lemma_member_remove(all, i as int, key@, k);
                    }
                    let r = JsonValue::Object(members);
                    assert(forall|k: Seq<char>| #[trigger] field_of(r, k) == member_value(members@, k));
                    assert(field_of(v, key@) == Some(taken.value));
                    return (r, Some(taken.value));
                }
                i = i + 1;
            }
            (JsonValue::Object(members), None)
        },
        other => (other, None),
    }
}

/// A string value holding `s`.
pub fn json_str(s: &str) -> (r: JsonValue)
    ensures
        r matches JsonValue::Str(x) && x@ == s@,
{
    JsonValue::Str(String::from_str(s))
}

/// Appends the member `key: value` to an object's members.
pub fn push_member(m: &mut Vec<JsonMember>, key: &str, value: JsonValue)
    ensures
        final(m)@ == old(m)@.push(JsonMember { key: final(m)@.last().key, value }),
        final(m)@.last().key@ == key@,
        forall|k: Seq<char>|
            #[trigger] member_value(final(m)@, k) == match member_value(old(m)@, k) {
                Some(v) => Some(v),
                None => if k == key@ {
                    Some(value)
                } else {
                    None
                },
            },
{
    let ghost before = m@;
    let ghost v = value;
    m.push(JsonMember { key: String::from_str(key), value });
    proof {
        assert forall|k: Seq<char>|
            #[trigger] member_value(m@, k) == match member_value(before, k) {
                Some(x) => Some(x),
                None => if k == key@ {
                    Some(v)
                } else {
                    None
                },
            } by {
            lemma_member_push(before, m@.last(), k);
        }
    }
}

/// What serde_json reads from a text: `None` where the text is no JSON document.
pub uninterp spec fn parsed_json(text: Seq<char>) -> Option<JsonValue>;

/// What `serde_json::to_string_pretty` writes for a value.
pub uninterp spec fn pretty_json(v: JsonValue) -> Seq<char>;

#[verifier::external_type_specification]
#[verifier::external_body]
pub struct ExSerdeValue(serde_json::Value);

/// Relies on `serde_json::from_str::<serde_json::Value>`: the document that the
/// text holds, or `None` where it holds none.
#[verifier::external_body]
pub(crate) fn serde_parse(text: &str) -> (r: Option<JsonValue>)
    ensures
        r == parsed_json(text@),
{
    serde_json::from_str::<SerdeValue>(text).ok().map(from_serde)
}

/// Relies on `serde_json::to_string_pretty` of the corresponding `serde_json::Value`.
#[verifier::external_body]
pub(crate) fn serde_pretty(v: &JsonValue) -> (r: String)
    ensures
        r@ == pretty_json(*v),
{
    serde_json::to_string_pretty(&to_serde(v)).unwrap_or_default()
}

/// Reads a JSON document: `None` where the text holds none.
pub fn parse_json(text: &str) -> (r: Option<JsonValue>)
    ensures
        r == parsed_json(text@),
{
    serde_parse(text)
}

/// Writes a value as indented JSON text.
pub fn to_pretty_json(v: &JsonValue) -> (r: String)
    ensures
        r@ == pretty_json(*v),
{
    serde_pretty(v)
}

/// Moves a `serde_json::Value` into the library's model, variant by variant.
#[verifier::external_body]
fn from_serde(v: SerdeValue) -> JsonValue {
    match v {
        SerdeValue::Null => JsonValue::Null,
        SerdeValue::Bool(b) => JsonValue::Bool(b),
        SerdeValue::Number(n) => match (n.as_i64(), n.as_u64()) {
            (Some(i), _) => JsonValue::Integer(i as i128),
            (None, Some(u)) => JsonValue::Integer(u as i128),
            (None, None) => JsonValue::Decimal(n.to_string()),
        },
        SerdeValue::String(s) => JsonValue::Str(s),
        SerdeValue::Array(a) => JsonValue::Array(a.into_iter().map(from_serde).collect()),
        SerdeValue::Object(m) => JsonValue::Object(
            m.into_iter().map(|(key, value)| JsonMember { key, value: from_serde(value) }).collect(),
        ),
    }
}

/// Builds the `serde_json::Value` of a model value, variant by variant.
#[verifier::external_body]
fn to_serde(v: &JsonValue) -> SerdeValue {
    match v {
        JsonValue::Null => SerdeValue::Null,
        JsonValue::Bool(b) => SerdeValue::Bool(*b),
        JsonValue::Integer(i) => serde_json::Number::from_i128(*i).map_or(SerdeValue::Null, SerdeValue::Number),
        JsonValue::Decimal(s) => s.parse::<serde_json::Number>().map_or(SerdeValue::Null, SerdeValue::Number),
        JsonValue::Str(s) => SerdeValue::String(s.clone()),
        JsonValue::Array(a) => SerdeValue::Array(a.iter().map(to_serde).collect()),
        JsonValue::Object(m) => SerdeValue::Object(m.iter().map(|e| (e.key.clone(), to_serde(&e.value))).collect()),
    }
}

} // verus!
