//! The library's own model of a JSON document.
//!
//! Frames arrive as raw text; the session logic only ever reads and
//! rewrites a few envelope fields, so the document is modelled as a
//! plain recursive value and objects as field lists with unique keys,
//! looked up by first match.

use vstd::prelude::*;

verus! {

/// One `key: value` member of a JSON object.
pub struct JsonField {
    pub key: String,
    pub value: JsonValue,
}

/// A JSON document. Numbers that fit `i64` are kept exactly; any other
/// numeric literal is carried through as its source text.
pub enum JsonValue {
    Null,
    Bool(bool),
    Int(i64),
    BigNum(String),
    Str(String),
    Arr(Vec<JsonValue>),
    Obj(Vec<JsonField>),
}

/// The value of the first member named `key`, if any.
pub open spec fn lookup(fields: Seq<JsonField>, key: Seq<char>) -> Option<JsonValue>
    decreases fields.len(),
{
    if fields.len() == 0 {
        None
    } else if fields[0].key@ == key {
        Some(fields[0].value)
    } else {
        lookup(fields.drop_first(), key)
    }
}

proof fn lemma_lookup_skip_prefix(s: Seq<JsonField>, k: Seq<char>, i: int)
    requires
        0 <= i <= s.len(),
        forall|j: int| 0 <= j < i ==> s[j].key@ != k,
    ensures
        lookup(s, k) == lookup(s.skip(i), k),
    decreases i,
{
    if i > 0 {
        assert(s.drop_first().skip(i - 1) =~= s.skip(i));
        lemma_lookup_skip_prefix(s.drop_first(), k, i - 1);
    } else {
        assert(s.skip(0) =~= s);
    }
}

proof fn lemma_lookup_update_other(s: Seq<JsonField>, i: int, f: JsonField, k: Seq<char>)
    requires
        0 <= i < s.len(),
        s[i].key@ == f.key@,
        f.key@ != k,
    ensures
        lookup(s.update(i, f), k) == lookup(s, k),
    decreases i,
{
    let t = s.update(i, f);
    if i == 0 {
        assert(t.drop_first() =~= s.drop_first());
    } else {
        assert(t.drop_first() =~= s.drop_first().update(i - 1, f));
        lemma_lookup_update_other(s.drop_first(), i - 1, f, k);
    }
}

proof fn lemma_lookup_update_same(s: Seq<JsonField>, i: int, f: JsonField)
    requires
        0 <= i < s.len(),
        forall|j: int| 0 <= j < i ==> s[j].key@ != f.key@,
    ensures
        lookup(s.update(i, f), f.key@) == Some(f.value),
    decreases i,
{
    let t = s.update(i, f);
    if i == 0 {
        assert(t[0] == f);
    } else {
        assert(t.drop_first() =~= s.drop_first().update(i - 1, f));
        lemma_lookup_update_same(s.drop_first(), i - 1, f);
    }
}

proof fn lemma_lookup_push_other(s: Seq<JsonField>, f: JsonField, k: Seq<char>)
    requires
        f.key@ != k,
    ensures
        lookup(s.push(f), k) == lookup(s, k),
    decreases s.len(),
{
    if s.len() == 0 {
        reveal_with_fuel(lookup, 2);
        assert(s.push(f)[0] == f);
        assert(s.push(f).drop_first() =~= Seq::<JsonField>::empty());
    } else {
        assert(s.push(f)[0] == s[0]);
        assert(s.push(f).drop_first() =~= s.drop_first().push(f));
        lemma_lookup_push_other(s.drop_first(), f, k);
    }
}

proof fn lemma_lookup_push_same(s: Seq<JsonField>, f: JsonField)
    requires
        forall|j: int| 0 <= j < s.len() ==> s[j].key@ != f.key@,
    ensures
        lookup(s.push(f), f.key@) == Some(f.value),
    decreases s.len(),
{
    if s.len() == 0 {
        assert(s.push(f)[0] == f);
    } else {
        assert(s.push(f).drop_first() =~= s.drop_first().push(f));
        lemma_lookup_push_same(s.drop_first(), f);
    }
}

/// Replace the first member named `key`, or append one; every other
/// member keeps its value.
pub fn set_field(fields: &mut Vec<JsonField>, key: String, value: JsonValue)
    ensures
        lookup((*final(fields))@, key@) == Some(value),
        forall|k: Seq<char>| k != key@ ==> lookup((*final(fields))@, k) == lookup((*old(fields))@, k),
{
    let n = fields.len();
    let mut i: usize = 0;
    while i < n
        invariant
            n == fields.len(),
            i <= n,
            fields@ == (*old(fields))@,
            forall|j: int| 0 <= j < i ==> fields@[j].key@ != key@,
        decreases n - i,
    {
        if fields[i].key == key {
            let ghost pre = fields@;
            let ghost ii = i as int;
            let f = JsonField { key, value };
            let ghost fg = f;
            fields[i] = f;
            proof {
                assert(fields@ =~= pre.update(ii, fg));
                lemma_lookup_update_same(pre, ii, fg);
                assert forall|k: Seq<char>| k != fg.key@ implies lookup(fields@, k) == lookup(
                    pre,
                    k,
                ) by {
                    lemma_lookup_update_other(pre, ii, fg, k);
                }
            }
            return ;
        }
        i = i + 1;
    }
    let ghost pre = fields@;
    let f = JsonField { key, value };
    let ghost fg = f;
    fields.push(f);
    proof {
        lemma_lookup_push_same(pre, fg);
        assert forall|k: Seq<char>| k != fg.key@ implies lookup(fields@, k) == lookup(pre, k) by {
            lemma_lookup_push_other(pre, fg, k);
        }
    }
}

/// The first member named `key`, read without copying the document.
pub fn get_field<'a>(fields: &'a Vec<JsonField>, key: &String) -> (r: Option<&'a JsonValue>)
    ensures
        match r {
            Some(v) => lookup(fields@, key@) == Some(*v),
            None => lookup(fields@, key@) is None,
        },
{
    let n = fields.len();
    let mut i: usize = 0;
    while i < n
        invariant
            n == fields.len(),
            i <= n,
            forall|j: int| 0 <= j < i ==> fields@[j].key@ != key@,
        decreases n - i,
    {
        if fields[i].key == *key {
            proof {
                lemma_lookup_skip_prefix(fields@, key@, i as int);
                assert(fields@.skip(i as int)[0] == fields@[i as int]);
            }
            return Some(&fields[i].value);
        }
        i = i + 1;
    }
    proof {
        lemma_lookup_skip_prefix(fields@, key@, n as int);
        assert(fields@.skip(n as int) =~= Seq::<JsonField>::empty());
    }
    None
}

/// The value of the first member named `key`, taken out of the object
/// by move.
pub fn take_field(work: &mut Vec<JsonField>, key: &String) -> (r: Option<JsonValue>)
    ensures
        r matches Some(v) ==> lookup((*old(work))@, key@) == Some(v),
        r is None ==> lookup((*old(work))@, key@) is None,
{
    let n = work.len();
    let mut i: usize = 0;
    while i < n
        invariant
            n == work.len(),
            i <= n,
            work@ == (*old(work))@,
            forall|j: int| 0 <= j < i ==> work@[j].key@ != key@,
        decreases n - i,
    {
        if work[i].key == *key {
            proof {
                lemma_lookup_skip_prefix((*old(work))@, key@, i as int);
                assert((*old(work))@.skip(i as int)[0] == (*old(work))@[i as int]);
                assert(lookup((*old(work))@, key@) == Some((*old(work))@[i as int].value));
            }
            let f = work.remove(i);
            assert(f == (*old(work))@[i as int]);
            return Some(f.value);
        }
        i = i + 1;
    }
    proof {
        lemma_lookup_skip_prefix((*old(work))@, key@, n as int);
        assert((*old(work))@.skip(n as int) =~= Seq::<JsonField>::empty());
    }
    None
}

/// `serde_json`'s own document type, opaque here: it only passes
/// through the trusted conversion below.
#[verifier::external_type_specification]
#[verifier::external_body]
pub struct ExSerdeValue(serde_json::Value);

/// What `serde_json` reads out of a text frame, carried over into the
/// library's own model; `None` when the text is not well-formed JSON.
pub uninterp spec fn json_of(s: Seq<char>) -> Option<JsonValue>;

/// Relies on `serde_json::from_str`: the parse is a function of the
/// input text alone; the body only converts the parsed tree, node by
/// node, into the library's own model.
#[verifier::external_body]
pub fn parse_json(s: &str) -> (r: Option<JsonValue>)
    ensures
        r == json_of(s@),
{
    serde_json::from_str::<serde_json::Value>(s).ok().map(convert_value)
}

/// Relies on nothing of its own: a one-for-one conversion of a
/// `serde_json::Value` node into the library's model, used only by
/// [`parse_json`].
#[verifier::external_body]
fn convert_value(v: serde_json::Value) -> JsonValue {
    match v {
        serde_json::Value::Null => JsonValue::Null,
        serde_json::Value::Bool(b) => JsonValue::Bool(b),
        serde_json::Value::Number(n) => match n.as_i64() {
            Some(i) => JsonValue::Int(i),
            None => JsonValue::BigNum(n.to_string()),
        },
        serde_json::Value::String(s) => JsonValue::Str(s),
        serde_json::Value::Array(a) => JsonValue::Arr(a.into_iter().map(convert_value).collect()),
        serde_json::Value::Object(m) => JsonValue::Obj(
            m.into_iter().map(|(key, value)| JsonField { key, value: convert_value(value) }).collect(),
        ),
    }
}

} // verus!
