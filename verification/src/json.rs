//! An in-memory JSON value, its mathematical view, and the bridge to
//! `serde_json`, which does the work of reading and printing JSON text.
use vstd::prelude::*;

verus! {

/// A JSON value as the protocol uses it. Numbers are unsigned integers:
/// every number of the wire protocol is one, and a line holding any other
/// number is rejected by the codec, as a line holding a malformed value is.
#[derive(Debug)]
pub enum Json {
    Null,
    Bool(bool),
    UInt(u64),
    Str(String),
    Arr(Vec<Json>),
    Obj(Vec<(String, Json)>),
}

/// The mathematical shape of a [`Json`] value: strings become `Seq<char>`.
pub enum JsonV {
    Null,
    Bool(bool),
    UInt(u64),
    Str(Seq<char>),
    Arr(Seq<JsonV>),
    Obj(Seq<(Seq<char>, JsonV)>),
}

/// The view of a [`Json`] value.
pub open spec fn jv(j: Json) -> JsonV
    decreases j,
{
    match j {
        Json::Null => JsonV::Null,
        Json::Bool(b) => JsonV::Bool(b),
        Json::UInt(n) => JsonV::UInt(n),
        Json::Str(s) => JsonV::Str(s@),
        Json::Arr(items) => JsonV::Arr(jv_seq(items@)),
        Json::Obj(fields) => JsonV::Obj(jv_fields(fields@)),
    }
}

/// Views of the elements of an array.
pub open spec fn jv_seq(s: Seq<Json>) -> Seq<JsonV>
    decreases s,
{
    if s.len() == 0 {
        Seq::empty()
    } else {
        seq![jv(s[0])] + jv_seq(s.drop_first())
    }
}

/// Views of the fields of an object, in order.
pub open spec fn jv_fields(s: Seq<(String, Json)>) -> Seq<(Seq<char>, JsonV)>
    decreases s,
{
    if s.len() == 0 {
        Seq::empty()
    } else {
        seq![(s[0].0@, jv(s[0].1))] + jv_fields(s.drop_first())
    }
}

impl View for Json {
    type V = JsonV;

    open spec fn view(&self) -> JsonV {
        jv(*self)
    }
}

/// The value of the first field named `key`, if any.
pub open spec fn spec_lookup(fields: Seq<(Seq<char>, JsonV)>, key: Seq<char>) -> Option<JsonV>
    decreases fields,
{
    if fields.len() == 0 {
        None
    } else if fields[0].0 == key {
        Some(fields[0].1)
    } else {
        spec_lookup(fields.drop_first(), key)
    }
}

/// Finds the first field named `key` of an object's field list.
pub fn lookup<'a>(fields: &'a Vec<(String, Json)>, key: &str) -> (r: Option<&'a Json>)
    ensures
        match r {
            Some(j) => spec_lookup(jv_fields(fields@), key@) == Some(jv(*j)),
            None => spec_lookup(jv_fields(fields@), key@) is None,
        },
{
    let key_string: String = key.to_owned();
    let n = fields.len();
    proof {
        assert(fields@.skip(0) =~= fields@);
    }
    for i in 0..n
        invariant
            n == fields@.len(),
            key_string@ == key@,
            spec_lookup(jv_fields(fields@), key@) == spec_lookup(
                jv_fields(fields@.skip(i as int)),
                key@,
            ),
    {
        proof {
            lemma_jv_fields_first(fields@.skip(i as int));
            assert(fields@.skip(i as int).drop_first() =~= fields@.skip(i + 1));
        }
        if fields[i].0 == key_string {
            return Some(&fields[i].1);
        }
    }
    proof {
        assert(fields@.skip(n as int) =~= Seq::<(String, Json)>::empty());
    }
    None
}

/// Unfolds `jv_fields` by one field.
proof fn lemma_jv_fields_first(s: Seq<(String, Json)>)
    requires
        s.len() > 0,
    ensures
        jv_fields(s).len() == s.len(),
        jv_fields(s)[0] == (s[0].0@, jv(s[0].1)),
        jv_fields(s).drop_first() == jv_fields(s.drop_first()),
    decreases s,
{
    lemma_jv_fields_len(s);
    assert(jv_fields(s).drop_first() =~= jv_fields(s.drop_first()));
}

/// `jv_fields` keeps the number of fields.
pub proof fn lemma_jv_fields_len(s: Seq<(String, Json)>)
    ensures
        jv_fields(s).len() == s.len(),
    decreases s,
{
    if s.len() > 0 {
        lemma_jv_fields_len(s.drop_first());
    }
}

/// `jv_seq` keeps the number of elements.
pub proof fn lemma_jv_seq_len(s: Seq<Json>)
    ensures
        jv_seq(s).len() == s.len(),
    decreases s,
{
    if s.len() > 0 {
        lemma_jv_seq_len(s.drop_first());
    }
}

/// `jv_seq` distributes over concatenation.
pub proof fn lemma_jv_seq_concat(s1: Seq<Json>, s2: Seq<Json>)
    ensures
        jv_seq(s1 + s2) == jv_seq(s1) + jv_seq(s2),
    decreases s1,
{
    if s1.len() == 0 {
        assert(s1 + s2 =~= s2);
        assert(jv_seq(s1) + jv_seq(s2) =~= jv_seq(s2));
    } else {
        assert((s1 + s2).len() > 0);
        assert((s1 + s2)[0] == s1[0]);
        assert((s1 + s2).drop_first() =~= s1.drop_first() + s2);
        lemma_jv_seq_concat(s1.drop_first(), s2);
        assert(jv_seq(s1 + s2) =~= jv_seq(s1) + jv_seq(s2));
    }
}

/// The view of a one-element array.
pub proof fn lemma_jv_seq_singleton(x: Json)
    ensures
        jv_seq(seq![x]) == seq![jv(x)],
{
    reveal_with_fuel(jv_seq, 2);
    assert(seq![x].drop_first() =~= Seq::<Json>::empty());
    assert(jv_seq(seq![x]) =~= seq![jv(x)]);
}

/// `jv_seq` of a sequence extended by one element.
pub proof fn lemma_jv_seq_push(s: Seq<Json>, x: Json)
    ensures
        jv_seq(s.push(x)) == jv_seq(s).push(jv(x)),
{
    assert(s.push(x) =~= s + seq![x]);
    lemma_jv_seq_concat(s, seq![x]);
    lemma_jv_seq_singleton(x);
    assert(jv_seq(s) + seq![jv(x)] =~= jv_seq(s).push(jv(x)));
}

/// `jv_fields` distributes over concatenation.
pub proof fn lemma_jv_fields_concat(s1: Seq<(String, Json)>, s2: Seq<(String, Json)>)
    ensures
        jv_fields(s1 + s2) == jv_fields(s1) + jv_fields(s2),
    decreases s1,
{
    if s1.len() == 0 {
        assert(s1 + s2 =~= s2);
        assert(jv_fields(s1) + jv_fields(s2) =~= jv_fields(s2));
    } else {
        assert((s1 + s2).len() > 0);
        assert((s1 + s2)[0] == s1[0]);
        assert((s1 + s2).drop_first() =~= s1.drop_first() + s2);
        lemma_jv_fields_concat(s1.drop_first(), s2);
        assert(jv_fields(s1 + s2) =~= jv_fields(s1) + jv_fields(s2));
    }
}

/// The view of a one-field object.
pub proof fn lemma_jv_fields_singleton(x: (String, Json))
    ensures
        jv_fields(seq![x]) == seq![(x.0@, jv(x.1))],
{
    reveal_with_fuel(jv_fields, 2);
    assert(seq![x].drop_first() =~= Seq::<(String, Json)>::empty());
    assert(jv_fields(seq![x]) =~= seq![(x.0@, jv(x.1))]);
}

/// `jv_fields` of a field list extended by one field.
pub proof fn lemma_jv_fields_push(s: Seq<(String, Json)>, x: (String, Json))
    ensures
        jv_fields(s.push(x)) == jv_fields(s).push((x.0@, jv(x.1))),
{
    assert(s.push(x) =~= s + seq![x]);
    lemma_jv_fields_concat(s, seq![x]);
    lemma_jv_fields_singleton(x);
    assert(jv_fields(s) + seq![(x.0@, jv(x.1))] =~= jv_fields(s).push((x.0@, jv(x.1))));
}

/// `jv_fields`, field by field.
pub proof fn lemma_jv_fields_elems(s: Seq<(String, Json)>)
    ensures
        jv_fields(s).len() == s.len(),
        forall|i: int| 0 <= i < s.len() ==> #[trigger] jv_fields(s)[i] == (s[i].0@, jv(s[i].1)),
    decreases s,
{
    lemma_jv_fields_len(s);
    if s.len() > 0 {
        lemma_jv_fields_elems(s.drop_first());
        assert forall|i: int| 0 <= i < s.len() implies #[trigger] jv_fields(s)[i] == (
            s[i].0@,
            jv(s[i].1),
        ) by {
            if i > 0 {
                assert(jv_fields(s)[i] == jv_fields(s.drop_first())[i - 1]);
                assert(s.drop_first()[i - 1] == s[i]);
            }
        }
    }
}

/// Whether a key equals a literal.
pub fn str_is(k: &String, lit: &str) -> (b: bool)
    ensures
        b == (k@ == lit@),
{
    let l: String = lit.to_owned();
    *k == l
}

/// The views of a sequence of strings.
pub open spec fn strs_v(s: Seq<String>) -> Seq<Seq<char>> {
    s.map_values(|x: String| x@)
}

/// String sequences as JSON array elements.
pub open spec fn strings_items(s: Seq<Seq<char>>) -> Seq<JsonV> {
    s.map_values(|x: Seq<char>| JsonV::Str(x))
}

/// Integer sequences as JSON array elements.
pub open spec fn uints_items(s: Seq<u64>) -> Seq<JsonV> {
    s.map_values(|x: u64| JsonV::UInt(x))
}

/// The strings of a JSON array, if every element is a string.
pub open spec fn spec_strings(items: Seq<JsonV>) -> Option<Seq<Seq<char>>>
    decreases items,
{
    if items.len() == 0 {
        Some(Seq::empty())
    } else {
        match items[0] {
            JsonV::Str(s) => match spec_strings(items.drop_first()) {
                Some(rest) => Some(seq![s] + rest),
                None => None,
            },
            _ => None,
        }
    }
}

/// The integers of a JSON array, if every element is an integer.
pub open spec fn spec_uints(items: Seq<JsonV>) -> Option<Seq<u64>>
    decreases items,
{
    if items.len() == 0 {
        Some(Seq::empty())
    } else {
        match items[0] {
            JsonV::UInt(n) => match spec_uints(items.drop_first()) {
                Some(rest) => Some(seq![n] + rest),
                None => None,
            },
            _ => None,
        }
    }
}

/// Reads the elements of a JSON array as strings, from position `i` on.
fn parse_strings_from(items: &Vec<Json>, i: usize) -> (r: Option<Vec<String>>)
    requires
        i <= items@.len(),
    ensures
        match r {
            Some(v) => spec_strings(jv_seq(items@.skip(i as int))) == Some(strs_v(v@)),
            None => spec_strings(jv_seq(items@.skip(i as int))) is None,
        },
    decreases items@.len() - i,
{
    proof {
        lemma_jv_seq_len(items@.skip(i as int));
    }
    if i == items.len() {
        proof {
            assert(items@.skip(i as int) =~= Seq::<Json>::empty());
            assert(strs_v(Seq::<String>::empty()) =~= Seq::<Seq<char>>::empty());
        }
        Some(Vec::new())
    } else {
        proof {
            assert(items@.skip(i as int)[0] == items@[i as int]);
            assert(items@.skip(i as int).drop_first() =~= items@.skip(i + 1));
        }
        proof {
            assert(jv_seq(items@.skip(i as int)) =~= seq![jv(items@[i as int])] + jv_seq(
                items@.skip(i + 1),
            ));
            assert((seq![jv(items@[i as int])] + jv_seq(items@.skip(i + 1))).drop_first() =~= jv_seq(
                items@.skip(i + 1),
            ));
        }
        match &items[i] {
            Json::Str(s) => match parse_strings_from(items, i + 1) {
                Some(mut rest) => {
                    let ghost old_rest = rest@;
                    let cl = s.clone();
                    rest.insert(0, cl);
                    proof {
                        assert(rest@ =~= seq![cl] + old_rest);
                        assert(strs_v(rest@) =~= seq![s@] + strs_v(old_rest));
                    }
                    Some(rest)
                },
                None => None,
            },
            _ => None,
        }
    }
}

/// Reads a JSON array as a list of strings.
pub fn parse_strings(items: &Vec<Json>) -> (r: Option<Vec<String>>)
    ensures
        match r {
            Some(v) => spec_strings(jv_seq(items@)) == Some(strs_v(v@)),
            None => spec_strings(jv_seq(items@)) is None,
        },
{
    proof {
        assert(items@.skip(0) =~= items@);
    }
    parse_strings_from(items, 0)
}

/// Reads the elements of a JSON array as integers, from position `i` on.
fn parse_uints_from(items: &Vec<Json>, i: usize) -> (r: Option<Vec<u64>>)
    requires
        i <= items@.len(),
    ensures
        match r {
            Some(v) => spec_uints(jv_seq(items@.skip(i as int))) == Some(v@),
            None => spec_uints(jv_seq(items@.skip(i as int))) is None,
        },
    decreases items@.len() - i,
{
    proof {
        lemma_jv_seq_len(items@.skip(i as int));
    }
    if i == items.len() {
        proof {
            assert(items@.skip(i as int) =~= Seq::<Json>::empty());
        }
        Some(Vec::new())
    } else {
        proof {
            assert(items@.skip(i as int)[0] == items@[i as int]);
            assert(items@.skip(i as int).drop_first() =~= items@.skip(i + 1));
        }
        proof {
            assert(jv_seq(items@.skip(i as int)) =~= seq![jv(items@[i as int])] + jv_seq(
                items@.skip(i + 1),
            ));
            assert((seq![jv(items@[i as int])] + jv_seq(items@.skip(i + 1))).drop_first() =~= jv_seq(
                items@.skip(i + 1),
            ));
        }
        match &items[i] {
            Json::UInt(n) => match parse_uints_from(items, i + 1) {
                Some(mut rest) => {
                    let ghost old_rest = rest@;
                    let n = *n;
                    rest.insert(0, n);
                    proof {
                        assert(rest@ =~= seq![n] + old_rest);
                    }
                    Some(rest)
                },
                None => None,
            },
            _ => None,
        }
    }
}

/// Reads a JSON array as a list of integers.
pub fn parse_uints(items: &Vec<Json>) -> (r: Option<Vec<u64>>)
    ensures
        match r {
            Some(v) => spec_uints(jv_seq(items@)) == Some(v@),
            None => spec_uints(jv_seq(items@)) is None,
        },
{
    proof {
        assert(items@.skip(0) =~= items@);
    }
    parse_uints_from(items, 0)
}

/// Builds the JSON array holding the given strings.
pub fn build_strings(v: &Vec<String>) -> (j: Json)
    ensures
        jv(j) == JsonV::Arr(strings_items(strs_v(v@))),
{
    let mut items: Vec<Json> = Vec::new();
    let n = v.len();
    for i in 0..n
        invariant
            n == v@.len(),
            jv_seq(items@) =~= strings_items(strs_v(v@.take(i as int))),
    {
        let x = Json::Str(v[i].clone());
        proof {
            lemma_jv_seq_push(items@, x);
            assert(v@.take(i + 1) =~= v@.take(i as int).push(v@[i as int]));
            assert(jv_seq(items@.push(x)) =~= strings_items(strs_v(v@.take(i + 1))));
        }
        items.push(x);
    }
    proof {
        assert(v@.take(n as int) =~= v@);
    }
    Json::Arr(items)
}

/// Builds the JSON array holding the given integers.
pub fn build_uints(v: &Vec<u64>) -> (j: Json)
    ensures
        jv(j) == JsonV::Arr(uints_items(v@)),
{
    let mut items: Vec<Json> = Vec::new();
    let n = v.len();
    for i in 0..n
        invariant
            n == v@.len(),
            jv_seq(items@) =~= uints_items(v@.take(i as int)),
    {
        let x = Json::UInt(v[i]);
        proof {
            lemma_jv_seq_push(items@, x);
            assert(v@.take(i + 1) =~= v@.take(i as int).push(v@[i as int]));
            assert(jv_seq(items@.push(x)) =~= uints_items(v@.take(i + 1)));
        }
        items.push(x);
    }
    proof {
        assert(v@.take(n as int) =~= v@);
    }
    Json::Arr(items)
}

/// What `serde_json` parses a given text to, if anything: one whole JSON
/// document whose numbers are unsigned 64-bit integers.
pub uninterp spec fn parsed_of(s: Seq<char>) -> Option<JsonV>;

/// The text that `serde_json` prints a given value to.
pub uninterp spec fn text_of(j: JsonV) -> Seq<char>;

/// Relies on `serde_json::from_str::<serde_json::Value>`: it parses the text
/// as one whole JSON document, deterministically, or fails. The result is
/// converted to [`Json`] by [`value_to_json`]; both steps together are the
/// function named by [`parsed_of`].
#[verifier::external_body]
pub fn parse_json(s: &str) -> (r: Option<Json>)
    ensures
        match r {
            Some(j) => parsed_of(s@) == Some(jv(j)),
            None => parsed_of(s@) is None,
        },
{
    match serde_json::from_str::<serde_json::Value>(s) {
        Ok(v) => value_to_json(v),
        Err(_) => None,
    }
}

/// The declaration of `serde_json`'s value type, so that the converters
/// below may take and return it. The library never looks inside one.
#[verifier::external_type_specification]
#[verifier::external_body]
pub struct ExValue(serde_json::Value);

/// Relies on the variant accessors of `serde_json::Value`: converts a parsed
/// value, variant by variant, to the library's [`Json`]. A number that is not
/// an unsigned 64-bit integer has no counterpart and yields `None`. Only
/// [`parse_json`] calls this; its contract covers both together.
#[verifier::external_body]
fn value_to_json(v: serde_json::Value) -> (r: Option<Json>)
{
    match v {
        serde_json::Value::Null => Some(Json::Null),
        serde_json::Value::Bool(b) => Some(Json::Bool(b)),
        serde_json::Value::Number(n) => n.as_u64().map(Json::UInt),
        serde_json::Value::String(s) => Some(Json::Str(s)),
        serde_json::Value::Array(a) => a.into_iter().map(value_to_json).collect::<Option<
            Vec<Json>,
        >>().map(Json::Arr),
        serde_json::Value::Object(m) => m.into_iter().map(
            |kv: (String, serde_json::Value)| value_to_json(kv.1).map(|j| (kv.0, j)),
        ).collect::<Option<Vec<(String, Json)>>>().map(Json::Obj),
    }
}

/// Relies on `serde_json::to_string`: it prints a JSON value to one line of
/// text, deterministically, keeping the order of an object's fields, and
/// cannot fail on a value. With the conversion of [`json_to_value`] the two
/// steps are the function named by [`text_of`].
#[verifier::external_body]
pub fn json_text(j: &Json) -> (r: String)
    ensures
        r@ == text_of(jv(*j)),
{
    serde_json::to_string(&json_to_value(j)).unwrap_or_default()
}

/// Relies on the variant constructors of `serde_json::Value`: converts the
/// library's [`Json`], variant by variant, to a value to be printed. Only
/// [`json_text`] calls this; its contract covers both together.
#[verifier::external_body]
fn json_to_value(j: &Json) -> (r: serde_json::Value)
{
    match j {
        Json::Null => serde_json::Value::Null,
        Json::Bool(b) => serde_json::Value::Bool(*b),
        Json::UInt(n) => serde_json::Value::Number(serde_json::Number::from(*n)),
        Json::Str(s) => serde_json::Value::String(s.clone()),
        Json::Arr(items) => serde_json::Value::Array(items.iter().map(json_to_value).collect()),
        Json::Obj(fields) => serde_json::Value::Object(
            fields.iter().map(|kv: &(String, Json)| (kv.0.clone(), json_to_value(&kv.1))).collect(),
        ),
    }
}

} // verus!
