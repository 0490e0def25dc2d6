use serde_json::Value;
use vstd::prelude::*;

verus! {

#[verifier::external_type_specification]
#[verifier::external_body]
pub struct ExValue(Value);

#[verifier::external_type_specification]
#[verifier::external_body]
pub struct ExJsonError(serde_json::Error);

/// A JSON document as plain values; an object lists its members in the
/// order in which its map yields them.
pub enum Json {
    Null,
    Bool(bool),
    Number,
    Str(Seq<char>),
    Array(Seq<Json>),
    Object(Seq<(Seq<char>, Json)>),
}

/// What a `Value` holds.
pub uninterp spec fn json_model(v: Value) -> Json;

/// The members that a JSON object map holds, in its order.
pub uninterp spec fn json_members(m: serde_json::Map<String, Value>) -> Seq<(Seq<char>, Json)>;

/// The document that `serde_json::from_str` reads from a text, if it is JSON.
pub uninterp spec fn parsed(text: Seq<char>) -> Option<Json>;

/// The value of the last member named `k`.
pub open spec fn members_get(es: Seq<(Seq<char>, Json)>, k: Seq<char>) -> Option<Json>
    decreases es.len(),
{
    if es.len() == 0 {
        None
    } else if es.last().0 == k {
        Some(es.last().1)
    } else {
        members_get(es.drop_last(), k)
    }
}

/// The member `k` of an object; `None` for an absent key or another kind.
pub open spec fn obj_get(j: Json, k: Seq<char>) -> Option<Json> {
    match j {
        Json::Object(es) => members_get(es, k),
        _ => None,
    }
}

/// The member `k` of an optional object.
pub open spec fn section_get(sec: Option<Json>, k: Seq<char>) -> Option<Json> {
    match sec {
        Some(j) => obj_get(j, k),
        None => None,
    }
}

/// The strings of an array whose items are all strings.
pub open spec fn all_strs(items: Seq<Json>) -> Option<Seq<Seq<char>>>
    decreases items.len(),
{
    if items.len() == 0 {
        Some(Seq::empty())
    } else {
        match (all_strs(items.drop_last()), items.last()) {
            (Some(p), Json::Str(x)) => Some(p.push(x)),
            _ => None,
        }
    }
}

/// A string member as found: absent (`None`), a string, or another kind (`Some(None)`).
pub open spec fn text_member(sec: Option<Json>, k: Seq<char>) -> Option<Option<Seq<char>>> {
    match section_get(sec, k) {
        None => None,
        Some(Json::Str(s)) => Some(Some(s)),
        Some(_) => Some(None),
    }
}

/// A list-of-strings member as found: absent, its strings, or invalid (`Some(None)`).
pub open spec fn list_member(sec: Option<Json>, k: Seq<char>) -> Option<Option<Seq<Seq<char>>>> {
    match section_get(sec, k) {
        None => None,
        Some(Json::Array(items)) => Some(all_strs(items)),
        Some(_) => Some(None),
    }
}

/// What a found text member gives: the text, `d` where absent, `None` where invalid.
pub open spec fn value_or(x: Option<Option<Seq<char>>>, d: Seq<char>) -> Option<Seq<char>> {
    match x {
        None => Some(d),
        Some(v) => v,
    }
}

/// What a found list member gives: the strings, none where absent, `None` where invalid.
pub open spec fn items_value(x: Option<Option<Seq<Seq<char>>>>) -> Option<Seq<Seq<char>>> {
    match x {
        None => Some(Seq::empty()),
        Some(v) => v,
    }
}

pub open spec fn opt_model(v: Option<&Value>) -> Option<Json> {
    match v {
        Some(x) => Some(json_model(*x)),
        None => None,
    }
}

/// Relies on `serde_json::from_str`: the document, or an error for text that is
/// not JSON; the document depends on the text alone.
#[verifier::external_body]
pub fn parse_value(text: &str) -> (r: Result<Value, serde_json::Error>)
    ensures
        r is Ok <==> parsed(text@) is Some,
        r matches Ok(v) ==> parsed(text@) == Some(json_model(v)),
{
    serde_json::from_str(text)
}

/// Relies on `Value::get` with a key: the member of an object, `None` where
/// the key is absent or the value is not an object.
#[verifier::external_body]
pub fn member(v: &Value, key: &str) -> (r: Option<Value>)
    ensures
        r is Some <==> obj_get(json_model(*v), key@) is Some,
        r matches Some(m) ==> obj_get(json_model(*v), key@) == Some(json_model(m)),
{
    v.get(key).cloned()
}

/// Relies on `Value::as_str`: the text of a string value, `None` for any other kind.
#[verifier::external_body]
pub fn text_of(v: &Value) -> (r: Option<String>)
    ensures
        r is Some <==> json_model(*v) is Str,
        r matches Some(s) ==> json_model(*v) == Json::Str(s@),
{
    v.as_str().map(|s| s.to_string())
}

/// Relies on `Value::as_array`: the items of an array, `None` for any other kind.
#[verifier::external_body]
pub fn items_of(v: &Value) -> (r: Option<Vec<Value>>)
    ensures
        r is Some <==> json_model(*v) is Array,
        r matches Some(items) ==> json_model(*v) == Json::Array(
            items@.map_values(|x: Value| json_model(x)),
        ),
{
    v.as_array().cloned()
}

#[verifier::external_type_specification]
#[verifier::external_body]
#[verifier::reject_recursive_types(K)]
#[verifier::reject_recursive_types(V)]
pub struct ExJsonMap<K, V>(serde_json::Map<K, V>);

/// Relies on `Value::as_object`: the members of an object, `None` for any other kind.
#[verifier::external_body]
pub fn object_of(v: &Value) -> (r: Option<serde_json::Map<String, Value>>)
    ensures
        r is Some <==> json_model(*v) is Object,
        r matches Some(m) ==> json_model(*v) == Json::Object(json_members(m)),
{
    v.as_object().cloned()
}

/// Relies on `Map::keys`: the member names of an object, in its order.
#[verifier::external_body]
pub fn keys_of(m: &serde_json::Map<String, Value>) -> (r: Vec<String>)
    ensures
        r.deep_view() == json_members(*m).map_values(|p: (Seq<char>, Json)| p.0),
{
    m.keys().cloned().collect()
}

/// A string member of a document, as it was found.
pub enum TextField {
    Absent,
    Text(String),
    /// Present, but not a string.
    Invalid,
}

/// A member of a document that should hold a list of strings, as it was found.
pub enum ListField {
    Absent,
    Items(Vec<String>),
    /// Present, but not an array of strings.
    Invalid,
}

/// The text a field gives, with `d` standing in for an absent one; `None` where it is invalid.
pub open spec fn text_or(f: TextField, d: Seq<char>) -> Option<Seq<char>> {
    value_or(tf_view(f), d)
}

/// The items a field gives, with no items for an absent one; `None` where it is invalid.
pub open spec fn items_or_none(f: ListField) -> Option<Seq<Seq<char>>> {
    items_value(lf_view(f))
}

/// What a found text field records: absent, a string, or another kind.
pub open spec fn tf_view(f: TextField) -> Option<Option<Seq<char>>> {
    match f {
        TextField::Absent => None,
        TextField::Text(s) => Some(Some(s@)),
        TextField::Invalid => Some(None),
    }
}

/// What a found list field records: absent, its strings, or invalid.
pub open spec fn lf_view(f: ListField) -> Option<Option<Seq<Seq<char>>>> {
    match f {
        ListField::Absent => None,
        ListField::Items(v) => Some(Some(v.deep_view())),
        ListField::Invalid => Some(None),
    }
}

/// The member `key` of `v` as a string field.
pub fn read_text(v: Option<&Value>, key: &str) -> (r: TextField)
    ensures
        tf_view(r) == text_member(opt_model(v), key@),
{
    match v {
        None => TextField::Absent,
        Some(obj) => match member(obj, key) {
            None => TextField::Absent,
            Some(m) => match text_of(&m) {
                Some(s) => TextField::Text(s),
                None => TextField::Invalid,
            },
        },
    }
}

proof fn lemma_all_strs_prefix(items: Seq<Json>, n: int)
    requires
        0 <= n <= items.len(),
        all_strs(items.subrange(0, n)) is None,
    ensures
        all_strs(items) is None,
    decreases items.len() - n,
{
    if n < items.len() {
        assert(items.subrange(0, n + 1).drop_last() =~= items.subrange(0, n));
        lemma_all_strs_prefix(items, n + 1);
    } else {
        assert(items.subrange(0, n) =~= items);
    }
}

/// The member `key` of `v` as a list of strings.
pub fn read_list(v: Option<&Value>, key: &str) -> (r: ListField)
    ensures
        lf_view(r) == list_member(opt_model(v), key@),
{
    let m = match v {
        None => {
            return ListField::Absent;
        },
        Some(obj) => member(obj, key),
    };
    let m = match m {
        None => {
            return ListField::Absent;
        },
        Some(m) => m,
    };
    let items = match items_of(&m) {
        None => {
            return ListField::Invalid;
        },
        Some(items) => items,
    };
    let ghost model = match json_model(m) {
        Json::Array(a) => a,
        _ => Seq::empty(),
    };
    let mut out: Vec<String> = Vec::new();
    let mut i: usize = 0;
    assert(model.subrange(0, 0) =~= Seq::<Json>::empty());
    assert(forall|j: int| 0 <= j < items@.len() ==> model[j] == json_model(#[trigger] items@[j]));
    while i < items.len()
        invariant
            i <= items@.len(),
            json_model(m) == Json::Array(model),
            section_get(opt_model(v), key@) == Some(json_model(m)),
            model.len() == items@.len(),
            forall|j: int| 0 <= j < items@.len() ==> model[j] == json_model(#[trigger] items@[j]),
            all_strs(model.subrange(0, i as int)) == Some(out.deep_view()),
        decreases items@.len() - i,
    {
        let ghost before = out.deep_view();
        assert(model.subrange(0, i + 1).drop_last() =~= model.subrange(0, i as int));
        assert(model.subrange(0, i + 1).last() == json_model(items@[i as int]));
        match text_of(&items[i]) {
            Some(s) => {
                out.push(s);
                assert(out.deep_view() =~= before.push(s@));
            },
            None => {
                proof {
                    let pre = model.subrange(0, i + 1);
                    assert(!(pre.last() is Str));
                    assert(all_strs(pre) is None);
                    lemma_all_strs_prefix(model, i + 1);
                }
                return ListField::Invalid;
            },
        }
        i = i + 1;
    }
    assert(model.subrange(0, i as int) =~= model);
    ListField::Items(out)
}

} // verus!
