//! Writing the JSON documents stored with tasks and artifacts, and reading
//! fields of a task's stored result document.

use vstd::prelude::*;

verus! {

/// The text under `key` in the JSON document `doc`: `None` when `doc` is not
/// JSON, has no such key, or holds something other than a string there.
pub uninterp spec fn json_text_field(doc: Seq<char>, key: Seq<char>) -> Option<Seq<char>>;

/// The unsigned integer under `key` in the JSON document `doc`: `None` when
/// `doc` is not JSON, has no such key, or holds something there that is not an
/// integer fitting in 64 unsigned bits.
pub uninterp spec fn json_u64_field(doc: Seq<char>, key: Seq<char>) -> Option<u64>;

/// The characters of an optional text.
pub open spec fn text_view(o: Option<String>) -> Option<Seq<char>> {
    match o {
        Some(s) => Some(s@),
        None => None,
    }
}

/// Calls `serde_json::from_str::<serde_json::Value>`, then `Value::get` with the
/// key and `Value::as_str`. Claimed: the result is what these calls give for
/// the document and the key (named `json_text_field`); which text that is on
/// given values is left unsaid.
#[verifier::external_body]
fn json_text(doc: &str, key: &str) -> (r: Option<String>)
    ensures
        text_view(r) == json_text_field(doc@, key@),
{
    let parsed: Result<serde_json::Value, serde_json::Error> = serde_json::from_str(doc);
    match parsed {
        Ok(v) => match v.get(key) {
            Some(x) => match x.as_str() {
                Some(s) => Some(s.to_string()),
                None => None,
            },
            None => None,
        },
        Err(_) => None,
    }
}

/// Calls `serde_json::from_str::<serde_json::Value>`, then `Value::get` with the
/// key and `Value::as_u64`. Claimed: the result is what these calls give for
/// the document and the key (named `json_u64_field`); which number that is on
/// given values is left unsaid.
#[verifier::external_body]
fn json_u64(doc: &str, key: &str) -> (r: Option<u64>)
    ensures
        r == json_u64_field(doc@, key@),
{
    let parsed: Result<serde_json::Value, serde_json::Error> = serde_json::from_str(doc);
    match parsed {
        Ok(v) => match v.get(key) {
            Some(x) => x.as_u64(),
            None => None,
        },
        Err(_) => None,
    }
}

/// The text under `key` in a stored result document, if there is a document.
pub open spec fn stored_text(doc: Option<String>, key: Seq<char>) -> Option<Seq<char>> {
    match doc {
        Some(j) => json_text_field(j@, key),
        None => None,
    }
}

/// The unsigned integer under `key` in a stored result document, if there is a
/// document.
pub open spec fn stored_u64(doc: Option<String>, key: Seq<char>) -> Option<u64> {
    match doc {
        Some(j) => json_u64_field(j@, key),
        None => None,
    }
}

/// Reads the text under `key` from a stored result document.
pub fn stored_text_field(doc: &Option<String>, key: &str) -> (r: Option<String>)
    ensures
        text_view(r) == stored_text(*doc, key@),
{
    match doc {
        Some(j) => json_text(j.as_str(), key),
        None => None,
    }
}

/// Reads the unsigned integer under `key` from a stored result document.
pub fn stored_u64_field(doc: &Option<String>, key: &str) -> (r: Option<u64>)
    ensures
        r == stored_u64(*doc, key@),
{
    match doc {
        Some(j) => json_u64(j.as_str(), key),
        None => None,
    }
}

/// A value the services write into a document: a text or an unsigned integer.
#[derive(Debug, Clone)]
pub enum JsonScalar {
    Text(String),
    Unsigned(u64),
}

/// The mathematical value of a [`JsonScalar`].
pub enum JsonScalarView {
    Text(Seq<char>),
    Unsigned(u64),
}

impl View for JsonScalar {
    type V = JsonScalarView;

    open spec fn view(&self) -> JsonScalarView {
        match self {
            JsonScalar::Text(t) => JsonScalarView::Text(t@),
            JsonScalar::Unsigned(n) => JsonScalarView::Unsigned(*n),
        }
    }
}

/// serde_json's object type, opaque to proofs: what it holds is told by
/// `json_entries`.
#[verifier::external_type_specification]
#[verifier::external_body]
#[verifier::reject_recursive_types(K)]
#[verifier::reject_recursive_types(V)]
pub struct ExJsonMap<K, V>(serde_json::Map<K, V>);

/// serde_json's value type, opaque to proofs.
#[verifier::external_type_specification]
#[verifier::external_body]
pub struct ExJsonValue(serde_json::Value);

/// A JSON object being written.
pub type JsonObject = serde_json::Map<String, serde_json::Value>;

/// The entries of a JSON object being written, by key.
pub uninterp spec fn json_entries(m: JsonObject) -> Map<Seq<char>, JsonScalarView>;

/// The compact JSON text of an object with these entries.
pub uninterp spec fn json_object_text(entries: Map<Seq<char>, JsonScalarView>) -> Seq<char>;

/// The text entry under `k`, if there is one.
pub open spec fn text_entry(entries: Map<Seq<char>, JsonScalarView>, k: Seq<char>) -> Option<Seq<char>> {
    if entries.contains_key(k) {
        match entries[k] {
            JsonScalarView::Text(t) => Some(t),
            JsonScalarView::Unsigned(_) => None,
        }
    } else {
        None
    }
}

/// The unsigned entry under `k`, if there is one.
pub open spec fn unsigned_entry(entries: Map<Seq<char>, JsonScalarView>, k: Seq<char>) -> Option<u64> {
    if entries.contains_key(k) {
        match entries[k] {
            JsonScalarView::Unsigned(n) => Some(n),
            JsonScalarView::Text(_) => None,
        }
    } else {
        None
    }
}

/// `doc` reads back as an object with exactly these entries: under every key
/// it has the text or the number the entries hold there, and nothing where
/// they hold nothing.
pub open spec fn reads_back(doc: Seq<char>, entries: Map<Seq<char>, JsonScalarView>) -> bool {
    &&& forall|k: Seq<char>| #[trigger] json_text_field(doc, k) == text_entry(entries, k)
    &&& forall|k: Seq<char>| #[trigger] json_u64_field(doc, k) == unsigned_entry(entries, k)
}

/// Calls `serde_json::Map::new`. Claimed: the new object has no entries
/// (those of the empty list).
#[verifier::external_body]
fn json_map_new() -> (r: JsonObject)
    ensures
        json_entries(r) == entries_of(Seq::empty()),
{
    serde_json::Map::new()
}

/// Calls `serde_json::Map::insert` with the key and the value as a JSON string
/// or number. Claimed: the entry under the key is now that value, and the
/// other entries are as they were.
#[verifier::external_body]
fn json_map_insert(m: &mut JsonObject, key: String, value: JsonScalar)
    ensures
        json_entries(*final(m)) == json_entries(*old(m)).insert(key@, value@),
{
    let v = match value {
        JsonScalar::Text(t) => serde_json::Value::String(t),
        JsonScalar::Unsigned(n) => serde_json::Value::from(n),
    };
    m.insert(key, v);
}

/// Writes the object with `serde_json::Value::Object` and its `Display`
/// (compact text). Claimed: the text is the one for these entries (named
/// `json_object_text`; serde_json is built without its `preserve_order`
/// feature, so keys are written in sorted order whatever the order of
/// insertion), and parsing it back gives, under every key, the string or the
/// number that was written there, and nothing under other keys.
#[verifier::external_body]
fn json_map_text(m: JsonObject) -> (r: String)
    ensures
        r@ == json_object_text(json_entries(m)),
        reads_back(r@, json_entries(m)),
{
    serde_json::Value::Object(m).to_string()
}

/// A JSON object holding exactly the given entries, a later entry under a
/// key replacing an earlier one.
pub open spec fn entries_of(s: Seq<(String, JsonScalar)>) -> Map<Seq<char>, JsonScalarView>
    decreases s.len(),
{
    if s.len() == 0 {
        Map::empty()
    } else {
        entries_of(s.drop_last()).insert(s.last().0@, s.last().1@)
    }
}

/// Writes a JSON object holding `entries`, in compact form.
pub fn json_object(entries: Vec<(String, JsonScalar)>) -> (r: String)
    ensures
        r@ == json_object_text(entries_of(entries@)),
        reads_back(r@, entries_of(entries@)),
{
    let ghost all = entries@;
    let mut m = json_map_new();
    for e in it: entries
        invariant
            it.seq() == all,
            json_entries(m) == entries_of(all.take(it.index() as int)),
    {
        proof {
            assert(all.take(it.index() as int + 1).drop_last() =~= all.take(it.index() as int));
        }
        let (k, v) = e;
        json_map_insert(&mut m, k, v);
    }
    proof {
        assert(all.take(all.len() as int) =~= all);
    }
    json_map_text(m)
}

} // verus!
