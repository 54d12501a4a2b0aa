//! The JSON payloads of graph records: property maps and conflicting values
//! are stored in the graph as JSON text.

use std::collections::HashMap;

use vstd::prelude::*;

verus! {

/// The JSON value type of the `serde_json` crate.
#[verifier::external_type_specification]
#[verifier::external_body]
pub struct ExJsonValue(serde_json::Value);

/// `Clone` of a JSON value (derived in `serde_json`): gives an equal value.
pub assume_specification[ <serde_json::Value as Clone>::clone ](v: &serde_json::Value) -> (r:
    serde_json::Value)
    ensures
        r == *v,
;

/// The map that `text` parses to as a map from strings to JSON values; `None`
/// when the text is no such JSON object.
pub uninterp spec fn json_object_of(text: Seq<char>) -> Option<Map<String, serde_json::Value>>;

/// The keys, by their text, of the JSON object that `text` parses to.
pub open spec fn json_object_keys(text: Seq<char>) -> Option<Set<Seq<char>>> {
    match json_object_of(text) {
        Some(m) => Some(m.dom().map(|k: String| k@)),
        None => None,
    }
}

/// Whether `text` parses as a JSON object.
pub open spec fn json_object_parses(text: Seq<char>) -> bool {
    json_object_of(text) is Some
}

/// The JSON value that `text` parses to; `None` when the text is no JSON.
pub uninterp spec fn json_value_of(text: Seq<char>) -> Option<serde_json::Value>;

/// Whether `text` parses as a JSON value.
pub open spec fn json_value_parses(text: Seq<char>) -> bool {
    json_value_of(text) is Some
}

/// The JSON text that a JSON value prints as.
pub uninterp spec fn json_text_of(v: serde_json::Value) -> Seq<char>;

/// The JSON text a string prints as (quoted, with its escapes).
pub uninterp spec fn json_string_text(s: Seq<char>) -> Seq<char>;

/// The text of one entry of a printed object: the key's text as `key_text`
/// prints it, a colon, and the JSON text of the value.
pub open spec fn entry_text(
    key: String,
    m: Map<String, serde_json::Value>,
    key_text: spec_fn(Seq<char>) -> Seq<char>,
) -> Seq<char> {
    key_text(key@) + ":"@ + json_text_of(m[key])
}

/// The entries of `keys`, in that order, separated by commas.
pub open spec fn entries_text(
    keys: Seq<String>,
    m: Map<String, serde_json::Value>,
    key_text: spec_fn(Seq<char>) -> Seq<char>,
) -> Seq<char>
    decreases keys.len(),
{
    if keys.len() == 0 {
        Seq::<char>::empty()
    } else if keys.len() == 1 {
        entry_text(keys[0], m, key_text)
    } else {
        entry_text(keys[0], m, key_text) + ","@ + entries_text(keys.drop_first(), m, key_text)
    }
}

/// The text of the object with the entries of `keys`, in that order.
pub open spec fn object_text(
    keys: Seq<String>,
    m: Map<String, serde_json::Value>,
    key_text: spec_fn(Seq<char>) -> Seq<char>,
) -> Seq<char> {
    "{"@ + entries_text(keys, m, key_text) + "}"@
}

/// `text` is how the map `m` prints, its keys printed by `key_text`: braces
/// around its entries, each key once, in some order.
pub open spec fn is_object_text(
    text: Seq<char>,
    m: Map<String, serde_json::Value>,
    key_text: spec_fn(Seq<char>) -> Seq<char>,
) -> bool {
    exists|keys: Seq<String>|
        keys.no_duplicates() && keys.to_set() == m.dom() && #[trigger] object_text(
            keys,
            m,
            key_text,
        ) == text
}

/// `text` is the JSON text of the map `m`: its entries in some order, each key
/// printed as a JSON string.
pub open spec fn is_json_object_text(text: Seq<char>, m: Map<String, serde_json::Value>) -> bool {
    is_object_text(text, m, |k: Seq<char>| json_string_text(k))
}

/// The keys of a property map, by their text.
pub open spec fn key_texts(m: HashMap<String, serde_json::Value>) -> Set<Seq<char>> {
    m@.dom().map(|k: String| k@)
}

/// `serde_json::from_str` at a map from strings to JSON values: the map the
/// text parses to, or `None` when the text is no JSON object (or nests deeper
/// than the parser allows).
#[verifier::external_body]
fn parse_object(text: &str) -> (r: Option<HashMap<String, serde_json::Value>>)
    ensures
        match r {
            Some(m) => json_object_of(text@) == Some(m@),
            None => json_object_of(text@) is None,
        },
{
    serde_json::from_str::<HashMap<String, serde_json::Value>>(text).ok()
}

/// `serde_json::to_string` of a map from strings to JSON values. It fails only
/// where a `Serialize` impl fails or a map has keys that are no strings (its
/// documentation); neither happens here, so it succeeds. Its text is the
/// compact object text: braces around the map's entries, each printed as the
/// key's JSON string, a colon and the value's JSON text (as a value prints on
/// its own), separated by commas, in the map's iteration order. Whenever the
/// text parses back (the parser refuses nesting deeper than its limit, the
/// printer has none), it gives the map's keys; which values parse back is not
/// stated (floats come back only approximately).
#[verifier::external_body]
fn print_object(m: &HashMap<String, serde_json::Value>) -> (r: Option<String>)
    ensures
        r is Some,
        is_object_text(r->Some_0@, m@, |k: Seq<char>| json_string_text(k)),
        json_object_keys(r->Some_0@) is Some ==> json_object_keys(r->Some_0@) == Some(
            key_texts(*m),
        ),
{
    serde_json::to_string(m).ok()
}

/// `serde_json::from_str` at a JSON value: the value the text parses to, or
/// `None` when it is no JSON (or nests deeper than the parser allows).
#[verifier::external_body]
fn parse_value(text: &str) -> (r: Option<serde_json::Value>)
    ensures
        r == json_value_of(text@),
{
    serde_json::from_str::<serde_json::Value>(text).ok()
}

/// `serde_json::to_string` of a JSON value. It fails only where a `Serialize`
/// impl fails or a map has keys that are no strings (its documentation); the
/// maps of a JSON value have string keys and its `Serialize` impl does not
/// fail, so it succeeds, with the text the value prints as (a function of the
/// value: the maps of a JSON value keep their entries in a fixed order).
#[verifier::external_body]
fn print_value(v: &serde_json::Value) -> (r: Option<String>)
    ensures
        r is Some,
        r->Some_0@ == json_text_of(*v),
{
    serde_json::to_string(v).ok()
}

/// `serde_json::Value::default()`: the JSON null, the value that the text
/// `null` parses to.
#[verifier::external_body]
fn null_value() -> (r: serde_json::Value)
    ensures
        json_value_of("null"@) == Some(r),
{
    serde_json::Value::default()
}

/// What decoding the property text `text` gives: the map the text parses
/// to, and the empty map when it is no JSON object.
pub open spec fn properties_decoded(text: Seq<char>, m: HashMap<String, serde_json::Value>) -> bool {
    match json_object_of(text) {
        Some(parsed) => m@ == parsed,
        None => m@ == Map::<String, serde_json::Value>::empty(),
    }
}

/// What encoding the property map `m` stores: the map's object text (its
/// entries in some order), which, whenever it parses back, has the map's keys.
pub open spec fn properties_encoded(text: Seq<char>, m: HashMap<String, serde_json::Value>) -> bool {
    &&& is_json_object_text(text, m@)
    &&& json_object_keys(text) is Some ==> json_object_keys(text) == Some(key_texts(m))
}

/// Decodes a stored property map; text that is no JSON object gives the empty map.
pub fn decode_properties(text: &str) -> (r: HashMap<String, serde_json::Value>)
    ensures
        properties_decoded(text@, r),
{
    match parse_object(text) {
        Some(m) => m,
        None => HashMap::new(),
    }
}

/// Encodes a property map for storage: the JSON text the map prints as, an
/// object with the map's keys.
pub fn encode_properties(m: &HashMap<String, serde_json::Value>) -> (r: String)
    ensures
        properties_encoded(r@, *m),
{
    match print_object(m) {
        Some(t) => t,
        None => String::new(),
    }
}

/// What decoding the stored text `text` gives: the JSON value it parses to,
/// and the JSON null when it is no JSON.
pub open spec fn value_decoded(text: Seq<char>, v: serde_json::Value) -> bool {
    match json_value_of(text) {
        Some(w) => v == w,
        None => json_value_of("null"@) == Some(v),
    }
}

/// A stored value decodes to the JSON value its text parses to, whatever that
/// value is (an object, an array, a string, a number, a boolean or null).
pub proof fn lemma_value_decoded_is_parsed(text: Seq<char>, v: serde_json::Value, w: serde_json::Value)
    requires
        value_decoded(text, v),
        json_value_of(text) == Some(w),
    ensures
        v == w,
{
}

/// Decodes a stored JSON value; text that is no JSON gives the JSON null.
pub fn decode_value(text: &str) -> (r: serde_json::Value)
    ensures
        value_decoded(text@, r),
        json_value_of(text@) matches Some(w) ==> r == w,
        json_value_of(text@) is None ==> json_value_of("null"@) == Some(r),
{
    match parse_value(text) {
        Some(v) => v,
        None => null_value(),
    }
}

/// Encodes a JSON value for storage: the JSON text it prints as.
pub fn encode_value(v: &serde_json::Value) -> (r: String)
    ensures
        r@ == json_text_of(*v),
{
    match print_value(v) {
        Some(t) => t,
        None => String::new(),
    }
}

} // verus!
