//! The session store's file format: a JSON object mapping application id to
//! accumulated seconds. Reading tolerates a missing or unreadable document;
//! writing rewrites the whole document, pretty-printed.
use vstd::prelude::*;

verus! {

#[verifier::external_type_specification]
#[verifier::external_body]
pub struct ExJsonValue(serde_json::Value);

#[verifier::external_type_specification]
#[verifier::external_body]
#[verifier::reject_recursive_types(K)]
#[verifier::reject_recursive_types(V)]
pub struct ExJsonMap<K, V>(serde_json::Map<K, V>);

/// A JSON object, as serde_json holds it.
pub type JsonObject = serde_json::Map<String, serde_json::Value>;

/// The entries of a JSON object whose value is an integer that fits in `u64`.
pub uninterp spec fn seconds_entries(m: JsonObject) -> Map<Seq<char>, u64>;

/// The object nests no deeper than serde_json's parser accepts (128 levels),
/// as every object does that the parser made or that grew from an empty one
/// by numeric entries.
pub uninterp spec fn within_parse_depth(m: JsonObject) -> bool;

/// Names what `serde_json::from_str` makes of a text as a JSON object: its
/// `u64` entries, or `None` where the text is no JSON object (or `null`).
pub uninterp spec fn parsed_seconds(text: Seq<char>) -> Option<Map<Seq<char>, u64>>;

/// Relies on `serde_json::from_str` into `serde_json::Map`: the result
/// depends on the text alone.
#[verifier::external_body]
fn parse_object(text: &str) -> (r: Option<JsonObject>)
    ensures
        r is Some <==> parsed_seconds(text@) is Some,
        r matches Some(m) ==> seconds_entries(m) == parsed_seconds(text@).unwrap(),
        r matches Some(m) ==> within_parse_depth(m),
{
    serde_json::from_str::<JsonObject>(text).ok()
}

/// Relies on `serde_json::Map::new`: an empty object.
#[verifier::external_body]
fn empty_object() -> (r: JsonObject)
    ensures
        seconds_entries(r).dom() == Set::<Seq<char>>::empty(),
        within_parse_depth(r),
{
    serde_json::Map::new()
}

/// Relies on `serde_json::Map::get` and `serde_json::Value::as_u64`: the
/// value under `key` when it is an integer that fits in `u64`.
#[verifier::external_body]
fn seconds_at(m: &JsonObject, key: &str) -> (r: Option<u64>)
    ensures
        r is Some <==> seconds_entries(*m).contains_key(key@),
        r matches Some(v) ==> v == seconds_entries(*m)[key@],
{
    m.get(key).and_then(serde_json::Value::as_u64)
}

/// Relies on `serde_json::Map::insert` of a `Value::from(u64)`: the key now
/// holds that number, every other entry stays, and a number nests nothing.
#[verifier::external_body]
fn put_seconds(m: &mut JsonObject, key: String, secs: u64)
    ensures
        seconds_entries(*final(m)) == seconds_entries(*old(m)).insert(key@, secs),
        within_parse_depth(*old(m)) ==> within_parse_depth(*final(m)),
{
    m.insert(key, serde_json::Value::from(secs));
}

/// Relies on `serde_json::to_string_pretty`: the object as pretty-printed
/// JSON. It fails only for map keys that are not strings or on a failing
/// writer; an object's keys are strings and the writer is a `Vec`. Reading
/// the text back gives the same entries: integers are written as integers,
/// other numbers with a fraction or an exponent, and an object within the
/// parser's depth limit is read again whole.
#[verifier::external_body]
fn render_pretty(m: &JsonObject) -> (r: Option<String>)
    requires
        within_parse_depth(*m),
    ensures
        r is Some,
        r matches Some(t) ==> parsed_seconds(t@) == Some(seconds_entries(*m)),
{
    serde_json::to_string_pretty(m).ok()
}

pub open spec fn opt_view(o: Option<&str>) -> Option<Seq<char>> {
    match o {
        Some(s) => Some(s@),
        None => None,
    }
}

/// The `u64` entries of a stored document; none for a missing or unreadable one.
pub open spec fn stored_entries(content: Option<Seq<char>>) -> Map<Seq<char>, u64> {
    match content {
        Some(t) => match parsed_seconds(t) {
            Some(m) => m,
            None => Map::empty(),
        },
        None => Map::empty(),
    }
}

/// The seconds stored for `id`; zero where there are none.
pub open spec fn stored_seconds(content: Option<Seq<char>>, id: Seq<char>) -> u64 {
    let m = stored_entries(content);
    if m.contains_key(id) {
        m[id]
    } else {
        0
    }
}

/// The document read from a stored text; an empty one where the text is no
/// JSON object, or where there is no text.
pub fn parse_store(content: Option<&str>) -> (r: JsonObject)
    ensures
        seconds_entries(r) == stored_entries(opt_view(content)),
        within_parse_depth(r),
{
    match content {
        Some(text) => match parse_object(text) {
            Some(m) => m,
            None => empty_object(),
        },
        None => empty_object(),
    }
}

/// The seconds stored for `app_id` in the store's text (`None`: no file).
/// A missing file, an unreadable document or a missing key gives zero.
pub fn load_playtime(content: Option<&str>, app_id: &str) -> (r: u64)
    ensures
        r == stored_seconds(opt_view(content), app_id@),
        content is None ==> r == 0,
{
    let doc = parse_store(content);
    match seconds_at(&doc, app_id) {
        Some(v) => v,
        None => 0,
    }
}

/// The document after recording `secs` for `app_id` over the stored text:
/// every other entry stays.
pub fn updated_store(content: Option<&str>, app_id: &str, secs: u64) -> (r: JsonObject)
    ensures
        seconds_entries(r) == stored_entries(opt_view(content)).insert(app_id@, secs),
        within_parse_depth(r),
{
    let mut doc = parse_store(content);
    put_seconds(&mut doc, String::from_str(app_id), secs);
    doc
}

/// The text to write back after recording `secs` for `app_id`: the document
/// of `updated_store`, pretty-printed. Read back, it holds the stored entries
/// with `app_id` set to `secs`.
pub fn save_playtime(content: Option<&str>, app_id: &str, secs: u64) -> (r: String)
    ensures
        parsed_seconds(r@) == Some(stored_entries(opt_view(content)).insert(app_id@, secs)),
{
    let doc = updated_store(content, app_id, secs);
    render_pretty(&doc).unwrap()
}

/// Writing `secs` for `id` over any stored text and reading the result back
/// gives `secs`, and every other stored entry stays; reading with no file
/// gives zero for every id.
pub proof fn lemma_store_round_trip(
    content: Option<Seq<char>>,
    id: Seq<char>,
    secs: u64,
    saved: Seq<char>,
    other: Seq<char>,
)
    requires
        parsed_seconds(saved) == Some(stored_entries(content).insert(id, secs)),
    ensures
        stored_seconds(Some(saved), id) == secs,
        other != id ==> stored_seconds(Some(saved), other) == stored_seconds(content, other),
        stored_seconds(None, other) == 0,
{
}

} // verus!
