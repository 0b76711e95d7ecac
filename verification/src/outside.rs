//! The calls that leave this crate, and what is taken on trust about them.
//!
//! Each function here makes one call into another crate or into a part of
//! the standard library that has no specification. Verus does not read the
//! bodies: the contracts are believed, not proved. Where the outcome of a
//! call is a function of its arguments but too long to write down, it has a
//! name without a definition, and the contract only says that the call
//! returns what the name stands for.

use vstd::prelude::*;

verus! {

/// Whether the regex engine accepts `pattern`: it is valid and compiles
/// within the engine's default limits.
pub uninterp spec fn regex_accepts(pattern: Seq<char>) -> bool;

/// What the regex engine finds for an accepted `pattern` in `haystack`:
/// for each of the successive non-overlapping matches, in the order of the
/// haystack, the text that capture group `group` matched, or `None` where
/// the group took no part in that match or does not exist.
pub uninterp spec fn regex_group_texts(pattern: Seq<char>, group: nat, haystack: Seq<char>) -> Seq<
    Option<Seq<char>>,
>;

/// Calls `regex::Regex::new` on `pattern`, then `Regex::captures_iter` on
/// `haystack`, and takes from each match `Captures::get(group)` as an owned
/// string.
///
/// Trusted: the call gives nothing exactly where the engine refuses the
/// pattern, which the haystack has no part in; else it gives what
/// [`regex_group_texts`] names. Nothing is claimed about which texts match.
#[verifier::external_body]
pub(crate) fn capture_group_texts(pattern: &str, group: usize, haystack: &str) -> (found: Option<
    Vec<Option<String>>,
>)
    ensures
        found is Some <==> regex_accepts(pattern@),
        found matches Some(texts) ==> texts.deep_view() == regex_group_texts(
            pattern@,
            group as nat,
            haystack@,
        ),
{
    let re = regex::Regex::new(pattern).ok()?;
    Some(re.captures_iter(haystack).map(|c| c.get(group).map(|m| m.as_str().to_owned())).collect())
}

/// The standard base64 encoding, with padding, of `bytes`.
pub uninterp spec fn base64_standard(bytes: Seq<u8>) -> Seq<char>;

/// Whether the length of the base64 encoding of `len` bytes can be held in
/// a `usize`: four characters for every three bytes begun.
pub open spec fn base64_fits(len: nat) -> bool {
    (len / 3) * 4 + (if len % 3 > 0 {
        4nat
    } else {
        0nat
    }) <= usize::MAX
}

/// Calls `base64::Engine::encode` of the engine `BASE64_STANDARD`.
///
/// Trusted: the result is the one that [`base64_standard`] names. The
/// engine panics where the encoded length overflows, so such inputs are
/// left out.
#[verifier::external_body]
pub(crate) fn base64_encode(bytes: &[u8]) -> (text: String)
    requires
        base64_fits(bytes@.len()),
    ensures
        text@ == base64_standard(bytes@),
{
    base64::Engine::encode(&base64::prelude::BASE64_STANDARD, bytes)
}

/// The final component of `path` as a file name, by the path rules of the
/// platform that the crate is built for. Absent where the path has no such
/// component: where it is empty, is a root, or ends in `..`.
pub uninterp spec fn path_file_name(path: Seq<char>) -> Option<Seq<char>>;

/// `path` adjoined to `base`, by the path rules of the platform that the
/// crate is built for.
pub uninterp spec fn path_join(base: Seq<char>, path: Seq<char>) -> Seq<char>;

/// The greatest position of a dot in `name`.
pub open spec fn last_dot(name: Seq<char>) -> Option<int>
    decreases name.len(),
{
    if name.len() == 0 {
        None
    } else if name.last() == '.' {
        Some(name.len() - 1)
    } else {
        last_dot(name.drop_last())
    }
}

/// The extension of the file name `name`: what follows its final dot.
/// Absent where the name has no dot, and where its only dot is its first
/// character.
pub open spec fn extension_in(name: Seq<char>) -> Option<Seq<char>> {
    match last_dot(name) {
        Some(dot) => if dot > 0 {
            Some(name.subrange(dot + 1, name.len() as int))
        } else {
            None
        },
        None => None,
    }
}

/// The extension of the file that `path` names, absent where it names no
/// file or the file name has no extension.
pub open spec fn path_extension(path: Seq<char>) -> Option<Seq<char>> {
    match path_file_name(path) {
        Some(name) => extension_in(name),
        None => None,
    }
}

/// Calls `std::path::Path::file_name`.
///
/// Trusted: the result is the one that [`path_file_name`] names.
#[verifier::external_body]
pub(crate) fn file_name_of(path: &str) -> (name: Option<String>)
    ensures
        name.deep_view() == path_file_name(path@),
{
    std::path::Path::new(path).file_name().map(|name| name.to_string_lossy().into_owned())
}

/// Calls `std::path::Path::extension`.
///
/// Trusted: the result is the extension of the file name, as the standard
/// library documents it: none without a file name, none without a dot in
/// it, none where the only dot begins the name, else what follows the final
/// dot.
#[verifier::external_body]
pub(crate) fn extension_of(path: &str) -> (extension: Option<String>)
    ensures
        extension.deep_view() == path_extension(path@),
{
    std::path::Path::new(path).extension().map(|ext| ext.to_string_lossy().into_owned())
}

/// Calls `std::path::Path::join`.
///
/// Trusted: the result is the one that [`path_join`] names.
#[verifier::external_body]
pub(crate) fn join_path(base: &str, path: &str) -> (joined: String)
    ensures
        joined@ == path_join(base@, path@),
{
    std::path::Path::new(base).join(path).to_string_lossy().into_owned()
}

/// `serde_json::Value`: any JSON value. Nothing in this crate looks inside.
#[verifier::external_type_specification]
#[verifier::external_body]
pub struct ExJsonValue(serde_json::Value);

/// `serde_json::Map`: the members of a JSON object. What a map of strings
/// to values holds is named by [`members`].
#[verifier::external_type_specification]
#[verifier::external_body]
#[verifier::reject_recursive_types(K)]
#[verifier::reject_recursive_types(V)]
pub struct ExJsonMap<K, V>(serde_json::Map<K, V>);

/// The value of one member of a JSON object, as far as this crate looks
/// into it.
pub enum Member {
    /// A JSON boolean.
    Bool(bool),
    /// A JSON string, by the characters that it stands for.
    Text(Seq<char>),
    /// Any other JSON value, by its compact JSON text.
    Other(Seq<char>),
}

/// The members of a JSON object, by key.
pub uninterp spec fn members(doc: serde_json::Map<String, serde_json::Value>) -> Map<
    Seq<char>,
    Member,
>;

/// The members of the JSON object that `text` is, absent where `text` is
/// not JSON or is JSON of another kind.
pub uninterp spec fn json_object(text: Seq<char>) -> Option<Map<Seq<char>, Member>>;

/// The compact JSON text of the object with the members `members`.
pub uninterp spec fn object_text(members: Map<Seq<char>, Member>) -> Seq<char>;

/// Calls `serde_json::from_str` for a `serde_json::Value` and keeps the
/// map of an object.
///
/// Trusted: the result is the one that [`json_object`] names.
#[verifier::external_body]
pub(crate) fn parse_object(text: &str) -> (parsed: Option<
    serde_json::Map<String, serde_json::Value>,
>)
    ensures
        match parsed {
            Some(doc) => json_object(text@) == Some(members(doc)),
            None => json_object(text@) is None,
        },
{
    match serde_json::from_str::<serde_json::Value>(text) {
        Ok(serde_json::Value::Object(doc)) => Some(doc),
        _ => None,
    }
}

/// Calls `serde_json::Map::insert` with a JSON string as the value.
///
/// Trusted: afterwards `key` holds the string `text`, whether or not the
/// key was present, and every other member is as before.
#[verifier::external_body]
pub(crate) fn insert_text(
    doc: &mut serde_json::Map<String, serde_json::Value>,
    key: &str,
    text: &str,
)
    ensures
        members(*final(doc)) == members(*old(doc)).insert(key@, Member::Text(text@)),
{
    doc.insert(key.to_owned(), serde_json::Value::String(text.to_owned()));
}

/// Calls `serde_json::Map::get` and, on what it finds,
/// `serde_json::Value::as_bool`.
///
/// Trusted: the result is the boolean that `key` holds, absent where the
/// key is absent or holds a value that is no boolean.
#[verifier::external_body]
pub(crate) fn member_bool(doc: &serde_json::Map<String, serde_json::Value>, key: &str) -> (value:
    Option<bool>)
    ensures
        value == match members(*doc).get(key@) {
            Some(Member::Bool(b)) => Some(b),
            _ => None,
        },
{
    doc.get(key).and_then(|value| value.as_bool())
}

/// Wraps the map as `serde_json::Value::Object` and calls `to_string` on it.
///
/// Trusted: the result is the one that [`object_text`] names. It is a
/// function of the members alone because the map keeps them sorted by key.
#[verifier::external_body]
pub(crate) fn object_into_text(doc: serde_json::Map<String, serde_json::Value>) -> (text: String)
    ensures
        text@ == object_text(members(doc)),
{
    serde_json::Value::Object(doc).to_string()
}

} // verus!
