//! What this crate leaves to `serde_json` and `hyper`: the text of a JSON
//! object and the acceptance of a URI. Nothing here is proved. A contract
//! states the outside result where a few lines can, and else gives it a name,
//! so that callers can say exactly which text they hand on.

use vstd::prelude::*;

verus! {

/// `serde_json::Error`, which is carried from the call that failed to the
/// place where it becomes a failure of this crate, and never looked into.
#[verifier::external_type_specification]
#[verifier::external_body]
pub struct ExJsonError(serde_json::Error);

/// The compact JSON text that `serde_json` writes for an object whose members
/// are lists of strings, given as the members in the order of insertion.
pub uninterp spec fn json_lists_object_text(members: Seq<(Seq<char>, Seq<Seq<char>>)>) -> Seq<char>;

/// Whether a text is a plain key: not empty, and made of lower-case ASCII
/// letters and underscores only. JSON writes such a text as it is, between
/// quotes, one byte for each character.
pub open spec fn plain_key(key: Seq<char>) -> bool {
    &&& key.len() > 0
    &&& forall|i: int| 0 <= i < key.len() ==> ('a' <= #[trigger] key[i] <= 'z' || key[i] == '_')
}

/// The JSON text of a flag.
pub open spec fn flag_text(flag: bool) -> Seq<char> {
    if flag {
        "true"@
    } else {
        "false"@
    }
}

/// The compact JSON text of an object of two flags.
pub open spec fn two_flags_text(first: Seq<char>, a: bool, second: Seq<char>, b: bool) -> Seq<char> {
    "{\""@ + first + "\":"@ + flag_text(a) + ",\""@ + second + "\":"@ + flag_text(b) + "}"@
}

/// The bytes of a text of ASCII characters.
pub open spec fn ascii_bytes(text: Seq<char>) -> Seq<u8> {
    Seq::new(text.len(), |i: int| text[i] as u8)
}

/// Whether `hyper::Uri` accepts a text as a URI.
pub uninterp spec fn uri_accepted(text: Seq<char>) -> bool;

/// Collects the members into a `serde_json::Map`, each list as a
/// `Value::Array` of `Value::String`, and formats the `Value::Object` with its
/// `Display` impl. The text depends on the members alone.
#[verifier::external_body]
pub(crate) fn json_lists_object(members: &Vec<(String, Vec<String>)>) -> (text: String)
    ensures
        text@ == json_lists_object_text(members.deep_view()),
{
    let object: serde_json::Map<String, serde_json::Value> = members
        .iter()
        .map(|(key, items)| (key.clone(), serde_json::Value::from(items.clone())))
        .collect();
    serde_json::Value::Object(object).to_string()
}

/// Collects the two members into a `serde_json::Map`, each flag as a
/// `Value::Bool`, and serialises the `Value::Object` with
/// `serde_json::to_vec`. Where both keys are plain and the first key's first
/// character is below the second's, the map holds the first member before the
/// second, no key is escaped, and writing into a vector does not fail: the
/// bytes are `{"first":a,"second":b}`, without spaces.
#[verifier::external_body]
pub(crate) fn json_two_flags(first: &str, a: bool, second: &str, b: bool) -> (bytes: Result<
    Vec<u8>,
    serde_json::Error,
>)
    ensures
        match bytes {
            Ok(written) => plain_key(first@) && plain_key(second@) && first@[0] < second@[0]
                ==> written@ == ascii_bytes(two_flags_text(first@, a, second@, b)),
            Err(_) => !(plain_key(first@) && plain_key(second@) && first@[0] < second@[0]),
        },
{
    let object: serde_json::Map<String, serde_json::Value> = [(first, a), (second, b)]
        .into_iter()
        .map(|(key, flag)| (key.to_string(), serde_json::Value::Bool(flag)))
        .collect();
    serde_json::to_vec(&serde_json::Value::Object(object))
}

/// Parses the text with `hyper::Uri`'s `FromStr` and reports whether it was
/// accepted. The parse reads the bytes of the text and nothing else.
#[verifier::external_body]
pub(crate) fn uri_is_valid(text: &str) -> (ok: bool)
    ensures
        ok == uri_accepted(text@),
{
    text.parse::<hyper::Uri>().is_ok()
}

} // verus!
