//! Calls into other crates, each with what is relied on of it.
use crate::environment::setting_texts;
use crate::text::{has_text, texts};
use vstd::prelude::*;

verus! {

// -------------------------------------------------------------------- regex

/// The matches of a regular expression in a text, from the left and without
/// overlap; none where the expression is not valid.
pub uninterp spec fn regex_matches(pattern: Seq<char>, text: Seq<char>) -> Option<Seq<Seq<char>>>;

/// The regular expression for an address in a message.
pub const URL_PATTERN: &'static str = "https?://[^\\s<>]+|www\\.[^\\s<>]+";

/// The texts of an optional list.
pub open spec fn opt_texts(list: Option<Vec<String>>) -> Option<Seq<Seq<char>>> {
    match list {
        Some(list) => Some(texts(list@)),
        None => None,
    }
}

/// `regex::Regex::new` and `regex::Regex::find_iter`: the matches in order. They
/// depend on the expression and the text alone, each of them is a part of the
/// text, and the expression for addresses is valid.
#[verifier::external_body]
pub(crate) fn find_matches(pattern: &str, text: &str) -> (r: Option<Vec<String>>)
    ensures
        opt_texts(r) == regex_matches(pattern@, text@),
        r matches Some(found) ==> forall|i: int|
            0 <= i < found@.len() ==> has_text(text@, (#[trigger] found@[i])@),
        pattern@ == URL_PATTERN@ ==> r is Some,
{
    let regex = regex::Regex::new(pattern).ok()?;
    Some(regex.find_iter(text).map(|m| m.as_str().to_string()).collect())
}

// ------------------------------------------------------------------- base64

/// Bytes in the standard base64 alphabet, padded.
pub uninterp spec fn base64_text(bytes: Seq<u8>) -> Seq<char>;

/// Is `c` a character of the standard base64 alphabet, or padding?
pub open spec fn is_base64(c: char) -> bool {
    'A' <= c <= 'Z' || 'a' <= c <= 'z' || '0' <= c <= '9' || c == '+' || c == '/' || c == '='
}

/// `base64::Engine::encode` of the `STANDARD` engine. The result depends on the
/// bytes alone, has four characters for each three bytes begun, and stays in the
/// standard alphabet. The call panics where that length does not fit.
#[verifier::external_body]
pub(crate) fn encode_base64(bytes: &[u8]) -> (r: String)
    requires
        bytes@.len() / 3 * 4 + 4 <= usize::MAX,
    ensures
        r@ == base64_text(bytes@),
        r@.len() == (bytes@.len() + 2) / 3 * 4,
        forall|i: int| 0 <= i < r@.len() ==> is_base64(#[trigger] r@[i]),
{
    base64::Engine::encode(&base64::engine::general_purpose::STANDARD, bytes)
}

// ------------------------------------------------------------------- chrono

/// Are the characters of `s` from `from` up to `to` decimal digits?
pub open spec fn digits_between(s: Seq<char>, from: int, to: int) -> bool {
    forall|i: int| from <= i < to ==> '0' <= #[trigger] s[i] <= '9'
}

/// Do two decimal digits stand at `i`, for a number from `least` to `most`?
pub open spec fn pair_at(s: Seq<char>, i: int, least: int, most: int) -> bool {
    digits_between(s, i, i + 2) && least <= (s[i] as int - 48) * 10 + (s[i + 1] as int - 48)
        <= most
}

/// Is `s` a moment in UTC whose date ends at `t`: year, month and day, a `T`, hour,
/// minute and second, a fraction of three, six or nine digits or none, and the
/// offset? A year beyond four digits has a sign.
pub open spec fn moment_at(s: Seq<char>, t: int) -> bool {
    let end = s.len() - 6;
    &&& t >= 10
    &&& t + 9 <= end
    &&& if t == 10 {
        digits_between(s, 0, 4)
    } else {
        s[0] == '+' && digits_between(s, 1, t - 6)
    }
    &&& s[t - 6] == '-'
    &&& pair_at(s, t - 5, 1, 12)
    &&& s[t - 3] == '-'
    &&& pair_at(s, t - 2, 1, 31)
    &&& s[t] == 'T'
    &&& pair_at(s, t + 1, 0, 23)
    &&& s[t + 3] == ':'
    &&& pair_at(s, t + 4, 0, 59)
    &&& s[t + 6] == ':'
    &&& pair_at(s, t + 7, 0, 59)
    &&& end == t + 9 || (s[t + 9] == '.' && digits_between(s, t + 10, end) && (end == t + 13 || end
        == t + 16 || end == t + 19))
    &&& s.skip(end) == "+00:00"@
}

/// Is `s` an RFC 3339 timestamp in UTC?
pub open spec fn is_rfc3339(s: Seq<char>) -> bool {
    exists|t: int| moment_at(s, t)
}

/// `chrono::Utc::now` and `chrono::DateTime::to_rfc3339`: a timestamp of that form.
/// Which one depends on the clock, which must not stand before 1970.
#[verifier::external_body]
pub(crate) fn now_rfc3339() -> (r: String)
    ensures
        is_rfc3339(r@),
{
    chrono::Utc::now().to_rfc3339()
}

// --------------------------------------------------------------- serde_json

/// A JSON object with text members, as compact JSON.
pub uninterp spec fn json_object(members: Seq<(Seq<char>, Seq<char>)>) -> Seq<char>;

/// The text member of that name in a JSON object; none where the text is no JSON
/// object or has no such text member.
pub uninterp spec fn json_member(text: Seq<char>, name: Seq<char>) -> Option<Seq<char>>;

/// Is `name` none of the names that the JSON crate keeps for itself? Those begin
/// with a dollar sign.
pub open spec fn plain_name(name: Seq<char>) -> bool {
    name.len() == 0 || name[0] != '$'
}

/// `serde_json::to_string` of an object with text members. The result depends on
/// the members alone, holds no control character (they are escaped), and, where
/// all names are plain, reading a member gives back its value if no later member
/// has its name, and there is nothing to read under any other name.
#[verifier::external_body]
pub(crate) fn write_json(members: &Vec<(String, String)>) -> (r: Option<String>)
    ensures
        r is Some,
        r->0@ == json_object(setting_texts(members@)),
        forall|i: int| 0 <= i < r->0@.len() ==> ' ' <= #[trigger] r->0@[i],
        forall|i: int|
            0 <= i < members@.len() && (forall|j: int|
                0 <= j < members@.len() ==> plain_name((#[trigger] members@[j]).0@)) && (forall|
                j: int,
            |
                i < j < members@.len() ==> (#[trigger] members@[j]).0@ != members@[i].0@)
                ==> json_member(r->0@, (#[trigger] members@[i]).0@) == Some(members@[i].1@),
        forall|name: Seq<char>|
            (forall|j: int|
                0 <= j < members@.len() ==> plain_name((#[trigger] members@[j]).0@)
                    && members@[j].0@ != name) ==> #[trigger] json_member(r->0@, name) is None,
{
    let map: serde_json::Map<String, serde_json::Value> = members.iter().map(
        |m| (m.0.clone(), serde_json::Value::String(m.1.clone())),
    ).collect();
    serde_json::to_string(&serde_json::Value::Object(map)).ok()
}

/// `serde_json::from_str`, `Value::get` and `Value::as_str`: the text member of
/// that name. The result depends on the text and the name alone.
#[verifier::external_body]
pub(crate) fn read_json_member(text: &str, name: &str) -> (r: Option<String>)
    ensures
        crate::text::opt_text(r) == json_member(text@, name@),
{
    let value: serde_json::Value = serde_json::from_str(text).ok()?;
    value.get(name)?.as_str().map(|s| s.to_string())
}

/// The text member of that name in the object that is a member of a JSON object.
pub uninterp spec fn json_inner_text(text: Seq<char>, outer: Seq<char>, inner: Seq<char>) -> Option<
    Seq<char>,
>;

/// The unsigned number of that name in the object that is a member of a JSON
/// object.
pub uninterp spec fn json_inner_number(
    text: Seq<char>,
    outer: Seq<char>,
    inner: Seq<char>,
) -> Option<u64>;

/// `serde_json::from_str`, `Value::get` twice and `Value::as_str`. The result
/// depends on the text and the names alone.
#[verifier::external_body]
pub(crate) fn read_json_inner_text(text: &str, outer: &str, inner: &str) -> (r: Option<String>)
    ensures
        crate::text::opt_text(r) == json_inner_text(text@, outer@, inner@),
{
    let value: serde_json::Value = serde_json::from_str(text).ok()?;
    value.get(outer)?.get(inner)?.as_str().map(|s| s.to_string())
}

/// `serde_json::from_str`, `Value::get` twice and `Value::as_u64`. The result
/// depends on the text and the names alone.
#[verifier::external_body]
pub(crate) fn read_json_inner_number(text: &str, outer: &str, inner: &str) -> (r: Option<u64>)
    ensures
        r == json_inner_number(text@, outer@, inner@),
{
    let value: serde_json::Value = serde_json::from_str(text).ok()?;
    value.get(outer)?.get(inner)?.as_u64()
}

// --------------------------------------------------------------------- uuid

/// The number of the identifier that a text writes, in any of the forms that
/// are read.
pub uninterp spec fn uuid_number(text: Seq<char>) -> Option<u128>;

/// An identifier in its hyphenated form.
pub uninterp spec fn uuid_text(id: u128) -> Seq<char>;

/// Is `c` a small hexadecimal digit?
pub open spec fn is_lower_hex(c: char) -> bool {
    '0' <= c <= '9' || 'a' <= c <= 'f'
}

/// `uuid::Uuid::parse_str` and `uuid::Uuid::as_u128`. The result depends on the
/// text alone.
#[verifier::external_body]
pub(crate) fn parse_uuid(text: &str) -> (r: Option<u128>)
    ensures
        r == uuid_number(text@),
{
    uuid::Uuid::parse_str(text).ok().map(|id| id.as_u128())
}

/// `uuid::Uuid::from_u128` and its display form: 36 characters, small hexadecimal
/// digits and hyphens, which are read back as the same number.
#[verifier::external_body]
pub(crate) fn write_uuid(id: u128) -> (r: String)
    ensures
        r@ == uuid_text(id),
        r@.len() == 36,
        forall|i: int| 0 <= i < r@.len() ==> is_lower_hex(#[trigger] r@[i]) || r@[i] == '-',
        uuid_number(r@) == Some(id),
{
    uuid::Uuid::from_u128(id).to_string()
}

/// `uuid::Uuid::new_v4` in its simple form: 32 small hexadecimal digits. Which
/// ones is left to chance.
#[verifier::external_body]
pub(crate) fn random_token() -> (r: String)
    ensures
        r@.len() == 32,
        forall|i: int| 0 <= i < r@.len() ==> is_lower_hex(#[trigger] r@[i]),
{
    uuid::Uuid::new_v4().simple().to_string()
}

// ---------------------------------------------------------------- debugging

/// A text in quotes, with what cannot be printed escaped.
pub uninterp spec fn debug_text(text: Seq<char>) -> Seq<char>;

/// The `Debug` form of a `str`. It depends on the text alone.
#[verifier::external_body]
pub(crate) fn quote(text: &str) -> (r: String)
    ensures
        r@ == debug_text(text@),
{
    format!("{text:?}")
}

} // verus!
