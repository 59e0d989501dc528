//! Calls into other crates. Each stands behind a contract that the verifier
//! believes and does not prove; the rest of the library is proved from them.

use vstd::prelude::*;
use crate::json::json_string_literal;
use crate::models::Timestamp;
use crate::text::string_views;

verus! {

/// `String::push` of the standard library appends the character to the end
/// of the string.
pub assume_specification[ String::push ](s: &mut String, c: char)
    ensures
        final(s)@ == old(s)@.push(c),
;

/// Calls `serde_json::to_string` on a string slice. The contract claims that
/// the call succeeds, since a string is written into memory and neither can
/// fail, and that the result is the literal that `json_string_literal`
/// describes: the text between quotation marks, with the quotation mark, the
/// backslash and the control characters below U+0020 escaped as the escape
/// table of `serde_json` has them, and every other character as it stands.
#[verifier::external_body]
pub(crate) fn json_encode_str(s: &str) -> (r: Option<String>)
    ensures
        r is Some,
        r matches Some(v) ==> v@ == json_string_literal(s@),
{
    serde_json::to_string(s).ok()
}

/// What `serde_json::from_str::<Vec<String>>` returns for a text: the
/// strings of the JSON array that the text holds, or the message of the
/// error that the call reports.
pub uninterp spec fn json_string_array(text: Seq<char>) -> Result<Seq<Seq<char>>, Seq<char>>;

/// Calls `serde_json::from_str` to read a JSON array of strings. The result
/// is a function of the text alone; the contract gives it the name
/// `json_string_array`, the error taken by its message.
#[verifier::external_body]
pub(crate) fn json_decode_string_array(text: &str) -> (r: Result<Vec<String>, String>)
    ensures
        match r {
            Ok(v) => json_string_array(text@) == Ok::<Seq<Seq<char>>, Seq<char>>(
                string_views(v@),
            ),
            Err(e) => json_string_array(text@) == Err::<Seq<Seq<char>>, Seq<char>>(e@),
        },
{
    match serde_json::from_str::<Vec<String>>(text) {
        Ok(v) => Ok(v),
        Err(e) => Err(e.to_string()),
    }
}

/// What `uuid::Uuid::parse_str` returns for a text: the 128 bits of the
/// identifier, or the message of the error that the call reports.
pub uninterp spec fn uuid_from_text(text: Seq<char>) -> Result<u128, Seq<char>>;

/// Calls `uuid::Uuid::parse_str` and hands the identifier back as the
/// integer that `Uuid::as_u128` gives. The result is a function of the text
/// alone; the contract gives it the name `uuid_from_text`.
#[verifier::external_body]
pub(crate) fn parse_uuid(text: &str) -> (r: Result<u128, String>)
    ensures
        match r {
            Ok(v) => uuid_from_text(text@) == Ok::<u128, Seq<char>>(v),
            Err(e) => uuid_from_text(text@) == Err::<u128, Seq<char>>(e@),
        },
{
    match uuid::Uuid::parse_str(text) {
        Ok(id) => Ok(id.as_u128()),
        Err(e) => Err(e.to_string()),
    }
}

/// What `chrono::DateTime::parse_from_rfc3339` returns for a text: the
/// instant as seconds since the Unix epoch and nanoseconds within the
/// second, or the message of the error that the call reports.
pub uninterp spec fn rfc3339_instant(text: Seq<char>) -> Result<(i64, u32), Seq<char>>;

/// Calls `chrono::DateTime::parse_from_rfc3339` and hands the instant back
/// as `DateTime::timestamp` and `DateTime::timestamp_subsec_nanos` give it.
/// The result is a function of the text alone; the contract gives it the
/// name `rfc3339_instant`.
#[verifier::external_body]
pub(crate) fn parse_rfc3339(text: &str) -> (r: Result<Timestamp, String>)
    ensures
        match r {
            Ok(t) => rfc3339_instant(text@) == Ok::<(i64, u32), Seq<char>>((t.seconds, t.nanos)),
            Err(e) => rfc3339_instant(text@) == Err::<(i64, u32), Seq<char>>(e@),
        },
{
    match chrono::DateTime::parse_from_rfc3339(text) {
        Ok(at) => Ok(Timestamp { seconds: at.timestamp(), nanos: at.timestamp_subsec_nanos() }),
        Err(e) => Err(e.to_string()),
    }
}

/// Calls `dirs::home_dir`. The result depends on the user and the machine;
/// nothing is claimed of it. A home directory whose path is not valid
/// Unicode comes back as `None`.
#[verifier::external_body]
pub(crate) fn home_dir() -> (r: Option<String>) {
    match dirs::home_dir() {
        Some(path) => path.to_str().map(String::from),
        None => None,
    }
}

} // verus!
