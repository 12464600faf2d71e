use vstd::prelude::*;

verus! {

/// Whether a character is one that an identifier is made of: a letter or a digit of
/// ASCII, an underscore or a hyphen.
pub open spec fn is_id_char(c: char) -> bool {
    ('a' <= c && c <= 'z') || ('A' <= c && c <= 'Z') || ('0' <= c && c <= '9') || c == '_' || c
        == '-'
}

/// A fresh random identifier of `size` characters.
///
/// Calls `nanoid::format` with the crate's default random source and its URL-safe
/// alphabet. Trusted of it: the identifier has exactly `size` characters, each taken
/// from that alphabet. Which characters come out is left open. A size of zero is
/// excluded because the call does not return on it, a size whose eightfold does not fit
/// the machine word because the call multiplies by eight.
#[verifier::external_body]
pub(crate) fn fresh_id(size: usize) -> (id: String)
    requires
        0 < size <= usize::MAX / 8,
    ensures
        id@.len() == size,
        forall|i: int| 0 <= i < id@.len() ==> is_id_char(#[trigger] id@[i]),
{
    nanoid::format(nanoid::rngs::default, &nanoid::alphabet::SAFE, size)
}

/// Whether a character is a hexadecimal digit in lower case.
pub open spec fn is_lower_hex(c: char) -> bool {
    ('0' <= c && c <= '9') || ('a' <= c && c <= 'f')
}

/// Whether a text is a universally unique identifier in its hyphenated form: 36
/// characters, hyphens after the eighth, twelfth, sixteenth and twentieth digit, and
/// hexadecimal digits in lower case elsewhere.
pub open spec fn is_uuid_text(text: Seq<char>) -> bool {
    &&& text.len() == 36
    &&& forall|i: int|
        0 <= i < 36 ==> if i == 8 || i == 13 || i == 18 || i == 23 {
            #[trigger] text[i] == '-'
        } else {
            is_lower_hex(text[i])
        }
}

/// A fresh random universally unique identifier, written out.
///
/// Calls `uuid::Uuid::new_v4` and writes the result with `to_string`, which gives its
/// hyphenated form in lower case. Trusted of it: the text has that form. Which
/// identifier comes out is left open.
#[verifier::external_body]
pub(crate) fn fresh_uuid() -> (id: String)
    ensures
        id@.len() == 36,
        is_uuid_text(id@),
{
    uuid::Uuid::new_v4().to_string()
}

/// The time of the call, in milliseconds since the start of 1970 (UTC).
///
/// Calls `chrono::Utc::now` and `DateTime::timestamp_millis`. Nothing is claimed of the
/// result: two calls may give any two times.
#[verifier::external_body]
pub(crate) fn now_millis() -> (now: i64) {
    chrono::Utc::now().timestamp_millis()
}

/// A text as Rust writes it for debugging: between double quotes, with a backslash
/// before each double quote and backslash in it, and with the characters that do not
/// print written as escapes.
pub uninterp spec fn debug_form(text: Seq<char>) -> Seq<char>;

/// Writes a text with std's `format!` and the `{:?}` of `str`, which is
/// `<str as core::fmt::Debug>::fmt`. The contract names the result, which depends on
/// the text alone.
#[verifier::external_body]
pub(crate) fn debug_text(text: &str) -> (out: String)
    ensures
        out@ == debug_form(text@),
{
    format!("{:?}", text)
}

} // verus!
