//! The encodings the requests use, computed by the outside crates that
//! implement them: form URL encoding (`serde_urlencoded`), percent encoding
//! (`urlencoding`), MD5 digests (`md5`) and JSON arrays (`serde_json`).
use vstd::prelude::*;
use vstd::utf8::encode_utf8;

use crate::text::{int_decimal, pairs_view, strings_view};

verus! {

/// `serde_urlencoded::ser::Error`: a form serialization error.
#[verifier::external_type_specification]
#[verifier::external_body]
pub struct ExFormError(serde_urlencoded::ser::Error);

/// The upper-case hexadecimal digit of `d` (0 to 15).
pub open spec fn hex_upper(d: int) -> char {
    if d < 10 {
        (('0' as int) + d) as char
    } else {
        (('A' as int) + d - 10) as char
    }
}

/// `%XX`, the percent escape of a byte with upper-case hexadecimal digits.
pub open spec fn percent_escape(b: u8) -> Seq<char> {
    seq!['%', hex_upper((b / 16) as int), hex_upper((b % 16) as int)]
}

/// The bytes that form URL encoding leaves unchanged: ASCII letters and
/// digits, `*`, `-`, `.` and `_`.
pub open spec fn form_unchanged(b: u8) -> bool {
    (48 <= b <= 57) || (65 <= b <= 90) || (97 <= b <= 122) || b == 42 || b == 45 || b == 46
        || b == 95
}

/// Form URL encoding of bytes: unchanged bytes stay, a space becomes `+`,
/// every other byte becomes its percent escape.
pub open spec fn form_encode_bytes(bytes: Seq<u8>) -> Seq<char>
    decreases bytes.len(),
{
    if bytes.len() == 0 {
        seq![]
    } else {
        let b = bytes[0];
        let head = if form_unchanged(b) {
            seq![b as char]
        } else if b == 32 {
            seq!['+']
        } else {
            percent_escape(b)
        };
        head + form_encode_bytes(bytes.drop_first())
    }
}

/// Form URL encoding of a string: of its UTF-8 bytes.
pub open spec fn form_encode(s: Seq<char>) -> Seq<char> {
    form_encode_bytes(encode_utf8(s))
}

/// A query string of pairs: `key=value` for each pair, each side form
/// encoded, joined by `&`.
pub open spec fn form_encode_pairs(pairs: Seq<(Seq<char>, Seq<char>)>) -> Seq<char>
    decreases pairs.len(),
{
    if pairs.len() == 0 {
        seq![]
    } else {
        let last = pairs.last();
        let item = form_encode(last.0) + seq!['='] + form_encode(last.1);
        if pairs.len() == 1 {
            item
        } else {
            form_encode_pairs(pairs.drop_last()) + seq!['&'] + item
        }
    }
}

/// Serializes pairs as an `application/x-www-form-urlencoded` query string
/// (`serde_urlencoded::to_string` on a sequence of string pairs).
///
/// String pairs always serialize: the text is the pairs' form encoding, in
/// order.
#[verifier::external_body]
pub(crate) fn form_urlencode(pairs: &Vec<(String, String)>) -> (r: Result<String, serde_urlencoded::ser::Error>)
    ensures
        r is Ok,
        r matches Ok(s) ==> s@ == form_encode_pairs(pairs_view(pairs@)),
{
    let refs: Vec<(&str, &str)> = pairs.iter().map(|p| (p.0.as_str(), p.1.as_str())).collect();
    serde_urlencoded::to_string(refs)
}

/// The text of a form serialization error (its `Display`).
///
/// Nothing is stated of the text.
#[verifier::external_body]
pub(crate) fn form_error_text(e: &serde_urlencoded::ser::Error) -> String {
    e.to_string()
}

/// The bytes that percent encoding leaves unchanged: ASCII letters and
/// digits, `-`, `.`, `_` and `~`.
pub open spec fn percent_unchanged(b: u8) -> bool {
    (48 <= b <= 57) || (65 <= b <= 90) || (97 <= b <= 122) || b == 45 || b == 46 || b == 95
        || b == 126
}

/// Percent encoding of bytes: unchanged bytes stay, every other byte becomes
/// its percent escape.
pub open spec fn percent_encode_bytes(bytes: Seq<u8>) -> Seq<char>
    decreases bytes.len(),
{
    if bytes.len() == 0 {
        seq![]
    } else {
        let b = bytes[0];
        let head = if percent_unchanged(b) {
            seq![b as char]
        } else {
            percent_escape(b)
        };
        head + percent_encode_bytes(bytes.drop_first())
    }
}

/// Percent encoding of a string: of its UTF-8 bytes.
pub open spec fn percent_encode(s: Seq<char>) -> Seq<char> {
    percent_encode_bytes(encode_utf8(s))
}

/// Percent-encodes a string for a URL (`urlencoding::encode`): every byte
/// but ASCII letters, digits, `-`, `.`, `_` and `~` becomes `%XX`.
#[verifier::external_body]
pub(crate) fn url_encode(s: &str) -> (r: String)
    ensures
        r@ == percent_encode(s@),
{
    urlencoding::encode(s).into_owned()
}

/// The lower-case hexadecimal MD5 digest of some bytes.
pub uninterp spec fn md5_hex(data: Seq<u8>) -> Seq<char>;

/// The MD5 digest of some bytes in lower-case hexadecimal
/// (`md5::compute`, formatted with `{:x}`): the digest's 16 bytes as 32
/// hexadecimal digits.
#[verifier::external_body]
pub(crate) fn md5_hex_digest(data: &[u8]) -> (r: String)
    ensures
        r@ == md5_hex(data@),
        r@.len() == 32,
{
    format!("{:x}", md5::compute(data))
}

/// The lower-case hexadecimal digit of `d` (0 to 15).
pub open spec fn hex_lower(d: int) -> char {
    if d < 10 {
        (('0' as int) + d) as char
    } else {
        (('a' as int) + d - 10) as char
    }
}

/// A character as it stands inside a JSON string: `"` and `\` behind a
/// backslash; backspace, tab, line feed, form feed and carriage return as
/// `\b`, `\t`, `\n`, `\f`, `\r`; the other control characters below 0x20 as
/// `\u00XX` with lower-case digits; every other character as it is.
pub open spec fn json_escape_char(c: char) -> Seq<char> {
    let n = c as int;
    if c == '"' {
        seq!['\\', '"']
    } else if c == '\\' {
        seq!['\\', '\\']
    } else if n == 8 {
        seq!['\\', 'b']
    } else if n == 9 {
        seq!['\\', 't']
    } else if n == 10 {
        seq!['\\', 'n']
    } else if n == 12 {
        seq!['\\', 'f']
    } else if n == 13 {
        seq!['\\', 'r']
    } else if n < 32 {
        seq!['\\', 'u', '0', '0', hex_lower(n / 16), hex_lower(n % 16)]
    } else {
        seq![c]
    }
}

/// The escaped characters of a string, one after the other.
pub open spec fn json_escape(s: Seq<char>) -> Seq<char>
    decreases s.len(),
{
    if s.len() == 0 {
        seq![]
    } else {
        json_escape_char(s[0]) + json_escape(s.drop_first())
    }
}

/// The JSON text of a string: its escaped characters between double quotes.
pub open spec fn json_string(s: Seq<char>) -> Seq<char> {
    seq!['"'] + json_escape(s) + seq!['"']
}

/// The JSON texts of some strings, separated by commas.
pub open spec fn comma_json_strings(items: Seq<Seq<char>>) -> Seq<char>
    decreases items.len(),
{
    if items.len() == 0 {
        seq![]
    } else if items.len() == 1 {
        json_string(items[0])
    } else {
        comma_json_strings(items.drop_last()) + seq![','] + json_string(items.last())
    }
}

/// The compact JSON text of an array of strings: `[`, the strings' JSON texts
/// separated by commas, `]`.
pub open spec fn json_string_array(items: Seq<Seq<char>>) -> Seq<char> {
    seq!['['] + comma_json_strings(items) + seq![']']
}

/// Serializes a list of strings as a compact JSON array
/// (`serde_json::to_string` on a `Vec<String>`), which always succeeds: `[`,
/// each string between double quotes with its escapes, separated by commas,
/// `]`.
#[verifier::external_body]
pub(crate) fn json_encode_strings(items: &Vec<String>) -> (r: Result<String, serde_json::Error>)
    ensures
        r is Ok,
        r matches Ok(s) ==> s@ == json_string_array(strings_view(items@)),
{
    serde_json::to_string(items)
}

/// The decimals of some numbers, separated by commas.
pub open spec fn comma_decimals(values: Seq<u64>) -> Seq<char>
    decreases values.len(),
{
    if values.len() == 0 {
        seq![]
    } else if values.len() == 1 {
        int_decimal(values[0] as int)
    } else {
        comma_decimals(values.drop_last()) + seq![','] + int_decimal(values.last() as int)
    }
}

/// Serializes a list of integers as a compact JSON array
/// (`serde_json::to_string` on a `[u64]`), which always succeeds: `[`, the
/// decimals separated by commas, `]`.
#[verifier::external_body]
pub(crate) fn json_encode_u64s(values: &[u64]) -> (r: Result<String, serde_json::Error>)
    ensures
        r is Ok,
        r matches Ok(s) ==> s@ == seq!['['] + comma_decimals(values@) + seq![']'],
{
    serde_json::to_string(values)
}

/// The text of a JSON error (its `Display`).
///
/// Nothing is stated of the text.
#[verifier::external_body]
pub(crate) fn json_error_text(e: &serde_json::Error) -> String {
    e.to_string()
}

/// The compact JSON text of an array of objects whose members are strings.
pub uninterp spec fn json_object_array(objects: Seq<Seq<(Seq<char>, Seq<char>)>>) -> Seq<char>;

/// The views of a list of objects given as lists of string members.
pub open spec fn objects_view(objects: Seq<Vec<(String, String)>>) -> Seq<
    Seq<(Seq<char>, Seq<char>)>,
> {
    objects.map_values(|o: Vec<(String, String)>| pairs_view(o@))
}

/// Renders an array of objects whose members are strings as compact JSON
/// (`serde_json::Value::to_string` on an array of objects, as `json!` builds
/// them).
///
/// The text is named here; member order and escaping are not restated.
#[verifier::external_body]
pub(crate) fn json_encode_objects(objects: &Vec<Vec<(String, String)>>) -> (r: String)
    ensures
        r@ == json_object_array(objects_view(objects@)),
{
    let values: Vec<serde_json::Value> = objects
        .iter()
        .map(|o| {
            serde_json::Value::Object(
                o.iter().map(|(k, v)| (k.clone(), serde_json::Value::String(v.clone()))).collect(),
            )
        })
        .collect();
    serde_json::Value::Array(values).to_string()
}

} // verus!
