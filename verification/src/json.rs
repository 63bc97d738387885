//! The JSON side of the service: reading the `files` member of an upload
//! request, and writing the list of processed images as a JSON array.

use vstd::prelude::*;
use serde_json::Value;
use crate::data_url::{all_lower, base64_encoding, data_url_text, is_base64_char, lemma_base64_alphabet};

verus! {

#[verifier::external_type_specification]
#[verifier::external_body]
pub struct ExJsonError(serde_json::Error);

/// What `serde_json` reads out of `text`, seen through the member named
/// `member`: `None` when `text` is not JSON; otherwise `None` inside when the
/// document has no such member that is an array, and else each element of
/// that array, as its text when it is a string.
pub uninterp spec fn json_array_member(text: Seq<char>, member: Seq<char>) -> Option<Option<Seq<Option<Seq<char>>>>>;

/// Parses `text` with `serde_json::from_str` into a `serde_json::Value`,
/// reads its member `member` (indexing) with `as_array`, and each element
/// with `as_str`. What it returns is named, not stated.
#[verifier::external_body]
pub(crate) fn parse_array_member(text: &str, member: &str) -> (res: Result<Option<Vec<Option<String>>>, serde_json::Error>)
    ensures
        match res {
            Ok(items) => json_array_member(text@, member@) == Some(items.deep_view()),
            Err(_) => json_array_member(text@, member@) is None,
        },
{
    let value: Value = serde_json::from_str(text)?;
    Ok(value[member].as_array().map(|items| items.iter().map(|item| item.as_str().map(String::from)).collect()))
}

/// A lowercase hexadecimal digit.
pub open spec fn hex_digit(v: int) -> char {
    if v < 10 {
        (48 + v) as char
    } else {
        (97 + v - 10) as char
    }
}

/// How `serde_json` writes one character inside a string: `"` and `\` are
/// escaped with a backslash, the control characters with a short escape
/// where JSON has one and as `\u00XX` otherwise; all others stand as they are.
pub open spec fn json_escaped_char(c: char) -> Seq<char> {
    if c == '"' {
        seq!['\\', '"']
    } else if c == '\\' {
        seq!['\\', '\\']
    } else if c == '\x08' {
        seq!['\\', 'b']
    } else if c == '\x0c' {
        seq!['\\', 'f']
    } else if c == '\n' {
        seq!['\\', 'n']
    } else if c == '\r' {
        seq!['\\', 'r']
    } else if c == '\t' {
        seq!['\\', 't']
    } else if (c as int) < 32 {
        seq!['\\', 'u', '0', '0', hex_digit((c as int) / 16), hex_digit((c as int) % 16)]
    } else {
        seq![c]
    }
}

/// The escaped form of the characters of a string.
pub open spec fn json_escaped(s: Seq<char>) -> Seq<char>
    decreases s.len(),
{
    if s.len() == 0 {
        seq![]
    } else {
        json_escaped(s.drop_last()) + json_escaped_char(s.last())
    }
}

/// A JSON string literal.
pub open spec fn json_string(s: Seq<char>) -> Seq<char> {
    seq!['"'] + json_escaped(s) + seq!['"']
}

/// The elements of a JSON array of strings, separated by commas.
pub open spec fn json_string_items(items: Seq<Seq<char>>) -> Seq<char>
    decreases items.len(),
{
    if items.len() == 0 {
        seq![]
    } else if items.len() == 1 {
        json_string(items[0])
    } else {
        json_string_items(items.drop_last()) + seq![','] + json_string(items.last())
    }
}

/// The compact JSON text of an array of strings.
pub open spec fn json_string_array(items: Seq<Seq<char>>) -> Seq<char> {
    seq!['['] + json_string_items(items) + seq![']']
}

/// Converts `items` into a `serde_json::Value` array and writes it with
/// `to_string`: the compact JSON text of the array.
#[verifier::external_body]
fn json_array_text(items: &Vec<String>) -> (res: String)
    ensures
        res@ == json_string_array(items.deep_view()),
{
    Value::from(items.clone()).to_string()
}

/// The JSON text of the list of processed images, as the service answers
/// with it: an array of strings.
pub fn files_json(files: &Vec<String>) -> (res: String)
    ensures
        res@ == json_string_array(files.deep_view()),
{
    json_array_text(files)
}


/// No character of `s` needs escaping in a JSON string.
pub open spec fn json_plain(s: Seq<char>) -> bool {
    forall|i: int|
        0 <= i < s.len() ==> #[trigger] s[i] != '"' && s[i] != '\\' && (s[i] as int) >= 32
}

/// A string whose characters need no escaping is written as it is.
pub proof fn lemma_json_plain(s: Seq<char>)
    requires
        json_plain(s),
    ensures
        json_escaped(s) == s,
    decreases s.len(),
{
    if s.len() > 0 {
        let init = s.drop_last();
        assert forall|i: int| 0 <= i < init.len() implies #[trigger] init[i] != '"' && init[i]
            != '\\' && (init[i] as int) >= 32 by {
            assert(init[i] == s[i]);
        }
        lemma_json_plain(init);
        assert(s.last() == s[s.len() - 1]);
        assert(init.push(s.last()) =~= s);
    }
}

/// The data URL of an image with an extension of `a`..`z` stands unescaped
/// in the JSON answer: between two quotes, character for character.
pub proof fn lemma_data_url_json_unescaped(ext: Seq<char>, image: Seq<u8>)
    requires
        all_lower(ext),
    ensures
        json_string(data_url_text(ext, base64_encoding(image))) == seq!['"'] + data_url_text(
            ext,
            base64_encoding(image),
        ) + seq!['"'],
{
    let payload = base64_encoding(image);
    let url = data_url_text(ext, payload);
    let fixed = seq!['d', 'a', 't', 'a', ':', 'i', 'm', 'a', 'g', 'e', '/'];
    let marker = seq![';', 'b', 'a', 's', 'e', '6', '4', ','];
    lemma_base64_alphabet(image);
    assert(url =~= fixed + ext + marker + payload);
    assert forall|i: int| 0 <= i < url.len() implies #[trigger] url[i] != '"' && url[i] != '\\'
        && (url[i] as int) >= 32 by {
        if i < 11 {
            assert(url[i] == fixed[i]);
        } else if i < 11 + ext.len() {
            assert(url[i] == ext[i - 11]);
        } else if i < 19 + ext.len() {
            assert(url[i] == marker[i - 11 - ext.len()]);
        } else {
            assert(url[i] == payload[i - 19 - ext.len()]);
            assert(is_base64_char(payload[i - 19 - ext.len()]));
        }
    }
    lemma_json_plain(url);
}

} // verus!
