//! Image data URLs: `data:image/<ext>;base64,<payload>`.
//!
//! Building one from image bytes (the response side) and finding the header
//! and payload of one (the request side), with the standard Base64 alphabet.

use std::io::Read;
use vstd::prelude::*;
use base64_stream::{FromBase64Reader, ToBase64Reader};
use crate::text::{has_prefix, trim_leading, trim_start_matches};

verus! {

#[verifier::external_type_specification]
#[verifier::external_body]
pub struct ExRegexError(regex::Error);

/// `data:image`, the fixed start of the header pattern.
pub open spec fn data_image() -> Seq<char> {
    seq!['d', 'a', 't', 'a', ':', 'i', 'm', 'a', 'g', 'e']
}

/// `;base64,`, the fixed end of the header pattern.
pub open spec fn base64_marker() -> Seq<char> {
    seq![';', 'b', 'a', 's', 'e', '6', '4', ',']
}

/// `data:image/`, the prefix that marks an embedded image entry.
pub open spec fn data_image_slash() -> Seq<char> {
    data_image().push('/')
}

pub open spec fn is_lower(c: char) -> bool {
    'a' <= c && c <= 'z'
}

/// Length of the run of `a`..`z` in `s` that starts at `j`.
pub open spec fn lower_run(s: Seq<char>, j: int) -> nat
    decreases s.len() - j,
{
    if 0 <= j < s.len() && is_lower(s[j]) {
        1 + lower_run(s, j + 1)
    } else {
        0
    }
}

/// When the header pattern `data:image.([a-z]*);base64,` matches at `i`,
/// the length of its group (the longest run of `a`..`z`, since `;` ends it).
pub open spec fn header_at(s: Seq<char>, i: int) -> Option<nat> {
    if 0 <= i && i + 11 <= s.len() && s.subrange(i, i + 10) == data_image() && s[i + 10]
        != '\n' {
        let k = lower_run(s, i + 11);
        if i + 19 + k <= s.len() && s.subrange(i + 11 + k, i + 19 + k) == base64_marker() {
            Some(k)
        } else {
            None
        }
    } else {
        None
    }
}

/// The leftmost match of the header pattern at or after `i`: its start
/// and the length of its group.
pub open spec fn header_from(s: Seq<char>, i: int) -> Option<(int, nat)>
    decreases s.len() + 1 - i,
{
    if i < 0 || i > s.len() {
        None
    } else {
        match header_at(s, i) {
            Some(k) => Some((i, k)),
            None => header_from(s, i + 1),
        }
    }
}

/// The first match of `data:image.([a-z]*);base64,` in `s`: the matched
/// text and the text of the group.
pub open spec fn data_url_header(s: Seq<char>) -> Option<(Seq<char>, Seq<char>)> {
    match header_from(s, 0) {
        Some((i, k)) => Some((s.subrange(i, i + 19 + k), s.subrange(i + 11, i + 11 + k))),
        None => None,
    }
}

/// The pattern of the header of a data URL.
pub open spec fn header_pattern() -> Seq<char> {
    "(?m)data:image.([a-z]*);base64,"@
}

/// Builds `pattern` (the header pattern of data URLs) with
/// `regex::Regex::new`, runs it on `s` and returns the texts of the first
/// match and of its group. `Regex::new` fails only on invalid syntax or an
/// exceeded size limit, and this small valid pattern has neither, so the
/// contract claims success; it restates leftmost-first matching for this
/// pattern (`.` is any character but a newline).
#[verifier::external_body]
fn find_data_url_header(pattern: &str, s: &str) -> (res: Result<Option<(String, String)>, regex::Error>)
    requires
        pattern@ == header_pattern(),
    ensures
        res is Ok,
        res matches Ok(found) ==> match found {
            Some((head, ext)) => data_url_header(s@) == Some((head@, ext@)),
            None => data_url_header(s@) is None,
        },
{
    let re = regex::Regex::new(pattern)?;
    let found = re.captures_iter(s).nth(0).map(|c| (c[0].to_string(), c[1].to_string()));
    Ok(found)
}

/// The character of a 6-bit value in the standard Base64 alphabet.
pub open spec fn base64_digit(v: int) -> char {
    if v < 26 {
        (65 + v) as char
    } else if v < 52 {
        (97 + v - 26) as char
    } else if v < 62 {
        (48 + v - 52) as char
    } else if v == 62 {
        '+'
    } else {
        '/'
    }
}

/// Standard Base64 (RFC 4648, section 4) with `=` padding.
pub open spec fn base64_encoding(d: Seq<u8>) -> Seq<char>
    decreases d.len(),
{
    if d.len() == 0 {
        seq![]
    } else {
        let a = d[0] as int;
        let b = if d.len() > 1 { d[1] as int } else { 0 };
        let c = if d.len() > 2 { d[2] as int } else { 0 };
        let quad = seq![
            base64_digit(a / 4),
            base64_digit((a % 4) * 16 + b / 16),
            if d.len() > 1 { base64_digit((b % 16) * 4 + c / 64) } else { '=' },
            if d.len() > 2 { base64_digit(c % 64) } else { '=' },
        ];
        if d.len() <= 3 {
            quad
        } else {
            quad + base64_encoding(d.subrange(3, d.len() as int))
        }
    }
}

/// The bytes whose standard Base64 encoding is `text`, or `None` when `text`
/// is no such encoding.
pub open spec fn base64_decoding(text: Seq<char>) -> Option<Seq<u8>> {
    if exists|d: Seq<u8>| #[trigger] base64_encoding(d) == text {
        Some(choose|d: Seq<u8>| #[trigger] base64_encoding(d) == text)
    } else {
        None
    }
}

proof fn lemma_base64_digit_injective(v: int, w: int)
    requires
        0 <= v < 64,
        0 <= w < 64,
        base64_digit(v) == base64_digit(w),
    ensures
        v == w,
{
    assert(((65 + v) as char) as int == 65 + v || v >= 26);
}

proof fn lemma_base64_digit_not_pad(v: int)
    requires
        0 <= v < 64,
    ensures
        base64_digit(v) != '=',
{
}

proof fn lemma_base64_len(d: Seq<u8>)
    ensures
        d.len() == 0 <==> base64_encoding(d).len() == 0,
    decreases d.len(),
{
    if d.len() > 3 {
        lemma_base64_len(d.subrange(3, d.len() as int));
    }
}

/// Distinct bytes have distinct standard Base64 encodings.
pub proof fn lemma_base64_injective(d1: Seq<u8>, d2: Seq<u8>)
    requires
        base64_encoding(d1) == base64_encoding(d2),
    ensures
        d1 == d2,
    decreases d1.len(),
{
    if d1.len() == 0 || d2.len() == 0 {
        lemma_base64_len(d1);
        lemma_base64_len(d2);
        if d1.len() == 0 && d2.len() == 0 {
            assert(d1 =~= d2);
        }
        return;
    }
    let e = base64_encoding(d1);
    let a1 = d1[0] as int;
    let b1 = if d1.len() > 1 { d1[1] as int } else { 0 };
    let c1 = if d1.len() > 2 { d1[2] as int } else { 0 };
    let a2 = d2[0] as int;
    let b2 = if d2.len() > 1 { d2[1] as int } else { 0 };
    let c2 = if d2.len() > 2 { d2[2] as int } else { 0 };
    let q1 = seq![
        base64_digit(a1 / 4),
        base64_digit((a1 % 4) * 16 + b1 / 16),
        if d1.len() > 1 { base64_digit((b1 % 16) * 4 + c1 / 64) } else { '=' },
        if d1.len() > 2 { base64_digit(c1 % 64) } else { '=' },
    ];
    let q2 = seq![
        base64_digit(a2 / 4),
        base64_digit((a2 % 4) * 16 + b2 / 16),
        if d2.len() > 1 { base64_digit((b2 % 16) * 4 + c2 / 64) } else { '=' },
        if d2.len() > 2 { base64_digit(c2 % 64) } else { '=' },
    ];
    let r1 = d1.subrange(3, d1.len() as int);
    let r2 = d2.subrange(3, d2.len() as int);
    if d1.len() > 3 {
        assert(e == q1 + base64_encoding(r1));
    } else {
        assert(e == q1);
    }
    if d2.len() > 3 {
        assert(e == q2 + base64_encoding(r2));
    } else {
        assert(e == q2);
    }
    assert(e[0] == q1[0] && e[0] == q2[0]);
    assert(e[1] == q1[1] && e[1] == q2[1]);
    assert(e[2] == q1[2] && e[2] == q2[2]);
    assert(e[3] == q1[3] && e[3] == q2[3]);
    lemma_base64_digit_not_pad((b1 % 16) * 4 + c1 / 64);
    lemma_base64_digit_not_pad((b2 % 16) * 4 + c2 / 64);
    lemma_base64_digit_not_pad(c1 % 64);
    lemma_base64_digit_not_pad(c2 % 64);
    assert(d1.len() > 1 <==> d2.len() > 1);
    assert(d1.len() > 2 <==> d2.len() > 2);
    lemma_base64_digit_injective(a1 / 4, a2 / 4);
    lemma_base64_digit_injective((a1 % 4) * 16 + b1 / 16, (a2 % 4) * 16 + b2 / 16);
    assert(a1 == a2);
    assert(d1[0] == d2[0]);
    if d1.len() > 1 {
        lemma_base64_digit_injective((b1 % 16) * 4 + c1 / 64, (b2 % 16) * 4 + c2 / 64);
        assert(b1 == b2);
        assert(d1[1] == d2[1]);
    }
    if d1.len() > 2 {
        lemma_base64_digit_injective(c1 % 64, c2 % 64);
        assert(c1 == c2);
        assert(d1[2] == d2[2]);
    }
    if d1.len() > 3 && d2.len() > 3 {
        assert(base64_encoding(r1) =~= e.subrange(4, e.len() as int));
        assert(base64_encoding(r2) =~= e.subrange(4, e.len() as int));
        lemma_base64_injective(r1, r2);
        assert(d1 =~= d1.subrange(0, 3) + r1);
        assert(d2 =~= d2.subrange(0, 3) + r2);
        assert(d1.subrange(0, 3) =~= d2.subrange(0, 3));
    } else if d1.len() > 3 {
        assert(e.len() > 4);
        assert(e.len() == 4);
    } else if d2.len() > 3 {
        assert(e.len() > 4);
        assert(e.len() == 4);
    } else {
        assert(d1.len() == d2.len());
        assert(d1 =~= d2);
    }
}

/// Reads `data` through `base64_stream::ToBase64Reader` into a string: the
/// standard Base64 encoding with padding.
#[verifier::external_body]
fn base64_encode(data: &[u8]) -> (res: String)
    ensures
        res@ == base64_encoding(data@),
{
    let mut out = String::new();
    let _ = ToBase64Reader::new(std::io::Cursor::new(data)).read_to_string(&mut out);
    out
}

/// Reads `text` to its end through `base64_stream::FromBase64Reader`
/// (the standard alphabet, canonical `=` padding, no stray trailing bits):
/// it yields bytes exactly when `text` is the standard Base64 encoding of
/// some bytes, and then those bytes.
#[verifier::external_body]
fn base64_decode(text: &str) -> (res: Option<Vec<u8>>)
    ensures
        res matches Some(v) ==> base64_encoding(v@) == text@,
        res is None ==> forall|d: Seq<u8>| #[trigger] base64_encoding(d) != text@,
{
    let mut data = Vec::new();
    match FromBase64Reader::new(std::io::Cursor::new(text)).read_to_end(&mut data) {
        Ok(_) => Some(data),
        Err(_) => None,
    }
}

/// The text of an image data URL with extension `ext` and payload `payload`.
pub open spec fn data_url_text(ext: Seq<char>, payload: Seq<char>) -> Seq<char> {
    data_image_slash() + ext + base64_marker() + payload
}

/// For every extension, upper case included, and every payload, a data URL
/// is `data:image/`, the extension, `;base64,` and the payload, in that order.
pub proof fn lemma_data_url_text_literal(ext: Seq<char>, payload: Seq<char>)
    ensures
        data_url_text(ext, payload) == seq!['d', 'a', 't', 'a', ':', 'i', 'm', 'a', 'g', 'e', '/']
            + ext + seq![';', 'b', 'a', 's', 'e', '6', '4', ','] + payload,
{
    assert(data_image_slash() =~= seq!['d', 'a', 't', 'a', ':', 'i', 'm', 'a', 'g', 'e', '/']);
}

/// The extension and payload that the request side reads out of `s`: the
/// group of the first header match, and `s` with every leading copy of the
/// matched header removed.
pub open spec fn embedded_parts(s: Seq<char>) -> Option<(Seq<char>, Seq<char>)> {
    match data_url_header(s) {
        Some((head, ext)) => Some((ext, trim_leading(s, head))),
        None => None,
    }
}

/// The data URL of an image with extension `ext`: `data:image/`, `ext`,
/// `;base64,` and the standard Base64 encoding of `image`.
pub fn image_data_url(ext: &str, image: &[u8]) -> (url: String)
    ensures
        url@ == data_url_text(ext@, base64_encoding(image@)),
        url@ == seq!['d', 'a', 't', 'a', ':', 'i', 'm', 'a', 'g', 'e', '/'] + ext@ + seq![
            ';', 'b', 'a', 's', 'e', '6', '4', ',',
        ] + base64_encoding(image@),
{
    let mut url = String::from_str("data:image/");
    url.append(ext);
    url.append(";base64,");
    let encoded = base64_encode(image);
    url.append(encoded.as_str());
    proof {
        reveal_strlit("data:image/");
        reveal_strlit(";base64,");
        assert(data_image_slash() =~= "data:image/"@);
        assert(base64_marker() =~= ";base64,"@);
        lemma_data_url_text_literal(ext@, base64_encoding(image@));
    }
    url
}

proof fn lemma_header_from_found(s: Seq<char>, i: int)
    requires
        header_from(s, i) is Some,
    ensures
        ({
            let (j, k) = header_from(s, i)->0;
            &&& i <= j
            &&& header_at(s, j) == Some(k)
            &&& 0 <= j
            &&& j + 19 + k <= s.len()
        }),
    decreases s.len() + 1 - i,
{
    if header_at(s, i) is None {
        lemma_header_from_found(s, i + 1);
    }
}

/// Finds the header of a data URL in `entry`: the extension it names and the
/// payload after it (with every leading copy of the header removed).
pub fn split_data_url<'a>(entry: &'a str) -> (res: Result<Option<(String, &'a str)>, regex::Error>)
    ensures
        res is Ok,
        res matches Ok(found) ==> match found {
            Some((ext, payload)) => embedded_parts(entry@) == Some((ext@, payload@)),
            None => embedded_parts(entry@) is None,
        },
{
    match find_data_url_header("(?m)data:image.([a-z]*);base64,", entry) {
        Err(e) => Err(e),
        Ok(None) => Ok(None),
        Ok(Some((head, ext))) => {
            proof {
                lemma_header_from_found(entry@, 0);
            }
            let payload = trim_start_matches(entry, head.as_str());
            Ok(Some((ext, payload)))
        },
    }
}

/// Decodes the Base64 payload of a data URL.
pub fn decode_payload(payload: &str) -> (res: Option<Vec<u8>>)
    ensures
        match res {
            Some(v) => base64_decoding(payload@) == Some(v@),
            None => base64_decoding(payload@) is None,
        },
        forall|d: Seq<u8>| #[trigger] base64_encoding(d) == payload@ ==> (res matches Some(v) && v@ == d),
{
    let res = base64_decode(payload);
    proof {
        if res is Some {
            let v = res->0@;
            let c = choose|d: Seq<u8>| #[trigger] base64_encoding(d) == payload@;
            assert(base64_encoding(v) == payload@);
            lemma_base64_injective(c, v);
        }
        assert forall|d: Seq<u8>| #[trigger] base64_encoding(d) == payload@ implies (res matches Some(
            v,
        ) && v@ == d) by {
            if res is Some {
                lemma_base64_injective(d, res->0@);
            }
        }
    }
    res
}

/// Every character of `s` is one of `a`..`z`.
pub open spec fn all_lower(s: Seq<char>) -> bool {
    forall|i: int| 0 <= i < s.len() ==> is_lower(#[trigger] s[i])
}

proof fn lemma_lower_run(s: Seq<char>, j: int, n: nat)
    requires
        0 <= j,
        j + n <= s.len(),
        forall|t: int| j <= t < j + n ==> is_lower(#[trigger] s[t]),
        j + n == s.len() || !is_lower(s[j + n]),
    ensures
        lower_run(s, j) == n,
    decreases n,
{
    if n > 0 {
        lemma_lower_run(s, j + 1, (n - 1) as nat);
    }
}

/// A character of the standard Base64 alphabet, or the padding `=`.
pub open spec fn is_base64_char(c: char) -> bool {
    ||| ('A' <= c && c <= 'Z')
    ||| ('a' <= c && c <= 'z')
    ||| ('0' <= c && c <= '9')
    ||| c == '+'
    ||| c == '/'
    ||| c == '='
}

proof fn lemma_base64_digit_in_alphabet(v: int)
    requires
        0 <= v < 64,
    ensures
        is_base64_char(base64_digit(v)),
{
}

/// Every character of a standard Base64 encoding is in the Base64 alphabet
/// or is the padding `=`.
pub proof fn lemma_base64_alphabet(d: Seq<u8>)
    ensures
        forall|i: int|
            0 <= i < base64_encoding(d).len() ==> is_base64_char(#[trigger] base64_encoding(d)[i]),
    decreases d.len(),
{
    if d.len() > 0 {
        let a = d[0] as int;
        let b = if d.len() > 1 { d[1] as int } else { 0 };
        let c = if d.len() > 2 { d[2] as int } else { 0 };
        lemma_base64_digit_in_alphabet(a / 4);
        lemma_base64_digit_in_alphabet((a % 4) * 16 + b / 16);
        lemma_base64_digit_in_alphabet((b % 16) * 4 + c / 64);
        lemma_base64_digit_in_alphabet(c % 64);
        let quad = seq![
            base64_digit(a / 4),
            base64_digit((a % 4) * 16 + b / 16),
            if d.len() > 1 { base64_digit((b % 16) * 4 + c / 64) } else { '=' },
            if d.len() > 2 { base64_digit(c % 64) } else { '=' },
        ];
        assert(forall|i: int| 0 <= i < 4 ==> is_base64_char(#[trigger] quad[i]));
        if d.len() > 3 {
            let rest = d.subrange(3, d.len() as int);
            lemma_base64_alphabet(rest);
            assert(base64_encoding(d) == quad + base64_encoding(rest));
            assert forall|i: int| 0 <= i < base64_encoding(d).len() implies is_base64_char(
                #[trigger] base64_encoding(d)[i],
            ) by {
                if i >= 4 {
                    assert(base64_encoding(d)[i] == base64_encoding(rest)[i - 4]);
                } else {
                    assert(base64_encoding(d)[i] == quad[i]);
                }
            }
        } else {
            assert(base64_encoding(d) == quad);
        }
    }
}

/// A data URL built from an extension made of `a`..`z` and the Base64
/// encoding of some bytes is read back as that extension and that encoding.
pub proof fn lemma_data_url_round_trip(ext: Seq<char>, image: Seq<u8>)
    requires
        all_lower(ext),
    ensures
        embedded_parts(data_url_text(ext, base64_encoding(image))) == Some(
            (ext, base64_encoding(image)),
        ),
{
    let payload = base64_encoding(image);
    let url = data_url_text(ext, payload);
    let k: int = ext.len() as int;
    let head = data_image_slash() + ext + base64_marker();
    assert(url =~= head + payload);
    assert(url.subrange(0, 10) =~= data_image());
    assert forall|t: int| 11 <= t < 11 + k implies is_lower(#[trigger] url[t]) by {
        assert(url[t] == ext[t - 11]);
    }
    assert(url[11 + k] == ';');
    lemma_lower_run(url, 11, k as nat);
    assert(url.subrange(11 + k as int, 19 + k as int) =~= base64_marker());
    assert(header_at(url, 0) == Some(k as nat));
    assert(url.subrange(0, 19 + k as int) =~= head);
    assert(url.subrange(11, 11 + k as int) =~= ext);
    assert(has_prefix(url, head));
    assert(url.subrange(head.len() as int, url.len() as int) =~= payload);
    lemma_base64_alphabet(image);
    if has_prefix(payload, head) {
        assert(payload[4] == head[4]);
    }
    assert(trim_leading(payload, head) == payload);
}

} // verus!
