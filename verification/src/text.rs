//! Small text helpers over `String` and `&str`, specified by their
//! character sequences.

use vstd::prelude::*;

verus! {

/// `String::push`: the contract claims that the characters of the string
/// gain `ch` at their end.
pub assume_specification[ std::string::String::push ](s: &mut String, ch: char)
    ensures
        final(s)@ == old(s)@.push(ch),
;

/// The character of a decimal digit.
pub open spec fn digit_char(d: nat) -> char {
    (48 + d) as char
}

/// The decimal notation of a natural number, without leading zeros.
pub open spec fn decimal(n: nat) -> Seq<char>
    decreases n,
{
    if n < 10 {
        seq![digit_char(n)]
    } else {
        decimal(n / 10).push(digit_char(n % 10))
    }
}

/// Appends the decimal notation of `n` to `s`.
pub fn push_decimal(s: &mut String, n: u64)
    ensures
        final(s)@ == old(s)@ + decimal(n as nat),
    decreases n,
{
    if n >= 10 {
        push_decimal(s, n / 10);
    }
    let d: u8 = (n % 10) as u8;
    let c: char = (48u8 + d) as char;
    s.push(c);
    assert(c == digit_char((n % 10) as nat));
}

/// The characters of `s`, in order.
pub fn chars_of(s: &str) -> (v: Vec<char>)
    ensures
        v@ == s@,
{
    let mut v: Vec<char> = Vec::new();
    for c in it: s.chars()
        invariant
            v@ == it.seq().take(it.index() as int),
    {
        v.push(c);
    }
    v
}

/// A `String` holding the characters of `cs`.
pub fn string_of(cs: &[char]) -> (s: String)
    ensures
        s@ == cs@,
{
    let mut s = String::new();
    let n = cs.len();
    for i in 0..n
        invariant
            n == cs@.len(),
            s@ == cs@.take(i as int),
    {
        s.push(cs[i]);
        assert(cs@.take(i + 1) == cs@.take(i as int).push(cs@[i as int]));
    }
    assert(cs@.take(n as int) == cs@);
    s
}


/// Whether `s` begins with the characters of `prefix`.
pub open spec fn has_prefix(s: Seq<char>, prefix: Seq<char>) -> bool {
    prefix.len() <= s.len() && s.subrange(0, prefix.len() as int) == prefix
}

/// Calls `str::starts_with` with a string pattern: true exactly when the
/// characters of `prefix` begin `s`.
#[verifier::external_body]
pub(crate) fn str_starts_with(s: &str, prefix: &str) -> (res: bool)
    ensures
        res == has_prefix(s@, prefix@),
{
    s.starts_with(prefix)
}

/// Calls `str::strip_prefix` with a string pattern: the rest of `s` after
/// `prefix` when `s` begins with it, `None` otherwise.
#[verifier::external_body]
pub(crate) fn str_strip_prefix<'a>(s: &'a str, prefix: &str) -> (res: Option<&'a str>)
    ensures
        res is Some == has_prefix(s@, prefix@),
        res matches Some(rest) ==> rest@ == s@.subrange(prefix@.len() as int, s@.len() as int),
{
    s.strip_prefix(prefix)
}

/// What `str::trim_start_matches` leaves of `s` for a non-empty string
/// pattern: `s` with every leading copy of `pat` removed.
pub open spec fn trim_leading(s: Seq<char>, pat: Seq<char>) -> Seq<char>
    decreases s.len(),
{
    if pat.len() > 0 && has_prefix(s, pat) {
        trim_leading(s.subrange(pat.len() as int, s.len() as int), pat)
    } else {
        s
    }
}

/// Trimming leaves a suffix of `s` that no longer begins with `pat`.
pub proof fn lemma_trim_leading(s: Seq<char>, pat: Seq<char>)
    requires
        pat.len() > 0,
    ensures
        !has_prefix(trim_leading(s, pat), pat),
        trim_leading(s, pat).len() <= s.len(),
        trim_leading(s, pat) == s.subrange(
            s.len() - trim_leading(s, pat).len(),
            s.len() as int,
        ),
    decreases s.len(),
{
    if has_prefix(s, pat) {
        let rest = s.subrange(pat.len() as int, s.len() as int);
        lemma_trim_leading(rest, pat);
        assert(rest.subrange(rest.len() - trim_leading(rest, pat).len(), rest.len() as int)
            =~= s.subrange(s.len() - trim_leading(rest, pat).len(), s.len() as int));
    } else {
        assert(s.subrange(0, s.len() as int) =~= s);
    }
}

/// Removes every leading copy of `pat` from `s` (nothing when `pat` is
/// empty).
pub fn trim_start_matches<'a>(s: &'a str, pat: &str) -> (res: &'a str)
    ensures
        res@ == trim_leading(s@, pat@),
        pat@.len() > 0 ==> !has_prefix(res@, pat@),
{
    if pat.unicode_len() == 0 {
        return s;
    }
    proof {
        lemma_trim_leading(s@, pat@);
    }
    let mut rest: &'a str = s;
    loop
        invariant
            pat@.len() > 0,
            trim_leading(rest@, pat@) == trim_leading(s@, pat@),
        decreases rest@.len(),
    {
        match str_strip_prefix(rest, pat) {
            Some(r) => {
                rest = r;
            },
            None => {
                return rest;
            },
        }
    }
}

} // verus!
