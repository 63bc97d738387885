//! The parts of `std::path` semantics (on Unix) that upload file names go
//! through: the last component of a path, its extension, joining a name
//! under the upload directory, and swapping an extension.

use vstd::prelude::*;
use crate::text::{chars_of, string_of};

verus! {

/// Start of the path piece that ends at `end`: just after the last `/`
/// before `end`, or 0.
pub open spec fn piece_start(p: Seq<char>, end: int) -> int
    decreases end,
{
    if end <= 0 {
        0
    } else if p[end - 1] == '/' {
        end
    } else {
        piece_start(p, end - 1)
    }
}

/// The last component of `p.subrange(0, end)` as `Path::file_name` reports
/// it: the last piece between separators that is neither empty nor `.`;
/// `None` when there is none or when it is `..`.
pub open spec fn file_name_before(p: Seq<char>, end: int) -> Option<Seq<char>>
    decreases end,
{
    if end <= 0 {
        None
    } else {
        let k = piece_start(p, end);
        let piece = p.subrange(k, end);
        if piece.len() > 0 && piece != seq!['.'] {
            if piece == seq!['.', '.'] {
                None
            } else {
                Some(piece)
            }
        } else if k <= 0 {
            None
        } else {
            proof {
                lemma_piece_start_le(p, end);
            }
            file_name_before(p, k - 1)
        }
    }
}

/// `Path::file_name` of `p`.
pub open spec fn file_name_of(p: Seq<char>) -> Option<Seq<char>> {
    file_name_before(p, p.len() as int)
}

/// Position of the last `.` before `end`, or -1.
pub open spec fn last_dot_before(s: Seq<char>, end: int) -> int
    decreases end,
{
    if end <= 0 {
        -1
    } else if s[end - 1] == '.' {
        end - 1
    } else {
        last_dot_before(s, end - 1)
    }
}

/// The extension of a file name (not `..`): the text after its last `.`,
/// unless it has no `.` or its only leading `.` is the first character.
pub open spec fn name_extension(name: Seq<char>) -> Option<Seq<char>> {
    let j = last_dot_before(name, name.len() as int);
    if j <= 0 {
        None
    } else {
        Some(name.subrange(j + 1, name.len() as int))
    }
}

/// `Path::extension` of `p`.
pub open spec fn extension_of(p: Seq<char>) -> Option<Seq<char>> {
    match file_name_of(p) {
        Some(name) => name_extension(name),
        None => None,
    }
}

pub proof fn lemma_piece_start_le(p: Seq<char>, end: int)
    requires
        end >= 0,
    ensures
        piece_start(p, end) <= end,
    decreases end,
{
    if end > 0 && p[end - 1] != '/' {
        lemma_piece_start_le(p, end - 1);
    }
}

proof fn lemma_piece_start_bounds(p: Seq<char>, end: int)
    requires
        0 <= end <= p.len(),
    ensures
        0 <= piece_start(p, end) <= end,
        forall|i: int| piece_start(p, end) <= i < end ==> p[i] != '/',
        piece_start(p, end) > 0 ==> p[piece_start(p, end) - 1] == '/',
    decreases end,
{
    if end > 0 && p[end - 1] != '/' {
        lemma_piece_start_bounds(p, end - 1);
    }
}

proof fn lemma_last_dot_bounds(s: Seq<char>, end: int)
    requires
        0 <= end <= s.len(),
    ensures
        -1 <= last_dot_before(s, end) < end,
        last_dot_before(s, end) >= 0 ==> s[last_dot_before(s, end)] == '.',
        forall|i: int| last_dot_before(s, end) < i < end ==> s[i] != '.',
    decreases end,
{
    if end > 0 && s[end - 1] != '.' {
        lemma_last_dot_bounds(s, end - 1);
    }
}

proof fn lemma_piece_start_at(p: Seq<char>, k: int, end: int)
    requires
        0 < k <= end <= p.len(),
        p[k - 1] == '/',
        forall|i: int| k <= i < end ==> p[i] != '/',
    ensures
        piece_start(p, end) == k,
    decreases end - k,
{
    if end > k {
        lemma_piece_start_at(p, k, end - 1);
    }
}

proof fn lemma_last_dot_at(s: Seq<char>, j: int, end: int)
    requires
        0 <= j < end <= s.len(),
        s[j] == '.',
        forall|i: int| j < i < end ==> s[i] != '.',
    ensures
        last_dot_before(s, end) == j,
    decreases end - j,
{
    if end > j + 1 {
        lemma_last_dot_at(s, j, end - 1);
    }
}

/// Below a directory path ending in `/`, a plain name (not empty, neither
/// `.` nor `..`, without `/`) is the last component of the path.
pub proof fn lemma_file_name_of_child(dir: Seq<char>, name: Seq<char>)
    requires
        dir.len() > 0,
        dir[dir.len() - 1] == '/',
        name.len() > 0,
        name != seq!['.'],
        name != seq!['.', '.'],
        forall|i: int| 0 <= i < name.len() ==> #[trigger] name[i] != '/',
    ensures
        file_name_of(dir + name) == Some(name),
{
    let p = dir + name;
    let k = dir.len() as int;
    assert forall|i: int| k <= i < p.len() implies p[i] != '/' by {
        assert(p[i] == name[i - k]);
    }
    lemma_piece_start_at(p, k, p.len() as int);
    assert(p.subrange(k, p.len() as int) =~= name);
}

/// The extension of `stem.e`, for a non-empty `stem` and an `e` without a
/// dot, is exactly `e`, of any length.
pub proof fn lemma_name_extension_after_last_dot(stem: Seq<char>, e: Seq<char>)
    requires
        stem.len() > 0,
        forall|i: int| 0 <= i < e.len() ==> #[trigger] e[i] != '.',
    ensures
        name_extension(stem + seq!['.'] + e) == Some(e),
{
    let name = stem + seq!['.'] + e;
    let j = stem.len() as int;
    assert forall|i: int| j < i < name.len() implies name[i] != '.' by {
        assert(name[i] == e[i - j - 1]);
    }
    lemma_last_dot_at(name, j, name.len() as int);
    assert(name.subrange(j + 1, name.len() as int) =~= e);
}

/// An extension is the whole text after the last dot of the name: the name
/// is some text, a dot and the extension, and the extension holds no dot.
pub proof fn lemma_name_extension_shape(name: Seq<char>)
    ensures
        name_extension(name) matches Some(x) ==> (name == name.subrange(
            0,
            name.len() - x.len() - 1,
        ) + seq!['.'] + x && forall|i: int| 0 <= i < x.len() ==> #[trigger] x[i] != '.'),
{
    lemma_last_dot_bounds(name, name.len() as int);
    let j = last_dot_before(name, name.len() as int);
    if j > 0 {
        let x = name.subrange(j + 1, name.len() as int);
        assert forall|i: int| 0 <= i < x.len() implies #[trigger] x[i] != '.' by {
            assert(x[i] == name[j + 1 + i]);
        }
        assert(name =~= name.subrange(0, name.len() - x.len() - 1) + seq!['.'] + x);
    }
}

/// `s` holds no `/`.
pub open spec fn no_separator(s: Seq<char>) -> bool {
    forall|i: int| 0 <= i < s.len() ==> #[trigger] s[i] != '/'
}

/// The last component of a path is one plain name: not empty, neither `.`
/// nor `..`, and without `/`.
pub proof fn lemma_file_name_shape(p: Seq<char>, end: int)
    requires
        0 <= end <= p.len(),
    ensures
        file_name_before(p, end) matches Some(n) ==> n.len() > 0 && n != seq!['.'] && n != seq![
            '.',
            '.',
        ] && no_separator(n),
    decreases end,
{
    if end > 0 {
        lemma_piece_start_bounds(p, end);
        let k = piece_start(p, end);
        let piece = p.subrange(k, end);
        if piece.len() > 0 && piece != seq!['.'] {
            assert forall|i: int| 0 <= i < piece.len() implies #[trigger] piece[i] != '/' by {
                assert(piece[i] == p[k + i]);
            }
        } else if k > 0 {
            lemma_file_name_shape(p, k - 1);
        }
    }
}

/// Start of the piece ending at `end`.
fn find_piece_start(p: &Vec<char>, end: usize) -> (k: usize)
    requires
        end <= p@.len(),
    ensures
        k as int == piece_start(p@, end as int),
{
    let mut k = end;
    while k > 0 && p[k - 1] != '/'
        invariant
            k <= end <= p@.len(),
            piece_start(p@, k as int) == piece_start(p@, end as int),
        decreases k,
    {
        k = k - 1;
    }
    k
}

/// `Path::file_name` over characters.
pub fn file_name(p: &Vec<char>) -> (res: Option<Vec<char>>)
    ensures
        match res {
            Some(v) => file_name_of(p@) == Some(v@),
            None => file_name_of(p@) is None,
        },
{
    let mut end = p.len();
    loop
        invariant
            end <= p@.len(),
            file_name_before(p@, end as int) == file_name_of(p@),
        decreases end,
    {
        if end == 0 {
            return None;
        }
        let k = find_piece_start(p, end);
        proof {
            lemma_piece_start_bounds(p@, end as int);
        }
        let ghost piece = p@.subrange(k as int, end as int);
        let len = end - k;
        let is_dot = len == 1 && p[k] == '.';
        let is_dotdot = len == 2 && p[k] == '.' && p[k + 1] == '.';
        proof {
            assert(piece.len() == len);
            assert(len >= 1 ==> piece[0] == p@[k as int]);
            assert(len >= 2 ==> piece[1] == p@[k + 1]);
            assert(is_dot <==> piece == seq!['.']) by {
                if is_dot {
                    assert(piece =~= seq!['.']);
                }
            }
            assert(is_dotdot <==> piece == seq!['.', '.']) by {
                if is_dotdot {
                    assert(piece =~= seq!['.', '.']);
                }
            }
        }
        if len > 0 && !is_dot {
            if is_dotdot {
                return None;
            }
            let mut out: Vec<char> = Vec::new();
            let mut i = k;
            while i < end
                invariant
                    k <= i <= end <= p@.len(),
                    out@ == p@.subrange(k as int, i as int),
                decreases end - i,
            {
                out.push(p[i]);
                i = i + 1;
            }
            return Some(out);
        }
        if k == 0 {
            return None;
        }
        end = k - 1;
    }
}

/// The extension of a file name, as `Path::extension` reports it.
pub fn name_ext(name: &Vec<char>) -> (res: Option<Vec<char>>)
    ensures
        match res {
            Some(v) => name_extension(name@) == Some(v@),
            None => name_extension(name@) is None,
        },
{
    let n = name.len();
    let mut j = n;
    while j > 0 && name[j - 1] != '.'
        invariant
            j <= n == name@.len(),
            last_dot_before(name@, j as int) == last_dot_before(name@, n as int),
        decreases j,
    {
        j = j - 1;
    }
    if j <= 1 {
        return None;
    }
    let mut out: Vec<char> = Vec::new();
    let mut i = j;
    while i < n
        invariant
            j <= i <= n == name@.len(),
            out@ == name@.subrange(j as int, i as int),
        decreases n - i,
    {
        out.push(name[i]);
        i = i + 1;
    }
    Some(out)
}

} // verus!
