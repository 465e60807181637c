use vstd::prelude::*;

use crate::text::{
    contains, eq_ignore_ascii_case, eq_ignore_ascii_case_spec, lines_of, occurs_in, split_lines,
    trim_by, trim_of, Strip,
};

verus! {

/// Whether `c` occurs in `t`.
pub open spec fn has_char(t: Seq<char>, c: char) -> bool {
    exists|i: int| 0 <= i < t.len() && t[i] == c
}

/// The position of the first `c` in `t`.
pub open spec fn first_index(t: Seq<char>, c: char) -> int
    recommends
        has_char(t, c),
{
    choose|k: int| 0 <= k < t.len() && t[k] == c && forall|j: int| 0 <= j < k ==> t[j] != c
}

/// Pseudo-headers of a copied request that are not sent again.
pub open spec fn is_skipped_key(key: Seq<char>) -> bool {
    eq_ignore_ascii_case_spec("authority"@, key) || eq_ignore_ascii_case_spec("method"@, key)
        || eq_ignore_ascii_case_spec("path"@, key) || eq_ignore_ascii_case_spec("scheme"@, key)
}

/// The header that one line of a copied request snippet gives, if any: the
/// line, trimmed, must be non-empty, hold `=`, and mention neither
/// `$session` nor `Invoke-WebRequest`. The key is what stands before the
/// first `=`, trimmed and unquoted; the value is what follows, trimmed and
/// stripped of `"` and then of backticks.
pub open spec fn header_of_line(line: Seq<char>) -> Option<(Seq<char>, Seq<char>)> {
    let t = trim_of(line, Strip::Whitespace);
    if t.len() == 0 || occurs_in("$session"@, t) || occurs_in("Invoke-WebRequest"@, t)
        || !has_char(t, '=') {
        None
    } else {
        let k = first_index(t, '=');
        let key = trim_of(trim_of(t.take(k), Strip::Whitespace), Strip::Char('"'));
        if is_skipped_key(key) {
            None
        } else {
            let value = trim_of(
                trim_of(trim_of(t.skip(k + 1), Strip::Whitespace), Strip::Char('"')),
                Strip::Char('`'),
            );
            Some((key, value))
        }
    }
}

/// The headers of a sequence of lines, in order.
pub open spec fn headers_of_lines(lines: Seq<Seq<char>>) -> Seq<(Seq<char>, Seq<char>)>
    decreases lines.len(),
{
    if lines.len() == 0 {
        Seq::empty()
    } else {
        let p = headers_of_lines(lines.drop_last());
        match header_of_line(lines.last()) {
            Some(h) => p.push(h),
            None => p,
        }
    }
}

/// The headers of a whole snippet.
pub open spec fn headers_of(text: Seq<char>) -> Seq<(Seq<char>, Seq<char>)> {
    headers_of_lines(lines_of(text))
}

fn find_char(t: &str, c: char) -> (r: Option<usize>)
    ensures
        r is None <==> !has_char(t@, c),
        r is Some ==> r->0 == first_index(t@, c) && r->0 < t@.len(),
{
    let n = t.unicode_len();
    let mut i: usize = 0;
    while i < n
        invariant
            n == t@.len(),
            i <= n,
            forall|j: int| 0 <= j < i ==> t@[j] != c,
        decreases n - i,
    {
        if t.get_char(i) == c {
            proof {
                let k = first_index(t@, c);
                assert(0 <= k < t@.len() && t@[k] == c && forall|j: int| 0 <= j < k ==> t@[j] != c);
                if k < i {
                } else if k > i {
                    assert(t@[i as int] == c);
                }
            }
            return Some(i);
        }
        i = i + 1;
    }
    None
}

fn skipped_key(key: &str) -> (r: bool)
    ensures
        r == is_skipped_key(key@),
{
    eq_ignore_ascii_case("authority", key) || eq_ignore_ascii_case("method", key)
        || eq_ignore_ascii_case("path", key) || eq_ignore_ascii_case("scheme", key)
}

/// The header of one line, if it gives one.
pub fn parse_header_line(line: &str) -> (r: Option<(String, String)>)
    ensures
        match r {
            Some((k, v)) => header_of_line(line@) == Some((k@, v@)),
            None => header_of_line(line@) is None,
        },
{
    let t = trim_by(line, Strip::Whitespace);
    let n = t.unicode_len();
    if n == 0 || contains(t.as_str(), "$session") || contains(t.as_str(), "Invoke-WebRequest") {
        return None;
    }
    match find_char(t.as_str(), '=') {
        None => None,
        Some(k) => {
            let left = trim_by(t.as_str().substring_char(0, k), Strip::Whitespace);
            let key = trim_by(left.as_str(), Strip::Char('"'));
            assert(t@.subrange(0, k as int) =~= t@.take(k as int));
            if skipped_key(key.as_str()) {
                return None;
            }
            let right = trim_by(t.as_str().substring_char(k + 1, n), Strip::Whitespace);
            assert(t@.subrange(k + 1, n as int) =~= t@.skip(k + 1));
            let unquoted = trim_by(right.as_str(), Strip::Char('"'));
            let value = trim_by(unquoted.as_str(), Strip::Char('`'));
            Some((key, value))
        },
    }
}

pub open spec fn pair_views(r: Seq<(String, String)>) -> Seq<(Seq<char>, Seq<char>)> {
    r.map_values(|p: (String, String)| (p.0@, p.1@))
}

/// The headers that a copied request snippet gives, in order of its lines.
pub fn parse_headers(text: &str) -> (r: Vec<(String, String)>)
    ensures
        pair_views(r@) == headers_of(text@),
{
    let lines = split_lines(text);
    let ghost ls = lines_of(text@);
    let mut out: Vec<(String, String)> = Vec::new();
    let mut i: usize = 0;
    while i < lines.len()
        invariant
            ls == lines_of(text@),
            lines@.len() == ls.len(),
            forall|k: int| 0 <= k < lines@.len() ==> #[trigger] lines@[k]@ == ls[k],
            i <= lines@.len(),
            pair_views(out@) =~= headers_of_lines(ls.subrange(0, i as int)),
        decreases lines@.len() - i,
    {
        let ghost prev = out@;
        assert(ls.subrange(0, i + 1).drop_last() =~= ls.subrange(0, i as int));
        assert(ls.subrange(0, i + 1).last() == lines@[i as int]@);
        match parse_header_line(lines[i].as_str()) {
            Some(h) => {
                out.push(h);
                assert(pair_views(out@) =~= pair_views(prev).push((out@.last().0@, out@.last().1@)));
            },
            None => {},
        }
        i = i + 1;
    }
    assert(ls.subrange(0, lines@.len() as int) =~= ls);
    out
}

} // verus!
