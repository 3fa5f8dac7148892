//! Mechanical reduction of an HTML page to near-text: isolate the body,
//! drop script and style blocks and all tags, decode a few entities,
//! collapse whitespace runs and trim.

use crate::text::{chars_of, find_from, find_spec, match_at, matches_at, string_from_chars};
use vstd::prelude::*;

verus! {

// ---------------------------------------------------------------- body region

/// The body of a page, from `<body` through the first `</body>` after it;
/// the whole page where either marker is missing.
pub open spec fn body_region_spec(html: Seq<char>) -> Seq<char> {
    match find_spec(html, "<body"@) {
        Some(start) => match find_spec(html.skip(start), "</body>"@) {
            Some(end) => html.subrange(start, start + end + "</body>"@.len()),
            None => html,
        },
        None => html,
    }
}

/// Isolates the body of a page.
pub fn body_region(html: &str) -> (r: String)
    ensures
        r@ == body_region_spec(html@),
{
    let v = chars_of(html);
    let open = chars_of("<body");
    let close = chars_of("</body>");
    let total = v.len();
    proof {
        assert(v@.skip(0) =~= v@);
    }
    match find_from(&v, &open, 0) {
        None => String::from_str(html),
        Some(start) => match find_from(&v, &close, start) {
            None => String::from_str(html),
            Some(end) => {
                proof {
                    let j = (end - start) as int;
                    let w = v@.skip(start as int);
                    assert(matches_at(w, close@, j));
                    assert(end + close@.len() <= v@.len());
                }
                String::from_str(html.substring_char(start, end + close.len()))
            },
        },
    }
}

// ---------------------------------------------------------------- replacing

/// `s` with each occurrence of `pat` replaced by `rep`, scanning left to
/// right without overlaps.
pub open spec fn replaced(s: Seq<char>, pat: Seq<char>, rep: Seq<char>) -> Seq<char>
    decreases s.len(),
{
    if pat.len() == 0 || s.len() < pat.len() {
        s
    } else if s.take(pat.len() as int) == pat {
        rep + replaced(s.skip(pat.len() as int), pat, rep)
    } else {
        seq![s[0]] + replaced(s.drop_first(), pat, rep)
    }
}

proof fn lemma_replaced_short(s: Seq<char>, pat: Seq<char>, rep: Seq<char>)
    requires
        s.len() < pat.len(),
    ensures
        replaced(s, pat, rep) == s,
{
}

/// Replaces each occurrence of `pat` in `v` by `rep`.
pub fn replace_chars(v: &Vec<char>, pat: &Vec<char>, rep: &Vec<char>) -> (r: Vec<char>)
    requires
        pat@.len() > 0,
    ensures
        r@ == replaced(v@, pat@, rep@),
{
    let n = v.len();
    let m = pat.len();
    let mut out: Vec<char> = Vec::new();
    let mut i: usize = 0;
    proof {
        assert(v@.skip(0) =~= v@);
        assert(out@ + v@ =~= v@);
    }
    while i < n
        invariant
            n == v@.len(),
            m == pat@.len(),
            m > 0,
            i <= n,
            out@ + replaced(v@.skip(i as int), pat@, rep@) == replaced(v@, pat@, rep@),
        decreases n - i,
    {
        let ghost w = v@.skip(i as int);
        let hit = match_at(v, pat, i);
        if hit {
            proof {
                assert(w.take(m as int) =~= v@.subrange(i as int, i + m));
                assert(w.skip(m as int) =~= v@.skip(i + m));
                assert(out@ + (rep@ + replaced(w.skip(m as int), pat@, rep@)) =~= (out@ + rep@)
                    + replaced(v@.skip(i + m), pat@, rep@));
            }
            let ghost before = out@;
            let mut j: usize = 0;
            while j < rep.len()
                invariant
                    j <= rep@.len(),
                    out@ == before + rep@.take(j as int),
                decreases rep@.len() - j,
            {
                out.push(rep[j]);
                proof {
                    assert(before + rep@.take(j + 1) =~= (before + rep@.take(j as int)).push(rep@[j as int]));
                }
                j = j + 1;
            }
            proof {
                assert(rep@.take(rep@.len() as int) =~= rep@);
            }
            i = i + m;
        } else {
            proof {
                if w.len() >= m {
                    assert(w.take(m as int) =~= v@.subrange(i as int, i + m));
                } else {
                    lemma_replaced_short(w, pat@, rep@);
                    lemma_replaced_short(w.drop_first(), pat@, rep@);
                }
                assert(w.drop_first() =~= v@.skip(i + 1));
                assert(out@ + (seq![w[0]] + replaced(w.drop_first(), pat@, rep@)) =~= out@.push(
                    v@[i as int],
                ) + replaced(v@.skip(i + 1), pat@, rep@));
            }
            out.push(v[i]);
            i = i + 1;
        }
    }
    proof {
        assert(v@.skip(n as int) =~= Seq::<char>::empty());
        assert(out@ + Seq::<char>::empty() =~= out@);
    }
    out
}

// ---------------------------------------------------------------- whitespace

/// Unicode `White_Space`: tab through carriage return, space, next line,
/// no-break space, ogham space mark, en quad through hair space, line and
/// paragraph separators, narrow no-break space, medium mathematical space,
/// ideographic space.
pub open spec fn is_space(c: char) -> bool {
    let u = c as u32;
    (0x09 <= u <= 0x0D) || u == 0x20 || u == 0x85 || u == 0xA0 || u == 0x1680 || (0x2000 <= u
        <= 0x200A) || u == 0x2028 || u == 0x2029 || u == 0x202F || u == 0x205F || u == 0x3000
}

fn space(c: char) -> (r: bool)
    ensures
        r == is_space(c),
{
    let u = c as u32;
    (0x09 <= u && u <= 0x0D) || u == 0x20 || u == 0x85 || u == 0xA0 || u == 0x1680 || (0x2000 <= u
        && u <= 0x200A) || u == 0x2028 || u == 0x2029 || u == 0x202F || u == 0x205F || u == 0x3000
}

/// What position `i` of `s` contributes once every run of two or more
/// whitespace characters is collapsed to one space: a run's first position
/// gives the space, its other positions nothing; a lone whitespace character
/// and any other character stay as they are.
pub open spec fn collapsed_at(s: Seq<char>, i: int) -> Seq<char> {
    if !is_space(s[i]) {
        seq![s[i]]
    } else if i > 0 && is_space(s[i - 1]) {
        Seq::empty()
    } else if i + 1 < s.len() && is_space(s[i + 1]) {
        seq![' ']
    } else {
        seq![s[i]]
    }
}

/// What the first `n` positions of `s` contribute after collapsing.
pub open spec fn collapsed_prefix(s: Seq<char>, n: int) -> Seq<char>
    decreases n,
{
    if n <= 0 {
        Seq::empty()
    } else {
        collapsed_prefix(s, n - 1) + collapsed_at(s, n - 1)
    }
}

/// `s` with every run of two or more whitespace characters collapsed to one space.
pub open spec fn collapsed(s: Seq<char>) -> Seq<char> {
    collapsed_prefix(s, s.len() as int)
}

/// Collapses every run of two or more whitespace characters to one space.
pub fn collapse_spaces(v: &Vec<char>) -> (r: Vec<char>)
    ensures
        r@ == collapsed(v@),
{
    let n = v.len();
    let mut out: Vec<char> = Vec::new();
    for i in 0..n
        invariant
            n == v@.len(),
            out@ == collapsed_prefix(v@, i as int),
    {
        let c = v[i];
        if !space(c) {
            out.push(c);
        } else if i > 0 && space(v[i - 1]) {
        } else if i + 1 < n && space(v[i + 1]) {
            out.push(' ');
        } else {
            out.push(c);
        }
        proof {
            assert(collapsed_prefix(v@, i + 1) == collapsed_prefix(v@, i as int) + collapsed_at(
                v@,
                i as int,
            ));
            assert(out@ =~= collapsed_prefix(v@, i + 1));
        }
    }
    out
}

/// The characters that trimming removes: `/` where `slash`, else whitespace.
pub open spec fn trims(c: char, slash: bool) -> bool {
    if slash {
        c == '/'
    } else {
        is_space(c)
    }
}

pub open spec fn trim_start(s: Seq<char>, slash: bool) -> Seq<char>
    decreases s.len(),
{
    if s.len() > 0 && trims(s[0], slash) {
        trim_start(s.drop_first(), slash)
    } else {
        s
    }
}

pub open spec fn trim_end(s: Seq<char>, slash: bool) -> Seq<char>
    decreases s.len(),
{
    if s.len() > 0 && trims(s.last(), slash) {
        trim_end(s.drop_last(), slash)
    } else {
        s
    }
}

/// `s` without the trimmed characters at either end.
pub open spec fn trimmed(s: Seq<char>, slash: bool) -> Seq<char> {
    trim_end(trim_start(s, slash), slash)
}

fn trim_char(c: char, slash: bool) -> (r: bool)
    ensures
        r == trims(c, slash),
{
    if slash {
        c == '/'
    } else {
        space(c)
    }
}

/// The bounds of what stays of `v` once trimmed at both ends.
pub fn trim_bounds(v: &Vec<char>, slash: bool) -> (r: (usize, usize))
    ensures
        r.0 <= r.1 <= v@.len(),
        v@.subrange(r.0 as int, r.1 as int) == trimmed(v@, slash),
{
    let n = v.len();
    let mut a: usize = 0;
    proof {
        assert(v@.skip(0) =~= v@);
    }
    while a < n && trim_char(v[a], slash)
        invariant
            n == v@.len(),
            a <= n,
            trim_start(v@, slash) == trim_start(v@.skip(a as int), slash),
        decreases n - a,
    {
        proof {
            assert(v@.skip(a as int).drop_first() =~= v@.skip(a + 1));
        }
        a = a + 1;
    }
    let mut b: usize = n;
    proof {
        assert(v@.skip(a as int) =~= v@.subrange(a as int, n as int));
    }
    while b > a && trim_char(v[b - 1], slash)
        invariant
            n == v@.len(),
            a <= b <= n,
            trim_start(v@, slash) == v@.subrange(a as int, n as int),
            trim_end(v@.subrange(a as int, n as int), slash) == trim_end(
                v@.subrange(a as int, b as int),
                slash,
            ),
        decreases b - a,
    {
        proof {
            assert(v@.subrange(a as int, b as int).drop_last() =~= v@.subrange(a as int, b - 1));
        }
        b = b - 1;
    }
    (a, b)
}

// ---------------------------------------------------------------- normalizing

/// `s` with `&nbsp;`, `&lt;`, `&gt;` and then `&amp;` decoded; `&amp;`
/// goes last so that an escaped entity such as `&amp;lt;` decodes once, to
/// `&lt;`.
pub open spec fn decoded(s: Seq<char>) -> Seq<char> {
    replaced(
        replaced(replaced(replaced(s, "&nbsp;"@, " "@), "&lt;"@, "<"@), "&gt;"@, ">"@),
        "&amp;"@,
        "&"@,
    )
}

/// Text left after tag removal: entities decoded, whitespace runs
/// collapsed, and the ends trimmed.
pub open spec fn normalized(s: Seq<char>) -> Seq<char> {
    trimmed(collapsed(decoded(s)), false)
}

/// Decodes the entities, collapses whitespace runs and trims the text.
pub fn normalize_text(s: &str) -> (r: String)
    ensures
        r@ == normalized(s@),
{
    let v = chars_of(s);
    proof {
        reveal_strlit("&nbsp;");
        reveal_strlit("&amp;");
        reveal_strlit("&lt;");
        reveal_strlit("&gt;");
    }
    let v = replace_chars(&v, &chars_of("&nbsp;"), &chars_of(" "));
    let v = replace_chars(&v, &chars_of("&lt;"), &chars_of("<"));
    let v = replace_chars(&v, &chars_of("&gt;"), &chars_of(">"));
    let v = replace_chars(&v, &chars_of("&amp;"), &chars_of("&"));
    let v = collapse_spaces(&v);
    let (a, b) = trim_bounds(&v, false);
    let mut out: Vec<char> = Vec::new();
    for i in a..b
        invariant
            a <= b <= v@.len(),
            out@ == v@.subrange(a as int, i as int),
    {
        out.push(v[i]);
        proof {
            assert(out@ =~= v@.subrange(a as int, i + 1));
        }
    }
    string_from_chars(&out)
}

} // verus!
