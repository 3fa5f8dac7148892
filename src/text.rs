//! Character-level helpers shared by the record builders.

use vstd::prelude::*;

verus! {

/// The characters of `s`, in order.
pub fn chars_of(s: &str) -> (r: Vec<char>)
    ensures
        r@ == s@,
{
    let mut v: Vec<char> = Vec::new();
    for c in it: s.chars()
        invariant
            it.seq() == s@,
            v@ == it.seq().take(it.index() as int),
    {
        v.push(c);
        assert(v@ == it.seq().take(it.index() as int + 1));
    }
    v
}


/// The text of one decimal digit.
pub open spec fn digit_text(d: nat) -> Seq<char> {
    if d == 0 {
        "0"@
    } else if d == 1 {
        "1"@
    } else if d == 2 {
        "2"@
    } else if d == 3 {
        "3"@
    } else if d == 4 {
        "4"@
    } else if d == 5 {
        "5"@
    } else if d == 6 {
        "6"@
    } else if d == 7 {
        "7"@
    } else if d == 8 {
        "8"@
    } else {
        "9"@
    }
}

/// The decimal text of `n`, without sign or leading zeros.
pub open spec fn decimal(n: nat) -> Seq<char>
    decreases n,
{
    if n < 10 {
        digit_text(n)
    } else {
        decimal(n / 10) + digit_text(n % 10)
    }
}

fn digit_str(d: u64) -> (r: &'static str)
    requires
        d < 10,
    ensures
        r@ == digit_text(d as nat),
{
    if d == 0 {
        "0"
    } else if d == 1 {
        "1"
    } else if d == 2 {
        "2"
    } else if d == 3 {
        "3"
    } else if d == 4 {
        "4"
    } else if d == 5 {
        "5"
    } else if d == 6 {
        "6"
    } else if d == 7 {
        "7"
    } else if d == 8 {
        "8"
    } else {
        "9"
    }
}

/// The decimal text of `n`.
pub fn render_u64(n: u64) -> (r: String)
    ensures
        r@ == decimal(n as nat),
    decreases n,
{
    if n < 10 {
        String::from_str(digit_str(n))
    } else {
        let mut r = render_u64(n / 10);
        r.append(digit_str(n % 10));
        r
    }
}

/// `k` is the first position of `c` in `s`.
pub open spec fn is_first_index(s: Seq<char>, c: char, k: int) -> bool {
    &&& 0 <= k < s.len()
    &&& s[k] == c
    &&& forall|j: int| 0 <= j < k ==> s[j] != c
}

/// `s` split around its first `c`: what stands before it and what follows it;
/// `None` where `c` does not occur.
pub open spec fn split_once_spec(s: Seq<char>, c: char) -> Option<(Seq<char>, Seq<char>)> {
    if exists|k: int| is_first_index(s, c, k) {
        let k = choose|k: int| is_first_index(s, c, k);
        Some((s.take(k), s.skip(k + 1)))
    } else {
        None
    }
}

/// Splits `s` around the first occurrence of `c`.
pub fn split_once(s: &str, c: char) -> (r: Option<(String, String)>)
    ensures
        match (r, split_once_spec(s@, c)) {
            (Some((a, b)), Some((x, y))) => a@ == x && b@ == y,
            (None, None) => true,
            _ => false,
        },
{
    let v = chars_of(s);
    let n = v.len();
    let mut i: usize = 0;
    while i < n
        invariant
            n == v@.len(),
            v@ == s@,
            i <= n,
            forall|j: int| 0 <= j < i ==> v@[j] != c,
        decreases n - i,
    {
        if v[i] == c {
            proof {
                assert(is_first_index(s@, c, i as int));
                let k = choose|k: int| is_first_index(s@, c, k);
                if k < i {
                    assert(v@[k] != c);
                } else if k > i {
                    assert(s@[i as int] != c);
                }
                assert(k == i);
            }
            let a = String::from_str(s.substring_char(0, i));
            let b = String::from_str(s.substring_char(i + 1, n));
            return Some((a, b));
        }
        i = i + 1;
    }
    assert(!exists|k: int| is_first_index(s@, c, k));
    None
}

/// `a` and `b` hold the same characters.
pub fn str_eq(a: &str, b: &str) -> (r: bool)
    ensures
        r == (a@ == b@),
{
    let x = chars_of(a);
    let y = chars_of(b);
    if x.len() != y.len() {
        return false;
    }
    let n = x.len();
    let mut i: usize = 0;
    while i < n
        invariant
            n == x@.len(),
            n == y@.len(),
            x@ == a@,
            y@ == b@,
            i <= n,
            forall|j: int| 0 <= j < i ==> x@[j] == y@[j],
        decreases n - i,
    {
        if x[i] != y[i] {
            return false;
        }
        i = i + 1;
    }
    assert(x@ =~= y@);
    true
}

/// Relies on `String::from_iter` over the characters: the string holding
/// exactly these characters, in order.
#[verifier::external_body]
pub(crate) fn string_from_chars(v: &Vec<char>) -> (r: String)
    ensures
        r@ == v@,
{
    v.iter().collect()
}

/// `pat` occurs in `s` at position `k`.
pub open spec fn matches_at(s: Seq<char>, pat: Seq<char>, k: int) -> bool {
    0 <= k && k + pat.len() <= s.len() && s.subrange(k, k + pat.len()) == pat
}

/// `k` is the first position at which `pat` occurs in `s`.
pub open spec fn is_first_match(s: Seq<char>, pat: Seq<char>, k: int) -> bool {
    matches_at(s, pat, k) && forall|j: int| 0 <= j < k ==> !matches_at(s, pat, j)
}

/// The first position at which `pat` occurs in `s`, if it occurs.
pub open spec fn find_spec(s: Seq<char>, pat: Seq<char>) -> Option<int> {
    if exists|k: int| is_first_match(s, pat, k) {
        Some(choose|k: int| is_first_match(s, pat, k))
    } else {
        None
    }
}

/// `pat` occurs in `v` at `k`.
pub fn match_at(v: &Vec<char>, pat: &Vec<char>, k: usize) -> (r: bool)
    ensures
        r == matches_at(v@, pat@, k as int),
{
    if k > v.len() || pat.len() > v.len() - k {
        return false;
    }
    let m = pat.len();
    let mut j: usize = 0;
    while j < m
        invariant
            m == pat@.len(),
            k + m <= v@.len(),
            v@.len() == v.len(),
            j <= m,
            forall|t: int| 0 <= t < j ==> v@[k + t] == pat@[t],
        decreases m - j,
    {
        if v[k + j] != pat[j] {
            assert(v@.subrange(k as int, k + m)[j as int] != pat@[j as int]);
            return false;
        }
        j = j + 1;
    }
    assert(v@.subrange(k as int, k + m) =~= pat@);
    true
}

/// The first position at or after `from` at which `pat` occurs in `v`.
pub fn find_from(v: &Vec<char>, pat: &Vec<char>, from: usize) -> (r: Option<usize>)
    requires
        from <= v@.len(),
    ensures
        match (r, find_spec(v@.skip(from as int), pat@)) {
            (Some(k), Some(j)) => k == from + j,
            (None, None) => true,
            _ => false,
        },
{
    let ghost w = v@.skip(from as int);
    let n = v.len();
    let m = pat.len();
    if m == 0 {
        proof {
            assert(w.subrange(0, 0) =~= pat@);
            assert(is_first_match(w, pat@, 0));
            let c = choose|c: int| is_first_match(w, pat@, c);
            assert(c == 0);
        }
        return Some(from);
    }
    if m > n - from {
        proof {
            assert forall|c: int| !is_first_match(w, pat@, c) by {
                if matches_at(w, pat@, c) {
                    assert(c + m <= w.len());
                }
            }
        }
        return None;
    }
    let last = n - m;
    let mut k: usize = from;
    while k <= last
        invariant
            n == v@.len(),
            m == pat@.len(),
            m >= 1,
            last + m == n,
            from <= k <= last + 1,
            w == v@.skip(from as int),
            forall|j: int| 0 <= j < k - from ==> !matches_at(w, pat@, j),
        decreases last + 1 - k,
    {
        let hit = match_at(v, pat, k);
        proof {
            assert(w.subrange(k - from, k - from + m) =~= v@.subrange(k as int, k + m));
        }
        if hit {
            proof {
                let j0 = (k - from) as int;
                assert(is_first_match(w, pat@, j0));
                let c = choose|c: int| is_first_match(w, pat@, c);
                if c < j0 {
                    assert(!matches_at(w, pat@, c));
                } else if c > j0 {
                    assert(!matches_at(w, pat@, j0));
                }
            }
            return Some(k);
        }
        k = k + 1;
    }
    proof {
        assert forall|c: int| !is_first_match(w, pat@, c) by {
            if 0 <= c < k - from {
            } else if c >= k - from {
                if matches_at(w, pat@, c) {
                    assert(c + m <= w.len());
                }
            }
        }
    }
    None
}

} // verus!
