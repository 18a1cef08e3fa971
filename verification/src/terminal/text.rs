use vstd::prelude::*;
use vstd::string::{StrSliceExecFns, StringExecFns};

verus! {

/// `s` with every occurrence of `pat` removed, scanning from the left and never
/// letting two occurrences overlap.
pub open spec fn without_matches(s: Seq<char>, pat: Seq<char>) -> Seq<char>
    decreases s.len(),
{
    if pat.len() == 0 || s.len() < pat.len() {
        s
    } else if s.take(pat.len() as int) == pat {
        without_matches(s.skip(pat.len() as int), pat)
    } else {
        seq![s[0]].add(without_matches(s.skip(1), pat))
    }
}

/// Whether `c` has the Unicode `White_Space` property.
pub open spec fn is_white_space(c: char) -> bool {
    ||| ('\u{9}' <= c && c <= '\u{d}')
    ||| c == ' '
    ||| c == '\u{85}'
    ||| c == '\u{a0}'
    ||| c == '\u{1680}'
    ||| ('\u{2000}' <= c && c <= '\u{200a}')
    ||| c == '\u{2028}'
    ||| c == '\u{2029}'
    ||| c == '\u{202f}'
    ||| c == '\u{205f}'
    ||| c == '\u{3000}'
}

/// `s` without its trailing white space.
pub open spec fn trimmed_end(s: Seq<char>) -> Seq<char>
    decreases s.len(),
{
    if s.len() > 0 && is_white_space(s.last()) {
        trimmed_end(s.drop_last())
    } else {
        s
    }
}

/// `s` without its leading white space.
pub open spec fn trimmed_start(s: Seq<char>) -> Seq<char>
    decreases s.len(),
{
    if s.len() > 0 && is_white_space(s[0]) {
        trimmed_start(s.drop_first())
    } else {
        s
    }
}

/// Whether `c` has the Unicode `White_Space` property.
pub fn white_space(c: char) -> (b: bool)
    ensures
        b == is_white_space(c),
{
    ('\u{9}' <= c && c <= '\u{d}') || c == ' ' || c == '\u{85}' || c == '\u{a0}' || c == '\u{1680}'
        || ('\u{2000}' <= c && c <= '\u{200a}') || c == '\u{2028}' || c == '\u{2029}' || c == '\u{202f}'
        || c == '\u{205f}' || c == '\u{3000}'
}

/// Unrolling `without_matches` once at a position that does not start a match.
proof fn lemma_without_step(s: Seq<char>, pat: Seq<char>, i: int)
    requires
        pat.len() > 0,
        0 <= i < s.len(),
        !(s.len() - i >= pat.len() && s.subrange(i, i + pat.len()) == pat),
    ensures
        without_matches(s.skip(i), pat) == seq![s[i]].add(without_matches(s.skip(i + 1), pat)),
{
    let t = s.skip(i);
    assert(t.skip(1) =~= s.skip(i + 1));
    if t.len() >= pat.len() {
        assert(t.take(pat.len() as int) =~= s.subrange(i, i + pat.len()));
    }
}

/// Unrolling `without_matches` once at a position that starts a match.
proof fn lemma_without_match(s: Seq<char>, pat: Seq<char>, i: int)
    requires
        pat.len() > 0,
        0 <= i,
        s.len() - i >= pat.len(),
        s.subrange(i, i + pat.len()) == pat,
    ensures
        without_matches(s.skip(i), pat) == without_matches(s.skip(i + pat.len()), pat),
{
    let t = s.skip(i);
    assert(t.take(pat.len() as int) =~= s.subrange(i, i + pat.len()));
    assert(t.skip(pat.len() as int) =~= s.skip(i + pat.len()));
}

/// Whether the characters of `s` from `i` on start with `pat`.
fn matches_at(s: &str, n: usize, pat: &str, m: usize, i: usize) -> (b: bool)
    requires
        n == s@.len(),
        m == pat@.len(),
        i <= n,
    ensures
        b == (n - i >= m && s@.subrange(i as int, i + m) == pat@),
{
    if n - i < m {
        return false;
    }
    let mut j: usize = 0;
    while j < m
        invariant
            j <= m,
            n - i >= m,
            n == s@.len(),
            m == pat@.len(),
            forall|k: int| 0 <= k < j ==> s@[i + k] == pat@[k],
        decreases m - j,
    {
        if s.get_char(i + j) != pat.get_char(j) {
            assert(s@.subrange(i as int, i + m)[j as int] != pat@[j as int]);
            return false;
        }
        j = j + 1;
    }
    assert(s@.subrange(i as int, i + m) =~= pat@);
    true
}

/// `s` with every occurrence of `pat` removed, from the left, without overlaps; an
/// empty pattern removes nothing.
pub fn remove_matches(s: &str, pat: &str) -> (r: String)
    ensures
        r@ == without_matches(s@, pat@),
{
    let n = s.unicode_len();
    let m = pat.unicode_len();
    if m == 0 {
        return String::from_str(s);
    }
    let mut out = String::new();
    let mut start: usize = 0;
    let mut i: usize = 0;
    assert(s@.skip(0) =~= s@);
    assert(out@ + s@.subrange(0, 0) + without_matches(s@.skip(0), pat@) =~= without_matches(s@, pat@));
    while i < n
        invariant
            n == s@.len(),
            m == pat@.len(),
            m > 0,
            start <= i <= n,
            out@ + s@.subrange(start as int, i as int) + without_matches(s@.skip(i as int), pat@)
                == without_matches(s@, pat@),
        decreases n - i,
    {
        if matches_at(s, n, pat, m, i) {
            proof { lemma_without_match(s@, pat@, i as int); }
            let piece = s.substring_char(start, i);
            out.append(piece);
            i = i + m;
            start = i;
            assert(s@.subrange(start as int, i as int) =~= Seq::<char>::empty());
            assert(out@ + s@.subrange(start as int, i as int) =~= out@);
        } else {
            proof {
                lemma_without_step(s@, pat@, i as int);
                assert(s@.subrange(start as int, i + 1) =~= s@.subrange(start as int, i as int).push(s@[i as int]));
                assert(out@ + s@.subrange(start as int, i as int) + (seq![s@[i as int]] + without_matches(s@.skip(i + 1), pat@))
                    =~= out@ + s@.subrange(start as int, i + 1) + without_matches(s@.skip(i + 1), pat@));
            }
            i = i + 1;
        }
    }
    let piece = s.substring_char(start, n);
    out.append(piece);
    proof {
        assert(s@.skip(n as int) =~= Seq::<char>::empty());
        assert(without_matches(s@.skip(n as int), pat@) =~= Seq::<char>::empty());
    }
    out
}

/// Dropping the last character of a prefix gives the shorter prefix.
proof fn lemma_trim_step(s: Seq<char>, k: int)
    requires
        0 < k <= s.len(),
        is_white_space(s[k - 1]),
    ensures
        trimmed_end(s.take(k)) == trimmed_end(s.take(k - 1)),
{
    assert(s.take(k).drop_last() =~= s.take(k - 1));
}

/// `s` without its trailing white space.
pub fn trim_end(s: &str) -> (r: String)
    ensures
        r@ == trimmed_end(s@),
{
    let n = s.unicode_len();
    let mut k: usize = n;
    assert(s@.take(n as int) =~= s@);
    while k > 0 && white_space(s.get_char(k - 1))
        invariant
            k <= n,
            n == s@.len(),
            trimmed_end(s@.take(k as int)) == trimmed_end(s@),
        decreases k,
    {
        proof { lemma_trim_step(s@, k as int); }
        k = k - 1;
    }
    proof {
        if k > 0 {
            assert(s@.take(k as int).last() == s@[k - 1]);
        }
    }
    String::from_str(s.substring_char(0, k))
}

/// Dropping the first character of a suffix gives the shorter suffix.
proof fn lemma_trim_start_step(s: Seq<char>, k: int)
    requires
        0 <= k < s.len(),
        is_white_space(s[k]),
    ensures
        trimmed_start(s.skip(k)) == trimmed_start(s.skip(k + 1)),
{
    assert(s.skip(k).drop_first() =~= s.skip(k + 1));
}

/// `s` without its leading and trailing white space.
pub fn trim(s: &str) -> (r: String)
    ensures
        r@ == trimmed_end(trimmed_start(s@)),
{
    let n = s.unicode_len();
    let mut k: usize = 0;
    assert(s@.skip(0) =~= s@);
    while k < n && white_space(s.get_char(k))
        invariant
            k <= n,
            n == s@.len(),
            trimmed_start(s@.skip(k as int)) == trimmed_start(s@),
        decreases n - k,
    {
        proof { lemma_trim_start_step(s@, k as int); }
        k = k + 1;
    }
    let rest = s.substring_char(k, n);
    proof {
        assert(rest@ =~= s@.skip(k as int));
        if k < n {
            assert(s@.skip(k as int)[0] == s@[k as int]);
        }
    }
    trim_end(rest)
}

} // verus!
