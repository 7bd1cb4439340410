use vstd::prelude::*;

verus! {

/// `s` with every match of `from` replaced by `to`, matches found left to
/// right without overlapping, as `str::replace` does for a non-empty pattern.
pub open spec fn replaced(s: Seq<char>, from: Seq<char>, to: Seq<char>) -> Seq<char>
    decreases s.len(),
{
    if from.len() == 0 || s.len() < from.len() {
        s
    } else if s.take(from.len() as int) == from {
        to + replaced(s.skip(from.len() as int), from, to)
    } else {
        seq![s[0]] + replaced(s.drop_first(), from, to)
    }
}

/// Whether `pattern` occurs in `s` starting at `at`.
pub open spec fn matches_at(s: Seq<char>, at: int, pattern: Seq<char>) -> bool {
    at + pattern.len() <= s.len() && s.subrange(at, at + pattern.len()) == pattern
}

fn matches_at_exec(s: &str, n: usize, at: usize, pattern: &str, m: usize) -> (found: bool)
    requires
        n == s@.len(),
        m == pattern@.len(),
        at <= n,
    ensures
        found == matches_at(s@, at as int, pattern@),
{
    if m > n - at {
        return false;
    }
    let mut j: usize = 0;
    while j < m
        invariant
            n == s@.len(),
            m == pattern@.len(),
            at + m <= n,
            j <= m,
            forall|k: int| 0 <= k < j ==> s@[at + k] == pattern@[k],
        decreases m - j,
    {
        if s.get_char(at + j) != pattern.get_char(j) {
            assert(s@.subrange(at as int, at + m)[j as int] != pattern@[j as int]);
            return false;
        }
        j = j + 1;
    }
    assert(s@.subrange(at as int, at + m) =~= pattern@);
    true
}

/// Replaces every match of `from` in `s` by `to`.
pub fn replace(s: &str, from: &str, to: &str) -> (out: String)
    requires
        from@.len() > 0,
    ensures
        out@ == replaced(s@, from@, to@),
{
    let n = s.unicode_len();
    let m = from.unicode_len();
    let mut out = String::new();
    let mut i: usize = 0;
    assert(s@.skip(0) =~= s@);
    while i < n
        invariant
            n == s@.len(),
            m == from@.len(),
            m > 0,
            i <= n,
            out@ + replaced(s@.skip(i as int), from@, to@) == replaced(s@, from@, to@),
        decreases n - i,
    {
        let ghost rest = s@.skip(i as int);
        if matches_at_exec(s, n, i, from, m) {
            assert(rest.take(m as int) =~= s@.subrange(i as int, i + m));
            assert(rest.skip(m as int) =~= s@.skip(i + m));
            out.append(to);
            assert(out@ + replaced(s@.skip(i + m), from@, to@) =~= replaced(s@, from@, to@));
            i = i + m;
        } else {
            proof {
                if rest.len() >= m {
                    assert(rest.take(m as int) =~= s@.subrange(i as int, i + m));
                }
                assert(rest.drop_first() =~= s@.skip(i + 1));
            }
            let one = s.substring_char(i, i + 1);
            assert(one@ =~= seq![rest[0]]);
            out.append(one);
            assert(out@ + replaced(s@.skip(i + 1), from@, to@) =~= replaced(s@, from@, to@));
            i = i + 1;
        }
    }
    assert(s@.skip(n as int) =~= Seq::<char>::empty());
    assert(out@ =~= replaced(s@, from@, to@));
    out
}

} // verus!
