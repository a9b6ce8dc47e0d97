use vstd::prelude::*;
use vstd::string::*;

verus! {

/// Joining `part` onto `base` as a Unix path: an absolute `part` replaces
/// `base`; otherwise a single `/` separates them unless `base` is empty or
/// already ends in `/`.
pub open spec fn spec_path_join(base: Seq<char>, part: Seq<char>) -> Seq<char> {
    if part.len() > 0 && part[0] == '/' {
        part
    } else if base.len() == 0 {
        part
    } else if base.last() == '/' {
        base + part
    } else {
        base + seq!['/'] + part
    }
}

/// Joins a path component onto a directory path.
pub fn path_join(base: &str, part: &str) -> (r: String)
    ensures
        r@ == spec_path_join(base@, part@),
{
    let plen = part.unicode_len();
    if plen > 0 && part.get_char(0) == '/' {
        return String::from_str(part);
    }
    let blen = base.unicode_len();
    if blen == 0 {
        return String::from_str(part);
    }
    let mut r = String::from_str(base);
    if base.get_char(blen - 1) != '/' {
        proof {
            reveal_strlit("/");
        }
        r.append("/");
    }
    r.append(part);
    r
}

/// `s` with every leading repetition of `prefix` removed, as
/// `str::trim_start_matches` removes it.
pub open spec fn spec_trim_start_matches(s: Seq<char>, prefix: Seq<char>) -> Seq<char>
    decreases s.len(),
{
    if prefix.len() > 0 && prefix.len() <= s.len() && s.subrange(0, prefix.len() as int) == prefix {
        spec_trim_start_matches(s.subrange(prefix.len() as int, s.len() as int), prefix)
    } else {
        s
    }
}

/// Whether `prefix` occurs in `s` at character position `start`.
fn occurs_at(s: &str, start: usize, prefix: &str) -> (r: bool)
    requires
        start <= s@.len(),
    ensures
        r == (prefix@.len() <= s@.len() - start && s@.subrange(
            start as int,
            start + prefix@.len(),
        ) == prefix@),
{
    let n = s.unicode_len();
    let m = prefix.unicode_len();
    if m > n - start {
        return false;
    }
    let mut j: usize = 0;
    while j < m
        invariant
            n == s@.len(),
            m == prefix@.len(),
            start <= n,
            m <= n - start,
            j <= m,
            forall|k: int| 0 <= k < j ==> s@[start + k] == prefix@[k],
        decreases m - j,
    {
        if s.get_char(start + j) != prefix.get_char(j) {
            assert(s@.subrange(start as int, start + m)[j as int] != prefix@[j as int]);
            return false;
        }
        j += 1;
    }
    assert(s@.subrange(start as int, start + m) =~= prefix@);
    true
}

/// `s` with every leading repetition of `prefix` removed.
pub fn trim_start_matches(s: &str, prefix: &str) -> (r: String)
    ensures
        r@ == spec_trim_start_matches(s@, prefix@),
{
    let n = s.unicode_len();
    let m = prefix.unicode_len();
    if m == 0 {
        return String::from_str(s);
    }
    assert(s@.subrange(0, n as int) =~= s@);
    let mut i: usize = 0;
    while occurs_at(s, i, prefix)
        invariant
            n == s@.len(),
            m == prefix@.len(),
            m > 0,
            i <= n,
            spec_trim_start_matches(s@, prefix@) == spec_trim_start_matches(
                s@.subrange(i as int, n as int),
                prefix@,
            ),
        decreases n - i,
    {
        let ghost rest = s@.subrange(i as int, n as int);
        assert(rest.subrange(0, m as int) =~= s@.subrange(i as int, i + m));
        assert(rest.subrange(m as int, rest.len() as int) =~= s@.subrange(i + m, n as int));
        i = i + m;
    }
    proof {
        let rest = s@.subrange(i as int, n as int);
        if m <= rest.len() {
            assert(rest.subrange(0, m as int) =~= s@.subrange(i as int, i + m));
        }
    }
    String::from_str(s.substring_char(i, n))
}

} // verus!
