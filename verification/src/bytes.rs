use vstd::prelude::*;

verus! {

/// `pat` occurs in `s` starting at position `i`.
pub open spec fn match_at(s: Seq<u8>, pat: Seq<u8>, i: int) -> bool {
    0 <= i && i + pat.len() <= s.len() && s.subrange(i, i + pat.len() as int) == pat
}

/// `pat` occurs somewhere in `s`; the empty pattern occurs in every string.
pub open spec fn contains_seq(s: Seq<u8>, pat: Seq<u8>) -> bool {
    exists|i: int| match_at(s, pat, i)
}

/// `s` ends with `suffix`.
pub open spec fn ends_with_seq(s: Seq<u8>, suffix: Seq<u8>) -> bool {
    suffix.len() <= s.len() && s.subrange(s.len() - suffix.len(), s.len() as int) == suffix
}

/// Compares the bytes of `s` at `i..i + pat.len()` with `pat`.
pub fn match_at_exec(s: &Vec<u8>, pat: &Vec<u8>, i: usize) -> (b: bool)
    requires
        i + pat@.len() <= s@.len(),
    ensures
        b == match_at(s@, pat@, i as int),
{
    let n: usize = s.len();
    let mut j: usize = 0;
    while j < pat.len()
        invariant
            n == s@.len(),
            i + pat@.len() <= s@.len(),
            j <= pat@.len(),
            forall|k: int| 0 <= k < j ==> s@[i + k] == pat@[k],
        decreases pat@.len() - j,
    {
        proof {
            assert(i + j < s@.len());
        }
        if s[i + j] != pat[j] {
            proof {
                let sub = s@.subrange(i as int, i + pat@.len() as int);
                assert(sub[j as int] == s@[i + j]);
                assert(sub != pat@);
            }
            return false;
        }
        j += 1;
    }
    proof {
        assert(s@.subrange(i as int, i + pat@.len() as int) =~= pat@);
    }
    true
}

/// Whether `pat` occurs anywhere in `s`.
pub fn contains_exec(s: &Vec<u8>, pat: &Vec<u8>) -> (b: bool)
    ensures
        b == contains_seq(s@, pat@),
{
    if pat.len() > s.len() {
        proof {
            assert forall|j: int| !match_at(s@, pat@, j) by {}
        }
        return false;
    }
    if pat.len() == 0 {
        proof {
            assert(s@.subrange(0, 0) =~= pat@);
            assert(match_at(s@, pat@, 0));
        }
        return true;
    }
    let last = s.len() - pat.len();
    let mut i: usize = 0;
    while i <= last
        invariant
            s@.len() <= usize::MAX,
            0 < pat@.len() <= s@.len(),
            last == s@.len() - pat@.len(),
            i <= last + 1,
            forall|k: int| 0 <= k < i ==> !match_at(s@, pat@, k),
        decreases last + 1 - i,
    {
        if match_at_exec(s, pat, i) {
            proof {
                assert(match_at(s@, pat@, i as int));
            }
            return true;
        }
        i += 1;
    }
    proof {
        assert forall|j: int| !match_at(s@, pat@, j) by {
            if 0 <= j && j + pat@.len() <= s@.len() {
                assert(j < i);
            }
        }
    }
    false
}

/// Whether `s` ends with `suffix`.
pub fn ends_with_exec(s: &Vec<u8>, suffix: &Vec<u8>) -> (b: bool)
    ensures
        b == ends_with_seq(s@, suffix@),
{
    if suffix.len() > s.len() {
        return false;
    }
    let start = s.len() - suffix.len();
    let b = match_at_exec(s, suffix, start);
    proof {
        assert(s@.subrange(start as int, start + suffix@.len() as int)
            == s@.subrange(s@.len() - suffix@.len(), s@.len() as int));
    }
    b
}

/// Appends all of `extra` to `out`.
pub fn push_all(out: &mut Vec<u8>, extra: &Vec<u8>)
    ensures
        final(out)@ == old(out)@ + extra@,
{
    let mut j: usize = 0;
    while j < extra.len()
        invariant
            j <= extra@.len(),
            out@ == old(out)@ + extra@.subrange(0, j as int),
        decreases extra@.len() - j,
    {
        out.push(extra[j]);
        proof {
            assert(extra@.subrange(0, j + 1)
                =~= extra@.subrange(0, j as int) + seq![extra@[j as int]]);
            assert(out@ =~= old(out)@ + extra@.subrange(0, j + 1));
        }
        j += 1;
    }
    proof {
        assert(extra@.subrange(0, extra@.len() as int) =~= extra@);
    }
}

/// Appends the first `k` bytes of `extra` to `out`.
pub fn push_prefix(out: &mut Vec<u8>, extra: &Vec<u8>, k: usize)
    requires
        k <= extra@.len(),
    ensures
        final(out)@ == old(out)@ + extra@.subrange(0, k as int),
{
    let mut j: usize = 0;
    while j < k
        invariant
            k <= extra@.len(),
            j <= k,
            out@ == old(out)@ + extra@.subrange(0, j as int),
        decreases k - j,
    {
        out.push(extra[j]);
        proof {
            assert(extra@.subrange(0, j + 1)
                =~= extra@.subrange(0, j as int) + seq![extra@[j as int]]);
            assert(out@ =~= old(out)@ + extra@.subrange(0, j + 1));
        }
        j += 1;
    }
}

} // verus!
