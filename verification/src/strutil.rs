//! String cleanup helpers shared by the command and probe modules: stripping
//! newlines from captured process output and deleting every occurrence of a
//! substring, as `str::replace(pat, "")` does.

use vstd::prelude::*;

verus! {

/// The characters of `s` in order, with every `'\n'` removed.
pub open spec fn without_newlines(s: Seq<char>) -> Seq<char>
    decreases s.len(),
{
    if s.len() == 0 {
        Seq::empty()
    } else if s.last() == '\n' {
        without_newlines(s.drop_last())
    } else {
        without_newlines(s.drop_last()).push(s.last())
    }
}

/// Removes every `'\n'` from `s`.
pub fn strip_newlines(s: &str) -> (r: String)
    ensures
        r@ == without_newlines(s@),
{
    let len: usize = s.unicode_len();
    let mut r = String::new();
    let mut i: usize = 0;
    while i < len
        invariant
            i <= len,
            len == s@.len(),
            r@ == without_newlines(s@.take(i as int)),
        decreases len - i,
    {
        let c = s.get_char(i);
        if c != '\n' {
            let piece = s.substring_char(i, i + 1);
            r.append(piece);
            proof {
                assert(s@.take(i + 1).drop_last() =~= s@.take(i as int));
                assert(r@ =~= without_newlines(s@.take(i as int)).push(s@[i as int]));
            }
        } else {
            proof {
                assert(s@.take(i + 1).drop_last() =~= s@.take(i as int));
            }
        }
        i = i + 1;
    }
    proof {
        assert(s@.take(len as int) =~= s@);
    }
    r
}

/// Whether two string slices hold the same characters.
pub fn str_eq(a: &str, b: &str) -> (r: bool)
    ensures
        r == (a@ == b@),
{
    let sa = a.to_owned();
    let sb = b.to_owned();
    sa == sb
}

/// The characters of `s` with every leftmost, non-overlapping occurrence of
/// `p` deleted, scanning left to right; `s` unchanged when `p` is empty.
pub open spec fn remove_all(s: Seq<char>, p: Seq<char>) -> Seq<char>
    decreases s.len(),
{
    if p.len() == 0 || s.len() < p.len() {
        s
    } else if s.take(p.len() as int) == p {
        remove_all(s.skip(p.len() as int), p)
    } else {
        seq![s[0]] + remove_all(s.skip(1), p)
    }
}

/// Whether the characters of `s` starting at `i` spell out `pat`.
fn matches_at(s: &str, i: usize, pat: &str, slen: usize, plen: usize) -> (b: bool)
    requires
        slen == s@.len(),
        plen == pat@.len(),
        i + plen <= slen,
    ensures
        b == (s@.subrange(i as int, i + plen) == pat@),
{
    let mut j: usize = 0;
    while j < plen
        invariant
            j <= plen,
            slen == s@.len(),
            plen == pat@.len(),
            i + plen <= slen,
            forall|k: int| 0 <= k < j ==> s@[i + k] == pat@[k],
        decreases plen - j,
    {
        if s.get_char(i + j) != pat.get_char(j) {
            proof {
                assert(s@.subrange(i as int, i + plen)[j as int] != pat@[j as int]);
            }
            return false;
        }
        j = j + 1;
    }
    proof {
        assert(s@.subrange(i as int, i + plen) =~= pat@);
    }
    true
}

/// Deletes every occurrence of `pat` from `s`, as `str::replace(pat, "")`
/// does: matches are found left to right and do not overlap.
pub fn remove_occurrences(s: &str, pat: &str) -> (r: String)
    ensures
        r@ == remove_all(s@, pat@),
{
    let slen: usize = s.unicode_len();
    let plen: usize = pat.unicode_len();
    if plen == 0 {
        return s.to_owned();
    }
    let mut r = String::new();
    let mut i: usize = 0;
    proof {
        assert(s@.skip(0) =~= s@);
        assert(Seq::<char>::empty() + remove_all(s@, pat@) =~= remove_all(s@, pat@));
    }
    while i < slen
        invariant
            i <= slen,
            slen == s@.len(),
            plen == pat@.len(),
            0 < plen,
            remove_all(s@, pat@) == r@ + remove_all(s@.skip(i as int), pat@),
        decreases slen - i,
    {
        if plen <= slen - i && matches_at(s, i, pat, slen, plen) {
            proof {
                assert(s@.skip(i as int).take(plen as int) =~= s@.subrange(
                    i as int,
                    i + plen,
                ));
                assert(s@.skip(i as int).skip(plen as int) =~= s@.skip(i + plen));
            }
            i = i + plen;
        } else {
            proof {
                if plen <= slen - i {
                    assert(s@.skip(i as int).take(plen as int) =~= s@.subrange(
                        i as int,
                        i + plen,
                    ));
                    assert(s@.skip(i as int).take(plen as int) != pat@);
                }
                assert(s@.skip(i as int).skip(1) =~= s@.skip(i + 1));
            }
            let ghost old_r = r@;
            let piece = s.substring_char(i, i + 1);
            r.append(piece);
            proof {
                assert(piece@ =~= seq![s@[i as int]]);
                assert(old_r + remove_all(s@.skip(i as int), pat@) =~= r@ + remove_all(
                    s@.skip(i + 1),
                    pat@,
                ));
            }
            i = i + 1;
        }
    }
    proof {
        assert(s@.skip(slen as int) =~= Seq::<char>::empty());
        assert(r@ + remove_all(s@.skip(slen as int), pat@) =~= r@);
    }
    r
}

} // verus!
