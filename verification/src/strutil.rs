use vstd::prelude::*;
use vstd::string::*;

verus! {

/// The code point of `c`, with an ASCII capital letter taken to its
/// lower-case form; every other character is unchanged.
pub open spec fn lower_code(c: char) -> int {
    if 65 <= c as int && c as int <= 90 {
        c as int + 32
    } else {
        c as int
    }
}

/// Two character sequences are equal up to ASCII case.
pub open spec fn eq_ignore_case(a: Seq<char>, b: Seq<char>) -> bool {
    a.len() == b.len() && (forall|i: int| 0 <= i < a.len() ==> lower_code(a[i]) == lower_code(b[i]))
}

/// The pattern `pat` occurs in `s` starting at position `i`.
pub open spec fn match_at(s: Seq<char>, pat: Seq<char>, i: int) -> bool {
    0 <= i && i + pat.len() <= s.len() && (forall|j: int|
        0 <= j < pat.len() ==> s[i + j] == pat[j])
}

/// The pattern `pat` occurs in `s` at some position in `[lo, hi)`.
pub open spec fn has_match_in(s: Seq<char>, pat: Seq<char>, lo: int, hi: int) -> bool {
    exists|i: int| lo <= i < hi && match_at(s, pat, i)
}

/// Exact string equality, decided character by character.
pub fn str_eq(a: &str, b: &str) -> (r: bool)
    ensures
        r == (a@ == b@),
{
    let alen = a.unicode_len();
    let blen = b.unicode_len();
    if alen != blen {
        return false;
    }
    let mut i: usize = 0;
    while i < alen
        invariant
            alen == a@.len(),
            blen == b@.len(),
            alen == blen,
            i <= alen,
            forall|j: int| 0 <= j < i ==> a@[j] == b@[j],
        decreases alen - i,
    {
        let ca = a.get_char(i);
        let cb = b.get_char(i);
        if ca != cb {
            assert(a@[i as int] != b@[i as int]);
            return false;
        }
        i += 1;
    }
    assert(a@ =~= b@);
    true
}

/// String equality up to ASCII case, decided character by character.
pub fn str_eq_ignore_ascii_case(a: &str, b: &str) -> (r: bool)
    ensures
        r == eq_ignore_case(a@, b@),
{
    let alen = a.unicode_len();
    let blen = b.unicode_len();
    if alen != blen {
        return false;
    }
    let mut i: usize = 0;
    while i < alen
        invariant
            alen == a@.len(),
            blen == b@.len(),
            alen == blen,
            i <= alen,
            forall|j: int| 0 <= j < i ==> lower_code(a@[j]) == lower_code(b@[j]),
        decreases alen - i,
    {
        let ca = a.get_char(i) as u32;
        let cb = b.get_char(i) as u32;
        let la: u32 = if 65 <= ca && ca <= 90 { ca + 32 } else { ca };
        let lb: u32 = if 65 <= cb && cb <= 90 { cb + 32 } else { cb };
        if la != lb {
            assert(lower_code(a@[i as int]) != lower_code(b@[i as int]));
            return false;
        }
        i += 1;
    }
    true
}

/// The leftmost occurrence of `pat` in `s` at position `start` or later,
/// or `None` if there is none.
pub fn find_from(s: &str, pat: &str, start: usize) -> (r: Option<usize>)
    requires
        pat@.len() >= 1,
    ensures
        match r {
            Some(i) => start <= i && match_at(s@, pat@, i as int) && !has_match_in(
                s@,
                pat@,
                start as int,
                i as int,
            ),
            None => forall|i: int| start <= i ==> !match_at(s@, pat@, i),
        },
{
    let slen = s.unicode_len();
    let plen = pat.unicode_len();
    if plen > slen {
        return None;
    }
    let mut i: usize = start;
    while i <= slen - plen
        invariant
            slen == s@.len(),
            plen == pat@.len(),
            1 <= plen <= slen,
            start <= i,
            forall|k: int| start <= k < i ==> !match_at(s@, pat@, k),
        decreases slen - i,
    {
        let mut j: usize = 0;
        let mut matched = true;
        while matched && j < plen
            invariant
                slen == s@.len(),
                plen == pat@.len(),
                i + plen <= slen,
                j <= plen,
                matched ==> forall|k: int| 0 <= k < j ==> s@[i + k] == pat@[k],
                !matched ==> !match_at(s@, pat@, i as int),
            decreases plen - j + if matched { 1int } else { 0int },
        {
            let cs = s.get_char(i + j);
            let cp = pat.get_char(j);
            if cs != cp {
                matched = false;
                assert(s@[i + j] != pat@[j as int]);
            } else {
                j += 1;
            }
        }
        if matched {
            assert(match_at(s@, pat@, i as int));
            return Some(i);
        }
        i += 1;
    }
    assert(forall|k: int| start <= k ==> !match_at(s@, pat@, k)) by {
        assert(forall|k: int| k + plen > slen ==> !match_at(s@, pat@, k));
    }
    None
}

} // verus!
