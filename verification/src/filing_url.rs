use vstd::prelude::*;
use vstd::string::*;

use crate::errors::DeriveError;
use crate::strutil::find_from;
use crate::strutil::has_match_in;
use crate::strutil::match_at;

verus! {

/// The literal token "index" occurs somewhere in `s`.
pub open spec fn has_index_marker(s: Seq<char>) -> bool {
    exists|i: int| match_at(s, "index"@, i)
}

/// The position of the leftmost occurrence of `pat` in `s` at `lo` or
/// later.
pub open spec fn first_match_from(s: Seq<char>, pat: Seq<char>, lo: int) -> int {
    choose|i: int| lo <= i && match_at(s, pat, i) && !has_match_in(s, pat, lo, i)
}

proof fn lemma_first_match_from_is(s: Seq<char>, pat: Seq<char>, lo: int, i: int)
    requires
        lo <= i,
        match_at(s, pat, i),
        !has_match_in(s, pat, lo, i),
    ensures
        first_match_from(s, pat, lo) == i,
{
    assert(lo <= i && match_at(s, pat, i) && !has_match_in(s, pat, lo, i));
    let k = first_match_from(s, pat, lo);
    assert(lo <= k && match_at(s, pat, k) && !has_match_in(s, pat, lo, k));
    if k < i {
        assert(has_match_in(s, pat, lo, i));
    }
    if i < k {
        assert(has_match_in(s, pat, lo, k));
    }
}

/// Where the text between the first "index" token and the next one ends:
/// at the next occurrence, or at the end of the string if there is none.
pub open spec fn second_segment_end(s: Seq<char>, i0: int) -> int {
    if exists|i: int| i0 + "index"@.len() <= i && match_at(s, "index"@, i) {
        first_match_from(s, "index"@, i0 + "index"@.len() as int)
    } else {
        s.len() as int
    }
}

/// The filing index-headers URL derived from `s`: everything before the
/// first "index" token, then "index-headers", then the text between that
/// token and the next occurrence (or the end of the string).
pub open spec fn derived_url(s: Seq<char>) -> Seq<char> {
    let i0 = first_match_from(s, "index"@, 0);
    s.subrange(0, i0) + "index-headers"@ + s.subrange(
        i0 + "index"@.len() as int,
        second_segment_end(s, i0),
    )
}

/// Rewrite an entry link into the URL of the filing's machine-readable
/// index-headers document.
///
/// The rewrite splits on the literal token "index" and reassembles the
/// first two segments around "index-headers", exactly SEC EDGAR's URL
/// convention for filing index pages; it is not a general URL rewriter.
/// A link without the token is rejected. Splitting on a present token
/// always yields two segments, so `DeriveError::MalformedLink` is declared
/// for completeness but never produced here.
pub fn derive_filing_url(link: &str) -> (r: Result<String, DeriveError>)
    ensures
        match r {
            Ok(out) => has_index_marker(link@) && out@ == derived_url(link@),
            Err(e) => e == DeriveError::NoIndexMarker && !has_index_marker(link@),
        },
{
    proof {
        reveal_strlit("index");
    }
    let slen = link.unicode_len();
    match find_from(link, "index", 0) {
        None => Err(DeriveError::NoIndexMarker),
        Some(i0) => {
            proof {
                lemma_first_match_from_is(link@, "index"@, 0, i0 as int);
            }
            let plen = "index".unicode_len();
            let rest_start = i0 + plen;
            let j: usize = match find_from(link, "index", rest_start) {
                Some(k) => {
                    proof {
                        lemma_first_match_from_is(link@, "index"@, rest_start as int, k as int);
                    }
                    k
                },
                None => slen,
            };
            let mut out = String::new();
            out.append(link.substring_char(0, i0));
            out.append("index-headers");
            out.append(link.substring_char(rest_start, j));
            proof {
                assert(out@ =~= derived_url(link@));
            }
            Ok(out)
        },
    }
}

} // verus!
