//! Parsing the market-discovery payload.
//!
//! The venue reports the two instrument identifiers of a window as one
//! bracketed, comma-separated, quoted string, e.g. `["123", "456"]`.  The
//! parser strips the surrounding brackets, splits at the commas, and trims
//! each of the first two pieces of spaces and quotes.  A payload without a
//! comma holds fewer than two identifiers and is rejected.

use vstd::prelude::*;
use vstd::string::{StrSliceExecFns, StringExecFns};
use crate::types::{MarketApiResponse, MarketResponse};

verus! {

/// A bracket delimiter of the identifier list.
pub open spec fn spec_is_bracket(c: char) -> bool {
    c == '[' || c == ']'
}

/// Plain whitespace stripped around each identifier.
pub open spec fn spec_is_space(c: char) -> bool {
    c == ' ' || c == '\t' || c == '\n' || c == '\r'
}

/// The quote around each identifier.
pub open spec fn spec_is_quote(c: char) -> bool {
    c == '"'
}

/// `s` with every leading character satisfying `p` removed.
pub open spec fn spec_strip_leading(s: Seq<char>, p: spec_fn(char) -> bool) -> Seq<char>
    decreases s.len(),
{
    if s.len() > 0 && p(s[0]) {
        spec_strip_leading(s.drop_first(), p)
    } else {
        s
    }
}

/// `s` with every trailing character satisfying `p` removed.
pub open spec fn spec_strip_trailing(s: Seq<char>, p: spec_fn(char) -> bool) -> Seq<char>
    decreases s.len(),
{
    if s.len() > 0 && p(s.last()) {
        spec_strip_trailing(s.drop_last(), p)
    } else {
        s
    }
}

/// `s` trimmed of characters satisfying `p` at both ends.
pub open spec fn spec_trim_both(s: Seq<char>, p: spec_fn(char) -> bool) -> Seq<char> {
    spec_strip_trailing(spec_strip_leading(s, p), p)
}

/// One identifier piece: trimmed of whitespace, then of quotes.
pub open spec fn spec_token_piece(s: Seq<char>) -> Seq<char> {
    spec_trim_both(spec_trim_both(s, |c: char| spec_is_space(c)), |c: char| spec_is_quote(c))
}

/// The smallest index at or after `from` holding a comma, or the length of
/// `s` when there is none.
pub open spec fn spec_find_comma(s: Seq<char>, from: int) -> int
    decreases s.len() - from
        when 0 <= from <= s.len()
{
    if from >= s.len() {
        s.len() as int
    } else if s[from] == ',' {
        from
    } else {
        spec_find_comma(s, from + 1)
    }
}

/// The two identifiers held in a raw identifier-list payload, if it holds
/// at least two.
pub open spec fn spec_market_tokens(s: Seq<char>) -> Option<(Seq<char>, Seq<char>)> {
    let body = spec_trim_both(s, |c: char| spec_is_bracket(c));
    let c1 = spec_find_comma(body, 0);
    if c1 == body.len() {
        None
    } else {
        let c2 = spec_find_comma(body, c1 + 1);
        Some(
            (
                spec_token_piece(body.subrange(0, c1)),
                spec_token_piece(body.subrange(c1 + 1, c2)),
            ),
        )
    }
}

/// Stripping all leading characters satisfying `p` is taking the subrange
/// from the first index that does not satisfy it.
proof fn lemma_strip_leading_subrange(s: Seq<char>, p: spec_fn(char) -> bool, lo: int)
    requires
        0 <= lo <= s.len(),
        forall|i: int| 0 <= i < lo ==> p(s[i]),
        lo < s.len() ==> !p(s[lo]),
    ensures
        spec_strip_leading(s, p) =~= s.subrange(lo, s.len() as int),
    decreases lo,
{
    if lo == 0 {
    } else {
        assert(p(s[0]));
        lemma_strip_leading_subrange(s.drop_first(), p, lo - 1);
        assert(s.drop_first().subrange(lo - 1, s.drop_first().len() as int) =~= s.subrange(
            lo,
            s.len() as int,
        ));
    }
}

/// Stripping all trailing characters satisfying `p` is taking the subrange
/// up to one past the last index that does not satisfy it.
proof fn lemma_strip_trailing_subrange(s: Seq<char>, p: spec_fn(char) -> bool, hi: int)
    requires
        0 <= hi <= s.len(),
        forall|i: int| hi <= i < s.len() ==> p(s[i]),
        hi > 0 ==> !p(s[hi - 1]),
    ensures
        spec_strip_trailing(s, p) =~= s.subrange(0, hi),
    decreases s.len() - hi,
{
    if hi == s.len() {
        if s.len() > 0 && p(s.last()) {
            assert(false);
        } else {
            assert(s =~= s.subrange(0, s.len() as int));
        }
    } else {
        assert(p(s.last()));
        lemma_strip_trailing_subrange(s.drop_last(), p, hi);
        assert(s.drop_last().subrange(0, hi) =~= s.subrange(0, hi));
    }
}

/// `spec_find_comma` returns the index `k` of the first comma at or after
/// `from`, with `k` the length when there is none.
proof fn lemma_find_comma_at(s: Seq<char>, from: int, k: int)
    requires
        0 <= from <= k <= s.len(),
        forall|i: int| from <= i < k ==> s[i] != ',',
        k < s.len() ==> s[k] == ',',
    ensures
        spec_find_comma(s, from) == k,
    decreases k - from,
{
    if from < k {
        lemma_find_comma_at(s, from + 1, k);
    }
}

/// Whether `c` is a bracket delimiter.
fn is_bracket_char(c: char) -> (r: bool)
    ensures
        r == spec_is_bracket(c),
{
    c == '[' || c == ']'
}

/// Whether `c` is plain whitespace.
fn is_space_char(c: char) -> (r: bool)
    ensures
        r == spec_is_space(c),
{
    c == ' ' || c == '\t' || c == '\n' || c == '\r'
}

/// Whether `c` is a quote.
fn is_quote_char(c: char) -> (r: bool)
    ensures
        r == spec_is_quote(c),
{
    c == '"'
}

/// Extract the identifier held in `s[from..to]`: trim whitespace, then
/// quotes, and copy what remains.
fn trim_piece(s: &str, from: usize, to: usize) -> (r: String)
    requires
        from <= to <= s@.len(),
        to <= usize::MAX,
    ensures
        r@ == spec_token_piece(s@.subrange(from as int, to as int)),
{
    let ghost piece = s@.subrange(from as int, to as int);
    let mut a: usize = from;
    while a < to && is_space_char(s.get_char(a))
        invariant
            from <= a <= to <= s@.len(),
            forall|i: int| from <= i < a ==> spec_is_space(s@[i]),
        decreases to - a,
    {
        a = a + 1;
    }
    let mut b: usize = to;
    while b > a && is_space_char(s.get_char(b - 1))
        invariant
            a <= b <= to <= s@.len(),
            forall|i: int| b <= i < to ==> spec_is_space(s@[i]),
        decreases b,
    {
        b = b - 1;
    }
    let mut a2: usize = a;
    while a2 < b && is_quote_char(s.get_char(a2))
        invariant
            a <= a2 <= b <= s@.len(),
            forall|i: int| a <= i < a2 ==> spec_is_quote(s@[i]),
        decreases b - a2,
    {
        a2 = a2 + 1;
    }
    let mut b2: usize = b;
    while b2 > a2 && is_quote_char(s.get_char(b2 - 1))
        invariant
            a2 <= b2 <= b <= s@.len(),
            forall|i: int| b2 <= i < b ==> spec_is_quote(s@[i]),
        decreases b2,
    {
        b2 = b2 - 1;
    }
    proof {
        let sp = |c: char| spec_is_space(c);
        let qt = |c: char| spec_is_quote(c);
        lemma_strip_leading_subrange(piece, sp, a - from);
        let after_lead = piece.subrange(a - from, piece.len() as int);
        lemma_strip_trailing_subrange(after_lead, sp, b - a);
        let after_space = after_lead.subrange(0, b - a);
        assert(after_space =~= s@.subrange(a as int, b as int));
        lemma_strip_leading_subrange(after_space, qt, a2 - a);
        let after_lead2 = after_space.subrange(a2 - a, after_space.len() as int);
        lemma_strip_trailing_subrange(after_lead2, qt, b2 - a2);
        assert(after_lead2.subrange(0, b2 - a2) =~= s@.subrange(a2 as int, b2 as int));
        assert(spec_token_piece(piece) =~= s@.subrange(a2 as int, b2 as int));
    }
    let out = s.substring_char(a2, b2);
    String::from_str(out)
}

/// Read the two instrument identifiers of a window out of the raw
/// market-discovery payload.  Returns nothing when the payload holds fewer
/// than two identifiers.
pub fn market_from_api(resp: &MarketApiResponse) -> (r: Option<MarketResponse>)
    ensures
        r is Some <==> spec_market_tokens(resp.clob_token_ids@) is Some,
        r matches Some(mr) ==> spec_market_tokens(resp.clob_token_ids@) matches Some(t)
            && mr.first_asset_id@ == t.0 && mr.second_asset_id@ == t.1,
{
    let s = resp.clob_token_ids.as_str();
    let n = s.unicode_len();
    let ghost view = s@;
    let mut lo: usize = 0;
    while lo < n && is_bracket_char(s.get_char(lo))
        invariant
            0 <= lo <= n == s@.len(),
            forall|i: int| 0 <= i < lo ==> spec_is_bracket(s@[i]),
        decreases n - lo,
    {
        lo = lo + 1;
    }
    let mut hi: usize = n;
    while hi > lo && is_bracket_char(s.get_char(hi - 1))
        invariant
            lo <= hi <= n == s@.len(),
            forall|i: int| hi <= i < n ==> spec_is_bracket(s@[i]),
        decreases hi,
    {
        hi = hi - 1;
    }
    let ghost br = |c: char| spec_is_bracket(c);
    proof {
        lemma_strip_leading_subrange(view, br, lo as int);
        let after_lead = view.subrange(lo as int, view.len() as int);
        lemma_strip_trailing_subrange(after_lead, br, hi - lo);
        assert(after_lead.subrange(0, hi - lo) =~= view.subrange(lo as int, hi as int));
        assert(spec_trim_both(view, br) =~= view.subrange(lo as int, hi as int));
    }
    let ghost body = view.subrange(lo as int, hi as int);
    let mut c1: usize = lo;
    while c1 < hi && s.get_char(c1) != ','
        invariant
            lo <= c1 <= hi <= s@.len(),
            forall|i: int| lo <= i < c1 ==> s@[i] != ',',
        decreases hi - c1,
    {
        c1 = c1 + 1;
    }
    proof {
        lemma_find_comma_at(body, 0, c1 - lo);
    }
    if c1 == hi {
        return None;
    }
    let mut c2: usize = c1 + 1;
    while c2 < hi && s.get_char(c2) != ','
        invariant
            c1 + 1 <= c2 <= hi <= s@.len(),
            forall|i: int| c1 + 1 <= i < c2 ==> s@[i] != ',',
        decreases hi - c2,
    {
        c2 = c2 + 1;
    }
    proof {
        lemma_find_comma_at(body, c1 - lo + 1, c2 - lo);
        assert(body.subrange(0, c1 - lo) =~= view.subrange(lo as int, c1 as int));
        assert(body.subrange(c1 - lo + 1, c2 - lo) =~= view.subrange(c1 + 1, c2 as int));
    }
    let first_asset_id = trim_piece(s, lo, c1);
    let second_asset_id = trim_piece(s, c1 + 1, c2);
    Some(MarketResponse { first_asset_id, second_asset_id })
}

} // verus!
