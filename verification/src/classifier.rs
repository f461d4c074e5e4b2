//! Classification of track identifiers.

use vstd::prelude::*;

verus! {

/// The characters of `s` from `start` up to `end` form one `/`-delimited
/// segment: the run holds no `/` and is bounded on each side by a `/` or by
/// the end of the identifier.
pub open spec fn is_segment(s: Seq<char>, start: int, end: int) -> bool {
    &&& 0 <= start <= end <= s.len()
    &&& (start == 0 || s[start - 1] == '/')
    &&& (end == s.len() || s[end] == '/')
    &&& forall|k: int| start <= k < end ==> s[k] != '/'
}

/// Some `/`-delimited segment of `s` equals `token`.
pub open spec fn has_segment(s: Seq<char>, token: Seq<char>) -> bool {
    exists|start: int, end: int| #[trigger]
        is_segment(s, start, end) && s.subrange(start, end) == token
}

/// The segment that marks an advertisement.
pub open spec fn ad_token() -> Seq<char> {
    seq!['a', 'd']
}

/// A track identifier names an advertisement when one of its segments is
/// exactly `ad`.
pub open spec fn is_ad_track(s: Seq<char>) -> bool {
    has_segment(s, ad_token())
}

/// Two identifiers joined by a `/` have the segments of both, and no
/// others.
pub proof fn lemma_segments_of_joined(head: Seq<char>, tail: Seq<char>, token: Seq<char>)
    ensures
        has_segment(head + seq!['/'] + tail, token) <==> has_segment(head, token) || has_segment(
            tail,
            token,
        ),
{
    let s = head + seq!['/'] + tail;
    let n = head.len() as int;
    assert(s[n] == '/');
    if has_segment(head, token) {
        let (i, j) = choose|i: int, j: int| #[trigger]
            is_segment(head, i, j) && head.subrange(i, j) == token;
        assert(is_segment(s, i, j));
        assert(s.subrange(i, j) =~= head.subrange(i, j));
    }
    if has_segment(tail, token) {
        let (i, j) = choose|i: int, j: int| #[trigger]
            is_segment(tail, i, j) && tail.subrange(i, j) == token;
        assert(forall|k: int| 0 <= k < tail.len() ==> s[n + 1 + k] == tail[k]);
        assert(is_segment(s, n + 1 + i, n + 1 + j));
        assert(s.subrange(n + 1 + i, n + 1 + j) =~= tail.subrange(i, j));
    }
    if has_segment(s, token) {
        let (i, j) = choose|i: int, j: int| #[trigger]
            is_segment(s, i, j) && s.subrange(i, j) == token;
        if j <= n {
            assert(forall|k: int| 0 <= k < n ==> s[k] == head[k]);
            assert(is_segment(head, i, j));
            assert(s.subrange(i, j) =~= head.subrange(i, j));
        } else {
            assert(i > n) by {
                if i <= n {
                    assert(s[n] != '/');
                }
            }
            assert(forall|k: int| 0 <= k < tail.len() ==> s[n + 1 + k] == tail[k]);
            assert(is_segment(tail, i - n - 1, j - n - 1));
            assert(s.subrange(i, j) =~= tail.subrange(i - n - 1, j - n - 1));
        }
    }
}

/// Whether an identifier names an advertisement does not depend on where in
/// it the segment `ad` stands: an identifier joined from two by a `/` names
/// one exactly when either of the two does.
pub proof fn lemma_ad_at_any_position(head: Seq<char>, tail: Seq<char>)
    ensures
        is_ad_track(head + seq!['/'] + tail) <==> is_ad_track(head) || is_ad_track(tail),
{
    lemma_segments_of_joined(head, tail, ad_token());
}

/// How far the segment that is being read agrees with `ad`.
spec fn progress(s: Seq<char>, start: int, pos: int) -> int {
    if pos == start {
        0
    } else if pos == start + 1 && s[start] == 'a' {
        1
    } else if pos == start + 2 && s[start] == 'a' && s[start + 1] == 'd' {
        2
    } else {
        3
    }
}

/// Between `start`, where a segment begins, and `pos` no `/` occurs.
spec fn open_segment(s: Seq<char>, start: int, pos: int) -> bool {
    &&& 0 <= start <= pos <= s.len()
    &&& (start == 0 || s[start - 1] == '/')
    &&& forall|k: int| start <= k < pos ==> s[k] != '/'
}

/// No segment that ends before `start` is `ad`.
spec fn none_before(s: Seq<char>, start: int) -> bool {
    forall|a: int, b: int| #[trigger]
        is_segment(s, a, b) && b < start ==> s.subrange(a, b) != ad_token()
}

/// A segment that ends at `end` or later, while `start..end` is free of `/`,
/// is the one that begins at `start` and ends at `end`.
proof fn lemma_segment_is_current(s: Seq<char>, start: int, end: int, a: int, b: int)
    requires
        open_segment(s, start, end),
        is_segment(s, a, b),
        start <= b <= end,
        end == s.len() || s[end] == '/',
    ensures
        a == start,
        b == end,
{
    if b < end {
        assert(s[b] != '/');
    }
    if a < start {
        assert(s[start - 1] == '/');
    }
    if a > start {
        assert(s[a - 1] != '/');
    }
}

/// The segment that is being read is `ad` exactly when it agrees with `ad`
/// to the end.
proof fn lemma_progress_complete(s: Seq<char>, start: int, pos: int)
    requires
        0 <= start <= pos <= s.len(),
    ensures
        progress(s, start, pos) == 2 <==> s.subrange(start, pos) == ad_token(),
{
    let run = s.subrange(start, pos);
    if progress(s, start, pos) == 2 {
        assert(run =~= ad_token());
    }
    if run == ad_token() {
        assert(run.len() == 2);
        assert(run[0] == 'a');
        assert(run[1] == 'd');
    }
}

/// Whether the track identifier names an advertisement: some segment between
/// `/` separators is exactly `ad`. The test is on membership, wherever in the
/// identifier the segment stands, and distinguishes case.
pub fn is_ad(track_id: &str) -> (verdict: bool)
    ensures
        verdict == is_ad_track(track_id@),
{
    let ghost s = track_id@;
    let ghost mut start: int = 0;
    let mut seen: u8 = 0;
    for c in it: track_id.chars()
        invariant
            s == track_id@,
            it.seq() == s,
            open_segment(s, start, it.index()),
            seen == progress(s, start, it.index()),
            none_before(s, start),
    {
        let ghost pos = it.index();
        assert(s[pos] == c);
        if c == '/' {
            proof {
                lemma_progress_complete(s, start, pos);
            }
            if seen == 2 {
                assert(is_segment(s, start, pos));
                return true;
            }
            proof {
                assert forall|a: int, b: int| #[trigger]
                    is_segment(s, a, b) && b < pos + 1 implies s.subrange(a, b) != ad_token() by {
                    if b >= start {
                        lemma_segment_is_current(s, start, pos, a, b);
                    }
                }
                start = pos + 1;
            }
            seen = 0;
        } else if seen == 0 && c == 'a' {
            seen = 1;
        } else if seen == 1 && c == 'd' {
            seen = 2;
        } else {
            seen = 3;
        }
    }
    proof {
        let len = s.len() as int;
        lemma_progress_complete(s, start, len);
        if seen == 2 {
            assert(is_segment(s, start, len));
        } else {
            assert forall|a: int, b: int| #[trigger] is_segment(s, a, b) implies s.subrange(a, b)
                != ad_token() by {
                if b >= start {
                    lemma_segment_is_current(s, start, len, a, b);
                }
            }
        }
    }
    seen == 2
}

} // verus!
