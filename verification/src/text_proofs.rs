//! What holds of occurrences and replacements in every text.

use vstd::prelude::*;
use crate::text::{
    contains, is_blank, is_space, occurs_at, replaced, replaced_from, skip_spaces,
    skip_spaces_back, trimmed,
};

verus! {

/// An occurrence, character by character.
pub proof fn lemma_occurs_pointwise(s: Seq<char>, pat: Seq<char>, i: int)
    ensures
        occurs_at(s, pat, i) <==> (0 <= i && i + pat.len() <= s.len() && forall|k: int|
            0 <= k < pat.len() ==> s[i + k] == #[trigger] pat[k]),
{
    if 0 <= i && i + pat.len() <= s.len() {
        let part = s.subrange(i, i + pat.len());
        if part == pat {
            assert forall|k: int| 0 <= k < pat.len() implies s[i + k] == #[trigger] pat[k] by {
                assert(part[k] == s[i + k]);
            }
        }
        if forall|k: int| 0 <= k < pat.len() ==> s[i + k] == #[trigger] pat[k] {
            assert(part =~= pat);
        }
    }
}

/// What occurs in a text occurs in the text with something put before it.
pub proof fn lemma_occurs_after(a: Seq<char>, b: Seq<char>, pat: Seq<char>, i: int)
    requires
        occurs_at(b, pat, i),
    ensures
        occurs_at(a + b, pat, a.len() + i),
{
    assert((a + b).subrange(a.len() + i, a.len() + i + pat.len()) =~= b.subrange(
        i,
        i + pat.len(),
    ));
}

/// What is contained in a text is contained in the text with something put
/// before it.
pub proof fn lemma_contains_after(a: Seq<char>, b: Seq<char>, pat: Seq<char>)
    requires
        contains(b, pat),
    ensures
        contains(a + b, pat),
{
    let i = choose|i: int| occurs_at(b, pat, i);
    lemma_occurs_after(a, b, pat, i);
}

/// What a text begins with is contained in it.
pub proof fn lemma_contains_prefix(a: Seq<char>, b: Seq<char>)
    ensures
        contains(a + b, a),
{
    assert((a + b).subrange(0, a.len() as int) =~= a);
    assert(occurs_at(a + b, a, 0));
}

/// Where nothing is to be replaced from a position on, the text from there
/// on stays as it is.
pub proof fn lemma_replaced_from_absent(s: Seq<char>, from: Seq<char>, to: Seq<char>, i: int)
    requires
        0 <= i <= s.len(),
        forall|p: int| i <= p ==> !occurs_at(s, from, p),
    ensures
        replaced_from(s, from, to, i) == s.subrange(i, s.len() as int),
    decreases s.len() - i,
{
    if i < s.len() {
        lemma_replaced_from_absent(s, from, to, i + 1);
        assert(seq![s[i]] + s.subrange(i + 1, s.len() as int) =~= s.subrange(i, s.len() as int));
    } else {
        assert(s.subrange(i, s.len() as int) =~= Seq::<char>::empty());
    }
}

/// A text that does not hold the pattern is left as it is.
pub proof fn lemma_replaced_absent(s: Seq<char>, from: Seq<char>, to: Seq<char>)
    requires
        !contains(s, from),
    ensures
        replaced(s, from, to) == s,
{
    lemma_replaced_from_absent(s, from, to, 0);
    assert(s.subrange(0, s.len() as int) =~= s);
}

/// Where the pattern occurs at or after a position, what is put for it is
/// contained in the result from that position on.
pub proof fn lemma_replaced_from_holds_to(
    s: Seq<char>,
    from: Seq<char>,
    to: Seq<char>,
    i: int,
    p: int,
)
    requires
        from.len() > 0,
        0 <= i <= p,
        occurs_at(s, from, p),
    ensures
        contains(replaced_from(s, from, to, i), to),
    decreases s.len() - i,
{
    if occurs_at(s, from, i) {
        lemma_contains_prefix(to, replaced_from(s, from, to, i + from.len()));
    } else {
        lemma_replaced_from_holds_to(s, from, to, i + 1, p);
        lemma_contains_after(seq![s[i]], replaced_from(s, from, to, i + 1), to);
    }
}

/// A text that holds the pattern holds, after the replacement, what was put
/// for it.
pub proof fn lemma_replaced_holds_to(s: Seq<char>, from: Seq<char>, to: Seq<char>)
    requires
        from.len() > 0,
        contains(s, from),
    ensures
        contains(replaced(s, from, to), to),
{
    let p = choose|p: int| occurs_at(s, from, p);
    lemma_replaced_from_holds_to(s, from, to, 0, p);
}

/// Two patterns of which no occurrence can overlap an occurrence of the
/// other: neither begins with a character that the other holds further on,
/// and they differ in their second character.
pub open spec fn never_overlap(a: Seq<char>, b: Seq<char>) -> bool {
    &&& a.len() >= 2
    &&& b.len() >= 2
    &&& a[1] != b[1]
    &&& forall|k: int| 1 <= k < a.len() ==> #[trigger] a[k] != b[0]
    &&& forall|k: int| 1 <= k < b.len() ==> #[trigger] b[k] != a[0]
}

/// Inside an occurrence of `keep`, a pattern that never overlaps it does
/// not occur, so that the rest of the occurrence comes through unchanged.
pub proof fn lemma_replaced_from_inside(
    s: Seq<char>,
    from: Seq<char>,
    to: Seq<char>,
    keep: Seq<char>,
    b: int,
    i: int,
)
    requires
        never_overlap(from, keep),
        occurs_at(s, keep, b),
        b <= i <= b + keep.len(),
    ensures
        occurs_at(
            replaced_from(s, from, to, i),
            keep.subrange(i - b, keep.len() as int),
            0,
        ),
    decreases b + keep.len() - i,
{
    let rest = keep.subrange(i - b, keep.len() as int);
    let out = replaced_from(s, from, to, i);
    lemma_occurs_pointwise(s, keep, b);
    if i == b + keep.len() {
        assert(out.subrange(0, 0) =~= rest);
    } else {
        lemma_occurs_pointwise(s, from, i);
        if occurs_at(s, from, i) {
            if i == b {
                assert(s[i + 1] == from[1]);
                assert(s[b + 1] == keep[1]);
            } else {
                assert(s[i + 0int] == from[0]);
                assert(s[b + (i - b)] == keep[i - b]);
            }
            assert(false);
        }
        lemma_replaced_from_inside(s, from, to, keep, b, i + 1);
        let next = replaced_from(s, from, to, i + 1);
        let tail = keep.subrange(i + 1 - b, keep.len() as int);
        lemma_occurs_pointwise(next, tail, 0);
        assert(out == seq![s[i]] + next);
        assert(s[b + (i - b)] == keep[i - b]);
        assert forall|k: int| 0 <= k < rest.len() implies out[0 + k] == #[trigger] rest[k] by {
            if k > 0 {
                assert(next[0 + (k - 1)] == tail[k - 1]);
            }
        }
        lemma_occurs_pointwise(out, rest, 0);
    }
}

/// An occurrence of `keep` at or after a position is still contained in the
/// result from that position on, where the pattern never overlaps `keep`.
pub proof fn lemma_replaced_from_keeps(
    s: Seq<char>,
    from: Seq<char>,
    to: Seq<char>,
    keep: Seq<char>,
    b: int,
    i: int,
)
    requires
        never_overlap(from, keep),
        occurs_at(s, keep, b),
        0 <= i <= b,
    ensures
        contains(replaced_from(s, from, to, i), keep),
    decreases b - i,
{
    if i == b {
        lemma_replaced_from_inside(s, from, to, keep, b, b);
        assert(keep.subrange(0, keep.len() as int) =~= keep);
    } else if occurs_at(s, from, i) {
        lemma_occurs_pointwise(s, from, i);
        lemma_occurs_pointwise(s, keep, b);
        if i + from.len() > b {
            assert(s[i + (b - i)] == from[b - i]);
            assert(s[b + 0int] == keep[0]);
            assert(false);
        }
        lemma_replaced_from_keeps(s, from, to, keep, b, i + from.len());
        lemma_contains_after(to, replaced_from(s, from, to, i + from.len()), keep);
    } else {
        lemma_replaced_from_keeps(s, from, to, keep, b, i + 1);
        lemma_contains_after(seq![s[i]], replaced_from(s, from, to, i + 1), keep);
    }
}

/// A text that holds `keep` still holds it after the replacement of a
/// pattern that never overlaps `keep`.
pub proof fn lemma_replaced_keeps(s: Seq<char>, from: Seq<char>, to: Seq<char>, keep: Seq<char>)
    requires
        never_overlap(from, keep),
        contains(s, keep),
    ensures
        contains(replaced(s, from, to), keep),
{
    let b = choose|b: int| occurs_at(s, keep, b);
    lemma_replaced_from_keeps(s, from, to, keep, b, 0);
}

/// A replacement that cannot bring the pattern back: it is not empty, does
/// not hold the first character of the pattern, and does not begin with a
/// character that the pattern holds further on; and the pattern holds its
/// first character only once.
pub open spec fn cannot_restore(to: Seq<char>, pattern: Seq<char>) -> bool {
    &&& pattern.len() > 0
    &&& to.len() > 0
    &&& forall|k: int| 1 <= k < pattern.len() ==> #[trigger] pattern[k] != pattern[0]
    &&& forall|m: int| 0 <= m < to.len() ==> #[trigger] to[m] != pattern[0]
    &&& forall|k: int| 1 <= k < pattern.len() ==> #[trigger] pattern[k] != to[0]
}

/// Where the result from a position on begins with the end of the pattern,
/// the text at that position does too.
pub proof fn lemma_replaced_from_tail(
    s: Seq<char>,
    pattern: Seq<char>,
    to: Seq<char>,
    i: int,
    k: int,
)
    requires
        cannot_restore(to, pattern),
        0 <= i <= s.len(),
        1 <= k <= pattern.len(),
        occurs_at(
            replaced_from(s, pattern, to, i),
            pattern.subrange(k, pattern.len() as int),
            0,
        ),
    ensures
        occurs_at(s, pattern.subrange(k, pattern.len() as int), i),
    decreases pattern.len() - k,
{
    let tail = pattern.subrange(k, pattern.len() as int);
    let out = replaced_from(s, pattern, to, i);
    lemma_occurs_pointwise(out, tail, 0);
    lemma_occurs_pointwise(s, tail, i);
    if k < pattern.len() {
        assert(out[0int + 0] == tail[0]);
        assert(tail[0] == pattern[k]);
        if occurs_at(s, pattern, i) {
            assert(out[0] == to[0]);
            assert(false);
        }
        let next = replaced_from(s, pattern, to, i + 1);
        let shorter = pattern.subrange(k + 1, pattern.len() as int);
        assert(out == seq![s[i]] + next);
        lemma_occurs_pointwise(next, shorter, 0);
        assert forall|m: int| 0 <= m < shorter.len() implies next[0 + m] == #[trigger] shorter[m] by {
            assert(out[0 + (m + 1)] == tail[m + 1]);
        }
        lemma_replaced_from_tail(s, pattern, to, i + 1, k + 1);
        lemma_occurs_pointwise(s, shorter, i + 1);
        assert forall|m: int| 0 <= m < tail.len() implies s[i + m] == #[trigger] tail[m] by {
            if m > 0 {
                assert(s[(i + 1) + (m - 1)] == shorter[m - 1]);
            }
        }
    }
}

/// The result from a position on does not hold the pattern, where the
/// replacement cannot bring it back.
pub proof fn lemma_replaced_from_clean(s: Seq<char>, pattern: Seq<char>, to: Seq<char>, i: int)
    requires
        cannot_restore(to, pattern),
        0 <= i <= s.len(),
    ensures
        !contains(replaced_from(s, pattern, to, i), pattern),
    decreases s.len() - i,
{
    let out = replaced_from(s, pattern, to, i);
    if contains(out, pattern) {
        let p = choose|p: int| occurs_at(out, pattern, p);
        lemma_occurs_pointwise(out, pattern, p);
        assert(out[p + 0int] == pattern[0]);
        if i >= s.len() {
            assert(false);
        } else if occurs_at(s, pattern, i) {
            let next = replaced_from(s, pattern, to, i + pattern.len());
            lemma_occurs_pointwise(s, pattern, i);
            assert(out == to + next);
            if p < to.len() {
                assert(out[p] == to[p]);
                assert(false);
            } else {
                lemma_replaced_from_clean(s, pattern, to, i + pattern.len());
                lemma_occurs_pointwise(next, pattern, p - to.len());
                assert forall|k: int| 0 <= k < pattern.len() implies next[(p - to.len()) + k]
                    == #[trigger] pattern[k] by {
                    assert(out[p + k] == pattern[k]);
                }
                assert(occurs_at(next, pattern, p - to.len()));
                assert(false);
            }
        } else {
            let next = replaced_from(s, pattern, to, i + 1);
            assert(out == seq![s[i]] + next);
            if p == 0 {
                let tail = pattern.subrange(1, pattern.len() as int);
                lemma_occurs_pointwise(next, tail, 0);
                assert forall|k: int| 0 <= k < tail.len() implies next[0 + k] == #[trigger] tail[k] by {
                    assert(out[0 + (k + 1)] == pattern[k + 1]);
                }
                lemma_replaced_from_tail(s, pattern, to, i + 1, 1);
                lemma_occurs_pointwise(s, tail, i + 1);
                lemma_occurs_pointwise(s, pattern, i);
                assert forall|k: int| 0 <= k < pattern.len() implies s[i + k] == #[trigger] pattern[k] by {
                    if k > 0 {
                        assert(s[(i + 1) + (k - 1)] == tail[k - 1]);
                    } else {
                        assert(out[0] == s[i]);
                    }
                }
                assert(false);
            } else {
                lemma_replaced_from_clean(s, pattern, to, i + 1);
                lemma_occurs_pointwise(next, pattern, p - 1);
                assert forall|k: int| 0 <= k < pattern.len() implies next[(p - 1) + k]
                    == #[trigger] pattern[k] by {
                    assert(out[p + k] == pattern[k]);
                }
                assert(occurs_at(next, pattern, p - 1));
                assert(false);
            }
        }
    }
}

/// After the replacement the text does not hold the pattern, where the
/// replacement cannot bring it back.
pub proof fn lemma_replaced_clean(s: Seq<char>, pattern: Seq<char>, to: Seq<char>)
    requires
        cannot_restore(to, pattern),
    ensures
        !contains(replaced(s, pattern, to), pattern),
{
    lemma_replaced_from_clean(s, pattern, to, 0);
}

/// One of the patterns of `family` occurs in `x` at position `q`.
pub open spec fn begins_member(x: Seq<char>, q: int, family: Set<Seq<char>>) -> bool {
    exists|keep: Seq<char>| family.contains(keep) && occurs_at(x, keep, q)
}

/// Every `c` in `x` begins an occurrence of a pattern of `family`.
pub open spec fn marks_begin(x: Seq<char>, c: char, family: Set<Seq<char>>) -> bool {
    forall|q: int| 0 <= q < x.len() && x[q] == c ==> begins_member(x, q, family)
}

/// The text holds `c` at its first position at most.
pub open spec fn holds_only_first(text: Seq<char>, c: char) -> bool {
    forall|j: int| 1 <= j < text.len() ==> #[trigger] text[j] != c
}

/// The text does not hold `c`.
pub open spec fn holds_none(text: Seq<char>, c: char) -> bool {
    forall|j: int| 0 <= j < text.len() ==> #[trigger] text[j] != c
}

/// Within an occurrence of `keep`, which holds the first character of the
/// pattern at its own start at most, the pattern does not occur unless at
/// that start; so the rest of the occurrence comes through unchanged.
pub proof fn lemma_replaced_from_within(
    s: Seq<char>,
    from: Seq<char>,
    to: Seq<char>,
    keep: Seq<char>,
    b: int,
    i: int,
)
    requires
        from.len() > 0,
        holds_only_first(keep, from[0]),
        occurs_at(s, keep, b),
        b <= i <= b + keep.len(),
        b < i || !occurs_at(s, from, b),
    ensures
        occurs_at(
            replaced_from(s, from, to, i),
            keep.subrange(i - b, keep.len() as int),
            0,
        ),
    decreases b + keep.len() - i,
{
    let rest = keep.subrange(i - b, keep.len() as int);
    let out = replaced_from(s, from, to, i);
    lemma_occurs_pointwise(s, keep, b);
    if i == b + keep.len() {
        assert(out.subrange(0, 0) =~= rest);
    } else {
        lemma_occurs_pointwise(s, from, i);
        if occurs_at(s, from, i) {
            assert(s[i + 0int] == from[0]);
            assert(s[b + (i - b)] == keep[i - b]);
            assert(false);
        }
        lemma_replaced_from_within(s, from, to, keep, b, i + 1);
        let next = replaced_from(s, from, to, i + 1);
        let tail = keep.subrange(i + 1 - b, keep.len() as int);
        lemma_occurs_pointwise(next, tail, 0);
        assert(out == seq![s[i]] + next);
        assert(s[b + (i - b)] == keep[i - b]);
        assert forall|k: int| 0 <= k < rest.len() implies out[0 + k] == #[trigger] rest[k] by {
            if k > 0 {
                assert(next[0 + (k - 1)] == tail[k - 1]);
            }
        }
        lemma_occurs_pointwise(out, rest, 0);
    }
}

/// Where every `c` of a text begins the pattern or a pattern of `family`,
/// and what is put for the pattern holds no `c`, every `c` of the result
/// from a position on begins a pattern of `family`.
pub proof fn lemma_replaced_from_marks(
    s: Seq<char>,
    from: Seq<char>,
    to: Seq<char>,
    c: char,
    family: Set<Seq<char>>,
    i: int,
)
    requires
        from.len() > 0,
        from[0] == c,
        holds_none(to, c),
        forall|keep: Seq<char>| family.contains(keep) ==> holds_only_first(keep, c),
        forall|p: int|
            0 <= p < s.len() && s[p] == c ==> occurs_at(s, from, p) || begins_member(s, p, family),
        0 <= i <= s.len(),
    ensures
        marks_begin(replaced_from(s, from, to, i), c, family),
    decreases s.len() - i,
{
    let out = replaced_from(s, from, to, i);
    if i >= s.len() {
    } else if occurs_at(s, from, i) {
        let next = replaced_from(s, from, to, i + from.len());
        lemma_replaced_from_marks(s, from, to, c, family, i + from.len());
        assert(out == to + next);
        assert forall|q: int| 0 <= q < out.len() && out[q] == c implies begins_member(
            out,
            q,
            family,
        ) by {
            if q < to.len() {
                assert(out[q] == to[q]);
            } else {
                assert(next[q - to.len()] == c);
                let keep = choose|keep: Seq<char>|
                    family.contains(keep) && occurs_at(next, keep, q - to.len());
                lemma_occurs_after(to, next, keep, q - to.len());
            }
        }
    } else {
        let next = replaced_from(s, from, to, i + 1);
        lemma_replaced_from_marks(s, from, to, c, family, i + 1);
        assert(out == seq![s[i]] + next);
        assert forall|q: int| 0 <= q < out.len() && out[q] == c implies begins_member(
            out,
            q,
            family,
        ) by {
            if q == 0 {
                assert(s[i] == c);
                let keep = choose|keep: Seq<char>| family.contains(keep) && occurs_at(s, keep, i);
                lemma_replaced_from_within(s, from, to, keep, i, i);
                assert(keep.subrange(0, keep.len() as int) =~= keep);
            } else {
                assert(next[q - 1] == c);
                let keep = choose|keep: Seq<char>|
                    family.contains(keep) && occurs_at(next, keep, q - 1);
                lemma_occurs_after(seq![s[i]], next, keep, q - 1);
            }
        }
    }
}

/// Where every `c` of a text begins the pattern or a pattern of `family`,
/// and what is put for the pattern holds no `c`, every `c` of the result
/// begins a pattern of `family`.
pub proof fn lemma_replaced_marks(
    s: Seq<char>,
    from: Seq<char>,
    to: Seq<char>,
    c: char,
    family: Set<Seq<char>>,
)
    requires
        from.len() > 0,
        from[0] == c,
        holds_none(to, c),
        forall|keep: Seq<char>| family.contains(keep) ==> holds_only_first(keep, c),
        forall|p: int|
            0 <= p < s.len() && s[p] == c ==> occurs_at(s, from, p) || begins_member(s, p, family),
    ensures
        marks_begin(replaced(s, from, to), c, family),
{
    lemma_replaced_from_marks(s, from, to, c, family, 0);
}

/// Skipping white space forwards stops within the text, at a character that
/// is no white space or at the end, and passes over white space only.
pub proof fn lemma_skip_spaces(s: Seq<char>, i: int)
    requires
        0 <= i <= s.len(),
    ensures
        i <= skip_spaces(s, i) <= s.len(),
        skip_spaces(s, i) < s.len() ==> !is_space(s[skip_spaces(s, i)]),
        forall|k: int| i <= k < skip_spaces(s, i) ==> is_space(#[trigger] s[k]),
    decreases s.len() - i,
{
    if i < s.len() && is_space(s[i]) {
        lemma_skip_spaces(s, i + 1);
    }
}

/// Skipping white space backwards stops at or after the lower bound, behind
/// a character that is no white space or at the bound, and passes over
/// white space only.
pub proof fn lemma_skip_spaces_back(s: Seq<char>, lo: int, hi: int)
    requires
        0 <= lo <= hi <= s.len(),
    ensures
        lo <= skip_spaces_back(s, lo, hi) <= hi,
        skip_spaces_back(s, lo, hi) > lo ==> !is_space(s[skip_spaces_back(s, lo, hi) - 1]),
        forall|k: int| skip_spaces_back(s, lo, hi) <= k < hi ==> is_space(#[trigger] s[k]),
    decreases hi,
{
    if lo < hi && is_space(s[hi - 1]) {
        lemma_skip_spaces_back(s, lo, hi - 1);
    }
}

/// A trimmed text stands in the text between white space, and neither
/// begins nor ends with white space.
pub proof fn lemma_trimmed(s: Seq<char>)
    ensures
        exists|before: Seq<char>, after: Seq<char>|
            s == before + trimmed(s) + after && is_blank(before) && is_blank(after),
        trimmed(s).len() > 0 ==> !is_space(trimmed(s)[0]) && !is_space(trimmed(s).last()),
        is_blank(s) ==> trimmed(s).len() == 0,
{
    let lo = skip_spaces(s, 0);
    lemma_skip_spaces(s, 0);
    let hi = skip_spaces_back(s, lo, s.len() as int);
    lemma_skip_spaces_back(s, lo, s.len() as int);
    let before = s.subrange(0, lo);
    let after = s.subrange(hi, s.len() as int);
    assert(s =~= before + trimmed(s) + after);
    assert(is_blank(before)) by {
        assert forall|k: int| 0 <= k < before.len() implies is_space(#[trigger] before[k]) by {
            assert(is_space(s[k]));
        }
    }
    assert(is_blank(after)) by {
        assert forall|k: int| 0 <= k < after.len() implies is_space(#[trigger] after[k]) by {
            assert(is_space(s[hi + k]));
        }
    }
    if trimmed(s).len() > 0 {
        assert(trimmed(s)[0] == s[lo]);
        assert(trimmed(s).last() == s[hi - 1]);
    }
    if is_blank(s) && lo < s.len() {
        assert(is_space(s[lo]));
    }
}

} // verus!
