//! The order of texts as in a dictionary, and lists of texts kept in it.

use vstd::prelude::*;
use crate::text::chars_of;

verus! {

/// Whether `a` comes before `b`, given that the two agree up to position
/// `i`: at the first position where they differ `a` has the lesser
/// character, or `a` ends first.
pub open spec fn less_from(a: Seq<char>, b: Seq<char>, i: int) -> bool
    decreases a.len() - i,
{
    if i < 0 || i >= b.len() {
        false
    } else if i >= a.len() {
        true
    } else if a[i] != b[i] {
        a[i] < b[i]
    } else {
        less_from(a, b, i + 1)
    }
}

/// Whether `a` comes before `b` in the order of a dictionary, characters
/// compared by their code points.
pub open spec fn text_less(a: Seq<char>, b: Seq<char>) -> bool {
    less_from(a, b, 0)
}

/// Each text of the list comes before the next.
pub open spec fn strictly_sorted(texts: Seq<Seq<char>>) -> bool {
    forall|i: int, j: int|
        0 <= i < j < texts.len() ==> text_less(#[trigger] texts[i], #[trigger] texts[j])
}

/// The sorted list `texts` with `t` put in its place, unless it is there
/// already.
pub open spec fn inserted_sorted(texts: Seq<Seq<char>>, t: Seq<char>) -> Seq<Seq<char>>
    decreases texts.len(),
{
    if texts.len() == 0 {
        seq![t]
    } else if texts.last() == t {
        texts
    } else if text_less(texts.last(), t) {
        texts.push(t)
    } else {
        inserted_sorted(texts.drop_last(), t).push(texts.last())
    }
}

/// The texts in the order of a dictionary, each once.
pub open spec fn sorted_texts(texts: Seq<Seq<char>>) -> Seq<Seq<char>>
    decreases texts.len(),
{
    if texts.len() == 0 {
        Seq::empty()
    } else {
        inserted_sorted(sorted_texts(texts.drop_last()), texts.last())
    }
}

/// Two texts that agree from a position on up to their ends, and up to that
/// position, are the same.
proof fn lemma_agree(a: Seq<char>, b: Seq<char>, i: int)
    requires
        0 <= i <= a.len(),
        i <= b.len(),
        forall|k: int| 0 <= k < i ==> a[k] == b[k],
        !less_from(a, b, i),
        !less_from(b, a, i),
    ensures
        a == b,
    decreases a.len() - i,
{
    if i >= a.len() || i >= b.len() {
        assert(a =~= b);
    } else {
        lemma_agree(a, b, i + 1);
    }
}

/// Of two different texts one comes before the other.
pub proof fn lemma_less_total(a: Seq<char>, b: Seq<char>)
    ensures
        a == b || text_less(a, b) || text_less(b, a),
{
    if !text_less(a, b) && !text_less(b, a) {
        lemma_agree(a, b, 0);
    }
}

/// Not both of two texts that agree up to a position come before the other.
proof fn lemma_less_from_asymmetric(a: Seq<char>, b: Seq<char>, i: int)
    requires
        0 <= i,
    ensures
        !(less_from(a, b, i) && less_from(b, a, i)),
    decreases a.len() - i,
{
    if i < a.len() && i < b.len() && a[i] == b[i] {
        lemma_less_from_asymmetric(a, b, i + 1);
    }
}

/// No text comes before itself, and of two texts not each before the other.
pub proof fn lemma_less_asymmetric(a: Seq<char>, b: Seq<char>)
    ensures
        !(text_less(a, b) && text_less(b, a)),
        !text_less(a, a),
{
    lemma_less_from_asymmetric(a, b, 0);
    lemma_less_from_asymmetric(a, a, 0);
}

/// Where one text comes before a second and the second before a third, all
/// agreeing up to a position, the first comes before the third.
proof fn lemma_less_from_transitive(a: Seq<char>, b: Seq<char>, c: Seq<char>, i: int)
    requires
        0 <= i,
        less_from(a, b, i),
        less_from(b, c, i),
    ensures
        less_from(a, c, i),
    decreases a.len() - i,
{
    if i < a.len() && a[i] == b[i] && b[i] == c[i] {
        lemma_less_from_transitive(a, b, c, i + 1);
    }
}

/// What comes before a text comes before all that the text comes before.
pub proof fn lemma_less_transitive(a: Seq<char>, b: Seq<char>, c: Seq<char>)
    requires
        text_less(a, b),
        text_less(b, c),
    ensures
        text_less(a, c),
{
    lemma_less_from_transitive(a, b, c, 0);
}

/// Putting a text into a sorted list leaves the list sorted, with the text
/// in it and nothing else new.
pub proof fn lemma_inserted_sorted(texts: Seq<Seq<char>>, t: Seq<char>)
    requires
        strictly_sorted(texts),
    ensures
        strictly_sorted(inserted_sorted(texts, t)),
        inserted_sorted(texts, t).contains(t),
        forall|x: Seq<char>| #[trigger] texts.contains(x) ==> inserted_sorted(texts, t).contains(x),
        forall|x: Seq<char>| #[trigger]
            inserted_sorted(texts, t).contains(x) ==> x == t || texts.contains(x),
    decreases texts.len(),
{
    let out = inserted_sorted(texts, t);
    if texts.len() == 0 {
        assert(out[0] == t);
        assert forall|x: Seq<char>| out.contains(x) <==> (x == t || texts.contains(x)) by {
            if out.contains(x) {
                let i = choose|i: int| 0 <= i < out.len() && out[i] == x;
            }
        }
    } else if texts.last() == t {
        assert(texts[texts.len() - 1] == t);
    } else if text_less(texts.last(), t) {
        assert forall|i: int, j: int| 0 <= i < j < out.len() implies text_less(
            #[trigger] out[i],
            #[trigger] out[j],
        ) by {
            if j == texts.len() {
                if i < texts.len() - 1 {
                    assert(text_less(texts[i], texts[texts.len() - 1]));
                    lemma_less_transitive(texts[i], texts.last(), t);
                }
            } else {
                assert(text_less(texts[i], texts[j]));
            }
        }
        assert forall|x: Seq<char>| out.contains(x) <==> (x == t || texts.contains(x)) by {
            if out.contains(x) {
                let i = choose|i: int| 0 <= i < out.len() && out[i] == x;
                if i < texts.len() {
                    assert(texts[i] == x);
                }
            }
            if x == t {
                assert(out[texts.len() as int] == t);
            }
            if texts.contains(x) {
                let i = choose|i: int| 0 <= i < texts.len() && texts[i] == x;
                assert(out[i] == x);
            }
        }
    } else {
        let front = texts.drop_last();
        let last = texts.last();
        assert(strictly_sorted(front)) by {
            assert forall|i: int, j: int| 0 <= i < j < front.len() implies text_less(
                #[trigger] front[i],
                #[trigger] front[j],
            ) by {
                assert(text_less(texts[i], texts[j]));
            }
        }
        lemma_inserted_sorted(front, t);
        let inner = inserted_sorted(front, t);
        lemma_less_total(last, t);
        assert(text_less(t, last));
        assert forall|i: int, j: int| 0 <= i < j < out.len() implies text_less(
            #[trigger] out[i],
            #[trigger] out[j],
        ) by {
            if j == inner.len() {
                assert(inner.contains(inner[i]));
                if inner[i] != t {
                    assert(front.contains(inner[i]));
                    let k = choose|k: int| 0 <= k < front.len() && front[k] == inner[i];
                    assert(text_less(texts[k], texts[texts.len() - 1]));
                }
            } else {
                assert(text_less(inner[i], inner[j]));
            }
        }
        assert forall|x: Seq<char>| out.contains(x) <==> (x == t || texts.contains(x)) by {
            if out.contains(x) {
                let i = choose|i: int| 0 <= i < out.len() && out[i] == x;
                if i < inner.len() {
                    assert(inner[i] == x);
                    assert(inner.contains(x));
                    if x != t {
                        assert(front.contains(x));
                        let k = choose|k: int| 0 <= k < front.len() && front[k] == x;
                        assert(texts[k] == x);
                    }
                } else {
                    assert(texts[texts.len() - 1] == x);
                }
            }
            if x == t {
                assert(inner.contains(t));
                let i = choose|i: int| 0 <= i < inner.len() && inner[i] == t;
                assert(out[i] == t);
            }
            if texts.contains(x) {
                let k = choose|k: int| 0 <= k < texts.len() && texts[k] == x;
                if k < front.len() {
                    assert(front[k] == x);
                    assert(front.contains(x));
                    assert(inner.contains(x));
                    let i = choose|i: int| 0 <= i < inner.len() && inner[i] == x;
                    assert(out[i] == x);
                } else {
                    assert(out[inner.len() as int] == x);
                }
            }
        }
    }
}

/// The sorted texts are in order, each once, and are the texts given.
pub proof fn lemma_sorted_texts(texts: Seq<Seq<char>>)
    ensures
        strictly_sorted(sorted_texts(texts)),
        forall|x: Seq<char>| #[trigger] texts.contains(x) ==> sorted_texts(texts).contains(x),
        forall|x: Seq<char>| #[trigger] sorted_texts(texts).contains(x) ==> texts.contains(x),
    decreases texts.len(),
{
    if texts.len() == 0 {
    } else {
        let front = texts.drop_last();
        lemma_sorted_texts(front);
        lemma_inserted_sorted(sorted_texts(front), texts.last());
        assert forall|x: Seq<char>| sorted_texts(texts).contains(x) <==> texts.contains(x) by {
            if texts.contains(x) {
                let k = choose|k: int| 0 <= k < texts.len() && texts[k] == x;
                if k < front.len() {
                    assert(front[k] == x);
                }
            }
            if front.contains(x) {
                let k = choose|k: int| 0 <= k < front.len() && front[k] == x;
                assert(texts[k] == x);
            }
            if x == texts.last() {
                assert(texts[texts.len() - 1] == x);
            }
        }
    }
}

/// Whether `a` comes before `b` in the order of a dictionary.
pub fn text_lt(a: &Vec<char>, b: &Vec<char>) -> (r: bool)
    ensures
        r == text_less(a@, b@),
{
    let mut i: usize = 0;
    loop
        invariant
            i <= a.len(),
            i <= b.len(),
            less_from(a@, b@, i as int) == text_less(a@, b@),
        decreases a.len() - i,
    {
        if i >= b.len() {
            return false;
        }
        if i >= a.len() {
            return true;
        }
        if a[i] != b[i] {
            return a[i] < b[i];
        }
        i += 1;
    }
}

/// Puts `t` into the sorted list `texts`, unless it is there already.
pub fn insert_sorted(texts: &mut Vec<String>, t: String)
    ensures
        final(texts).deep_view() == inserted_sorted(old(texts).deep_view(), t@),
{
    let key = chars_of(t.as_str());
    let ghost all = texts.deep_view();
    let mut i: usize = texts.len();
    proof {
        assert(all.take(i as int) =~= all);
        assert(inserted_sorted(all, t@) + all.skip(i as int) =~= inserted_sorted(all, t@));
    }
    while i > 0
        invariant
            i <= texts.len(),
            *texts == *old(texts),
            all == texts.deep_view(),
            key@ == t@,
            inserted_sorted(all, t@) == inserted_sorted(all.take(i as int), t@) + all.skip(
                i as int,
            ),
        ensures
            i == 0 || (all[i - 1] != t@ && text_less(all[i - 1], t@)),
        decreases i,
    {
        let current = chars_of(texts[i - 1].as_str());
        let ghost front = all.take(i as int);
        proof {
            assert(front.last() == texts[i - 1]@);
            assert(front.drop_last() =~= all.take(i - 1));
        }
        if crate::text::same_chars(&current, &key) {
            proof {
                assert(front + all.skip(i as int) =~= all);
            }
            return ;
        }
        if text_lt(&current, &key) {
            break ;
        }
        proof {
            assert(inserted_sorted(front, t@) == inserted_sorted(all.take(i - 1), t@).push(
                front.last(),
            ));
            assert(inserted_sorted(all.take(i - 1), t@).push(front.last()) + all.skip(i as int)
                =~= inserted_sorted(all.take(i - 1), t@) + all.skip(i - 1));
        }
        i -= 1;
    }
    proof {
        let front = all.take(i as int);
        if i > 0 {
            assert(front.last() == all[i - 1]);
            assert(inserted_sorted(front, t@) == front.push(t@));
        } else {
            assert(front =~= Seq::<Seq<char>>::empty());
            assert(inserted_sorted(front, t@) =~= front.push(t@));
        }
    }
    let ghost before = *texts;
    texts.insert(i, t);
    proof {
        assert(texts@ == before@.insert(i as int, t));
        assert(texts.deep_view() =~= all.take(i as int).push(t@) + all.skip(i as int));
    }
}

/// The texts in the order of a dictionary, each once.
pub fn sort_texts(texts: &Vec<String>) -> (out: Vec<String>)
    ensures
        out.deep_view() == sorted_texts(texts.deep_view()),
        strictly_sorted(out.deep_view()),
        out.deep_view().no_duplicates(),
        forall|x: Seq<char>| out.deep_view().contains(x) <==> texts.deep_view().contains(x),
{
    let mut out: Vec<String> = Vec::new();
    proof {
        assert(out.deep_view() =~= Seq::empty());
    }
    let mut i: usize = 0;
    while i < texts.len()
        invariant
            i <= texts.len(),
            out.deep_view() == sorted_texts(texts.deep_view().take(i as int)),
        decreases texts.len() - i,
    {
        proof {
            let seen = texts.deep_view().take(i + 1);
            assert(seen.drop_last() =~= texts.deep_view().take(i as int));
            assert(seen.last() == texts[i as int]@);
        }
        insert_sorted(&mut out, texts[i].clone());
        i += 1;
    }
    proof {
        assert(texts.deep_view().take(texts.len() as int) =~= texts.deep_view());
        lemma_sorted_texts(texts.deep_view());
        let sorted = out.deep_view();
        assert forall|i: int, j: int| 0 <= i < sorted.len() && 0 <= j < sorted.len() && i
            != j implies sorted[i] != sorted[j] by {
            lemma_less_asymmetric(sorted[i], sorted[j]);
            if i < j {
                assert(text_less(sorted[i], sorted[j]));
            } else {
                assert(text_less(sorted[j], sorted[i]));
            }
        }
    }
    out
}

} // verus!
