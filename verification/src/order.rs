//! The order of texts that `String`'s `Ord` gives (character by character, a prefix
//! first), and sorting by it.

use vstd::prelude::*;
use vstd::relations::{sorted_by, total_ordering};

use crate::text::chars_of;

verus! {

broadcast use vstd::seq_lib::group_to_multiset_ensures;

/// `first` comes no later than `second`: at the first position where they differ the
/// character of `first` is smaller, or `first` is a prefix of `second`. Since UTF-8 keeps
/// the order of characters, this is also the order of their bytes.
pub open spec fn text_leq(first: Seq<char>, second: Seq<char>) -> bool
    decreases first.len(),
{
    if first.len() == 0 {
        true
    } else if second.len() == 0 {
        false
    } else if first[0] != second[0] {
        first[0] < second[0]
    } else {
        text_leq(first.drop_first(), second.drop_first())
    }
}

/// `text_leq` as a relation.
pub open spec fn text_order() -> spec_fn(Seq<char>, Seq<char>) -> bool {
    |first: Seq<char>, second: Seq<char>| text_leq(first, second)
}

/// The views of a sequence of strings.
pub open spec fn string_views(texts: Seq<String>) -> Seq<Seq<char>> {
    Seq::new(texts.len(), |i: int| texts[i]@)
}

proof fn lemma_text_leq_reflexive(text: Seq<char>)
    ensures
        text_leq(text, text),
    decreases text.len(),
{
    if text.len() > 0 {
        lemma_text_leq_reflexive(text.drop_first());
    }
}

proof fn lemma_text_leq_antisymmetric(first: Seq<char>, second: Seq<char>)
    requires
        text_leq(first, second),
        text_leq(second, first),
    ensures
        first == second,
    decreases first.len(),
{
    if first.len() > 0 && second.len() > 0 && first[0] == second[0] {
        assert(text_leq(first.drop_first(), second.drop_first()));
        assert(text_leq(second.drop_first(), first.drop_first()));
        lemma_text_leq_antisymmetric(first.drop_first(), second.drop_first());
        assert(first.drop_first().len() == second.drop_first().len());
        assert(first.len() == second.len());
        assert forall|i: int| 0 <= i < first.len() implies first[i] == second[i] by {
            if i > 0 {
                assert(first[i] == first.drop_first()[i - 1]);
                assert(second[i] == second.drop_first()[i - 1]);
            }
        }
    }
    assert(first =~= second);
}

proof fn lemma_text_leq_transitive(first: Seq<char>, second: Seq<char>, third: Seq<char>)
    requires
        text_leq(first, second),
        text_leq(second, third),
    ensures
        text_leq(first, third),
    decreases first.len(),
{
    if first.len() > 0 && second.len() > 0 && third.len() > 0 {
        if first[0] == second[0] && second[0] == third[0] {
            lemma_text_leq_transitive(first.drop_first(), second.drop_first(), third.drop_first());
        }
    }
}

proof fn lemma_text_leq_total(first: Seq<char>, second: Seq<char>)
    ensures
        text_leq(first, second) || text_leq(second, first),
    decreases first.len(),
{
    if first.len() > 0 && second.len() > 0 && first[0] == second[0] {
        lemma_text_leq_total(first.drop_first(), second.drop_first());
    }
}

/// Strictly before, then strictly before again, is strictly before.
pub proof fn lemma_text_before_transitive(first: Seq<char>, second: Seq<char>, third: Seq<char>)
    requires
        text_leq(first, second),
        first != second,
        text_leq(second, third),
        second != third,
    ensures
        text_leq(first, third),
        first != third,
{
    lemma_text_leq_transitive(first, second, third);
    if first == third {
        lemma_text_leq_antisymmetric(first, second);
    }
}

/// `text_leq` is a total order.
pub proof fn lemma_text_order_total()
    ensures
        total_ordering(text_order()),
{
    assert forall|text: Seq<char>| #[trigger] text_order()(text, text) by {
        lemma_text_leq_reflexive(text);
    }
    assert forall|first: Seq<char>, second: Seq<char>|
        #[trigger] text_order()(first, second) && #[trigger] text_order()(
            second,
            first,
        ) implies first == second by {
        lemma_text_leq_antisymmetric(first, second);
    }
    assert forall|first: Seq<char>, second: Seq<char>, third: Seq<char>|
        #[trigger] text_order()(first, second) && #[trigger] text_order()(
            second,
            third,
        ) implies text_order()(first, third) by {
        lemma_text_leq_transitive(first, second, third);
    }
    assert forall|first: Seq<char>, second: Seq<char>|
        #[trigger] text_order()(first, second) || #[trigger] text_order()(second, first) by {
        lemma_text_leq_total(first, second);
    }
}

/// Whether `first` comes no later than `second`.
pub fn chars_leq(first: &Vec<char>, second: &Vec<char>) -> (leq: bool)
    ensures
        leq == text_leq(first@, second@),
{
    let mut i: usize = 0;
    assert(first@.skip(0) =~= first@);
    assert(second@.skip(0) =~= second@);
    while i < first.len() && i < second.len() && first[i] == second[i]
        invariant
            i <= first.len(),
            i <= second.len(),
            text_leq(first@.skip(i as int), second@.skip(i as int)) == text_leq(first@, second@),
        decreases first.len() - i,
    {
        assert(first@.skip(i as int).drop_first() =~= first@.skip(i + 1));
        assert(second@.skip(i as int).drop_first() =~= second@.skip(i + 1));
        i = i + 1;
    }
    if i == first.len() {
        true
    } else if i == second.len() {
        false
    } else {
        first[i] < second[i]
    }
}

/// The character views of sorted entries.
spec fn entry_keys(entries: Seq<(Vec<char>, String)>) -> Seq<Seq<char>> {
    Seq::new(entries.len(), |i: int| entries[i].0@)
}

/// The strings in the order `text_leq` gives (the order `sort` gives them in).
pub fn sorted_strings(texts: &Vec<String>) -> (sorted: Vec<String>)
    ensures
        string_views(sorted@) == string_views(texts@).sort_by(text_order()),
{
    proof {
        lemma_text_order_total();
    }
    let mut entries: Vec<(Vec<char>, String)> = Vec::new();
    let mut i: usize = 0;
    while i < texts.len()
        invariant
            i <= texts.len(),
            total_ordering(text_order()),
            forall|j: int| 0 <= j < entries@.len() ==> #[trigger] entries@[j].0@ == entries@[j].1@,
            sorted_by(entry_keys(entries@), text_order()),
            entry_keys(entries@).to_multiset() == string_views(texts@).take(i as int).to_multiset(),
        decreases texts.len() - i,
    {
        let text = texts[i].clone();
        let chars = chars_of(text.as_str());
        let mut at: usize = 0;
        while at < entries.len() && chars_leq(&entries[at].0, &chars)
            invariant
                at <= entries.len(),
                forall|q: int| 0 <= q < at ==> text_leq(#[trigger] entries@[q].0@, chars@),
            decreases entries.len() - at,
        {
            at = at + 1;
        }
        let ghost before = entry_keys(entries@);
        entries.insert(at, (chars, text));
        proof {
            let after = entry_keys(entries@);
            assert(after =~= before.insert(at as int, chars@));
            assert forall|p: int| 0 <= p < after.len() implies after[p] == (if p < at {
                before[p]
            } else if p == at {
                chars@
            } else {
                before[p - 1]
            }) by {}
            if at < before.len() {
                lemma_text_leq_total(before[at as int], chars@);
                assert(text_leq(chars@, before[at as int]));
            }
            assert forall|p: int, q: int| 0 <= p < q < after.len() implies #[trigger] text_order()(
                after[p],
                after[q],
            ) by {
                if q < at {
                    assert(text_order()(before[p], before[q]));
                } else if p < at && q == at {
                    assert(text_leq(before[p], chars@));
                } else if p < at {
                    assert(text_leq(before[p], chars@));
                    if at as int != q - 1 {
                        assert(text_order()(before[at as int], before[q - 1]));
                        lemma_text_leq_transitive(chars@, before[at as int], before[q - 1]);
                    }
                    lemma_text_leq_transitive(before[p], chars@, before[q - 1]);
                } else if p == at {
                    if at as int != q - 1 {
                        assert(text_order()(before[at as int], before[q - 1]));
                        lemma_text_leq_transitive(chars@, before[at as int], before[q - 1]);
                    }
                } else {
                    assert(text_order()(before[p - 1], before[q - 1]));
                }
            }
            assert(string_views(texts@).take(i + 1) =~= string_views(texts@).take(i as int).push(
                texts@[i as int]@,
            ));
        }
        i = i + 1;
    }
    let mut sorted: Vec<String> = Vec::new();
    let mut k: usize = 0;
    while k < entries.len()
        invariant
            k <= entries.len(),
            forall|j: int| 0 <= j < entries@.len() ==> #[trigger] entries@[j].0@ == entries@[j].1@,
            string_views(sorted@) == entry_keys(entries@).take(k as int),
        decreases entries.len() - k,
    {
        assert(entries@[k as int].0@ == entries@[k as int].1@);
        let copy = entries[k].1.clone();
        assert(copy@ == entries@[k as int].1@);
        let ghost old_sorted = sorted@;
        sorted.push(copy);
        proof {
            assert forall|j: int| 0 <= j <= k implies string_views(sorted@)[j] == entry_keys(
                entries@,
            )[j] by {
                assert(old_sorted.len() == string_views(old_sorted).len());
                if j < k {
                    assert(string_views(old_sorted)[j] == entry_keys(entries@).take(k as int)[j]);
                } else {
                    assert(sorted@[j] == copy);
                }
            }
        }
        k = k + 1;
        assert(string_views(sorted@) =~= entry_keys(entries@).take(k as int));
    }
    proof {
        assert(entry_keys(entries@).take(entries@.len() as int) =~= entry_keys(entries@));
        assert(string_views(texts@).take(texts@.len() as int) =~= string_views(texts@));
        string_views(texts@).lemma_sort_by_ensures(text_order());
        vstd::seq_lib::lemma_sorted_unique(
            string_views(sorted@),
            string_views(texts@).sort_by(text_order()),
            text_order(),
        );
    }
    sorted
}

} // verus!
