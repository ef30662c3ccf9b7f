//! Grouping of the rows of an ayah-word join into one word list per ayah.
//!
//! The join hands over one pair for every word, each with the ayah the word
//! belongs to. Grouping keeps the ayahs in the order in which they are first
//! seen and, for each ayah, the words in the order in which they arrive.
//! Nothing is sorted.

use vstd::prelude::*;
use crate::ayah::{same_ayah, simplified, simplify, QuranAyah, QuranAyahView, SimpleAyah, SimpleAyahView};

verus! {

/// The keys of `pairs`, each once, in the order of their first appearance.
pub open spec fn keys_in_order<K, W>(pairs: Seq<(K, W)>) -> Seq<K>
    decreases pairs.len(),
{
    if pairs.len() == 0 {
        Seq::empty()
    } else {
        let before = keys_in_order(pairs.drop_last());
        if before.contains(pairs.last().0) {
            before
        } else {
            before.push(pairs.last().0)
        }
    }
}

/// The words that `pairs` holds under `key`, in the order of `pairs`.
pub open spec fn words_of<K, W>(pairs: Seq<(K, W)>, key: K) -> Seq<W>
    decreases pairs.len(),
{
    if pairs.len() == 0 {
        Seq::empty()
    } else if pairs.last().0 == key {
        words_of(pairs.drop_last(), key).push(pairs.last().1)
    } else {
        words_of(pairs.drop_last(), key)
    }
}

/// One entry per key of `pairs`, in the order of first appearance, each with
/// the words found under that key.
pub open spec fn grouped<K, W>(pairs: Seq<(K, W)>) -> Seq<(K, Seq<W>)> {
    let keys = keys_in_order(pairs);
    Seq::new(keys.len(), |i: int| (keys[i], words_of(pairs, keys[i])))
}

/// `at` is the place where `key` first appears in `pairs`.
pub open spec fn first_seen_at<K, W>(pairs: Seq<(K, W)>, key: K, at: int) -> bool {
    &&& 0 <= at < pairs.len()
    &&& pairs[at].0 == key
    &&& forall|i: int| 0 <= i < at ==> (#[trigger] pairs[i]).0 != key
}

/// A key is among the grouped keys exactly when some pair carries it.
pub proof fn lemma_keys_cover<K, W>(pairs: Seq<(K, W)>, key: K)
    ensures
        keys_in_order(pairs).contains(key) <==> exists|i: int|
            0 <= i < pairs.len() && (#[trigger] pairs[i]).0 == key,
    decreases pairs.len(),
{
    if pairs.len() > 0 {
        let rest = pairs.drop_last();
        let before = keys_in_order(rest);
        lemma_keys_cover(rest, key);
        if keys_in_order(pairs).contains(key) {
            if before.contains(key) {
                let i = choose|i: int| 0 <= i < rest.len() && (#[trigger] rest[i]).0 == key;
                assert(pairs[i].0 == key);
            } else {
                let at = choose|at: int|
                    0 <= at < keys_in_order(pairs).len() && keys_in_order(pairs)[at] == key;
                assert(at == before.len());
                assert(pairs[pairs.len() - 1].0 == key);
            }
        }
        if exists|i: int| 0 <= i < pairs.len() && (#[trigger] pairs[i]).0 == key {
            let i = choose|i: int| 0 <= i < pairs.len() && (#[trigger] pairs[i]).0 == key;
            if i < rest.len() {
                assert(rest[i].0 == key);
                assert(before.contains(key));
                if !before.contains(pairs.last().0) {
                    let at = choose|at: int| 0 <= at < before.len() && before[at] == key;
                    assert(before.push(pairs.last().0)[at] == key);
                }
            } else {
                if !before.contains(key) {
                    assert(before.push(key)[before.len() as int] == key);
                }
            }
        }
    }
}

/// No ayah has two entries: the grouped keys are pairwise different.
pub proof fn lemma_keys_distinct<K, W>(pairs: Seq<(K, W)>)
    ensures
        keys_in_order(pairs).no_duplicates(),
    decreases pairs.len(),
{
    if pairs.len() > 0 {
        lemma_keys_distinct(pairs.drop_last());
    }
}

/// There are as many entries as there are different keys among the pairs.
pub proof fn lemma_group_count<K, W>(pairs: Seq<(K, W)>)
    ensures
        grouped(pairs).len() == pairs.map_values(|p: (K, W)| p.0).to_set().len(),
{
    let keys = keys_in_order(pairs);
    let firsts = pairs.map_values(|p: (K, W)| p.0);
    lemma_keys_distinct(pairs);
    keys.unique_seq_to_set();
    assert forall|k: K| keys.to_set().contains(k) <==> firsts.to_set().contains(k) by {
        lemma_keys_cover(pairs, k);
        if keys.contains(k) {
            let i = choose|i: int| 0 <= i < pairs.len() && (#[trigger] pairs[i]).0 == k;
            assert(firsts[i] == k);
        }
        if firsts.contains(k) {
            let i = choose|i: int| 0 <= i < firsts.len() && firsts[i] == k;
            assert(pairs[i].0 == k);
        }
    }
    assert(keys.to_set() =~= firsts.to_set());
}

/// There are no more keys than pairs.
pub proof fn lemma_keys_at_most<K, W>(pairs: Seq<(K, W)>)
    ensures
        keys_in_order(pairs).len() <= pairs.len(),
    decreases pairs.len(),
{
    if pairs.len() > 0 {
        lemma_keys_at_most(pairs.drop_last());
    }
}

/// A key that no pair carries has no words.
pub proof fn lemma_words_of_absent<K, W>(pairs: Seq<(K, W)>, key: K)
    requires
        !keys_in_order(pairs).contains(key),
    ensures
        words_of(pairs, key) == Seq::<W>::empty(),
    decreases pairs.len(),
{
    if pairs.len() > 0 {
        let before = keys_in_order(pairs.drop_last());
        if before.contains(pairs.last().0) {
            lemma_words_of_absent(pairs.drop_last(), key);
        } else {
            let full = before.push(pairs.last().0);
            assert(full[before.len() as int] == pairs.last().0);
            assert(!before.contains(key)) by {
                if before.contains(key) {
                    let at = choose|at: int| 0 <= at < before.len() && before[at] == key;
                    assert(full[at] == key);
                }
            }
            lemma_words_of_absent(pairs.drop_last(), key);
        }
    }
}

/// The words of an ayah are the words of its pairs, none left out, none
/// added, in the order of the pairs.
pub proof fn lemma_words_in_order<K, W>(pairs: Seq<(K, W)>, key: K)
    ensures
        words_of(pairs, key) == pairs.filter(|p: (K, W)| p.0 == key).map_values(|p: (K, W)| p.1),
    decreases pairs.len(),
{
    let wanted = |p: (K, W)| p.0 == key;
    let second = |p: (K, W)| p.1;
    reveal(Seq::filter);
    if pairs.len() == 0 {
        assert(pairs.filter(wanted).map_values(second) =~= Seq::<W>::empty());
    } else {
        lemma_words_in_order(pairs.drop_last(), key);
        let kept = pairs.drop_last().filter(wanted);
        if wanted(pairs.last()) {
            assert(pairs.filter(wanted) == kept.push(pairs.last()));
            assert(kept.push(pairs.last()).map_values(second) =~= kept.map_values(second).push(
                pairs.last().1,
            ));
        } else {
            assert(pairs.filter(wanted) == kept);
        }
    }
}

/// With `lemma_first_seen_order`: every grouped key has a place where it is
/// first seen.
pub proof fn lemma_first_seen<K, W>(pairs: Seq<(K, W)>, i: int) -> (at: int)
    requires
        0 <= i < keys_in_order(pairs).len(),
    ensures
        first_seen_at(pairs, keys_in_order(pairs)[i], at),
        i == keys_in_order(pairs.take(at)).len(),
    decreases pairs.len(),
{
    let rest = pairs.drop_last();
    let before = keys_in_order(rest);
    if i < before.len() {
        let at = lemma_first_seen(rest, i);
        assert(rest.take(at) =~= pairs.take(at));
        assert(keys_in_order(pairs)[i] == before[i]);
        assert(pairs[at] == rest[at]);
        assert forall|j: int| 0 <= j < at implies (#[trigger] pairs[j]).0 != before[i] by {
            assert(pairs[j] == rest[j]);
        }
        at
    } else {
        let at = pairs.len() - 1;
        let key = pairs.last().0;
        assert(pairs.take(at) =~= rest);
        assert(keys_in_order(pairs)[i] == key);
        assert forall|j: int| 0 <= j < at implies (#[trigger] pairs[j]).0 != key by {
            if pairs[j].0 == key {
                assert(rest[j].0 == key);
                lemma_keys_cover(rest, key);
            }
        }
        at
    }
}

/// The entries stand in the order in which their ayahs are first seen: of
/// two entries, the earlier one's ayah appears first in the pairs.
pub proof fn lemma_first_seen_order<K, W>(pairs: Seq<(K, W)>, i: int, j: int) -> (at: (int, int))
    requires
        0 <= i < j < keys_in_order(pairs).len(),
    ensures
        first_seen_at(pairs, keys_in_order(pairs)[i], at.0),
        first_seen_at(pairs, keys_in_order(pairs)[j], at.1),
        at.0 < at.1,
{
    let a = lemma_first_seen(pairs, i);
    let b = lemma_first_seen(pairs, j);
    if a >= b {
        lemma_keys_grow(pairs.take(a), b);
        assert(pairs.take(a).take(b) =~= pairs.take(b));
    }
    (a, b)
}

/// A shorter run of pairs has no more keys than a longer one.
proof fn lemma_keys_grow<K, W>(pairs: Seq<(K, W)>, n: int)
    requires
        0 <= n <= pairs.len(),
    ensures
        keys_in_order(pairs.take(n)).len() <= keys_in_order(pairs).len(),
    decreases pairs.len(),
{
    if n < pairs.len() {
        assert(pairs.drop_last().take(n) =~= pairs.take(n));
        lemma_keys_grow(pairs.drop_last(), n);
    } else {
        assert(pairs.take(n) =~= pairs);
    }
}

/// What one more pair does to the groups.
proof fn lemma_grouped_push<K, W>(pairs: Seq<(K, W)>, key: K, word: W)
    ensures
        !keys_in_order(pairs).contains(key) ==> grouped(pairs.push((key, word))) == grouped(
            pairs,
        ).push((key, seq![word])),
        forall|at: int|
            0 <= at < keys_in_order(pairs).len() && keys_in_order(pairs)[at] == key ==> grouped(
                pairs.push((key, word)),
            ) == grouped(pairs).update(at, (key, #[trigger] grouped(pairs)[at].1.push(word))),
{
    let more = pairs.push((key, word));
    let keys = keys_in_order(pairs);
    assert(more.drop_last() =~= pairs);
    lemma_keys_distinct(pairs);
    if !keys.contains(key) {
        lemma_words_of_absent(pairs, key);
        assert(Seq::<W>::empty().push(word) =~= seq![word]);
        assert(grouped(more) =~= grouped(pairs).push((key, seq![word])));
    }
    assert forall|at: int| 0 <= at < keys.len() && keys[at] == key implies grouped(more)
        == grouped(pairs).update(at, (key, #[trigger] grouped(pairs)[at].1.push(word))) by {
        assert(keys.contains(key));
        assert(grouped(more) =~= grouped(pairs).update(
            at,
            (key, grouped(pairs)[at].1.push(word)),
        ));
    }
}

/// The rows of a join with every ayah in its served form.
pub open spec fn simplified_rows(rows: Seq<(QuranAyahView, Seq<char>)>) -> Seq<
    (SimpleAyahView, Seq<char>),
> {
    rows.map_values(|row: (QuranAyahView, Seq<char>)| (simplified(row.0), row.1))
}

/// Groups the rows of an ayah-word join by ayah.
///
/// Every row is an ayah and one of its words. The result holds each ayah
/// once, in its served form and in the order in which the ayahs are first
/// seen, with its words in the order of the rows. No rows give no entries.
pub fn group_words(rows: Vec<(QuranAyah, String)>) -> (groups: Vec<(SimpleAyah, Vec<String>)>)
    ensures
        groups.deep_view() == grouped(simplified_rows(rows.deep_view())),
{
    let ghost all = rows@;
    let ghost pairs = simplified_rows(rows.deep_view());
    let mut groups: Vec<(SimpleAyah, Vec<String>)> = Vec::new();
    assert(groups.deep_view() =~= grouped(pairs.take(0)));
    for row in it: rows
        invariant
            it.seq() == all,
            all == rows@,
            pairs == simplified_rows(rows.deep_view()),
            groups.deep_view() == grouped(pairs.take(it.index())),
    {
        let ghost n = it.index();
        let ghost seen = pairs.take(n);
        let ghost before = groups.deep_view();
        let (stored, word) = row;
        let ayah = simplify(stored);
        proof {
            assert(pairs[n] == (ayah.deep_view(), word@));
            assert(pairs.take(n + 1) =~= seen.push((ayah.deep_view(), word@)));
            lemma_grouped_push(seen, ayah.deep_view(), word@);
        }
        let mut at: usize = 0;
        while at < groups.len() && !same_ayah(&groups[at].0, &ayah)
            invariant
                at <= groups.len(),
                before == groups.deep_view(),
                forall|i: int| 0 <= i < at ==> (#[trigger] before[i]).0 != ayah.deep_view(),
            decreases groups.len() - at,
        {
            assert(before[at as int].0 == groups[at as int].0.deep_view());
            at += 1;
        }
        if at < groups.len() {
            assert(before[at as int] == groups[at as int].deep_view());
            groups[at].1.push(word);
            assert(groups[at as int].1.deep_view() =~= before[at as int].1.push(word@));
            assert(groups.deep_view() =~= before.update(
                at as int,
                (ayah.deep_view(), before[at as int].1.push(word@)),
            ));
        } else {
            assert(at == before.len());
            assert(!keys_in_order(seen).contains(ayah.deep_view())) by {
                if keys_in_order(seen).contains(ayah.deep_view()) {
                    let i = choose|i: int|
                        0 <= i < keys_in_order(seen).len() && keys_in_order(seen)[i]
                            == ayah.deep_view();
                    assert(before[i].0 == keys_in_order(seen)[i]);
                    assert(before[i].0 != ayah.deep_view());
                }
            }
            let mut words: Vec<String> = Vec::new();
            words.push(word);
            assert(words.deep_view() =~= seq![word@]);
            groups.push((ayah, words));
            assert(groups.deep_view() =~= before.push((ayah.deep_view(), seq![word@])));
        }
    }
    assert(pairs.take(all.len() as int) =~= pairs);
    groups
}

} // verus!
