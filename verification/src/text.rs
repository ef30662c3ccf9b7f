//! Texts as sequences of characters: joining words, copying and comparing
//! optional texts.

use vstd::prelude::*;

verus! {

/// The words of `words` in order, with one space between neighbours and
/// nothing before the first or after the last.
pub open spec fn joined(words: Seq<Seq<char>>) -> Seq<char>
    decreases words.len(),
{
    if words.len() == 0 {
        Seq::empty()
    } else if words.len() == 1 {
        words[0]
    } else {
        joined(words.drop_last()).push(' ') + words.last()
    }
}

/// The characters of all words together, separators not counted.
pub open spec fn letters(words: Seq<Seq<char>>) -> nat
    decreases words.len(),
{
    if words.len() == 0 {
        0
    } else {
        letters(words.drop_last()) + words.last().len()
    }
}

/// A single word is served as it is.
pub proof fn lemma_joined_single(word: Seq<char>)
    ensures
        joined(seq![word]) == word,
{
}

/// Joining adds one separator between neighbours and no other character.
pub proof fn lemma_joined_len(words: Seq<Seq<char>>)
    ensures
        words.len() == 0 ==> joined(words).len() == 0,
        words.len() > 0 ==> joined(words).len() == letters(words) + words.len() - 1,
    decreases words.len(),
{
    if words.len() == 1 {
        assert(letters(words.drop_last()) == 0);
    } else if words.len() > 1 {
        lemma_joined_len(words.drop_last());
    }
}

/// The joined text begins with the first word: no separator leads.
pub proof fn lemma_joined_begins(words: Seq<Seq<char>>)
    requires
        words.len() > 0,
    ensures
        words[0].is_prefix_of(joined(words)),
    decreases words.len(),
{
    if words.len() > 1 {
        lemma_joined_begins(words.drop_last());
        assert(words[0] =~= joined(words).subrange(0, words[0].len() as int));
    }
}

/// The joined text ends with the last word: no separator trails.
pub proof fn lemma_joined_ends(words: Seq<Seq<char>>)
    requires
        words.len() > 0,
    ensures
        words.last().is_suffix_of(joined(words)),
{
    let text = joined(words);
    let last = words.last();
    assert(last =~= text.subrange(text.len() - last.len(), text.len() as int));
}

/// Between two neighbouring words stands exactly one space.
pub proof fn lemma_joined_push(words: Seq<Seq<char>>, word: Seq<char>)
    requires
        words.len() > 0,
    ensures
        joined(words.push(word)) == joined(words) + seq![' '] + word,
{
    assert(words.push(word).drop_last() =~= words);
    assert(joined(words).push(' ') =~= joined(words) + seq![' ']);
}

/// The words joined by single spaces.
pub fn join_words(words: &Vec<String>) -> (text: String)
    ensures
        text@ == joined(words.deep_view()),
{
    let ghost all = words.deep_view();
    let mut text = String::new();
    let mut i: usize = 0;
    while i < words.len()
        invariant
            i <= words.len(),
            all == words.deep_view(),
            text@ == joined(all.take(i as int)),
        decreases words.len() - i,
    {
        proof {
            reveal_strlit(" ");
            assert(all.take(i + 1).drop_last() =~= all.take(i as int));
            assert(all.take(i + 1).last() == words[i as int]@);
            assert(" "@ =~= seq![' ']);
        }
        if i > 0 {
            text.append(" ");
            assert(text@ =~= joined(all.take(i as int)).push(' '));
        }
        text.append(words[i].as_str());
        i += 1;
    }
    assert(all.take(words.len() as int) =~= all);
    text
}

/// A copy of an optional text.
pub fn copy_text(text: &Option<String>) -> (copy: Option<String>)
    ensures
        copy.deep_view() == text.deep_view(),
{
    match text {
        Some(t) => Some(t.clone()),
        None => None,
    }
}

/// Whether two optional texts are both absent or hold the same characters.
pub fn same_text(a: &Option<String>, b: &Option<String>) -> (same: bool)
    ensures
        same == (a.deep_view() == b.deep_view()),
{
    match (a, b) {
        (Some(x), Some(y)) => *x == *y,
        (None, None) => true,
        _ => false,
    }
}

} // verus!
