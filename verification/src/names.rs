//! The translated name of a surah.
//!
//! A surah may name a phrase that stands for its translated name. The
//! phrase has at most one translation in each language. The translation is
//! looked up in the language that the request names, or in the default
//! language where it names none; another language never stands in for a
//! missing one.
//!
//! The store answers with rows of phrases joined to their translations, a
//! phrase without translation included: such a row has no language and no
//! text, and translates into no language.

use vstd::prelude::*;
use crate::text::copy_text;

verus! {

/// A phrase with one of its translations, or with none.
#[derive(Debug, PartialEq, Eq)]
pub struct PhraseTranslation {
    pub phrase: String,
    pub language: Option<String>,
    pub text: Option<String>,
}

pub struct PhraseTranslationView {
    pub phrase: Seq<char>,
    pub language: Option<Seq<char>>,
    pub text: Option<Seq<char>>,
}

impl PhraseTranslationView {
    /// The row translates `phrase` into `language`.
    pub open spec fn translates(self, phrase: Seq<char>, language: Seq<char>) -> bool {
        self.phrase == phrase && self.language == Some(language)
    }
}

impl DeepView for PhraseTranslation {
    type V = PhraseTranslationView;

    open spec fn deep_view(&self) -> PhraseTranslationView {
        PhraseTranslationView {
            phrase: self.phrase@,
            language: self.language.deep_view(),
            text: self.text.deep_view(),
        }
    }
}

/// The language of a request that names none.
pub open spec fn default_language() -> Seq<char> {
    "en"@
}

/// The language in which a request is answered.
pub open spec fn language_or_default(lang_code: Option<Seq<char>>) -> Seq<char> {
    match lang_code {
        Some(code) => code,
        None => default_language(),
    }
}

/// The first of `rows` that translates `phrase` into `language` gives the
/// text; where none does, there is no translation.
pub open spec fn translation_of(
    rows: Seq<PhraseTranslationView>,
    phrase: Seq<char>,
    language: Seq<char>,
) -> Option<Seq<char>>
    decreases rows.len(),
{
    if rows.len() == 0 {
        None
    } else if rows[0].translates(phrase, language) {
        rows[0].text
    } else {
        translation_of(rows.skip(1), phrase, language)
    }
}

/// The translated name of a surah whose name phrase is `phrase`, for a
/// request that names `lang_code`.
pub open spec fn localized(
    phrase: Option<Seq<char>>,
    lang_code: Option<Seq<char>>,
    rows: Seq<PhraseTranslationView>,
) -> Option<Seq<char>> {
    match phrase {
        Some(p) => translation_of(rows, p, language_or_default(lang_code)),
        None => None,
    }
}

/// The default language is English, written `en`.
pub proof fn lemma_default_language()
    ensures
        default_language() == seq!['e', 'n'],
{
    reveal_strlit("en");
    assert("en"@ =~= seq!['e', 'n']);
}

/// A surah without a name phrase has no translated name, whatever language
/// is asked for and whatever translations there are.
pub proof fn lemma_no_phrase(lang_code: Option<Seq<char>>, rows: Seq<PhraseTranslationView>)
    ensures
        localized(None, lang_code, rows) is None,
{
}

/// Where no row translates the phrase into the language, there is no
/// translation: that is an answer, not a failure. Rows in other languages
/// and rows of other phrases do not count.
pub proof fn lemma_absent_without_row(
    rows: Seq<PhraseTranslationView>,
    phrase: Seq<char>,
    language: Seq<char>,
)
    requires
        forall|i: int| 0 <= i < rows.len() ==> !(#[trigger] rows[i]).translates(phrase, language),
    ensures
        translation_of(rows, phrase, language) is None,
    decreases rows.len(),
{
    if rows.len() > 0 {
        let rest = rows.skip(1);
        assert(!rows[0].translates(phrase, language));
        assert forall|i: int| 0 <= i < rest.len() implies !(#[trigger] rest[i]).translates(
            phrase,
            language,
        ) by {
            assert(rest[i] == rows[i + 1]);
        }
        lemma_absent_without_row(rest, phrase, language);
    }
}

/// A translation that is there comes from a row that translates the phrase
/// into the language.
pub proof fn lemma_present_from_row(
    rows: Seq<PhraseTranslationView>,
    phrase: Seq<char>,
    language: Seq<char>,
) -> (at: int)
    requires
        translation_of(rows, phrase, language) is Some,
    ensures
        0 <= at < rows.len(),
        rows[at].translates(phrase, language),
        translation_of(rows, phrase, language) == rows[at].text,
    decreases rows.len(),
{
    if rows[0].translates(phrase, language) {
        0
    } else {
        let rest = rows.skip(1);
        let at = lemma_present_from_row(rest, phrase, language);
        assert(rest[at] == rows[at + 1]);
        at + 1
    }
}

/// The translation is the text of the first row that translates the phrase
/// into the language; where only one row does, it is that row's text.
pub proof fn lemma_matching_row(
    rows: Seq<PhraseTranslationView>,
    phrase: Seq<char>,
    language: Seq<char>,
    at: int,
)
    requires
        0 <= at < rows.len(),
        rows[at].translates(phrase, language),
        forall|i: int| 0 <= i < at ==> !(#[trigger] rows[i]).translates(phrase, language),
    ensures
        translation_of(rows, phrase, language) == rows[at].text,
    decreases at,
{
    if at > 0 {
        let rest = rows.skip(1);
        assert(!rows[0].translates(phrase, language));
        assert(rest[at - 1] == rows[at]);
        assert forall|i: int| 0 <= i < at - 1 implies !(#[trigger] rest[i]).translates(
            phrase,
            language,
        ) by {
            assert(rest[i] == rows[i + 1]);
        }
        lemma_matching_row(rest, phrase, language, at - 1);
    }
}

/// The language in which a request is answered: the one it names, or the
/// default.
pub fn requested_language(lang_code: &Option<String>) -> (language: String)
    ensures
        language@ == language_or_default(lang_code.deep_view()),
{
    match lang_code {
        Some(code) => code.clone(),
        None => String::from_str("en"),
    }
}

/// Whether a row's language is `language`.
fn speaks(row_language: &Option<String>, language: &String) -> (same: bool)
    ensures
        same == (row_language.deep_view() == Some(language@)),
{
    match row_language {
        Some(l) => *l == *language,
        None => false,
    }
}

/// Looks among `rows` for the translation of `phrase` into `language`.
pub fn find_translation(rows: &Vec<PhraseTranslation>, phrase: &String, language: &String) -> (found:
    Option<String>)
    ensures
        found.deep_view() == translation_of(rows.deep_view(), phrase@, language@),
{
    let ghost all = rows.deep_view();
    let mut i: usize = 0;
    assert(all.skip(0) =~= all);
    while i < rows.len()
        invariant
            i <= rows.len(),
            all == rows.deep_view(),
            translation_of(all, phrase@, language@) == translation_of(
                all.skip(i as int),
                phrase@,
                language@,
            ),
        decreases rows.len() - i,
    {
        let row = &rows[i];
        assert(all.skip(i as int)[0] == row.deep_view());
        if row.phrase == *phrase && speaks(&row.language, language) {
            return copy_text(&row.text);
        }
        assert(all.skip(i as int).skip(1) =~= all.skip(i + 1));
        i += 1;
    }
    None
}

/// The translated name of a surah: absent where the surah names no phrase or
/// the phrase has no translation in the language of the request.
pub fn localize_name(
    phrase: &Option<String>,
    lang_code: &Option<String>,
    rows: &Vec<PhraseTranslation>,
) -> (translation: Option<String>)
    ensures
        translation.deep_view() == localized(
            phrase.deep_view(),
            lang_code.deep_view(),
            rows.deep_view(),
        ),
{
    match phrase {
        Some(p) => {
            let language = requested_language(lang_code);
            find_translation(rows, p, &language)
        },
        None => None,
    }
}

} // verus!
