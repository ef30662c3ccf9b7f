//! The answer for one surah: the surah with its mushaf, its names and its
//! bismillah, and the ayahs in the shape that was asked for.

use vstd::prelude::*;
use uuid::Uuid;
use crate::ayah::AyahBismillahView;
use crate::render::{rendered_all, AyahTy, AyahTyView, Format};
use crate::ayah::SimpleAyahView;
use crate::text::{copy_text, join_words};

verus! {

/// A surah as the store holds it.
#[derive(Debug, PartialEq, Eq)]
pub struct QuranSurah {
    pub uuid: Uuid,
    /// The mushaf that the surah belongs to.
    pub mushaf_id: i32,
    /// The Arabic name.
    pub name: String,
    /// The phrase whose translations are the translated name.
    pub name_translation_phrase: Option<String>,
    pub name_pronunciation: Option<String>,
    pub name_transliteration: Option<String>,
    pub period: Option<String>,
    pub number: i32,
}

pub struct QuranSurahView {
    pub uuid: Uuid,
    pub mushaf_id: i32,
    pub name: Seq<char>,
    pub name_translation_phrase: Option<Seq<char>>,
    pub name_pronunciation: Option<Seq<char>>,
    pub name_transliteration: Option<Seq<char>>,
    pub period: Option<Seq<char>>,
    pub number: i32,
}

impl DeepView for QuranSurah {
    type V = QuranSurahView;

    open spec fn deep_view(&self) -> QuranSurahView {
        QuranSurahView {
            uuid: self.uuid,
            mushaf_id: self.mushaf_id,
            name: self.name@,
            name_translation_phrase: self.name_translation_phrase.deep_view(),
            name_pronunciation: self.name_pronunciation.deep_view(),
            name_transliteration: self.name_transliteration.deep_view(),
            period: self.period.deep_view(),
            number: self.number,
        }
    }
}

/// A mushaf as the store holds it.
#[derive(Debug, PartialEq, Eq)]
pub struct QuranMushaf {
    pub id: i32,
    pub uuid: Uuid,
    pub short_name: Option<String>,
    pub name: Option<String>,
    pub source: Option<String>,
}

pub struct QuranMushafView {
    pub id: i32,
    pub uuid: Uuid,
    pub short_name: Option<Seq<char>>,
    pub name: Option<Seq<char>>,
    pub source: Option<Seq<char>>,
}

impl DeepView for QuranMushaf {
    type V = QuranMushafView;

    open spec fn deep_view(&self) -> QuranMushafView {
        QuranMushafView {
            id: self.id,
            uuid: self.uuid,
            short_name: self.short_name.deep_view(),
            name: self.name.deep_view(),
            source: self.source.deep_view(),
        }
    }
}

/// What an answer tells of the mushaf of its surah.
#[derive(Debug, PartialEq, Eq)]
pub struct SingleSurahMushaf {
    pub uuid: Uuid,
    pub short_name: Option<String>,
    pub name: Option<String>,
    pub source: Option<String>,
}

pub struct SingleSurahMushafView {
    pub uuid: Uuid,
    pub short_name: Option<Seq<char>>,
    pub name: Option<Seq<char>>,
    pub source: Option<Seq<char>>,
}

impl DeepView for SingleSurahMushaf {
    type V = SingleSurahMushafView;

    open spec fn deep_view(&self) -> SingleSurahMushafView {
        SingleSurahMushafView {
            uuid: self.uuid,
            short_name: self.short_name.deep_view(),
            name: self.name.deep_view(),
            source: self.source.deep_view(),
        }
    }
}

/// The part of a stored mushaf that is served.
pub open spec fn served_mushaf(mushaf: QuranMushafView) -> SingleSurahMushafView {
    SingleSurahMushafView {
        uuid: mushaf.uuid,
        short_name: mushaf.short_name,
        name: mushaf.name,
        source: mushaf.source,
    }
}

impl From<QuranMushaf> for SingleSurahMushaf {
    /// Keeps of a stored mushaf what is served.
    fn from(mushaf: QuranMushaf) -> (served: SingleSurahMushaf) {
        SingleSurahMushaf {
            uuid: mushaf.uuid,
            short_name: mushaf.short_name,
            name: mushaf.name,
            source: mushaf.source,
        }
    }
}

impl vstd::std_specs::convert::FromSpecImpl<QuranMushaf> for SingleSurahMushaf {
    open spec fn obeys_from_spec() -> bool {
        true
    }

    open spec fn from_spec(mushaf: QuranMushaf) -> SingleSurahMushaf {
        SingleSurahMushaf {
            uuid: mushaf.uuid,
            short_name: mushaf.short_name,
            name: mushaf.name,
            source: mushaf.source,
        }
    }
}

/// The bismillah of a surah.
#[derive(Debug, PartialEq, Eq)]
pub struct SurahBismillah {
    /// The bismillah is the first ayah of the surah.
    pub as_first_ayah: bool,
    pub text: Option<String>,
}

pub struct SurahBismillahView {
    pub as_first_ayah: bool,
    pub text: Option<Seq<char>>,
}

impl DeepView for SurahBismillah {
    type V = SurahBismillahView;

    open spec fn deep_view(&self) -> SurahBismillahView {
        SurahBismillahView { as_first_ayah: self.as_first_ayah, text: self.text.deep_view() }
    }
}

/// The names of a surah.
#[derive(Debug, PartialEq, Eq)]
pub struct SurahName {
    pub arabic: String,
    pub translation: Option<String>,
    pub translation_phrase: Option<String>,
    pub pronunciation: Option<String>,
    pub transliteration: Option<String>,
}

pub struct SurahNameView {
    pub arabic: Seq<char>,
    pub translation: Option<Seq<char>>,
    pub translation_phrase: Option<Seq<char>>,
    pub pronunciation: Option<Seq<char>>,
    pub transliteration: Option<Seq<char>>,
}

impl DeepView for SurahName {
    type V = SurahNameView;

    open spec fn deep_view(&self) -> SurahNameView {
        SurahNameView {
            arabic: self.arabic@,
            translation: self.translation.deep_view(),
            translation_phrase: self.translation_phrase.deep_view(),
            pronunciation: self.pronunciation.deep_view(),
            transliteration: self.transliteration.deep_view(),
        }
    }
}

/// What an answer tells of the surah itself.
#[derive(Debug, PartialEq, Eq)]
pub struct SingleSurahResponse {
    pub uuid: Uuid,
    pub mushaf: SingleSurahMushaf,
    pub bismillah: Option<SurahBismillah>,
    pub names: Vec<SurahName>,
    pub period: Option<String>,
    pub number: i32,
    pub number_of_ayahs: i64,
}

pub struct SingleSurahResponseView {
    pub uuid: Uuid,
    pub mushaf: SingleSurahMushafView,
    pub bismillah: Option<SurahBismillahView>,
    pub names: Seq<SurahNameView>,
    pub period: Option<Seq<char>>,
    pub number: i32,
    pub number_of_ayahs: i64,
}

impl DeepView for SingleSurahResponse {
    type V = SingleSurahResponseView;

    open spec fn deep_view(&self) -> SingleSurahResponseView {
        SingleSurahResponseView {
            uuid: self.uuid,
            mushaf: self.mushaf.deep_view(),
            bismillah: self.bismillah.deep_view(),
            names: self.names.deep_view(),
            period: self.period.deep_view(),
            number: self.number,
            number_of_ayahs: self.number_of_ayahs,
        }
    }
}

/// The answer for one surah.
#[derive(Debug, PartialEq, Eq)]
pub struct QuranResponseData {
    pub surah: SingleSurahResponse,
    pub ayahs: Vec<AyahTy>,
}

pub struct QuranResponseDataView {
    pub surah: SingleSurahResponseView,
    pub ayahs: Seq<AyahTyView>,
}

impl DeepView for QuranResponseData {
    type V = QuranResponseDataView;

    open spec fn deep_view(&self) -> QuranResponseDataView {
        QuranResponseDataView { surah: self.surah.deep_view(), ayahs: self.ayahs.deep_view() }
    }
}

/// The bismillah of a surah, read off its first served ayah.
///
/// Where the first ayah is the bismillah, the surah's bismillah is that
/// ayah's text. Where a bismillah precedes the first ayah, it is that
/// bismillah. A surah whose first ayah has no bismillah state has none, and
/// so has a surah without ayahs.
pub open spec fn bismillah_summary(ayahs: Seq<AyahTyView>) -> Option<SurahBismillahView> {
    if ayahs.len() == 0 {
        None
    } else {
        match ayahs[0].ayah().bismillah {
            Some(state) => Some(
                SurahBismillahView {
                    as_first_ayah: state.is_ayah,
                    text: if state.is_ayah {
                        Some(ayahs[0].text())
                    } else {
                        state.text
                    },
                },
            ),
            None => None,
        }
    }
}

/// The answer that a surah, its mushaf, the translation of its name and its
/// served ayahs make up.
pub open spec fn composed(
    surah: QuranSurahView,
    mushaf: QuranMushafView,
    translation: Option<Seq<char>>,
    ayahs: Seq<AyahTyView>,
) -> QuranResponseDataView {
    QuranResponseDataView {
        surah: SingleSurahResponseView {
            uuid: surah.uuid,
            mushaf: served_mushaf(mushaf),
            bismillah: bismillah_summary(ayahs),
            names: seq![
                SurahNameView {
                    arabic: surah.name,
                    translation,
                    translation_phrase: surah.name_translation_phrase,
                    pronunciation: surah.name_pronunciation,
                    transliteration: surah.name_transliteration,
                },
            ],
            period: surah.period,
            number: surah.number,
            number_of_ayahs: ayahs.len() as i64,
        },
        ayahs,
    }
}

/// The three states of a first ayah and what each makes of the surah's
/// bismillah.
pub proof fn lemma_summary_cases(ayahs: Seq<AyahTyView>)
    requires
        ayahs.len() > 0,
    ensures
        ayahs[0].ayah().bismillah matches Some(state) ==> (state.is_ayah ==> bismillah_summary(ayahs)
            == Some((SurahBismillahView { as_first_ayah: true, text: Some(ayahs[0].text()) }))),
        ayahs[0].ayah().bismillah matches Some(state) ==> (!state.is_ayah ==> bismillah_summary(ayahs)
            == Some((SurahBismillahView { as_first_ayah: false, text: state.text }))),
        ayahs[0].ayah().bismillah is None ==> bismillah_summary(ayahs) is None,
{
}

/// A surah without ayahs has no bismillah.
pub proof fn lemma_summary_of_none()
    ensures
        bismillah_summary(Seq::<AyahTyView>::empty()) is None,
{
}

/// The bismillah of a surah does not depend on the shape of its ayahs.
pub proof fn lemma_summary_in_both_shapes(groups: Seq<(SimpleAyahView, Seq<Seq<char>>)>)
    ensures
        bismillah_summary(rendered_all(Format::Text, groups)) == bismillah_summary(
            rendered_all(Format::Word, groups),
        ),
{
}

/// The number of ayahs of an answer is the number of ayahs it serves.
pub proof fn lemma_composed_count(
    surah: QuranSurahView,
    mushaf: QuranMushafView,
    translation: Option<Seq<char>>,
    ayahs: Seq<AyahTyView>,
)
    requires
        ayahs.len() <= i64::MAX,
    ensures
        composed(surah, mushaf, translation, ayahs).surah.number_of_ayahs == ayahs.len(),
        composed(surah, mushaf, translation, ayahs).ayahs == ayahs,
{
}

/// The bismillah of a surah, read off its first served ayah.
pub fn surah_bismillah(ayahs: &Vec<AyahTy>) -> (summary: Option<SurahBismillah>)
    ensures
        summary.deep_view() == bismillah_summary(ayahs.deep_view()),
{
    if ayahs.len() == 0 {
        return None;
    }
    assert(ayahs.deep_view()[0] == ayahs[0].deep_view());
    let state = match &ayahs[0] {
        AyahTy::Text(a) => &a.ayah.bismillah,
        AyahTy::Words(a) => &a.ayah.bismillah,
    };
    match state {
        Some(bismillah) => {
            let text = if bismillah.is_ayah {
                match &ayahs[0] {
                    AyahTy::Text(a) => Some(a.text.clone()),
                    AyahTy::Words(a) => Some(join_words(&a.words)),
                }
            } else {
                copy_text(&bismillah.text)
            };
            Some(SurahBismillah { as_first_ayah: bismillah.is_ayah, text })
        },
        None => None,
    }
}

/// Puts the answer for a surah together.
pub fn compose(
    surah: QuranSurah,
    mushaf: QuranMushaf,
    translation: Option<String>,
    ayahs: Vec<AyahTy>,
) -> (answer: QuranResponseData)
    ensures
        answer.deep_view() == composed(
            surah.deep_view(),
            mushaf.deep_view(),
            translation.deep_view(),
            ayahs.deep_view(),
        ),
{
    let bismillah = surah_bismillah(&ayahs);
    let mut names: Vec<SurahName> = Vec::new();
    names.push(
        SurahName {
            arabic: surah.name,
            translation,
            translation_phrase: surah.name_translation_phrase,
            pronunciation: surah.name_pronunciation,
            transliteration: surah.name_transliteration,
        },
    );
    assert(names.deep_view() =~= seq![names[0].deep_view()]);
    QuranResponseData {
        surah: SingleSurahResponse {
            uuid: surah.uuid,
            mushaf: SingleSurahMushaf::from(mushaf),
            bismillah,
            names,
            period: surah.period,
            number: surah.number,
            number_of_ayahs: #[verifier::truncate] (ayahs.len() as i64),
        },
        ayahs,
    }
}

} // verus!
