//! Serving one surah, step by step.
//!
//! Serving a surah takes up to four requests to the store: the words of the
//! surah with their ayahs, the surah, its mushaf, and the translations of
//! the phrase that names it. What is asked next depends on what came back.
//! [`surah_view`] makes these decisions and leaves the asking to its caller:
//! it takes the stage that the work has reached and the store's reply to the
//! last request, and returns the next stage and what to do now. The caller
//! starts at [`ViewState::Start`] without a reply, performs each request,
//! hands the reply back, and stops at an answer or a failure.

use vstd::prelude::*;
use uuid::Uuid;
use crate::aggregate::{
    group_words, grouped, keys_in_order, lemma_keys_at_most, simplified_rows,
};
use crate::ayah::{QuranAyah, QuranAyahView};
use crate::error::{router_error, RouterError, RouterErrorView, StoreError};
use crate::names::{
    language_or_default, localize_name, localized, requested_language, translation_of,
    PhraseTranslation, PhraseTranslationView,
};
use crate::render::{render_ayahs, rendered_all, AyahTy, AyahTyView, Format};
use crate::surah::{
    compose, composed, QuranMushaf, QuranMushafView, QuranResponseData, QuranResponseDataView,
    QuranSurah, QuranSurahView,
};

verus! {

/// What a request for a surah asks besides the surah.
#[derive(Debug, PartialEq, Eq)]
pub struct GetSurahQuery {
    /// The shape of every ayah of the answer.
    pub format: Format,
    /// The language of the translated name; the default where absent.
    pub lang_code: Option<String>,
}

pub struct GetSurahQueryView {
    pub format: Format,
    pub lang_code: Option<Seq<char>>,
}

impl DeepView for GetSurahQuery {
    type V = GetSurahQueryView;

    open spec fn deep_view(&self) -> GetSurahQueryView {
        GetSurahQueryView { format: self.format, lang_code: self.lang_code.deep_view() }
    }
}

/// How far the work on a request has come, with what it has gathered.
#[derive(Debug, PartialEq, Eq)]
pub enum ViewState {
    /// Nothing has been asked of the store.
    Start,
    /// The words of the surah have been asked for.
    AwaitWords,
    /// The surah has been asked for.
    AwaitSurah { ayahs: Vec<AyahTy> },
    /// The mushaf of the surah has been asked for.
    AwaitMushaf { ayahs: Vec<AyahTy>, surah: QuranSurah },
    /// The translations of the surah's name phrase have been asked for.
    AwaitTranslations { ayahs: Vec<AyahTy>, surah: QuranSurah, mushaf: QuranMushaf },
    /// The request has been answered or has failed.
    Done,
}

pub enum ViewStateView {
    Start,
    AwaitWords,
    AwaitSurah { ayahs: Seq<AyahTyView> },
    AwaitMushaf { ayahs: Seq<AyahTyView>, surah: QuranSurahView },
    AwaitTranslations { ayahs: Seq<AyahTyView>, surah: QuranSurahView, mushaf: QuranMushafView },
    Done,
}

impl DeepView for ViewState {
    type V = ViewStateView;

    open spec fn deep_view(&self) -> ViewStateView {
        match self {
            ViewState::Start => ViewStateView::Start,
            ViewState::AwaitWords => ViewStateView::AwaitWords,
            ViewState::AwaitSurah { ayahs } => ViewStateView::AwaitSurah {
                ayahs: ayahs.deep_view(),
            },
            ViewState::AwaitMushaf { ayahs, surah } => ViewStateView::AwaitMushaf {
                ayahs: ayahs.deep_view(),
                surah: surah.deep_view(),
            },
            ViewState::AwaitTranslations { ayahs, surah, mushaf } => {
                ViewStateView::AwaitTranslations {
                    ayahs: ayahs.deep_view(),
                    surah: surah.deep_view(),
                    mushaf: mushaf.deep_view(),
                }
            },
            ViewState::Done => ViewStateView::Done,
        }
    }
}

/// What the store gave back for the last request.
#[derive(Debug, PartialEq, Eq)]
pub enum StoreReply {
    /// The words of the surah in reading order, each with its ayah.
    Words(Vec<(QuranAyah, String)>),
    Surah(QuranSurah),
    Mushaf(QuranMushaf),
    Translations(Vec<PhraseTranslation>),
    /// The request failed.
    Failed(StoreError),
}

pub enum StoreReplyView {
    Words(Seq<(QuranAyahView, Seq<char>)>),
    Surah(QuranSurahView),
    Mushaf(QuranMushafView),
    Translations(Seq<PhraseTranslationView>),
    Failed(StoreError),
}

impl DeepView for StoreReply {
    type V = StoreReplyView;

    open spec fn deep_view(&self) -> StoreReplyView {
        match self {
            StoreReply::Words(rows) => StoreReplyView::Words(rows.deep_view()),
            StoreReply::Surah(surah) => StoreReplyView::Surah(surah.deep_view()),
            StoreReply::Mushaf(mushaf) => StoreReplyView::Mushaf(mushaf.deep_view()),
            StoreReply::Translations(rows) => StoreReplyView::Translations(rows.deep_view()),
            StoreReply::Failed(error) => StoreReplyView::Failed(*error),
        }
    }
}

/// What the caller is to do now.
#[derive(Debug, PartialEq, Eq)]
pub enum ViewAction {
    /// Ask for the words of the surah, joined to their ayahs, in reading order.
    LoadWords { surah: Uuid },
    /// Ask for the surah: exactly one record.
    LoadSurah { surah: Uuid },
    /// Ask for the mushaf: exactly one record.
    LoadMushaf { id: i32 },
    /// Ask for the translations of the phrase into the language.
    LoadTranslations { phrase: String, language: String },
    /// Answer the request.
    Respond(QuranResponseData),
    /// Fail the request.
    Fail(RouterError),
}

pub enum ViewActionView {
    LoadWords { surah: Uuid },
    LoadSurah { surah: Uuid },
    LoadMushaf { id: i32 },
    LoadTranslations { phrase: Seq<char>, language: Seq<char> },
    Respond(QuranResponseDataView),
    Fail(RouterErrorView),
}

impl DeepView for ViewAction {
    type V = ViewActionView;

    open spec fn deep_view(&self) -> ViewActionView {
        match self {
            ViewAction::LoadWords { surah } => ViewActionView::LoadWords { surah: *surah },
            ViewAction::LoadSurah { surah } => ViewActionView::LoadSurah { surah: *surah },
            ViewAction::LoadMushaf { id } => ViewActionView::LoadMushaf { id: *id },
            ViewAction::LoadTranslations { phrase, language } => ViewActionView::LoadTranslations {
                phrase: phrase@,
                language: language@,
            },
            ViewAction::Respond(answer) => ViewActionView::Respond(answer.deep_view()),
            ViewAction::Fail(failure) => ViewActionView::Fail(failure.deep_view()),
        }
    }
}

/// The ayahs of an answer: the rows of the join grouped by ayah, every ayah
/// in the shape that was asked for.
pub open spec fn served_ayahs(format: Format, rows: Seq<(QuranAyahView, Seq<char>)>) -> Seq<
    AyahTyView,
> {
    rendered_all(format, grouped(simplified_rows(rows)))
}

/// The end of a request whose last request to the store failed.
pub open spec fn failed(error: StoreError) -> (ViewStateView, ViewActionView) {
    (ViewStateView::Done, ViewActionView::Fail(router_error(error)))
}

/// The end of a request that is answered.
pub open spec fn answered(
    surah: QuranSurahView,
    mushaf: QuranMushafView,
    translation: Option<Seq<char>>,
    ayahs: Seq<AyahTyView>,
) -> (ViewStateView, ViewActionView) {
    (ViewStateView::Done, ViewActionView::Respond(composed(surah, mushaf, translation, ayahs)))
}

/// The next stage and what to do, for every stage and reply.
///
/// The words are asked for first, then the surah, then its mushaf, then,
/// where the surah names a phrase, the translations of that phrase in the
/// language of the request. A failed request ends the work with the
/// failure, and nothing is answered; only translations that are not found
/// leave the name without a translation instead. A reply that does not
/// belong to the stage ends the work with an internal error.
pub open spec fn view_step(
    surah: Uuid,
    query: GetSurahQueryView,
    state: ViewStateView,
    reply: Option<StoreReplyView>,
) -> (ViewStateView, ViewActionView) {
    match (state, reply) {
        (ViewStateView::Start, None) => (
            ViewStateView::AwaitWords,
            ViewActionView::LoadWords { surah },
        ),
        (ViewStateView::AwaitWords, Some(StoreReplyView::Words(rows))) => (
            ViewStateView::AwaitSurah { ayahs: served_ayahs(query.format, rows) },
            ViewActionView::LoadSurah { surah },
        ),
        (ViewStateView::AwaitSurah { ayahs }, Some(StoreReplyView::Surah(found))) => (
            ViewStateView::AwaitMushaf { ayahs, surah: found },
            ViewActionView::LoadMushaf { id: found.mushaf_id },
        ),
        (ViewStateView::AwaitMushaf { ayahs, surah: found }, Some(StoreReplyView::Mushaf(mushaf))) => {
            match found.name_translation_phrase {
                Some(phrase) => (
                    ViewStateView::AwaitTranslations { ayahs, surah: found, mushaf },
                    ViewActionView::LoadTranslations {
                        phrase,
                        language: language_or_default(query.lang_code),
                    },
                ),
                None => answered(found, mushaf, None, ayahs),
            }
        },
        (
            ViewStateView::AwaitTranslations { ayahs, surah: found, mushaf },
            Some(StoreReplyView::Translations(rows)),
        ) => answered(
            found,
            mushaf,
            localized(found.name_translation_phrase, query.lang_code, rows),
            ayahs,
        ),
        (
            ViewStateView::AwaitTranslations { ayahs, surah: found, mushaf },
            Some(StoreReplyView::Failed(StoreError::NotFound)),
        ) => answered(found, mushaf, None, ayahs),
        (ViewStateView::AwaitWords, Some(StoreReplyView::Failed(error))) => failed(error),
        (ViewStateView::AwaitSurah { .. }, Some(StoreReplyView::Failed(error))) => failed(error),
        (ViewStateView::AwaitMushaf { .. }, Some(StoreReplyView::Failed(error))) => failed(error),
        (ViewStateView::AwaitTranslations { .. }, Some(StoreReplyView::Failed(error))) => failed(
            error,
        ),
        _ => failed(StoreError::Other),
    }
}

/// Where a whole conversation with the store leads: the first step without
/// a reply, then one step for each of `replies` in turn.
pub open spec fn view_run(surah: Uuid, query: GetSurahQueryView, replies: Seq<StoreReplyView>) -> (
    ViewStateView,
    ViewActionView,
)
    decreases replies.len(),
{
    if replies.len() == 0 {
        view_step(surah, query, ViewStateView::Start, None)
    } else {
        view_step(
            surah,
            query,
            view_run(surah, query, replies.drop_last()).0,
            Some(replies.last()),
        )
    }
}

/// How many requests to the store a stage may still be followed by.
pub open spec fn requests_left(state: ViewStateView) -> nat {
    match state {
        ViewStateView::Start => 4,
        ViewStateView::AwaitWords => 3,
        ViewStateView::AwaitSurah { .. } => 2,
        ViewStateView::AwaitMushaf { .. } => 1,
        ViewStateView::AwaitTranslations { .. } => 0,
        ViewStateView::Done => 0,
    }
}

/// A step ends the work exactly when it answers or fails, and a step that
/// asks something of the store leaves fewer requests to come: a caller that
/// follows the steps is done after five of them at most.
pub proof fn lemma_step_advances(
    surah: Uuid,
    query: GetSurahQueryView,
    state: ViewStateView,
    reply: Option<StoreReplyView>,
)
    ensures
        ({
            let (next, action) = view_step(surah, query, state, reply);
            &&& next is Done <==> (action is Respond || action is Fail)
            &&& !(next is Done) ==> requests_left(next) < requests_left(state)
        }),
{
}

/// A failed request is never followed by an answer, but for translations
/// that are not found: the request fails as the store did, a missing record
/// as not found and anything else as an internal error.
pub proof fn lemma_failure_ends(
    surah: Uuid,
    query: GetSurahQueryView,
    state: ViewStateView,
    error: StoreError,
)
    requires
        !(state is AwaitTranslations && error == StoreError::NotFound),
    ensures
        view_step(surah, query, state, Some(StoreReplyView::Failed(error))).1 is Fail,
        !(state is Start || state is Done) ==> view_step(
            surah,
            query,
            state,
            Some(StoreReplyView::Failed(error)),
        ) == failed(error),
{
}

/// A surah that names no phrase is answered after three requests: with the
/// ayahs of the rows in the shape that was asked for, and no translated
/// name.
pub proof fn lemma_answer_without_phrase(
    surah: Uuid,
    query: GetSurahQueryView,
    rows: Seq<(QuranAyahView, Seq<char>)>,
    found: QuranSurahView,
    mushaf: QuranMushafView,
)
    requires
        found.name_translation_phrase is None,
    ensures
        view_run(
            surah,
            query,
            seq![
                StoreReplyView::Words(rows),
                StoreReplyView::Surah(found),
                StoreReplyView::Mushaf(mushaf),
            ],
        ) == answered(found, mushaf, None, served_ayahs(query.format, rows)),
{
    let r0 = Seq::<StoreReplyView>::empty();
    let r1 = seq![StoreReplyView::Words(rows)];
    let r2 = seq![StoreReplyView::Words(rows), StoreReplyView::Surah(found)];
    let r3 = seq![
        StoreReplyView::Words(rows),
        StoreReplyView::Surah(found),
        StoreReplyView::Mushaf(mushaf),
    ];
    assert(r1.drop_last() =~= r0);
    assert(r2.drop_last() =~= r1);
    assert(r3.drop_last() =~= r2);
    assert(view_run(surah, query, r0).0 is AwaitWords);
    assert(view_run(surah, query, r1).0 is AwaitSurah);
    assert(view_run(surah, query, r2).0 is AwaitMushaf);
}

/// A surah that names a phrase is answered after four requests: with the
/// ayahs of the rows in the shape that was asked for, and with the
/// translation of the phrase in the language of the request, or none where
/// there is none in that language.
pub proof fn lemma_answer_with_phrase(
    surah: Uuid,
    query: GetSurahQueryView,
    rows: Seq<(QuranAyahView, Seq<char>)>,
    found: QuranSurahView,
    mushaf: QuranMushafView,
    translations: Seq<PhraseTranslationView>,
)
    requires
        found.name_translation_phrase is Some,
    ensures
        view_run(
            surah,
            query,
            seq![
                StoreReplyView::Words(rows),
                StoreReplyView::Surah(found),
                StoreReplyView::Mushaf(mushaf),
                StoreReplyView::Translations(translations),
            ],
        ) == answered(
            found,
            mushaf,
            translation_of(
                translations,
                found.name_translation_phrase->0,
                language_or_default(query.lang_code),
            ),
            served_ayahs(query.format, rows),
        ),
{
    let r0 = Seq::<StoreReplyView>::empty();
    let r1 = seq![StoreReplyView::Words(rows)];
    let r2 = seq![StoreReplyView::Words(rows), StoreReplyView::Surah(found)];
    let r3 = seq![
        StoreReplyView::Words(rows),
        StoreReplyView::Surah(found),
        StoreReplyView::Mushaf(mushaf),
    ];
    let r4 = seq![
        StoreReplyView::Words(rows),
        StoreReplyView::Surah(found),
        StoreReplyView::Mushaf(mushaf),
        StoreReplyView::Translations(translations),
    ];
    assert(r1.drop_last() =~= r0);
    assert(r2.drop_last() =~= r1);
    assert(r3.drop_last() =~= r2);
    assert(r4.drop_last() =~= r3);
    assert(view_run(surah, query, r0).0 is AwaitWords);
    assert(view_run(surah, query, r1).0 is AwaitSurah);
    assert(view_run(surah, query, r2).0 is AwaitMushaf);
    assert(view_run(surah, query, r3).0 is AwaitTranslations);
}

/// A surah that the store does not know is not found, whatever the join
/// gave, and nothing is answered.
pub proof fn lemma_unknown_surah(
    surah: Uuid,
    query: GetSurahQueryView,
    rows: Seq<(QuranAyahView, Seq<char>)>,
)
    ensures
        view_run(
            surah,
            query,
            seq![StoreReplyView::Words(rows), StoreReplyView::Failed(StoreError::NotFound)],
        ) == failed(StoreError::NotFound),
        failed(StoreError::NotFound).1 == ViewActionView::Fail(
            RouterErrorView::NotFound("Not found"@),
        ),
{
    let r0 = Seq::<StoreReplyView>::empty();
    let r1 = seq![StoreReplyView::Words(rows)];
    let r2 = seq![StoreReplyView::Words(rows), StoreReplyView::Failed(StoreError::NotFound)];
    assert(r1.drop_last() =~= r0);
    assert(r2.drop_last() =~= r1);
    assert(view_run(surah, query, r0).0 is AwaitWords);
    assert(view_run(surah, query, r1).0 is AwaitSurah);
}

/// An answer serves one ayah for each ayah of the rows, and counts them.
pub proof fn lemma_answer_counts(
    query: GetSurahQueryView,
    rows: Seq<(QuranAyahView, Seq<char>)>,
    found: QuranSurahView,
    mushaf: QuranMushafView,
    translation: Option<Seq<char>>,
)
    requires
        rows.len() <= i64::MAX,
    ensures
        ({
            let ayahs = served_ayahs(query.format, rows);
            let answer = composed(found, mushaf, translation, ayahs);
            &&& ayahs.len() == keys_in_order(simplified_rows(rows)).len()
            &&& ayahs.len() <= rows.len()
            &&& answer.surah.number_of_ayahs == ayahs.len()
            &&& answer.ayahs == ayahs
        }),
{
    lemma_keys_at_most(simplified_rows(rows));
}

/// Decides what to do next for a request for the surah `surah`.
///
/// `state` is the stage that the work has reached, `reply` what the store
/// gave back for the request that the last step asked for; at the start
/// there is none.
pub fn surah_view(surah: Uuid, query: &GetSurahQuery, state: ViewState, reply: Option<StoreReply>) -> (next:
    (ViewState, ViewAction))
    ensures
        (next.0.deep_view(), next.1.deep_view()) == view_step(
            surah,
            query.deep_view(),
            state.deep_view(),
            reply.deep_view(),
        ),
{
    match (state, reply) {
        (ViewState::Start, None) => (ViewState::AwaitWords, ViewAction::LoadWords { surah }),
        (ViewState::AwaitWords, Some(StoreReply::Words(rows))) => {
            let ayahs = render_ayahs(query.format, group_words(rows));
            (ViewState::AwaitSurah { ayahs }, ViewAction::LoadSurah { surah })
        },
        (ViewState::AwaitSurah { ayahs }, Some(StoreReply::Surah(found))) => {
            let id = found.mushaf_id;
            (ViewState::AwaitMushaf { ayahs, surah: found }, ViewAction::LoadMushaf { id })
        },
        (ViewState::AwaitMushaf { ayahs, surah: found }, Some(StoreReply::Mushaf(mushaf))) => {
            match &found.name_translation_phrase {
                Some(phrase) => {
                    let action = ViewAction::LoadTranslations {
                        phrase: phrase.clone(),
                        language: requested_language(&query.lang_code),
                    };
                    (ViewState::AwaitTranslations { ayahs, surah: found, mushaf }, action)
                },
                None => (ViewState::Done, ViewAction::Respond(compose(found, mushaf, None, ayahs))),
            }
        },
        (
            ViewState::AwaitTranslations { ayahs, surah: found, mushaf },
            Some(StoreReply::Translations(rows)),
        ) => {
            let translation = localize_name(
                &found.name_translation_phrase,
                &query.lang_code,
                &rows,
            );
            (ViewState::Done, ViewAction::Respond(compose(found, mushaf, translation, ayahs)))
        },
        (
            ViewState::AwaitTranslations { ayahs, surah: found, mushaf },
            Some(StoreReply::Failed(StoreError::NotFound)),
        ) => (ViewState::Done, ViewAction::Respond(compose(found, mushaf, None, ayahs))),
        (ViewState::AwaitWords, Some(StoreReply::Failed(error))) => (
            ViewState::Done,
            ViewAction::Fail(RouterError::of(error)),
        ),
        (ViewState::AwaitSurah { .. }, Some(StoreReply::Failed(error))) => (
            ViewState::Done,
            ViewAction::Fail(RouterError::of(error)),
        ),
        (ViewState::AwaitMushaf { .. }, Some(StoreReply::Failed(error))) => (
            ViewState::Done,
            ViewAction::Fail(RouterError::of(error)),
        ),
        (ViewState::AwaitTranslations { .. }, Some(StoreReply::Failed(error))) => (
            ViewState::Done,
            ViewAction::Fail(RouterError::of(error)),
        ),
        _ => (ViewState::Done, ViewAction::Fail(RouterError::of(StoreError::Other))),
    }
}

} // verus!
