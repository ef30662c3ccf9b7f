//! Listing the translations of a mushaf, step by step.
//!
//! The list is asked for in one language, the default where the request
//! names none, and for one mushaf, which the request names by its short
//! name. [`translation_list`] decides after each reply of the store what
//! comes next; its caller reads from the store and holds what was read.

use vstd::prelude::*;
use crate::error::{router_error, RouterError, RouterErrorView, StoreError};
use crate::names::{language_or_default, requested_language};

verus! {

/// What a request for a list of translations asks.
#[derive(Debug, PartialEq, Eq)]
pub struct TranslationListQuery {
    /// The short name of the mushaf.
    pub mushaf: String,
    /// The language of the translations; the default where absent.
    pub language: Option<String>,
}

pub struct TranslationListQueryView {
    pub mushaf: Seq<char>,
    pub language: Option<Seq<char>>,
}

impl DeepView for TranslationListQuery {
    type V = TranslationListQueryView;

    open spec fn deep_view(&self) -> TranslationListQueryView {
        TranslationListQueryView { mushaf: self.mushaf@, language: self.language.deep_view() }
    }
}

/// How far the listing has come.
#[derive(Clone, Copy, Debug, PartialEq, Eq)]
pub enum ListStage {
    Start,
    AwaitMushaf,
    AwaitTranslations,
    Done,
}

/// What the store gave back for the last request of a listing.
#[derive(Clone, Copy, Debug, PartialEq, Eq)]
pub enum ListReply {
    /// The id of the mushaf that was asked for.
    Mushaf(i32),
    /// The translations were read.
    Listed,
    /// The request failed.
    Failed(StoreError),
}

/// What the caller of a listing is to do now.
#[derive(Debug, PartialEq, Eq)]
pub enum ListAction {
    /// Ask for the id of the mushaf with this short name: exactly one record.
    LoadMushaf { short_name: String },
    /// Ask for the translations of the mushaf into the language.
    LoadTranslations { language: String, mushaf_id: i32 },
    /// Answer the request with the translations that were read.
    Respond,
    /// Fail the request.
    Fail(RouterError),
}

pub enum ListActionView {
    LoadMushaf { short_name: Seq<char> },
    LoadTranslations { language: Seq<char>, mushaf_id: i32 },
    Respond,
    Fail(RouterErrorView),
}

impl DeepView for ListAction {
    type V = ListActionView;

    open spec fn deep_view(&self) -> ListActionView {
        match self {
            ListAction::LoadMushaf { short_name } => ListActionView::LoadMushaf {
                short_name: short_name@,
            },
            ListAction::LoadTranslations { language, mushaf_id } => ListActionView::LoadTranslations {
                language: language@,
                mushaf_id: *mushaf_id,
            },
            ListAction::Respond => ListActionView::Respond,
            ListAction::Fail(failure) => ListActionView::Fail(failure.deep_view()),
        }
    }
}

/// The next stage of a listing and what to do, for every stage and reply.
///
/// A failed request ends the listing with the failure, a mushaf that is not
/// there as not found; a reply that does not belong to the stage ends it
/// with an internal error.
pub open spec fn list_step(
    query: TranslationListQueryView,
    stage: ListStage,
    reply: Option<ListReply>,
) -> (ListStage, ListActionView) {
    match (stage, reply) {
        (ListStage::Start, None) => (
            ListStage::AwaitMushaf,
            ListActionView::LoadMushaf { short_name: query.mushaf },
        ),
        (ListStage::AwaitMushaf, Some(ListReply::Mushaf(id))) => (
            ListStage::AwaitTranslations,
            ListActionView::LoadTranslations {
                language: language_or_default(query.language),
                mushaf_id: id,
            },
        ),
        (ListStage::AwaitTranslations, Some(ListReply::Listed)) => (
            ListStage::Done,
            ListActionView::Respond,
        ),
        (ListStage::AwaitMushaf, Some(ListReply::Failed(error))) => (
            ListStage::Done,
            ListActionView::Fail(router_error(error)),
        ),
        (ListStage::AwaitTranslations, Some(ListReply::Failed(error))) => (
            ListStage::Done,
            ListActionView::Fail(router_error(error)),
        ),
        _ => (ListStage::Done, ListActionView::Fail(router_error(StoreError::Other))),
    }
}

/// A listing is answered only after the translations were read, and a
/// listing that is not done has asked something of the store.
pub proof fn lemma_list_advances(
    query: TranslationListQueryView,
    stage: ListStage,
    reply: Option<ListReply>,
)
    ensures
        ({
            let (next, action) = list_step(query, stage, reply);
            &&& next == ListStage::Done <==> (action is Respond || action is Fail)
            &&& action is Respond <==> stage == ListStage::AwaitTranslations && reply == Some(
                ListReply::Listed,
            )
            &&& action is LoadMushaf <==> next == ListStage::AwaitMushaf
            &&& action is LoadTranslations <==> next == ListStage::AwaitTranslations
            &&& next != ListStage::Start
        }),
{
}

/// Decides what to do next for a request for a list of translations.
///
/// `stage` is how far the listing has come, `reply` what the store gave
/// back for the request that the last step asked for; at the start there is
/// none.
pub fn translation_list(query: &TranslationListQuery, stage: ListStage, reply: Option<ListReply>) -> (next:
    (ListStage, ListAction))
    ensures
        (next.0, next.1.deep_view()) == list_step(query.deep_view(), stage, reply),
{
    match (stage, reply) {
        (ListStage::Start, None) => (
            ListStage::AwaitMushaf,
            ListAction::LoadMushaf { short_name: query.mushaf.clone() },
        ),
        (ListStage::AwaitMushaf, Some(ListReply::Mushaf(id))) => (
            ListStage::AwaitTranslations,
            ListAction::LoadTranslations {
                language: requested_language(&query.language),
                mushaf_id: id,
            },
        ),
        (ListStage::AwaitTranslations, Some(ListReply::Listed)) => (
            ListStage::Done,
            ListAction::Respond,
        ),
        (ListStage::AwaitMushaf, Some(ListReply::Failed(error))) => (
            ListStage::Done,
            ListAction::Fail(RouterError::of(error)),
        ),
        (ListStage::AwaitTranslations, Some(ListReply::Failed(error))) => (
            ListStage::Done,
            ListAction::Fail(RouterError::of(error)),
        ),
        _ => (ListStage::Done, ListAction::Fail(RouterError::of(StoreError::Other))),
    }
}

} // verus!
