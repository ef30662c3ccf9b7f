//! Editing one ayah.
//!
//! An edit writes the number and the sajdah of an ayah in one request to
//! the store. [`ayah_edit`] says what to write and, after the store's
//! reply, how the request ends; its caller does the writing.

use vstd::prelude::*;
use uuid::Uuid;
use crate::error::{router_error, RouterError, RouterErrorView, StoreError};
use crate::text::copy_text;

verus! {

/// What an edit writes of an ayah.
#[derive(Debug, PartialEq, Eq)]
pub struct SimpleAyah {
    pub ayah_number: i32,
    pub sajdah: Option<String>,
}

pub struct SimpleAyahView {
    pub ayah_number: i32,
    pub sajdah: Option<Seq<char>>,
}

impl DeepView for SimpleAyah {
    type V = SimpleAyahView;

    open spec fn deep_view(&self) -> SimpleAyahView {
        SimpleAyahView { ayah_number: self.ayah_number, sajdah: self.sajdah.deep_view() }
    }
}

/// How far an edit has come.
#[derive(Clone, Copy, Debug, PartialEq, Eq)]
pub enum AyahEditStage {
    Start,
    AwaitUpdate,
    Done,
}

/// What the store gave back for the write.
#[derive(Clone, Copy, Debug, PartialEq, Eq)]
pub enum AyahEditReply {
    /// The write went through.
    Updated,
    /// The write failed.
    Failed(StoreError),
}

/// What the caller of an edit is to do now.
#[derive(Debug, PartialEq, Eq)]
pub enum AyahEditAction {
    /// Write the number and the sajdah of the ayah.
    Update { ayah: Uuid, ayah_number: i32, sajdah: Option<String> },
    /// Answer the request.
    Respond(String),
    /// Fail the request.
    Fail(RouterError),
}

pub enum AyahEditActionView {
    Update { ayah: Uuid, ayah_number: i32, sajdah: Option<Seq<char>> },
    Respond(Seq<char>),
    Fail(RouterErrorView),
}

impl DeepView for AyahEditAction {
    type V = AyahEditActionView;

    open spec fn deep_view(&self) -> AyahEditActionView {
        match self {
            AyahEditAction::Update { ayah, ayah_number, sajdah } => AyahEditActionView::Update {
                ayah: *ayah,
                ayah_number: *ayah_number,
                sajdah: sajdah.deep_view(),
            },
            AyahEditAction::Respond(text) => AyahEditActionView::Respond(text@),
            AyahEditAction::Fail(failure) => AyahEditActionView::Fail(failure.deep_view()),
        }
    }
}

/// The next stage of an edit and what to do, for every stage and reply.
///
/// The edit is written as it was given. A write that went through is
/// answered with `Edited`; one that failed ends the edit with the failure;
/// a reply that does not belong to the stage ends it with an internal
/// error.
pub open spec fn ayah_edit_step(
    ayah: Uuid,
    new_ayah: SimpleAyahView,
    stage: AyahEditStage,
    reply: Option<AyahEditReply>,
) -> (AyahEditStage, AyahEditActionView) {
    match (stage, reply) {
        (AyahEditStage::Start, None) => (
            AyahEditStage::AwaitUpdate,
            AyahEditActionView::Update {
                ayah,
                ayah_number: new_ayah.ayah_number,
                sajdah: new_ayah.sajdah,
            },
        ),
        (AyahEditStage::AwaitUpdate, Some(AyahEditReply::Updated)) => (
            AyahEditStage::Done,
            AyahEditActionView::Respond("Edited"@),
        ),
        (AyahEditStage::AwaitUpdate, Some(AyahEditReply::Failed(error))) => (
            AyahEditStage::Done,
            AyahEditActionView::Fail(router_error(error)),
        ),
        _ => (AyahEditStage::Done, AyahEditActionView::Fail(router_error(StoreError::Other))),
    }
}

/// Decides what to do next for an edit of the ayah `ayah`.
///
/// `stage` is how far the edit has come, `reply` what the store gave back
/// for the write; at the start there is none.
pub fn ayah_edit(
    ayah: Uuid,
    new_ayah: &SimpleAyah,
    stage: AyahEditStage,
    reply: Option<AyahEditReply>,
) -> (next: (AyahEditStage, AyahEditAction))
    ensures
        (next.0, next.1.deep_view()) == ayah_edit_step(ayah, new_ayah.deep_view(), stage, reply),
{
    match (stage, reply) {
        (AyahEditStage::Start, None) => (
            AyahEditStage::AwaitUpdate,
            AyahEditAction::Update {
                ayah,
                ayah_number: new_ayah.ayah_number,
                sajdah: copy_text(&new_ayah.sajdah),
            },
        ),
        (AyahEditStage::AwaitUpdate, Some(AyahEditReply::Updated)) => (
            AyahEditStage::Done,
            AyahEditAction::Respond(String::from_str("Edited")),
        ),
        (AyahEditStage::AwaitUpdate, Some(AyahEditReply::Failed(error))) => (
            AyahEditStage::Done,
            AyahEditAction::Fail(RouterError::of(error)),
        ),
        _ => (AyahEditStage::Done, AyahEditAction::Fail(RouterError::of(StoreError::Other))),
    }
}

} // verus!
