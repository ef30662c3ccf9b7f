//! Editing an organization, step by step.
//!
//! An organization is an account, the organization's own record, and its
//! names, one for each language. An edit reads the account and the
//! organization, writes both, then reads the primary name and writes it.
//! [`edit_organization`] decides after each reply of the store what comes
//! next; its caller does the reading and writing.

use vstd::prelude::*;
use crate::error::{RouterError, RouterErrorView};

verus! {

/// What an edit may change of an organization.
#[derive(Debug, PartialEq, Eq)]
pub struct OrgInfoUpdatebleFileds {
    pub username: String,
    pub name: String,
    pub profile_image: Option<String>,
    pub national_id: String,
}

pub struct OrgInfoUpdatebleFiledsView {
    pub username: Seq<char>,
    pub name: Seq<char>,
    pub profile_image: Option<Seq<char>>,
    pub national_id: Seq<char>,
}

impl DeepView for OrgInfoUpdatebleFileds {
    type V = OrgInfoUpdatebleFiledsView;

    open spec fn deep_view(&self) -> OrgInfoUpdatebleFiledsView {
        OrgInfoUpdatebleFiledsView {
            username: self.username@,
            name: self.name@,
            profile_image: self.profile_image.deep_view(),
            national_id: self.national_id@,
        }
    }
}

/// How far an edit has come.
#[derive(Clone, Copy, Debug, PartialEq, Eq)]
pub enum EditStage {
    Start,
    AwaitAccount,
    AwaitOrganization,
    AwaitAccountUpdate,
    AwaitOrganizationUpdate,
    AwaitName,
    AwaitNameUpdate,
    Done,
}

/// What the store gave back for the last request of an edit.
#[derive(Clone, Copy, Debug, PartialEq, Eq)]
pub enum EditReply {
    /// The record that was asked for is there.
    Found,
    /// The request went through, and there is no such record.
    Missing,
    /// The record was written.
    Updated,
    /// The request failed.
    Failed,
}

/// What the caller of an edit is to do now.
#[derive(Debug, PartialEq, Eq)]
pub enum EditAction {
    /// Read the account with this id.
    LoadAccount { id: i32 },
    /// Read the organization that belongs to the account.
    LoadOrganization,
    /// Write the user name of the account.
    UpdateAccount { username: String },
    /// Write the organization's own record.
    UpdateOrganization { profile_image: Option<String>, national_id: String },
    /// Read the name of the organization in this language.
    LoadName { language: String },
    /// Write the name that was read.
    UpdateName { name: String },
    /// Answer the request.
    Respond(String),
    /// Fail the request.
    Fail(RouterError),
}

pub enum EditActionView {
    LoadAccount { id: i32 },
    LoadOrganization,
    UpdateAccount { username: Seq<char> },
    UpdateOrganization { profile_image: Option<Seq<char>>, national_id: Seq<char> },
    LoadName { language: Seq<char> },
    UpdateName { name: Seq<char> },
    Respond(Seq<char>),
    Fail(RouterErrorView),
}

impl DeepView for EditAction {
    type V = EditActionView;

    open spec fn deep_view(&self) -> EditActionView {
        match self {
            EditAction::LoadAccount { id } => EditActionView::LoadAccount { id: *id },
            EditAction::LoadOrganization => EditActionView::LoadOrganization,
            EditAction::UpdateAccount { username } => EditActionView::UpdateAccount {
                username: username@,
            },
            EditAction::UpdateOrganization { profile_image, national_id } => {
                EditActionView::UpdateOrganization {
                    profile_image: profile_image.deep_view(),
                    national_id: national_id@,
                }
            },
            EditAction::LoadName { language } => EditActionView::LoadName { language: language@ },
            EditAction::UpdateName { name } => EditActionView::UpdateName { name: name@ },
            EditAction::Respond(text) => EditActionView::Respond(text@),
            EditAction::Fail(failure) => EditActionView::Fail(failure.deep_view()),
        }
    }
}

/// The end of an edit that cannot be served.
pub open spec fn edit_broken() -> (EditStage, EditActionView) {
    (EditStage::Done, EditActionView::Fail(RouterErrorView::InternalError))
}

/// The end of an edit of something that does not exist.
pub open spec fn edit_missing(what: Seq<char>) -> (EditStage, EditActionView) {
    (EditStage::Done, EditActionView::Fail(RouterErrorView::NotFound(what)))
}

/// The next stage of an edit and what to do, for every stage and reply.
///
/// A request that fails ends the edit with an internal error, and so does a
/// primary name that is not there. An account or an organization that is
/// not there is not found; and a failed request for the primary name is
/// taken to mean that the organization is not found.
pub open spec fn edit_step(
    org_id: u32,
    info: OrgInfoUpdatebleFiledsView,
    stage: EditStage,
    reply: Option<EditReply>,
) -> (EditStage, EditActionView) {
    match (stage, reply) {
        (EditStage::Start, None) => (
            EditStage::AwaitAccount,
            EditActionView::LoadAccount { id: org_id as i32 },
        ),
        (EditStage::AwaitAccount, Some(EditReply::Found)) => (
            EditStage::AwaitOrganization,
            EditActionView::LoadOrganization,
        ),
        (EditStage::AwaitAccount, Some(EditReply::Missing)) => edit_missing("Account not found"@),
        (EditStage::AwaitOrganization, Some(EditReply::Found)) => (
            EditStage::AwaitAccountUpdate,
            EditActionView::UpdateAccount { username: info.username },
        ),
        (EditStage::AwaitOrganization, Some(EditReply::Missing)) => edit_missing(
            "Organization not found"@,
        ),
        (EditStage::AwaitAccountUpdate, Some(EditReply::Updated)) => (
            EditStage::AwaitOrganizationUpdate,
            EditActionView::UpdateOrganization {
                profile_image: info.profile_image,
                national_id: info.national_id,
            },
        ),
        (EditStage::AwaitOrganizationUpdate, Some(EditReply::Updated)) => (
            EditStage::AwaitName,
            EditActionView::LoadName { language: "default"@ },
        ),
        (EditStage::AwaitName, Some(EditReply::Found)) => (
            EditStage::AwaitNameUpdate,
            EditActionView::UpdateName { name: info.name },
        ),
        (EditStage::AwaitName, Some(EditReply::Failed)) => edit_missing("Organization not found"@),
        (EditStage::AwaitNameUpdate, Some(EditReply::Updated)) => (
            EditStage::Done,
            EditActionView::Respond("Updated"@),
        ),
        _ => edit_broken(),
    }
}

/// An id that fits is the id of the account that is read first.
pub proof fn lemma_edit_starts(org_id: u32, info: OrgInfoUpdatebleFiledsView)
    requires
        org_id <= i32::MAX,
    ensures
        edit_step(org_id, info, EditStage::Start, None) == (
            EditStage::AwaitAccount,
            EditActionView::LoadAccount { id: org_id as i32 },
        ),
        org_id as i32 == org_id,
{
}

/// How many requests to the store a stage of an edit may still be followed
/// by.
pub open spec fn edit_requests_left(stage: EditStage) -> nat {
    match stage {
        EditStage::Start => 6,
        EditStage::AwaitAccount => 5,
        EditStage::AwaitOrganization => 4,
        EditStage::AwaitAccountUpdate => 3,
        EditStage::AwaitOrganizationUpdate => 2,
        EditStage::AwaitName => 1,
        EditStage::AwaitNameUpdate => 0,
        EditStage::Done => 0,
    }
}

/// A step ends the edit exactly when it answers or fails, and a step that
/// asks something of the store leaves fewer requests to come.
pub proof fn lemma_edit_advances(
    org_id: u32,
    info: OrgInfoUpdatebleFiledsView,
    stage: EditStage,
    reply: Option<EditReply>,
)
    ensures
        ({
            let (next, action) = edit_step(org_id, info, stage, reply);
            &&& next == EditStage::Done <==> (action is Respond || action is Fail)
            &&& next != EditStage::Done ==> edit_requests_left(next) < edit_requests_left(stage)
        }),
{
}

/// An edit is answered only after the last write went through, and then
/// with `Updated`; nothing is written after a request has failed or a
/// record was missing.
pub proof fn lemma_edit_answers_last(
    org_id: u32,
    info: OrgInfoUpdatebleFiledsView,
    stage: EditStage,
    reply: Option<EditReply>,
)
    ensures
        ({
            let (next, action) = edit_step(org_id, info, stage, reply);
            &&& action is Respond <==> stage == EditStage::AwaitNameUpdate && reply == Some(
                EditReply::Updated,
            )
            &&& action is Respond ==> action == EditActionView::Respond("Updated"@)
            &&& (reply == Some(EditReply::Failed) || reply == Some(EditReply::Missing))
                ==> action is Fail
        }),
{
}

/// Decides what to do next for an edit of the organization `org_id`.
///
/// `stage` is how far the edit has come, `reply` what the store gave back
/// for the request that the last step asked for; at the start there is none.
pub fn edit_organization(
    org_id: u32,
    info: &OrgInfoUpdatebleFileds,
    stage: EditStage,
    reply: Option<EditReply>,
) -> (next: (EditStage, EditAction))
    ensures
        (next.0, next.1.deep_view()) == edit_step(org_id, info.deep_view(), stage, reply),
{
    match (stage, reply) {
        (EditStage::Start, None) => (
            EditStage::AwaitAccount,
            EditAction::LoadAccount { id: #[verifier::truncate] (org_id as i32) },
        ),
        (EditStage::AwaitAccount, Some(EditReply::Found)) => (
            EditStage::AwaitOrganization,
            EditAction::LoadOrganization,
        ),
        (EditStage::AwaitAccount, Some(EditReply::Missing)) => (
            EditStage::Done,
            EditAction::Fail(RouterError::NotFound(String::from_str("Account not found"))),
        ),
        (EditStage::AwaitOrganization, Some(EditReply::Found)) => (
            EditStage::AwaitAccountUpdate,
            EditAction::UpdateAccount { username: info.username.clone() },
        ),
        (EditStage::AwaitOrganization, Some(EditReply::Missing)) => (
            EditStage::Done,
            EditAction::Fail(RouterError::NotFound(String::from_str("Organization not found"))),
        ),
        (EditStage::AwaitAccountUpdate, Some(EditReply::Updated)) => (
            EditStage::AwaitOrganizationUpdate,
            EditAction::UpdateOrganization {
                profile_image: crate::text::copy_text(&info.profile_image),
                national_id: info.national_id.clone(),
            },
        ),
        (EditStage::AwaitOrganizationUpdate, Some(EditReply::Updated)) => (
            EditStage::AwaitName,
            EditAction::LoadName { language: String::from_str("default") },
        ),
        (EditStage::AwaitName, Some(EditReply::Found)) => (
            EditStage::AwaitNameUpdate,
            EditAction::UpdateName { name: info.name.clone() },
        ),
        (EditStage::AwaitName, Some(EditReply::Failed)) => (
            EditStage::Done,
            EditAction::Fail(RouterError::NotFound(String::from_str("Organization not found"))),
        ),
        (EditStage::AwaitNameUpdate, Some(EditReply::Updated)) => (
            EditStage::Done,
            EditAction::Respond(String::from_str("Updated")),
        ),
        _ => (EditStage::Done, EditAction::Fail(RouterError::InternalError)),
    }
}

} // verus!
