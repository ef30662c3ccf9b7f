use quran_api::error::RouterError;
use quran_api::organization::{
    edit_organization, EditAction, EditReply, EditStage, OrgInfoUpdatebleFileds,
};

fn info() -> OrgInfoUpdatebleFileds {
    OrgInfoUpdatebleFileds {
        username: String::from("natiq"),
        name: String::from("Natiq"),
        profile_image: Some(String::from("logo.png")),
        national_id: String::from("0012345678"),
    }
}

fn not_found(what: &str) -> (EditStage, EditAction) {
    (EditStage::Done, EditAction::Fail(RouterError::NotFound(String::from(what))))
}

fn broken() -> (EditStage, EditAction) {
    (EditStage::Done, EditAction::Fail(RouterError::InternalError))
}

#[test]
fn an_edit_reads_and_writes_in_order_and_is_answered_last() {
    let replies = [
        EditReply::Found,
        EditReply::Found,
        EditReply::Updated,
        EditReply::Updated,
        EditReply::Found,
        EditReply::Updated,
    ];
    let expected = [
        (EditStage::AwaitAccount, EditAction::LoadAccount { id: 12 }),
        (EditStage::AwaitOrganization, EditAction::LoadOrganization),
        (EditStage::AwaitAccountUpdate, EditAction::UpdateAccount { username: String::from("natiq") }),
        (
            EditStage::AwaitOrganizationUpdate,
            EditAction::UpdateOrganization {
                profile_image: Some(String::from("logo.png")),
                national_id: String::from("0012345678"),
            },
        ),
        (EditStage::AwaitName, EditAction::LoadName { language: String::from("default") }),
        (EditStage::AwaitNameUpdate, EditAction::UpdateName { name: String::from("Natiq") }),
        (EditStage::Done, EditAction::Respond(String::from("Updated"))),
    ];
    let mut stage = EditStage::Start;
    let mut reply = None;
    for (i, want) in expected.iter().enumerate() {
        let got = edit_organization(12, &info(), stage, reply);
        assert_eq!(&got, want);
        stage = got.0;
        reply = replies.get(i).copied();
    }
}

#[test]
fn an_edit_without_image_writes_none() {
    let mut given = info();
    given.profile_image = None;
    assert_eq!(
        edit_organization(1, &given, EditStage::AwaitAccountUpdate, Some(EditReply::Updated)).1,
        EditAction::UpdateOrganization { profile_image: None, national_id: String::from("0012345678") }
    );
}

#[test]
fn the_account_id_is_the_path_id_as_signed() {
    let first = |id| edit_organization(id, &info(), EditStage::Start, None).1;
    assert_eq!(first(0), EditAction::LoadAccount { id: 0 });
    assert_eq!(first(2147483647), EditAction::LoadAccount { id: 2147483647 });
    assert_eq!(first(4294967295), EditAction::LoadAccount { id: -1 });
}

#[test]
fn a_missing_account_is_not_found() {
    assert_eq!(
        edit_organization(1, &info(), EditStage::AwaitAccount, Some(EditReply::Missing)),
        not_found("Account not found")
    );
}

#[test]
fn a_missing_organization_is_not_found() {
    assert_eq!(
        edit_organization(1, &info(), EditStage::AwaitOrganization, Some(EditReply::Missing)),
        not_found("Organization not found")
    );
}

#[test]
fn a_failed_read_of_the_name_is_not_found() {
    assert_eq!(
        edit_organization(1, &info(), EditStage::AwaitName, Some(EditReply::Failed)),
        not_found("Organization not found")
    );
}

#[test]
fn a_missing_name_is_an_internal_error() {
    assert_eq!(
        edit_organization(1, &info(), EditStage::AwaitName, Some(EditReply::Missing)),
        broken()
    );
}

#[test]
fn every_other_failed_request_is_an_internal_error() {
    for stage in [
        EditStage::AwaitAccount,
        EditStage::AwaitOrganization,
        EditStage::AwaitAccountUpdate,
        EditStage::AwaitOrganizationUpdate,
        EditStage::AwaitNameUpdate,
    ] {
        assert_eq!(edit_organization(1, &info(), stage, Some(EditReply::Failed)), broken());
    }
}

#[test]
fn a_reply_out_of_place_is_an_internal_error() {
    assert_eq!(edit_organization(1, &info(), EditStage::Start, Some(EditReply::Found)), broken());
    assert_eq!(edit_organization(1, &info(), EditStage::AwaitAccount, None), broken());
    assert_eq!(
        edit_organization(1, &info(), EditStage::AwaitAccount, Some(EditReply::Updated)),
        broken()
    );
    assert_eq!(
        edit_organization(1, &info(), EditStage::AwaitAccountUpdate, Some(EditReply::Found)),
        broken()
    );
    assert_eq!(edit_organization(1, &info(), EditStage::Done, None), broken());
    assert_eq!(edit_organization(1, &info(), EditStage::Done, Some(EditReply::Updated)), broken());
}
