use quran_api::ayah_edit::{ayah_edit, AyahEditAction, AyahEditReply, AyahEditStage, SimpleAyah};
use quran_api::error::{RouterError, StoreError};
use uuid::Uuid;

fn edit() -> SimpleAyah {
    SimpleAyah { ayah_number: 24, sajdah: Some(String::from("vajib")) }
}

#[test]
fn an_edit_writes_what_it_was_given() {
    let id = Uuid::from_u128(0x24);
    assert_eq!(
        ayah_edit(id, &edit(), AyahEditStage::Start, None),
        (
            AyahEditStage::AwaitUpdate,
            AyahEditAction::Update { ayah: id, ayah_number: 24, sajdah: Some(String::from("vajib")) }
        )
    );
    let plain = SimpleAyah { ayah_number: -3, sajdah: None };
    assert_eq!(
        ayah_edit(id, &plain, AyahEditStage::Start, None).1,
        AyahEditAction::Update { ayah: id, ayah_number: -3, sajdah: None }
    );
}

#[test]
fn a_write_that_went_through_is_answered_with_edited() {
    assert_eq!(
        ayah_edit(Uuid::nil(), &edit(), AyahEditStage::AwaitUpdate, Some(AyahEditReply::Updated)),
        (AyahEditStage::Done, AyahEditAction::Respond(String::from("Edited")))
    );
}

#[test]
fn a_write_that_failed_fails_the_edit() {
    assert_eq!(
        ayah_edit(
            Uuid::nil(),
            &edit(),
            AyahEditStage::AwaitUpdate,
            Some(AyahEditReply::Failed(StoreError::Other))
        ),
        (AyahEditStage::Done, AyahEditAction::Fail(RouterError::InternalError))
    );
    assert_eq!(
        ayah_edit(
            Uuid::nil(),
            &edit(),
            AyahEditStage::AwaitUpdate,
            Some(AyahEditReply::Failed(StoreError::NotFound))
        ),
        (AyahEditStage::Done, AyahEditAction::Fail(RouterError::NotFound(String::from("Not found"))))
    );
}

#[test]
fn an_edit_reply_out_of_place_is_an_internal_error() {
    let broken = (AyahEditStage::Done, AyahEditAction::Fail(RouterError::InternalError));
    assert_eq!(ayah_edit(Uuid::nil(), &edit(), AyahEditStage::Start, Some(AyahEditReply::Updated)), broken);
    assert_eq!(ayah_edit(Uuid::nil(), &edit(), AyahEditStage::AwaitUpdate, None), broken);
    assert_eq!(ayah_edit(Uuid::nil(), &edit(), AyahEditStage::Done, None), broken);
}
