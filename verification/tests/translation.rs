use quran_api::error::{RouterError, StoreError};
use quran_api::translation::{
    translation_list, ListAction, ListReply, ListStage, TranslationListQuery,
};

fn query(language: Option<&str>) -> TranslationListQuery {
    TranslationListQuery { mushaf: String::from("hafs"), language: language.map(String::from) }
}

#[test]
fn a_listing_asks_for_the_mushaf_then_for_its_translations() {
    let q = query(Some("fa"));
    assert_eq!(
        translation_list(&q, ListStage::Start, None),
        (ListStage::AwaitMushaf, ListAction::LoadMushaf { short_name: String::from("hafs") })
    );
    assert_eq!(
        translation_list(&q, ListStage::AwaitMushaf, Some(ListReply::Mushaf(4))),
        (
            ListStage::AwaitTranslations,
            ListAction::LoadTranslations { language: String::from("fa"), mushaf_id: 4 }
        )
    );
    assert_eq!(
        translation_list(&q, ListStage::AwaitTranslations, Some(ListReply::Listed)),
        (ListStage::Done, ListAction::Respond)
    );
}

#[test]
fn a_listing_without_language_is_in_en() {
    assert_eq!(
        translation_list(&query(None), ListStage::AwaitMushaf, Some(ListReply::Mushaf(-7))).1,
        ListAction::LoadTranslations { language: String::from("en"), mushaf_id: -7 }
    );
}

#[test]
fn a_missing_mushaf_is_not_found() {
    assert_eq!(
        translation_list(
            &query(None),
            ListStage::AwaitMushaf,
            Some(ListReply::Failed(StoreError::NotFound))
        ),
        (ListStage::Done, ListAction::Fail(RouterError::NotFound(String::from("Not found"))))
    );
}

#[test]
fn a_failing_store_is_an_internal_error() {
    for stage in [ListStage::AwaitMushaf, ListStage::AwaitTranslations] {
        assert_eq!(
            translation_list(&query(None), stage, Some(ListReply::Failed(StoreError::Other))),
            (ListStage::Done, ListAction::Fail(RouterError::InternalError))
        );
    }
}

#[test]
fn a_list_reply_out_of_place_is_an_internal_error() {
    let broken = (ListStage::Done, ListAction::Fail(RouterError::InternalError));
    let q = query(None);
    assert_eq!(translation_list(&q, ListStage::Start, Some(ListReply::Listed)), broken);
    assert_eq!(translation_list(&q, ListStage::AwaitMushaf, None), broken);
    assert_eq!(translation_list(&q, ListStage::AwaitMushaf, Some(ListReply::Listed)), broken);
    assert_eq!(translation_list(&q, ListStage::AwaitTranslations, Some(ListReply::Mushaf(1))), broken);
    assert_eq!(translation_list(&q, ListStage::Done, None), broken);
}
