use quran_api::ayah::{AyahBismillah, SimpleAyah};
use quran_api::render::{AyahTy, AyahWithText, AyahWithWords};
use quran_api::surah::{
    compose, surah_bismillah, QuranMushaf, QuranSurah, SingleSurahMushaf, SurahBismillah, SurahName,
};
use uuid::Uuid;

fn ayah(number: u32, bismillah: Option<AyahBismillah>) -> SimpleAyah {
    SimpleAyah { number, uuid: Uuid::from_u128(number as u128), sajdah: None, bismillah }
}

fn as_text(number: u32, bismillah: Option<AyahBismillah>, text: &str) -> AyahTy {
    AyahTy::Text(AyahWithText { ayah: ayah(number, bismillah), text: String::from(text) })
}

fn as_words(number: u32, bismillah: Option<AyahBismillah>, words: &[&str]) -> AyahTy {
    AyahTy::Words(AyahWithWords {
        ayah: ayah(number, bismillah),
        words: words.iter().map(|w| String::from(*w)).collect(),
    })
}

fn is_ayah() -> Option<AyahBismillah> {
    Some(AyahBismillah { is_ayah: true, text: None })
}

fn preceded_by(text: &str) -> Option<AyahBismillah> {
    Some(AyahBismillah { is_ayah: false, text: Some(String::from(text)) })
}

fn surah() -> QuranSurah {
    QuranSurah {
        uuid: Uuid::from_u128(100),
        mushaf_id: 3,
        name: String::from("الفاتحة"),
        name_translation_phrase: Some(String::from("al-fatiha")),
        name_pronunciation: Some(String::from("al-faatiha")),
        name_transliteration: Some(String::from("Al-Fatihah")),
        period: Some(String::from("makki")),
        number: 1,
    }
}

fn mushaf() -> QuranMushaf {
    QuranMushaf {
        id: 3,
        uuid: Uuid::from_u128(200),
        short_name: Some(String::from("hafs")),
        name: Some(String::from("Hafs an Asim")),
        source: Some(String::from("tanzil")),
    }
}

#[test]
fn first_ayah_that_is_the_bismillah_gives_its_own_text() {
    let ayahs = vec![as_text(1, is_ayah(), "بِسْمِ ٱللَّٰهِ"), as_text(2, None, "x")];
    assert_eq!(
        surah_bismillah(&ayahs),
        Some(SurahBismillah { as_first_ayah: true, text: Some(String::from("بِسْمِ ٱللَّٰهِ")) })
    );
}

#[test]
fn first_ayah_in_words_gives_its_words_joined() {
    let ayahs = vec![as_words(1, is_ayah(), &["بِسْمِ", "ٱللَّٰهِ"]), as_words(2, None, &["x"])];
    assert_eq!(
        surah_bismillah(&ayahs),
        Some(SurahBismillah { as_first_ayah: true, text: Some(String::from("بِسْمِ ٱللَّٰهِ")) })
    );
}

#[test]
fn first_ayah_preceded_by_a_bismillah_gives_that_text() {
    let ayahs = vec![as_text(1, preceded_by("bismillah"), "alif lam mim")];
    assert_eq!(
        surah_bismillah(&ayahs),
        Some(SurahBismillah { as_first_ayah: false, text: Some(String::from("bismillah")) })
    );
    let ayahs = vec![as_words(1, preceded_by("bismillah"), &["alif", "lam", "mim"])];
    assert_eq!(
        surah_bismillah(&ayahs),
        Some(SurahBismillah { as_first_ayah: false, text: Some(String::from("bismillah")) })
    );
}

#[test]
fn first_ayah_without_state_gives_no_bismillah() {
    let ayahs = vec![as_text(1, None, "x"), as_text(2, is_ayah(), "y")];
    assert_eq!(surah_bismillah(&ayahs), None);
}

#[test]
fn only_the_first_ayah_counts() {
    let ayahs = vec![as_text(1, None, "x"), as_text(2, preceded_by("b"), "y")];
    assert_eq!(surah_bismillah(&ayahs), None);
    let ayahs = vec![as_text(5, is_ayah(), "five"), as_text(1, preceded_by("b"), "one")];
    assert_eq!(
        surah_bismillah(&ayahs),
        Some(SurahBismillah { as_first_ayah: true, text: Some(String::from("five")) })
    );
}

#[test]
fn a_surah_without_ayahs_has_no_bismillah() {
    assert_eq!(surah_bismillah(&Vec::new()), None);
}

#[test]
fn a_state_that_is_no_ayah_and_has_no_text_gives_an_absent_text() {
    let odd = Some(AyahBismillah { is_ayah: false, text: None });
    assert_eq!(
        surah_bismillah(&vec![as_text(1, odd, "x")]),
        Some(SurahBismillah { as_first_ayah: false, text: None })
    );
}

#[test]
fn the_served_mushaf_keeps_identity_and_names() {
    assert_eq!(
        SingleSurahMushaf::from(mushaf()),
        SingleSurahMushaf {
            uuid: Uuid::from_u128(200),
            short_name: Some(String::from("hafs")),
            name: Some(String::from("Hafs an Asim")),
            source: Some(String::from("tanzil")),
        }
    );
}

#[test]
fn the_answer_holds_the_surah_its_mushaf_and_one_name() {
    let ayahs = vec![as_text(1, is_ayah(), "a b"), as_text(2, None, "c")];
    let answer = compose(surah(), mushaf(), Some(String::from("The Opening")), ayahs);
    assert_eq!(answer.surah.uuid, Uuid::from_u128(100));
    assert_eq!(answer.surah.mushaf, SingleSurahMushaf::from(mushaf()));
    assert_eq!(
        answer.surah.bismillah,
        Some(SurahBismillah { as_first_ayah: true, text: Some(String::from("a b")) })
    );
    assert_eq!(
        answer.surah.names,
        vec![SurahName {
            arabic: String::from("الفاتحة"),
            translation: Some(String::from("The Opening")),
            translation_phrase: Some(String::from("al-fatiha")),
            pronunciation: Some(String::from("al-faatiha")),
            transliteration: Some(String::from("Al-Fatihah")),
        }]
    );
    assert_eq!(answer.surah.period, Some(String::from("makki")));
    assert_eq!(answer.surah.number, 1);
    assert_eq!(answer.surah.number_of_ayahs, 2);
    assert_eq!(answer.ayahs, vec![as_text(1, is_ayah(), "a b"), as_text(2, None, "c")]);
}

#[test]
fn the_answer_for_a_surah_without_ayahs_is_empty_not_a_failure() {
    let answer = compose(surah(), mushaf(), None, Vec::new());
    assert_eq!(answer.surah.number_of_ayahs, 0);
    assert_eq!(answer.surah.bismillah, None);
    assert_eq!(answer.ayahs, Vec::new());
    assert_eq!(answer.surah.names.len(), 1);
    assert_eq!(answer.surah.names[0].translation, None);
    assert_eq!(answer.surah.names[0].translation_phrase, Some(String::from("al-fatiha")));
}
