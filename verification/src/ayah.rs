//! Ayah rows, the ayah as it is served, and its bismillah state.

use vstd::prelude::*;
use uuid::Uuid;
use crate::ident::same_id;
use crate::text::same_text;

verus! {

/// An ayah as the store holds it.
#[derive(Debug, PartialEq, Eq)]
pub struct QuranAyah {
    pub uuid: Uuid,
    /// Position of the ayah within its surah.
    pub ayah_number: i32,
    pub sajdah: Option<String>,
    /// The ayah is itself the bismillah.
    pub is_bismillah: bool,
    /// The bismillah that precedes the ayah.
    pub bismillah_text: Option<String>,
}

pub struct QuranAyahView {
    pub uuid: Uuid,
    pub ayah_number: i32,
    pub sajdah: Option<Seq<char>>,
    pub is_bismillah: bool,
    pub bismillah_text: Option<Seq<char>>,
}

impl DeepView for QuranAyah {
    type V = QuranAyahView;

    open spec fn deep_view(&self) -> QuranAyahView {
        QuranAyahView {
            uuid: self.uuid,
            ayah_number: self.ayah_number,
            sajdah: self.sajdah.deep_view(),
            is_bismillah: self.is_bismillah,
            bismillah_text: self.bismillah_text.deep_view(),
        }
    }
}

/// How a bismillah belongs to an ayah.
#[derive(Debug, PartialEq, Eq)]
pub struct AyahBismillah {
    /// The ayah is itself the bismillah.
    pub is_ayah: bool,
    /// The bismillah that precedes the ayah, where it is not the ayah itself.
    pub text: Option<String>,
}

pub struct AyahBismillahView {
    pub is_ayah: bool,
    pub text: Option<Seq<char>>,
}

impl DeepView for AyahBismillah {
    type V = AyahBismillahView;

    open spec fn deep_view(&self) -> AyahBismillahView {
        AyahBismillahView { is_ayah: self.is_ayah, text: self.text.deep_view() }
    }
}

/// An ayah as it is served: its place, its identity, and its bismillah state.
#[derive(Debug, PartialEq, Eq)]
pub struct SimpleAyah {
    pub number: u32,
    pub uuid: Uuid,
    pub sajdah: Option<String>,
    pub bismillah: Option<AyahBismillah>,
}

pub struct SimpleAyahView {
    pub number: u32,
    pub uuid: Uuid,
    pub sajdah: Option<Seq<char>>,
    pub bismillah: Option<AyahBismillahView>,
}

impl DeepView for SimpleAyah {
    type V = SimpleAyahView;

    open spec fn deep_view(&self) -> SimpleAyahView {
        SimpleAyahView {
            number: self.number,
            uuid: self.uuid,
            sajdah: self.sajdah.deep_view(),
            bismillah: self.bismillah.deep_view(),
        }
    }
}

/// The bismillah state that the two stored fields of an ayah stand for.
///
/// A flag without a text says that the ayah is the bismillah; a text without
/// the flag is a bismillah that precedes the ayah; neither means none. A flag
/// together with a text is not expected in the store and counts as none.
pub open spec fn resolved_bismillah(
    is_bismillah: bool,
    bismillah_text: Option<Seq<char>>,
) -> Option<AyahBismillahView> {
    match (is_bismillah, bismillah_text) {
        (true, None) => Some(AyahBismillahView { is_ayah: true, text: None }),
        (false, Some(text)) => Some(AyahBismillahView { is_ayah: false, text: Some(text) }),
        (false, None) => None,
        (true, Some(_)) => None,
    }
}

/// The bismillah state of an ayah, from its two stored fields.
pub fn resolve_bismillah(is_bismillah: bool, bismillah_text: Option<String>) -> (state: Option<
    AyahBismillah,
>)
    ensures
        state.deep_view() == resolved_bismillah(is_bismillah, bismillah_text.deep_view()),
{
    match (is_bismillah, bismillah_text) {
        (true, None) => Some(AyahBismillah { is_ayah: true, text: None }),
        (false, Some(text)) => Some(AyahBismillah { is_ayah: false, text: Some(text) }),
        (false, None) => None,
        (true, Some(_)) => None,
    }
}

/// The served form of a stored ayah.
pub open spec fn simplified(row: QuranAyahView) -> SimpleAyahView {
    SimpleAyahView {
        number: row.ayah_number as u32,
        uuid: row.uuid,
        sajdah: row.sajdah,
        bismillah: resolved_bismillah(row.is_bismillah, row.bismillah_text),
    }
}

/// A stored number that is not negative is served as it is.
pub proof fn lemma_simplified_number(row: QuranAyahView)
    requires
        row.ayah_number >= 0,
    ensures
        simplified(row).number == row.ayah_number,
{
}

/// The four cases of the two stored fields, one by one.
pub proof fn lemma_resolved_cases(text: Seq<char>)
    ensures
        resolved_bismillah(true, None) == Some((AyahBismillahView { is_ayah: true, text: None })),
        resolved_bismillah(false, Some(text)) == Some(
            (AyahBismillahView { is_ayah: false, text: Some(text) }),
        ),
        resolved_bismillah(false, None) is None,
        resolved_bismillah(true, Some(text)) is None,
{
}

/// Turns a stored ayah into the form that is served.
pub fn simplify(row: QuranAyah) -> (ayah: SimpleAyah)
    ensures
        ayah.deep_view() == simplified(row.deep_view()),
{
    SimpleAyah {
        number: #[verifier::truncate] (row.ayah_number as u32),
        uuid: row.uuid,
        sajdah: row.sajdah,
        bismillah: resolve_bismillah(row.is_bismillah, row.bismillah_text),
    }
}

/// Whether two bismillah states are the same.
pub fn same_bismillah(a: &Option<AyahBismillah>, b: &Option<AyahBismillah>) -> (same: bool)
    ensures
        same == (a.deep_view() == b.deep_view()),
{
    match (a, b) {
        (Some(x), Some(y)) => x.is_ayah == y.is_ayah && same_text(&x.text, &y.text),
        (None, None) => true,
        _ => false,
    }
}

/// Whether two served ayahs are the same in every field.
pub fn same_ayah(a: &SimpleAyah, b: &SimpleAyah) -> (same: bool)
    ensures
        same == (a.deep_view() == b.deep_view()),
{
    a.number == b.number && same_id(&a.uuid, &b.uuid) && same_text(&a.sajdah, &b.sajdah)
        && same_bismillah(&a.bismillah, &b.bismillah)
}

} // verus!
