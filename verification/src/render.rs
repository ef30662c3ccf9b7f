//! The two shapes in which an ayah is served: as one text, or as its words.

use vstd::prelude::*;
use crate::ayah::{SimpleAyah, SimpleAyahView};
use crate::text::{join_words, joined};

verus! {

/// The shape that a request asks for. It holds for every ayah of the answer.
#[derive(Clone, Copy, Debug, PartialEq, Eq)]
pub enum Format {
    /// Each ayah as one text.
    Text,
    /// Each ayah as the list of its words.
    Word,
}

/// An ayah with its words joined into one text.
#[derive(Debug, PartialEq, Eq)]
pub struct AyahWithText {
    pub ayah: SimpleAyah,
    pub text: String,
}

/// An ayah with its words, one by one.
#[derive(Debug, PartialEq, Eq)]
pub struct AyahWithWords {
    pub ayah: SimpleAyah,
    pub words: Vec<String>,
}

/// A served ayah in one of the two shapes.
#[derive(Debug, PartialEq, Eq)]
pub enum AyahTy {
    Text(AyahWithText),
    Words(AyahWithWords),
}

pub struct AyahWithTextView {
    pub ayah: SimpleAyahView,
    pub text: Seq<char>,
}

pub struct AyahWithWordsView {
    pub ayah: SimpleAyahView,
    pub words: Seq<Seq<char>>,
}

pub enum AyahTyView {
    Text(AyahWithTextView),
    Words(AyahWithWordsView),
}

impl DeepView for AyahWithText {
    type V = AyahWithTextView;

    open spec fn deep_view(&self) -> AyahWithTextView {
        AyahWithTextView { ayah: self.ayah.deep_view(), text: self.text@ }
    }
}

impl DeepView for AyahWithWords {
    type V = AyahWithWordsView;

    open spec fn deep_view(&self) -> AyahWithWordsView {
        AyahWithWordsView { ayah: self.ayah.deep_view(), words: self.words.deep_view() }
    }
}

impl DeepView for AyahTy {
    type V = AyahTyView;

    open spec fn deep_view(&self) -> AyahTyView {
        match self {
            AyahTy::Text(a) => AyahTyView::Text(a.deep_view()),
            AyahTy::Words(a) => AyahTyView::Words(a.deep_view()),
        }
    }
}

impl AyahTyView {
    /// The ayah, whatever the shape.
    pub open spec fn ayah(self) -> SimpleAyahView {
        match self {
            AyahTyView::Text(a) => a.ayah,
            AyahTyView::Words(a) => a.ayah,
        }
    }

    /// The text of the ayah: the one it carries, or its words joined.
    pub open spec fn text(self) -> Seq<char> {
        match self {
            AyahTyView::Text(a) => a.text,
            AyahTyView::Words(a) => joined(a.words),
        }
    }
}

/// An ayah and its words in the shape that `format` names: in `Text` the
/// words joined by single spaces, in `Word` the words as they are.
pub open spec fn rendered(format: Format, ayah: SimpleAyahView, words: Seq<Seq<char>>) -> AyahTyView {
    match format {
        Format::Text => AyahTyView::Text(AyahWithTextView { ayah, text: joined(words) }),
        Format::Word => AyahTyView::Words(AyahWithWordsView { ayah, words }),
    }
}

/// Every group in the shape that `format` names, in the order of the groups.
pub open spec fn rendered_all(format: Format, groups: Seq<(SimpleAyahView, Seq<Seq<char>>)>) -> Seq<
    AyahTyView,
> {
    groups.map_values(|g: (SimpleAyahView, Seq<Seq<char>>)| rendered(format, g.0, g.1))
}

/// Whatever the shape, a served ayah keeps its ayah, and its text is the
/// words joined by single spaces.
pub proof fn lemma_rendered_keeps(format: Format, ayah: SimpleAyahView, words: Seq<Seq<char>>)
    ensures
        rendered(format, ayah, words).ayah() == ayah,
        rendered(format, ayah, words).text() == joined(words),
        format == Format::Word ==> rendered(format, ayah, words) == AyahTyView::Words(
            AyahWithWordsView { ayah, words },
        ),
{
}

/// Every served ayah of one answer has the shape that the request asked for.
pub proof fn lemma_rendered_all_uniform(
    format: Format,
    groups: Seq<(SimpleAyahView, Seq<Seq<char>>)>,
    i: int,
)
    requires
        0 <= i < groups.len(),
    ensures
        rendered_all(format, groups).len() == groups.len(),
        format == Format::Text <==> rendered_all(format, groups)[i] is Text,
        format == Format::Word <==> rendered_all(format, groups)[i] is Words,
        rendered_all(format, groups)[i].ayah() == groups[i].0,
{
}

/// Puts an ayah and its words into the shape that `format` names.
pub fn render_ayah(format: Format, ayah: SimpleAyah, words: Vec<String>) -> (served: AyahTy)
    ensures
        served.deep_view() == rendered(format, ayah.deep_view(), words.deep_view()),
{
    match format {
        Format::Text => {
            let text = join_words(&words);
            AyahTy::Text(AyahWithText { ayah, text })
        },
        Format::Word => AyahTy::Words(AyahWithWords { ayah, words }),
    }
}

/// Puts every group into the shape that `format` names, keeping the order.
pub fn render_ayahs(format: Format, groups: Vec<(SimpleAyah, Vec<String>)>) -> (served: Vec<AyahTy>)
    ensures
        served.deep_view() == rendered_all(format, groups.deep_view()),
{
    let ghost all = groups@;
    let ghost wanted = rendered_all(format, groups.deep_view());
    let mut served: Vec<AyahTy> = Vec::new();
    for group in it: groups
        invariant
            it.seq() == all,
            all == groups@,
            wanted == rendered_all(format, groups.deep_view()),
            served.len() == it.index(),
            forall|i: int| 0 <= i < served.len() ==> (#[trigger] served[i]).deep_view() == wanted[i],
    {
        let (ayah, words) = group;
        served.push(render_ayah(format, ayah, words));
    }
    assert(served.deep_view() =~= wanted);
    served
}

} // verus!
