//! The ambient formatting state that content construction reads and mutates.

use vstd::prelude::*;
use vstd::string::*;

use crate::font::{FontStyle, FontVariant, FontWeight, FontWidth};
use crate::geom::{Length, Linear, Num, Sides, Size, SCALE};
use crate::layout::{Align, Dir, LayoutAligns, LayoutDirs};
use crate::paper::{Paper, PaperClass};
use crate::value::RgbaColor;

verus! {

/// Defines page properties.
#[derive(Debug, Clone, Copy, PartialEq, Eq)]
pub struct PageState {
    /// The class of this page.
    pub class: PaperClass,
    /// The width and height of the page.
    pub size: Size,
    /// The amount of white space on each side of the page. If a side is set to
    /// `None`, the default for the paper class is used.
    pub margins: Sides<Option<Linear>>,
}

/// The margin of one side: the override where there is one, else the default.
pub open spec fn margin_or(side: Option<Linear>, default: Linear) -> Linear {
    match side {
        Some(m) => m,
        None => default,
    }
}

impl PageState {
    /// The default page style for the given paper.
    pub open spec fn new_spec(paper: Paper) -> PageState {
        PageState {
            class: paper.class,
            size: Size {
                width: Length { pt: crate::geom::Num { scaled: paper.width } },
                height: Length { pt: crate::geom::Num { scaled: paper.height } },
            },
            margins: Sides { left: None, top: None, right: None, bottom: None },
        }
    }

    /// The default page style for the given paper.
    pub fn new(paper: Paper) -> (r: PageState)
        ensures
            r == PageState::new_spec(paper),
    {
        PageState { class: paper.class, size: paper.size(), margins: Sides::uniform(None) }
    }

    /// The margins: on each side the override, or the class's default where
    /// there is none.
    pub fn margins(&self) -> (r: Sides<Linear>)
        ensures
            ({
                let d = self.class.spec_default_margins();
                &&& r.left == margin_or(self.margins.left, d.left)
                &&& r.top == margin_or(self.margins.top, d.top)
                &&& r.right == margin_or(self.margins.right, d.right)
                &&& r.bottom == margin_or(self.margins.bottom, d.bottom)
            }),
    {
        let default = self.class.default_margins();
        Sides {
            left: match self.margins.left {
                Some(m) => m,
                None => default.left,
            },
            top: match self.margins.top {
                Some(m) => m,
                None => default.top,
            },
            right: match self.margins.right {
                Some(m) => m,
                None => default.right,
            },
            bottom: match self.margins.bottom {
                Some(m) => m,
                None => default.bottom,
            },
        }
    }
}

impl Default for PageState {
    /// The page style of A4 paper.
    fn default() -> (r: PageState)
        ensures
            r == PageState::new_spec(Paper { class: PaperClass::Base, width: 595275591, height: 841889764 }),
    {
        PageState::new(Paper::a4())
    }
}

/// Defines paragraph properties.
#[derive(Debug, Clone, Copy, PartialEq, Eq, Structural)]
pub struct ParState {
    /// The spacing between paragraphs (dependent on scaled font size).
    pub spacing: Linear,
    /// The spacing between lines (dependent on scaled font size).
    pub leading: Linear,
    /// The spacing between words (dependent on scaled font size).
    pub word_spacing: Linear,
}

impl Default for ParState {
    /// A paragraph spacing of one, a leading of a half and a word spacing of
    /// a quarter of the font size.
    fn default() -> (r: ParState)
        ensures
            r.spacing == Linear::spec_relative(SCALE),
            r.leading == Linear::spec_relative(500000),
            r.word_spacing == Linear::spec_relative(250000),
    {
        ParState {
            spacing: Linear::relative(SCALE),
            leading: Linear::relative(SCALE / 2),
            word_spacing: Linear::relative(SCALE / 4),
        }
    }
}

/// A vertical metric of a font face that bounds the text.
#[derive(Debug, Clone, Copy, PartialEq, Eq, Structural)]
pub enum VerticalFontMetric {
    Ascender,
    CapHeight,
    XHeight,
    Baseline,
    Descender,
}

/// How glyphs are filled.
#[derive(Debug, Clone, Copy, PartialEq, Eq, Structural)]
pub enum Fill {
    /// A solid color.
    Color(RgbaColor),
}

/// A generic or named font family.
#[derive(Debug, Clone, PartialEq, Eq, PartialOrd, Ord)]
pub enum FontFamily {
    Serif,
    SansSerif,
    Monospace,
    Named(String),
}

/// The text that stands for a family.
pub open spec fn family_label(f: FontFamily) -> Seq<char> {
    match f {
        FontFamily::Serif => "serif"@,
        FontFamily::SansSerif => "sans-serif"@,
        FontFamily::Monospace => "monospace"@,
        FontFamily::Named(s) => s@,
    }
}

impl FontFamily {
    /// The text that stands for this family: the name of a named family, or
    /// that of the generic class.
    pub fn as_str(&self) -> (r: &str)
        ensures
            r@ == family_label(*self),
    {
        match self {
            FontFamily::Serif => "serif",
            FontFamily::SansSerif => "sans-serif",
            FontFamily::Monospace => "monospace",
            FontFamily::Named(s) => s.as_str(),
        }
    }
}

/// Font family definitions.
#[derive(Debug, Clone, PartialEq, Eq, PartialOrd, Ord)]
pub struct FamilyMap {
    /// The user-defined list of font families.
    pub list: Vec<FontFamily>,
    /// Definition of serif font families.
    pub serif: Vec<String>,
    /// Definition of sans-serif font families.
    pub sans_serif: Vec<String>,
    /// Definition of monospace font families used for raw text.
    pub monospace: Vec<String>,
    /// Base fonts that are tried if the list has no match.
    pub base: Vec<String>,
}

/// The texts of a list of names.
pub open spec fn texts(v: Seq<String>) -> Seq<Seq<char>> {
    v.map_values(|s: String| s@)
}

impl FamilyMap {
    /// The concrete names that one selector of the list stands for.
    pub open spec fn expand(&self, f: FontFamily) -> Seq<Seq<char>> {
        match f {
            FontFamily::Named(s) => seq![s@],
            FontFamily::Serif => texts(self.serif@),
            FontFamily::SansSerif => texts(self.sans_serif@),
            FontFamily::Monospace => texts(self.monospace@),
        }
    }

    /// The concrete names that the first `n` selectors stand for, in order.
    pub open spec fn expand_upto(&self, n: int) -> Seq<Seq<char>>
        decreases n,
    {
        if n <= 0 {
            Seq::empty()
        } else {
            self.expand_upto(n - 1) + self.expand(self.list@[n - 1])
        }
    }

    /// Every candidate name, in the order they are tried: the list with each
    /// generic class expanded, then the base fonts.
    pub open spec fn candidates(&self) -> Seq<Seq<char>> {
        self.expand_upto(self.list@.len() as int) + texts(self.base@)
    }

    /// Flat list of this map's family names, in the order they are tried.
    pub fn iter(&self) -> (r: Vec<&str>)
        ensures
            r@.map_values(|s: &str| s@) == self.candidates(),
    {
        let mut out: Vec<&str> = Vec::new();
        let mut i: usize = 0;
        while i < self.list.len()
            invariant
                i <= self.list.len(),
                out@.map_values(|s: &str| s@) == self.expand_upto(i as int),
            decreases self.list.len() - i,
        {
            let ghost before = out@.map_values(|s: &str| s@);
            let names: &Vec<String> = match &self.list[i] {
                FontFamily::Named(name) => {
                    out.push(name.as_str());
                    assert(out@.map_values(|s: &str| s@) =~= before + self.expand(self.list@[i as int]));
                    i = i + 1;
                    continue;
                },
                FontFamily::Serif => &self.serif,
                FontFamily::SansSerif => &self.sans_serif,
                FontFamily::Monospace => &self.monospace,
            };
            assert(self.expand(self.list@[i as int]) == texts(names@));
            push_all(&mut out, names);
            i = i + 1;
        }
        push_all(&mut out, &self.base);
        out
    }
}

/// Append the texts of `names` to `out`.
fn push_all<'a>(out: &mut Vec<&'a str>, names: &'a Vec<String>)
    ensures
        final(out)@.map_values(|s: &str| s@) == old(out)@.map_values(|s: &str| s@) + texts(names@),
{
    let ghost start = out@.map_values(|s: &str| s@);
    let mut j: usize = 0;
    while j < names.len()
        invariant
            j <= names.len(),
            start == old(out)@.map_values(|s: &str| s@),
            out@.map_values(|s: &str| s@) == start + texts(names@.subrange(0, j as int)),
        decreases names.len() - j,
    {
        let ghost prev = out@;
        out.push(names[j].as_str());
        assert(out@.map_values(|s: &str| s@) =~= prev.map_values(|s: &str| s@).push(names@[j as int]@));
        assert(texts(names@.subrange(0, j + 1)) =~= texts(names@.subrange(0, j as int)).push(names@[j as int]@));
        j = j + 1;
        assert(out@.map_values(|s: &str| s@) =~= start + texts(names@.subrange(0, j as int)));
    }
    assert(names@.subrange(0, j as int) =~= names@);
}

/// The default family map: serif text, backed by EB Garamond, no sans-serif
/// fonts, Inconsolata for monospace, and an emoji font as the last resort.
pub open spec fn is_default_family_map(m: FamilyMap) -> bool {
    &&& m.list@ == seq![FontFamily::Serif]
    &&& texts(m.serif@) == seq!["eb garamond"@]
    &&& texts(m.sans_serif@) == Seq::<Seq<char>>::empty()
    &&& texts(m.monospace@) == seq!["inconsolata"@]
    &&& texts(m.base@) == seq!["twitter color emoji"@]
}

impl Default for FamilyMap {
    /// Serif text, backed by EB Garamond, with Inconsolata for monospace and
    /// an emoji font as the last resort.
    fn default() -> (r: FamilyMap)
        ensures
            is_default_family_map(r),
    {
        let r = FamilyMap {
            list: vec![FontFamily::Serif],
            serif: vec![String::from_str("eb garamond")],
            sans_serif: Vec::new(),
            monospace: vec![String::from_str("inconsolata")],
            base: vec![String::from_str("twitter color emoji")],
        };
        assert(r.list@ =~= seq![FontFamily::Serif]);
        assert(texts(r.serif@) =~= seq!["eb garamond"@]);
        assert(texts(r.sans_serif@) =~= Seq::<Seq<char>>::empty());
        assert(texts(r.monospace@) =~= seq!["inconsolata"@]);
        assert(texts(r.base@) =~= seq!["twitter color emoji"@]);
        r
    }
}

/// Defines font properties.
#[derive(Debug, Clone, PartialEq, Eq)]
pub struct FontState {
    /// A list of font families with generic class definitions.
    pub families: FamilyMap,
    /// The selected font variant.
    pub variant: FontVariant,
    /// The font size.
    pub size: Length,
    /// The linear to apply on the base font size.
    pub scale: Linear,
    /// The top end of the text bounding box.
    pub top_edge: VerticalFontMetric,
    /// The bottom end of the text bounding box.
    pub bottom_edge: VerticalFontMetric,
    /// Whether the strong toggle is active or inactive. This determines
    /// whether the next `*` adds or removes font weight.
    pub strong: bool,
    /// Whether the emphasis toggle is active or inactive. This determines
    /// whether the next `_` makes italic or non-italic.
    pub emph: bool,
    /// The glyph fill color / texture.
    pub color: Fill,
}

impl FontState {
    /// Access the `families` mutably.
    pub fn families_mut(&mut self) -> (r: &mut FamilyMap)
        ensures
            *r == old(self).families,
            *final(self) == (FontState { families: *final(r), ..*old(self) }),
    {
        &mut self.families
    }

    /// The absolute font size: the scale applied to the size.
    pub fn font_size(&self) -> (r: Length)
        requires
            i64::MIN <= self.scale.spec_resolve(self.size) <= i64::MAX,
        ensures
            r.pt.scaled == self.scale.spec_resolve(self.size),
    {
        self.scale.resolve(self.size)
    }
}

/// The default font state: the default family map; regular upright text of
/// normal width and 11pt, unscaled; the text box from the cap height to the
/// baseline; both toggles off; filled in black.
pub open spec fn is_default_font(f: FontState) -> bool {
    &&& is_default_family_map(f.families)
    &&& f.variant == (FontVariant {
        style: FontStyle::Normal,
        weight: FontWeight(400),
        stretch: FontWidth(5),
    })
    &&& f.size == (Length { pt: Num { scaled: 11000000 } })
    &&& f.scale == Linear::spec_relative(SCALE)
    &&& f.top_edge == VerticalFontMetric::CapHeight
    &&& f.bottom_edge == VerticalFontMetric::Baseline
    &&& !f.strong && !f.emph
    &&& f.color == Fill::Color(RgbaColor { r: 0, g: 0, b: 0, a: 255 })
}

impl Default for FontState {
    /// Regular upright serif text of 11pt in black, unscaled, with both
    /// toggles off.
    fn default() -> (r: FontState)
        ensures
            is_default_font(r),
    {
        FontState {
            families: FamilyMap::default(),
            variant: FontVariant {
                style: FontStyle::Normal,
                weight: FontWeight::regular(),
                stretch: FontWidth::normal(),
            },
            size: Length::pt(11),
            scale: Linear::one(),
            top_edge: VerticalFontMetric::CapHeight,
            bottom_edge: VerticalFontMetric::Baseline,
            strong: false,
            emph: false,
            color: Fill::Color(RgbaColor { r: 0, g: 0, b: 0, a: 255 }),
        }
    }
}

/// The evaluation state.
#[derive(Debug, Clone, PartialEq, Eq)]
pub struct State {
    /// The current directions along which layouts are placed in their parents.
    pub dirs: LayoutDirs,
    /// The current alignments of layouts in their parents.
    pub aligns: LayoutAligns,
    /// The current page settings.
    pub page: PageState,
    /// The current paragraph settings.
    pub par: ParState,
    /// The current font settings.
    pub font: FontState,
}

impl Default for State {
    /// Top-to-bottom layouts of left-to-right lines, aligned at the start, on
    /// A4 paper, with the default paragraph and font settings.
    fn default() -> (r: State)
        ensures
            r.dirs == (LayoutDirs { primary: Dir::TTB, secondary: Dir::LTR }),
            r.aligns == (LayoutAligns { primary: Align::Start, secondary: Align::Start }),
            r.page == PageState::new_spec(Paper { class: PaperClass::Base, width: 595275591, height: 841889764 }),
            r.par.spacing == Linear::spec_relative(1000000),
            r.par.leading == Linear::spec_relative(500000),
            r.par.word_spacing == Linear::spec_relative(250000),
            is_default_font(r.font),
    {
        State {
            dirs: LayoutDirs { primary: Dir::TTB, secondary: Dir::LTR },
            aligns: LayoutAligns { primary: Align::Start, secondary: Align::Start },
            page: PageState::default(),
            par: ParState::default(),
            font: FontState::default(),
        }
    }
}

} // verus!
