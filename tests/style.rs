use typst::convert::TryFromValue;
use typst::diag::{Diag, Feedback};
use typst::font::{FontStyle, FontWeight, FontWidth};
use typst::geom::{Length, Linear, Num, Sides, Span, Spanned};
use typst::layout::{Align, Dir, SpecAlign};
use typst::paper::{Paper, PaperClass};
use typst::state::{FamilyMap, FontFamily, FontState, PageState, ParState, State};
use typst::text::{decimal_string, str_eq};
use typst::value::{Ident, Value};

fn ident(name: &str) -> Spanned<Value> {
    Spanned::zero(Value::Ident(Ident(name.to_string())))
}

fn number(millionths: i64) -> Spanned<Value> {
    Spanned::zero(Value::Number(Num::from_millionths(millionths)))
}

fn messages(f: &Feedback) -> Vec<String> {
    f.diagnostics.iter().map(|d| d.message.clone()).collect()
}

#[test]
fn font_weight_below_minimum_is_clamped() {
    let mut f = Feedback::new();
    let w = FontWeight::try_from_value(Spanned::zero(Value::Number(Num::from_int(50))), &mut f);
    assert_eq!(w, Some(FontWeight(100)));
    assert_eq!(f.diagnostics, vec![Diag::error(Span::zero(), "the minimum font weight is 100".to_string())]);
}

#[test]
fn font_weight_above_maximum_is_clamped() {
    let mut f = Feedback::new();
    let w = FontWeight::try_from_value(Spanned::zero(Value::Number(Num::from_int(1000))), &mut f);
    assert_eq!(w, Some(FontWeight(900)));
    assert_eq!(messages(&f), vec!["the maximum font weight is 900".to_string()]);
}

#[test]
fn font_weight_in_range_is_kept() {
    let mut f = Feedback::new();
    let w = FontWeight::try_from_value(Spanned::zero(Value::Number(Num::from_int(400))), &mut f);
    assert_eq!(w, Some(FontWeight(400)));
    assert!(f.diagnostics.is_empty());
}

#[test]
fn font_weight_rounds_half_up() {
    let mut f = Feedback::new();
    assert_eq!(FontWeight::try_from_value(number(400_500_000), &mut f), Some(FontWeight(401)));
    assert_eq!(FontWeight::try_from_value(number(649_499_999), &mut f), Some(FontWeight(649)));
    assert_eq!(FontWeight::try_from_value(number(899_999_999), &mut f), Some(FontWeight(900)));
    assert_eq!(FontWeight::try_from_value(number(99_999_999), &mut f), Some(FontWeight(100)));
    assert_eq!(messages(&f), vec!["the minimum font weight is 100".to_string()]);
}

#[test]
fn font_weight_names() {
    let mut f = Feedback::new();
    assert_eq!(FontWeight::try_from_value(ident("bold"), &mut f), Some(FontWeight(700)));
    assert_eq!(FontWeight::try_from_value(ident("thin"), &mut f), Some(FontWeight(100)));
    assert_eq!(FontWeight::try_from_value(ident("Bold"), &mut f), None);
    assert_eq!(
        FontWeight::try_from_value(Spanned::zero(Value::Bool(true)), &mut f),
        None
    );
    assert_eq!(
        messages(&f),
        vec![
            "invalid font weight".to_string(),
            "expected font weight (name or number), found bool".to_string(),
        ]
    );
}

#[test]
fn font_width_clamps_and_names() {
    let mut f = Feedback::new();
    assert_eq!(
        FontWidth::try_from_value(number(0), &mut f).map(|w| w.to_number()),
        Some(1)
    );
    assert_eq!(
        FontWidth::try_from_value(Spanned::zero(Value::Number(Num::from_int(12))), &mut f)
            .map(|w| w.to_number()),
        Some(9)
    );
    assert_eq!(
        FontWidth::try_from_value(number(6_400_000), &mut f).map(|w| w.to_number()),
        Some(6)
    );
    assert_eq!(
        FontWidth::try_from_value(ident("condensed"), &mut f).map(|w| w.to_number()),
        Some(3)
    );
    assert_eq!(FontWidth::try_from_value(ident("wide"), &mut f), None);
    assert_eq!(
        FontWidth::try_from_value(Spanned::zero(Value::Str("normal".to_string())), &mut f),
        None
    );
    assert_eq!(
        messages(&f),
        vec![
            "the minimum font width is 1".to_string(),
            "the maximum font width is 9".to_string(),
            "invalid font width".to_string(),
            "expected font width (name or number), found string".to_string(),
        ]
    );
}

#[test]
fn font_width_new_checks_the_range() {
    assert!(FontWidth::new(0).is_none());
    assert!(FontWidth::new(10).is_none());
    assert_eq!(FontWidth::new(9).map(|w| w.to_number()), Some(9));
    assert_eq!(FontWidth::normal().to_number(), 5);
}

#[test]
fn font_style_names() {
    let mut f = Feedback::new();
    assert_eq!(FontStyle::try_from_value(ident("italic"), &mut f), Some(FontStyle::Italic));
    assert_eq!(FontStyle::try_from_value(ident("slanted"), &mut f), None);
    assert_eq!(
        FontStyle::try_from_value(Spanned::zero(Value::Nil), &mut f),
        None
    );
    assert_eq!(
        messages(&f),
        vec!["invalid font style".to_string(), "expected font style, found none".to_string()]
    );
}

#[test]
fn direction_and_alignment_names() {
    let mut f = Feedback::new();
    assert_eq!(Dir::try_from_value(ident("rtl"), &mut f), Some(Dir::RTL));
    assert_eq!(Dir::try_from_value(ident("btt"), &mut f), Some(Dir::BTT));
    assert_eq!(Dir::try_from_value(ident("LTR"), &mut f), None);
    assert_eq!(SpecAlign::try_from_value(ident("center"), &mut f), Some(SpecAlign::Center));
    assert_eq!(SpecAlign::try_from_value(ident("middle"), &mut f), None);
    assert_eq!(
        SpecAlign::try_from_value(Spanned::zero(Value::Bool(false)), &mut f),
        None
    );
    assert_eq!(
        messages(&f),
        vec![
            "invalid direction".to_string(),
            "invalid alignment".to_string(),
            "expected alignment, found bool".to_string(),
        ]
    );
}

#[test]
fn paper_names() {
    let mut f = Feedback::new();
    let a4 = Paper::try_from_value(ident("a4"), &mut f).unwrap();
    assert_eq!(a4, Paper::a4());
    assert_eq!(a4.class, PaperClass::Base);
    let letter = Paper::try_from_value(ident("us-letter"), &mut f).unwrap();
    assert_eq!(letter.class, PaperClass::US);
    assert_eq!(letter.size().width, Length::pt(612));
    assert_eq!(Paper::try_from_value(ident("a0"), &mut f), None);
    assert_eq!(messages(&f), vec!["invalid paper".to_string()]);
}

#[test]
fn page_margins_fall_back_to_class_defaults() {
    let mut page = PageState::new(Paper::a4());
    page.margins.left = Some(Linear::relative(50_000));
    let m = page.margins();
    assert_eq!(m.left, Linear::relative(50_000));
    assert_eq!(m.top, Linear::relative(84_200));
    assert_eq!(m.right, Linear::relative(119_000));
    assert_eq!(m.bottom, Linear::relative(84_200));
    let book = PaperClass::Book.default_margins();
    assert_eq!(book.right, Linear::relative(150_000));
}

#[test]
fn page_default_is_a4_without_overrides() {
    let page = PageState::default();
    assert_eq!(page, PageState::new(Paper::a4()));
    assert_eq!(page.margins, Sides::uniform(None));
    assert_eq!(page.size.height.pt.scaled, 841_889_764);
}

#[test]
fn state_defaults() {
    let state = State::default();
    assert_eq!(state.dirs.primary, Dir::TTB);
    assert_eq!(state.dirs.secondary, Dir::LTR);
    assert_eq!(state.aligns.primary, Align::Start);
    assert_eq!(state.par, ParState::default());
    assert_eq!(state.par.leading, Linear::relative(500_000));
    assert!(!state.font.strong && !state.font.emph);
    assert_eq!(state.font.variant.weight, FontWeight(400));
    assert_eq!(state.font.font_size(), Length::pt(11));
}

#[test]
fn cloned_state_is_independent() {
    let original = State::default();
    let mut copy = original.clone();
    copy.font.families_mut().list.push(FontFamily::Named("extra".to_string()));
    copy.font.strong = true;
    assert_eq!(original.font.families.list, vec![FontFamily::Serif]);
    assert!(!original.font.strong);
    assert_eq!(copy.font.families.list.len(), 2);
}

#[test]
fn font_size_applies_scale() {
    let mut font = FontState::default();
    font.scale = Linear::relative(1_500_000);
    assert_eq!(font.font_size(), Length::from_millionths(16_500_000));
    font.scale.abs = Length::pt(1);
    assert_eq!(font.font_size(), Length::from_millionths(17_500_000));
}

#[test]
fn family_map_resolves_in_order() {
    let map = FamilyMap {
        list: vec![FontFamily::Named("x".to_string()), FontFamily::SansSerif],
        serif: vec![],
        sans_serif: vec!["a".to_string(), "b".to_string()],
        monospace: vec![],
        base: vec!["z".to_string()],
    };
    assert_eq!(map.iter(), vec!["x", "a", "b", "z"]);
}

#[test]
fn family_map_default_and_duplicates() {
    assert_eq!(FamilyMap::default().iter(), vec!["eb garamond", "twitter color emoji"]);
    let map = FamilyMap {
        list: vec![FontFamily::Monospace, FontFamily::Named("m".to_string()), FontFamily::Monospace],
        serif: vec![],
        sans_serif: vec![],
        monospace: vec!["m".to_string()],
        base: vec![],
    };
    assert_eq!(map.iter(), vec!["m", "m", "m"]);
}

#[test]
fn font_family_labels() {
    assert_eq!(FontFamily::Serif.as_str(), "serif");
    assert_eq!(FontFamily::SansSerif.as_str(), "sans-serif");
    assert_eq!(FontFamily::Monospace.as_str(), "monospace");
    assert_eq!(FontFamily::Named("Noto".to_string()).as_str(), "Noto");
}

#[test]
fn text_helpers() {
    assert_eq!(decimal_string(0), "0");
    assert_eq!(decimal_string(900), "900");
    assert_eq!(decimal_string(18446744073709551615), "18446744073709551615");
    assert!(str_eq("ab", "ab"));
    assert!(!str_eq("ab", "abc"));
    assert!(!str_eq("ab", "ac"));
    assert!(str_eq("", ""));
}

#[test]
fn span_merge_covers_both() {
    assert_eq!(Span::merge(Span::new(5, 9), Span::new(2, 6)), Span::new(2, 9));
}

#[test]
fn default_font_state_uses_the_default_family_map() {
    let font = FontState::default();
    assert_eq!(font.families, FamilyMap::default());
    assert_eq!(font.families.serif, vec!["eb garamond".to_string()]);
    assert!(font.families.sans_serif.is_empty());
    assert_eq!(font.families.monospace, vec!["inconsolata".to_string()]);
    assert_eq!(font.families.base, vec!["twitter color emoji".to_string()]);
    assert_eq!(font.variant.style, FontStyle::Normal);
    assert_eq!(font.variant.stretch, FontWidth::normal());
    assert_eq!(font.size, Length::pt(11));
    assert_eq!(State::default().font, font);
}
