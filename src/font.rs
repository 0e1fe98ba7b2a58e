//! Font properties: style, weight and width.

use vstd::prelude::*;
use vstd::string::*;

use crate::convert::{lemma_append_nothing, named_reports, report_invalid, report_mismatch, TryFromValue};
use crate::diag::{error_at, DiagView, Feedback};
use crate::geom::{Num, Span, Spanned, SCALE};
use crate::text::{decimal, decimal_string, str_eq};
use crate::value::{value_name, Value};

verus! {

/// The style of a font face.
#[derive(Debug, Clone, Copy, PartialEq, Eq, Structural)]
pub enum FontStyle {
    Normal,
    Italic,
    Oblique,
}

/// The style that a name stands for.
pub open spec fn style_named(name: Seq<char>) -> Option<FontStyle> {
    if name == "normal"@ {
        Some(FontStyle::Normal)
    } else if name == "italic"@ {
        Some(FontStyle::Italic)
    } else if name == "oblique"@ {
        Some(FontStyle::Oblique)
    } else {
        None
    }
}

impl FontStyle {
    /// The style that a name stands for, if any.
    pub fn from_name(name: &str) -> (r: Option<FontStyle>)
        ensures
            r == style_named(name@),
    {
        if str_eq(name, "normal") {
            Some(FontStyle::Normal)
        } else if str_eq(name, "italic") {
            Some(FontStyle::Italic)
        } else if str_eq(name, "oblique") {
            Some(FontStyle::Oblique)
        } else {
            None
        }
    }
}

/// Matches an identifier that names a font style.
impl TryFromValue for FontStyle {
    open spec fn accepts(v: Value) -> bool {
        v is Ident && style_named(v->Ident_0.0@) is Some
    }

    open spec fn converted(sv: Spanned<Value>) -> FontStyle {
        style_named(sv.v->Ident_0.0@)->Some_0
    }

    open spec fn reports(sv: Spanned<Value>) -> Seq<DiagView> {
        named_reports("font style"@, sv, Self::accepts(sv.v))
    }

    proof fn lemma_rejection_reported_once(sv: Spanned<Value>) {
    }

    fn check(v: &Value) -> (r: bool) {
        match v {
            Value::Ident(i) => FontStyle::from_name(i.as_str()).is_some(),
            _ => false,
        }
    }

    fn convert(sv: Spanned<Value>) -> (r: FontStyle) {
        match sv.v {
            Value::Ident(i) => match FontStyle::from_name(i.as_str()) {
                Some(s) => s,
                None => unreached(),
            },
            _ => unreached(),
        }
    }

    fn report(sv: &Spanned<Value>, f: &mut Feedback) {
        match &sv.v {
            Value::Ident(i) => {
                if FontStyle::from_name(i.as_str()).is_some() {
                    proof {
                        lemma_append_nothing(f@);
                    }
                } else {
                    report_invalid("font style", sv.span, f);
                }
            },
            _ => report_mismatch("font style", sv, f),
        }
    }
}

/// The weight of a font face, from 100 (thin) to 900 (black).
#[derive(Debug, Clone, Copy, PartialEq, Eq, Structural)]
pub struct FontWeight(pub u16);

/// The smallest font weight.
pub const MIN_WEIGHT: u16 = 100;

/// The largest font weight.
pub const MAX_WEIGHT: u16 = 900;

/// The weight that a name stands for.
pub open spec fn weight_named(name: Seq<char>) -> Option<FontWeight> {
    if name == "thin"@ {
        Some(FontWeight(100))
    } else if name == "extralight"@ {
        Some(FontWeight(200))
    } else if name == "light"@ {
        Some(FontWeight(300))
    } else if name == "regular"@ {
        Some(FontWeight(400))
    } else if name == "medium"@ {
        Some(FontWeight(500))
    } else if name == "semibold"@ {
        Some(FontWeight(600))
    } else if name == "bold"@ {
        Some(FontWeight(700))
    } else if name == "extrabold"@ {
        Some(FontWeight(800))
    } else if name == "black"@ {
        Some(FontWeight(900))
    } else {
        None
    }
}

impl FontWeight {
    /// The regular weight.
    pub fn regular() -> (r: FontWeight)
        ensures
            r.0 == 400,
    {
        FontWeight(400)
    }

    /// The weight that a name stands for, if any.
    pub fn from_name(name: &str) -> (r: Option<FontWeight>)
        ensures
            r == weight_named(name@),
    {
        if str_eq(name, "thin") {
            Some(FontWeight(100))
        } else if str_eq(name, "extralight") {
            Some(FontWeight(200))
        } else if str_eq(name, "light") {
            Some(FontWeight(300))
        } else if str_eq(name, "regular") {
            Some(FontWeight(400))
        } else if str_eq(name, "medium") {
            Some(FontWeight(500))
        } else if str_eq(name, "semibold") {
            Some(FontWeight(600))
        } else if str_eq(name, "bold") {
            Some(FontWeight(700))
        } else if str_eq(name, "extrabold") {
            Some(FontWeight(800))
        } else if str_eq(name, "black") {
            Some(FontWeight(900))
        } else {
            None
        }
    }
}

/// `n` rounded to the nearest whole number, halves away from zero.
pub open spec fn rounded(n: Num) -> int {
    if n.scaled >= 0 {
        (n.scaled + SCALE as int / 2) / SCALE as int
    } else {
        -((-n.scaled + SCALE as int / 2) / SCALE as int)
    }
}

/// `n` rounded and clamped into `[min, max]`.
pub open spec fn clamped(n: Num, min: int, max: int) -> int {
    if n.scaled < min * SCALE {
        min
    } else if n.scaled > max * SCALE {
        max
    } else {
        rounded(n)
    }
}

/// The diagnostics for converting the number `n` at `span` into a quantity of
/// the given `kind` bounded by `[min, max]`: one where `n` lies outside.
pub open spec fn bound_reports(kind: Seq<char>, n: Num, span: Span, min: nat, max: nat) -> Seq<
    DiagView,
> {
    if n.scaled < min * SCALE {
        seq![error_at(span, "the minimum "@ + kind + " is "@ + decimal(min))]
    } else if n.scaled > max * SCALE {
        seq![error_at(span, "the maximum "@ + kind + " is "@ + decimal(max))]
    } else {
        Seq::empty()
    }
}

/// The diagnostic for a value that is neither a name nor a number.
pub open spec fn not_name_or_number(kind: Seq<char>, sv: Spanned<Value>) -> Seq<DiagView> {
    seq![
        error_at(
            sv.span,
            "expected "@ + kind + " (name or number), found "@ + value_name(sv.v),
        ),
    ]
}

/// Round and clamp `n` into `[min, max]`.
fn clamp_round(n: Num, min: u16, max: u16) -> (r: u16)
    requires
        1 <= min <= max <= 1000,
    ensures
        r == clamped(n, min as int, max as int),
{
    if n.scaled < min as i64 * SCALE {
        min
    } else if n.scaled > max as i64 * SCALE {
        max
    } else {
        ((n.scaled + SCALE / 2) / SCALE) as u16
    }
}

/// Report that `n` lies outside `[min, max]` where it does.
fn report_bounds(kind: &str, n: Num, span: Span, min: u16, max: u16, f: &mut Feedback)
    requires
        1 <= min <= max <= 1000,
    ensures
        final(f)@ == old(f)@ + bound_reports(kind@, n, span, min as nat, max as nat),
{
    if n.scaled < min as i64 * SCALE {
        let msg = String::from_str("the minimum ").concat(kind).concat(" is ").concat(
            decimal_string(min as u64).as_str(),
        );
        f.error(span, msg);
    } else if n.scaled > max as i64 * SCALE {
        let msg = String::from_str("the maximum ").concat(kind).concat(" is ").concat(
            decimal_string(max as u64).as_str(),
        );
        f.error(span, msg);
    } else {
        proof {
            lemma_append_nothing(f@);
        }
    }
    assert(final(f)@ =~= old(f)@ + bound_reports(kind@, n, span, min as nat, max as nat));
}

/// Report that a value is neither a name nor a number.
fn report_not_name_or_number(kind: &str, sv: &Spanned<Value>, f: &mut Feedback)
    ensures
        final(f)@ == old(f)@ + not_name_or_number(kind@, *sv),
{
    let msg = String::from_str("expected ").concat(kind).concat(" (name or number), found ").concat(
        sv.v.name(),
    );
    f.error(sv.span, msg);
    assert(final(f)@ =~= old(f)@ + not_name_or_number(kind@, *sv));
}

/// Matches a number, rounded and clamped into the range of weights, or an
/// identifier that names a weight.
///
/// A number outside the range is reported and still converts, to the nearest
/// bound.
impl TryFromValue for FontWeight {
    open spec fn accepts(v: Value) -> bool {
        v is Number || (v is Ident && weight_named(v->Ident_0.0@) is Some)
    }

    open spec fn converted(sv: Spanned<Value>) -> FontWeight {
        match sv.v {
            Value::Number(n) => FontWeight(clamped(n, 100, 900) as u16),
            _ => weight_named(sv.v->Ident_0.0@)->Some_0,
        }
    }

    open spec fn reports(sv: Spanned<Value>) -> Seq<DiagView> {
        match sv.v {
            Value::Number(n) => bound_reports("font weight"@, n, sv.span, 100, 900),
            Value::Ident(i) => named_reports("font weight"@, sv, weight_named(i.0@) is Some),
            _ => not_name_or_number("font weight"@, sv),
        }
    }

    proof fn lemma_rejection_reported_once(sv: Spanned<Value>) {
    }

    fn check(v: &Value) -> (r: bool) {
        match v {
            Value::Number(_) => true,
            Value::Ident(i) => FontWeight::from_name(i.as_str()).is_some(),
            _ => false,
        }
    }

    fn convert(sv: Spanned<Value>) -> (r: FontWeight) {
        match sv.v {
            Value::Number(n) => FontWeight(clamp_round(n, MIN_WEIGHT, MAX_WEIGHT)),
            Value::Ident(i) => match FontWeight::from_name(i.as_str()) {
                Some(w) => w,
                None => unreached(),
            },
            _ => unreached(),
        }
    }

    fn report(sv: &Spanned<Value>, f: &mut Feedback) {
        match &sv.v {
            Value::Number(n) => report_bounds("font weight", *n, sv.span, MIN_WEIGHT, MAX_WEIGHT, f),
            Value::Ident(i) => {
                if FontWeight::from_name(i.as_str()).is_some() {
                    proof {
                        lemma_append_nothing(f@);
                    }
                } else {
                    report_invalid("font weight", sv.span, f);
                }
            },
            _ => report_not_name_or_number("font weight", sv, f),
        }
    }
}

/// The width of a font face, from 1 (ultra-condensed) to 9 (ultra-expanded).
#[derive(Debug, Clone, Copy, PartialEq, Eq, Structural)]
pub struct FontWidth(pub u16);

/// The narrowest font width.
pub const MIN_WIDTH: u16 = 1;

/// The widest font width.
pub const MAX_WIDTH: u16 = 9;

/// The width that a name stands for, as a number.
pub open spec fn width_named(name: Seq<char>) -> Option<u16> {
    if name == "ultra-condensed"@ {
        Some(1u16)
    } else if name == "extra-condensed"@ {
        Some(2u16)
    } else if name == "condensed"@ {
        Some(3u16)
    } else if name == "semi-condensed"@ {
        Some(4u16)
    } else if name == "normal"@ {
        Some(5u16)
    } else if name == "semi-expanded"@ {
        Some(6u16)
    } else if name == "expanded"@ {
        Some(7u16)
    } else if name == "extra-expanded"@ {
        Some(8u16)
    } else if name == "ultra-expanded"@ {
        Some(9u16)
    } else {
        None
    }
}

impl FontWidth {
    /// The number of this width.
    pub open spec fn spec_value(self) -> u16 {
        self.0
    }

    /// The width with the given number, if it lies between 1 and 9.
    pub fn new(width: u16) -> (r: Option<FontWidth>)
        ensures
            1 <= width <= 9 ==> r is Some && r->Some_0.spec_value() == width,
            !(1 <= width <= 9) ==> r is None,
    {
        if MIN_WIDTH <= width && width <= MAX_WIDTH {
            Some(FontWidth(width))
        } else {
            None
        }
    }

    /// The normal width.
    pub fn normal() -> (r: FontWidth)
        ensures
            r.spec_value() == 5,
    {
        FontWidth(5)
    }

    /// The number of this width.
    pub fn to_number(self) -> (r: u16)
        ensures
            r == self.spec_value(),
    {
        self.0
    }

    /// The width that a name stands for, if any.
    pub fn from_name(name: &str) -> (r: Option<FontWidth>)
        ensures
            r is Some == width_named(name@) is Some,
            r is Some ==> r->Some_0.spec_value() == width_named(name@)->Some_0,
    {
        let n: u16 = if str_eq(name, "ultra-condensed") {
            1
        } else if str_eq(name, "extra-condensed") {
            2
        } else if str_eq(name, "condensed") {
            3
        } else if str_eq(name, "semi-condensed") {
            4
        } else if str_eq(name, "normal") {
            5
        } else if str_eq(name, "semi-expanded") {
            6
        } else if str_eq(name, "expanded") {
            7
        } else if str_eq(name, "extra-expanded") {
            8
        } else if str_eq(name, "ultra-expanded") {
            9
        } else {
            0
        };
        FontWidth::new(n)
    }
}

/// Matches a number, rounded and clamped into the range of widths, or an
/// identifier that names a width.
///
/// A number outside the range is reported and still converts, to the nearest
/// bound.
impl TryFromValue for FontWidth {
    open spec fn accepts(v: Value) -> bool {
        v is Number || (v is Ident && width_named(v->Ident_0.0@) is Some)
    }

    open spec fn converted(sv: Spanned<Value>) -> FontWidth {
        match sv.v {
            Value::Number(n) => FontWidth(clamped(n, 1, 9) as u16),
            _ => FontWidth(width_named(sv.v->Ident_0.0@)->Some_0),
        }
    }

    open spec fn reports(sv: Spanned<Value>) -> Seq<DiagView> {
        match sv.v {
            Value::Number(n) => bound_reports("font width"@, n, sv.span, 1, 9),
            Value::Ident(i) => named_reports("font width"@, sv, width_named(i.0@) is Some),
            _ => not_name_or_number("font width"@, sv),
        }
    }

    proof fn lemma_rejection_reported_once(sv: Spanned<Value>) {
    }

    fn check(v: &Value) -> (r: bool) {
        match v {
            Value::Number(_) => true,
            Value::Ident(i) => FontWidth::from_name(i.as_str()).is_some(),
            _ => false,
        }
    }

    fn convert(sv: Spanned<Value>) -> (r: FontWidth) {
        match sv.v {
            Value::Number(n) => match FontWidth::new(clamp_round(n, MIN_WIDTH, MAX_WIDTH)) {
                Some(w) => w,
                None => unreached(),
            },
            Value::Ident(i) => match FontWidth::from_name(i.as_str()) {
                Some(w) => w,
                None => unreached(),
            },
            _ => unreached(),
        }
    }

    fn report(sv: &Spanned<Value>, f: &mut Feedback) {
        match &sv.v {
            Value::Number(n) => report_bounds("font width", *n, sv.span, MIN_WIDTH, MAX_WIDTH, f),
            Value::Ident(i) => {
                if FontWidth::from_name(i.as_str()).is_some() {
                    proof {
                        lemma_append_nothing(f@);
                    }
                } else {
                    report_invalid("font width", sv.span, f);
                }
            },
            _ => report_not_name_or_number("font width", sv, f),
        }
    }
}

/// A style, weight and width that together select a font face.
#[derive(Debug, Clone, Copy, PartialEq, Eq, Structural)]
pub struct FontVariant {
    pub style: FontStyle,
    pub weight: FontWeight,
    pub stretch: FontWidth,
}

} // verus!
