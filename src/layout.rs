//! Directions and alignments of layouts.

use vstd::prelude::*;

use crate::convert::{lemma_append_nothing, named_reports, report_invalid, report_mismatch, TryFromValue};
use crate::diag::{DiagView, Feedback};
use crate::geom::Spanned;
use crate::text::str_eq;
use crate::value::Value;

verus! {

/// A direction in which content is laid out.
#[derive(Debug, Clone, Copy, PartialEq, Eq, Structural)]
pub enum Dir {
    /// Left to right.
    LTR,
    /// Right to left.
    RTL,
    /// Top to bottom.
    TTB,
    /// Bottom to top.
    BTT,
}

/// The direction that a name stands for.
pub open spec fn dir_named(name: Seq<char>) -> Option<Dir> {
    if name == "ltr"@ {
        Some(Dir::LTR)
    } else if name == "rtl"@ {
        Some(Dir::RTL)
    } else if name == "ttb"@ {
        Some(Dir::TTB)
    } else if name == "btt"@ {
        Some(Dir::BTT)
    } else {
        None
    }
}

impl Dir {
    /// The direction that a name stands for, if any.
    pub fn from_name(name: &str) -> (r: Option<Dir>)
        ensures
            r == dir_named(name@),
    {
        if str_eq(name, "ltr") {
            Some(Dir::LTR)
        } else if str_eq(name, "rtl") {
            Some(Dir::RTL)
        } else if str_eq(name, "ttb") {
            Some(Dir::TTB)
        } else if str_eq(name, "btt") {
            Some(Dir::BTT)
        } else {
            None
        }
    }
}

/// Matches an identifier that names a direction.
impl TryFromValue for Dir {
    open spec fn accepts(v: Value) -> bool {
        v is Ident && dir_named(v->Ident_0.0@) is Some
    }

    open spec fn converted(sv: Spanned<Value>) -> Dir {
        dir_named(sv.v->Ident_0.0@)->Some_0
    }

    open spec fn reports(sv: Spanned<Value>) -> Seq<DiagView> {
        named_reports("direction"@, sv, Self::accepts(sv.v))
    }

    proof fn lemma_rejection_reported_once(sv: Spanned<Value>) {
    }

    fn check(v: &Value) -> (r: bool) {
        match v {
            Value::Ident(i) => Dir::from_name(i.as_str()).is_some(),
            _ => false,
        }
    }

    fn convert(sv: Spanned<Value>) -> (r: Dir) {
        match sv.v {
            Value::Ident(i) => match Dir::from_name(i.as_str()) {
                Some(d) => d,
                None => unreached(),
            },
            _ => unreached(),
        }
    }

    fn report(sv: &Spanned<Value>, f: &mut Feedback) {
        match &sv.v {
            Value::Ident(i) => {
                if Dir::from_name(i.as_str()).is_some() {
                    proof {
                        lemma_append_nothing(f@);
                    }
                } else {
                    report_invalid("direction", sv.span, f);
                }
            },
            _ => report_mismatch("direction", sv, f),
        }
    }
}

/// An alignment within a layout, along a specific axis.
#[derive(Debug, Clone, Copy, PartialEq, Eq, Structural)]
pub enum SpecAlign {
    Left,
    Right,
    Top,
    Bottom,
    Center,
}

/// The alignment that a name stands for.
pub open spec fn align_named(name: Seq<char>) -> Option<SpecAlign> {
    if name == "left"@ {
        Some(SpecAlign::Left)
    } else if name == "right"@ {
        Some(SpecAlign::Right)
    } else if name == "top"@ {
        Some(SpecAlign::Top)
    } else if name == "bottom"@ {
        Some(SpecAlign::Bottom)
    } else if name == "center"@ {
        Some(SpecAlign::Center)
    } else {
        None
    }
}

impl SpecAlign {
    /// The alignment that a name stands for, if any.
    pub fn from_name(name: &str) -> (r: Option<SpecAlign>)
        ensures
            r == align_named(name@),
    {
        if str_eq(name, "left") {
            Some(SpecAlign::Left)
        } else if str_eq(name, "right") {
            Some(SpecAlign::Right)
        } else if str_eq(name, "top") {
            Some(SpecAlign::Top)
        } else if str_eq(name, "bottom") {
            Some(SpecAlign::Bottom)
        } else if str_eq(name, "center") {
            Some(SpecAlign::Center)
        } else {
            None
        }
    }
}

/// Matches an identifier that names an alignment.
impl TryFromValue for SpecAlign {
    open spec fn accepts(v: Value) -> bool {
        v is Ident && align_named(v->Ident_0.0@) is Some
    }

    open spec fn converted(sv: Spanned<Value>) -> SpecAlign {
        align_named(sv.v->Ident_0.0@)->Some_0
    }

    open spec fn reports(sv: Spanned<Value>) -> Seq<DiagView> {
        named_reports("alignment"@, sv, Self::accepts(sv.v))
    }

    proof fn lemma_rejection_reported_once(sv: Spanned<Value>) {
    }

    fn check(v: &Value) -> (r: bool) {
        match v {
            Value::Ident(i) => SpecAlign::from_name(i.as_str()).is_some(),
            _ => false,
        }
    }

    fn convert(sv: Spanned<Value>) -> (r: SpecAlign) {
        match sv.v {
            Value::Ident(i) => match SpecAlign::from_name(i.as_str()) {
                Some(a) => a,
                None => unreached(),
            },
            _ => unreached(),
        }
    }

    fn report(sv: &Spanned<Value>, f: &mut Feedback) {
        match &sv.v {
            Value::Ident(i) => {
                if SpecAlign::from_name(i.as_str()).is_some() {
                    proof {
                        lemma_append_nothing(f@);
                    }
                } else {
                    report_invalid("alignment", sv.span, f);
                }
            },
            _ => report_mismatch("alignment", sv, f),
        }
    }
}

/// An alignment relative to the direction of a layout.
#[derive(Debug, Clone, Copy, PartialEq, Eq, Structural)]
pub enum Align {
    Start,
    Center,
    End,
}

/// The primary and secondary directions of layouts.
#[derive(Debug, Clone, Copy, PartialEq, Eq, Structural)]
pub struct LayoutDirs {
    pub primary: Dir,
    pub secondary: Dir,
}

/// The primary and secondary alignments of layouts.
#[derive(Debug, Clone, Copy, PartialEq, Eq, Structural)]
pub struct LayoutAligns {
    pub primary: Align,
    pub secondary: Align,
}

} // verus!
