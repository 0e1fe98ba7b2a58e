//! Predefined paper sizes and the default margins of paper classes.

use vstd::prelude::*;

use crate::convert::{lemma_append_nothing, named_reports, report_invalid, report_mismatch, TryFromValue};
use crate::diag::{DiagView, Feedback};
use crate::geom::{Length, Linear, Sides, Size, Spanned};
use crate::text::str_eq;
use crate::value::Value;

verus! {

/// A class of paper, which decides the default margins.
#[derive(Debug, Clone, Copy, PartialEq, Eq, Structural)]
pub enum PaperClass {
    Custom,
    Base,
    US,
    Newspaper,
    Book,
}

/// The default margins of a class, in millionths of the page's extent:
/// left, top, right and bottom.
pub open spec fn class_margins(class: PaperClass) -> (i64, i64, i64, i64) {
    match class {
        PaperClass::Custom => (119000, 84200, 119000, 84200),
        PaperClass::Base => (119000, 84200, 119000, 84200),
        PaperClass::US => (176000, 109200, 176000, 91000),
        PaperClass::Newspaper => (45500, 58700, 45500, 29400),
        PaperClass::Book => (120000, 85200, 150000, 96500),
    }
}

impl PaperClass {
    /// The default margins for this class of paper, relative to the page.
    pub open spec fn spec_default_margins(self) -> Sides<Linear> {
        Sides {
            left: Linear::spec_relative(class_margins(self).0),
            top: Linear::spec_relative(class_margins(self).1),
            right: Linear::spec_relative(class_margins(self).2),
            bottom: Linear::spec_relative(class_margins(self).3),
        }
    }

    /// The default margins for this class of paper, relative to the page.
    pub fn default_margins(self) -> (r: Sides<Linear>)
        ensures
            r == self.spec_default_margins(),
    {
        let (l, t, r, b): (i64, i64, i64, i64) = match self {
            PaperClass::Custom => (119000, 84200, 119000, 84200),
            PaperClass::Base => (119000, 84200, 119000, 84200),
            PaperClass::US => (176000, 109200, 176000, 91000),
            PaperClass::Newspaper => (45500, 58700, 45500, 29400),
            PaperClass::Book => (120000, 85200, 150000, 96500),
        };
        Sides {
            left: Linear::relative(l),
            top: Linear::relative(t),
            right: Linear::relative(r),
            bottom: Linear::relative(b),
        }
    }
}

/// A paper: its class and its extent in millionths of a point.
#[derive(Debug, Clone, Copy, PartialEq, Eq, Structural)]
pub struct Paper {
    pub class: PaperClass,
    pub width: i64,
    pub height: i64,
}

/// The paper that a name stands for.
pub open spec fn paper_named(name: Seq<char>) -> Option<Paper> {
    if name == "a3"@ {
        Some(Paper { class: PaperClass::Base, width: 841889764, height: 1190551181 })
    } else if name == "a4"@ {
        Some(Paper { class: PaperClass::Base, width: 595275591, height: 841889764 })
    } else if name == "a5"@ {
        Some(Paper { class: PaperClass::Base, width: 419527559, height: 595275591 })
    } else if name == "us-letter"@ {
        Some(Paper { class: PaperClass::US, width: 612000000, height: 792000000 })
    } else if name == "us-legal"@ {
        Some(Paper { class: PaperClass::US, width: 612000000, height: 1008000000 })
    } else {
        None
    }
}

impl Paper {
    /// ISO A4: 210 by 297 millimetres.
    pub fn a4() -> (r: Paper)
        ensures
            r == (Paper { class: PaperClass::Base, width: 595275591, height: 841889764 }),
    {
        Paper { class: PaperClass::Base, width: 595275591, height: 841889764 }
    }

    /// The paper that a name stands for, if any.
    pub fn from_name(name: &str) -> (r: Option<Paper>)
        ensures
            r == paper_named(name@),
    {
        if str_eq(name, "a3") {
            Some(Paper { class: PaperClass::Base, width: 841889764, height: 1190551181 })
        } else if str_eq(name, "a4") {
            Some(Paper { class: PaperClass::Base, width: 595275591, height: 841889764 })
        } else if str_eq(name, "a5") {
            Some(Paper { class: PaperClass::Base, width: 419527559, height: 595275591 })
        } else if str_eq(name, "us-letter") {
            Some(Paper { class: PaperClass::US, width: 612000000, height: 792000000 })
        } else if str_eq(name, "us-legal") {
            Some(Paper { class: PaperClass::US, width: 612000000, height: 1008000000 })
        } else {
            None
        }
    }

    /// The width and height of the paper.
    pub fn size(self) -> (r: Size)
        ensures
            r.width.pt.scaled == self.width,
            r.height.pt.scaled == self.height,
    {
        Size { width: Length::from_millionths(self.width), height: Length::from_millionths(self.height) }
    }
}

/// Matches an identifier that names a paper.
impl TryFromValue for Paper {
    open spec fn accepts(v: Value) -> bool {
        v is Ident && paper_named(v->Ident_0.0@) is Some
    }

    open spec fn converted(sv: Spanned<Value>) -> Paper {
        paper_named(sv.v->Ident_0.0@)->Some_0
    }

    open spec fn reports(sv: Spanned<Value>) -> Seq<DiagView> {
        named_reports("paper"@, sv, Self::accepts(sv.v))
    }

    proof fn lemma_rejection_reported_once(sv: Spanned<Value>) {
    }

    fn check(v: &Value) -> (r: bool) {
        match v {
            Value::Ident(i) => Paper::from_name(i.as_str()).is_some(),
            _ => false,
        }
    }

    fn convert(sv: Spanned<Value>) -> (r: Paper) {
        match sv.v {
            Value::Ident(i) => match Paper::from_name(i.as_str()) {
                Some(p) => p,
                None => unreached(),
            },
            _ => unreached(),
        }
    }

    fn report(sv: &Spanned<Value>, f: &mut Feedback) {
        match &sv.v {
            Value::Ident(i) => {
                if Paper::from_name(i.as_str()).is_some() {
                    proof {
                        lemma_append_nothing(f@);
                    }
                } else {
                    report_invalid("paper", sv.span, f);
                }
            },
            _ => report_mismatch("paper", sv, f),
        }
    }
}

} // verus!
