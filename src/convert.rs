//! The typed-conversion protocol: narrowing a spanned value to a specific type,
//! with a diagnostic for every value that does not fit.

use vstd::prelude::*;
use vstd::string::*;

use crate::diag::{error_at, DiagView, Feedback};
use crate::geom::{Length, Num, Span, Spanned};
use crate::table::Table;
use crate::value::{value_name, DomTree, FuncValue, Ident, Value};

verus! {

/// The message for a value of the wrong kind.
pub open spec fn mismatch_message(expected: Seq<char>, found: Value) -> Seq<char> {
    "expected "@ + expected + ", found "@ + value_name(found)
}

/// The single diagnostic for a value of the wrong kind.
pub open spec fn mismatch(expected: Seq<char>, sv: Spanned<Value>) -> Seq<DiagView> {
    seq![error_at(sv.span, mismatch_message(expected, sv.v))]
}

/// Report that `sv` is not of the `expected` kind.
pub fn report_mismatch(expected: &str, sv: &Spanned<Value>, f: &mut Feedback)
    ensures
        final(f)@ == old(f)@ + mismatch(expected@, *sv),
{
    let msg = String::from_str("expected ").concat(expected).concat(", found ").concat(
        sv.v.name(),
    );
    f.error(sv.span, msg);
    assert(final(f)@ =~= old(f)@ + mismatch(expected@, *sv));
}

/// The diagnostics for converting `sv` into a type parsed from identifiers
/// of the given `kind`, where `known` says whether the identifier's text
/// names a value of that type.
pub open spec fn named_reports(kind: Seq<char>, sv: Spanned<Value>, known: bool) -> Seq<
    DiagView,
> {
    if sv.v is Ident {
        if known {
            Seq::empty()
        } else {
            seq![error_at(sv.span, "invalid "@ + kind)]
        }
    } else {
        mismatch(kind, sv)
    }
}

/// Report that an identifier names no value of the given `kind`.
pub fn report_invalid(kind: &str, span: Span, f: &mut Feedback)
    ensures
        final(f)@ == old(f)@ + seq![error_at(span, "invalid "@ + kind@)],
{
    f.error(span, String::from_str("invalid ").concat(kind));
    assert(final(f)@ =~= old(f)@ + seq![error_at(span, "invalid "@ + kind@)]);
}

/// Appending no diagnostics changes nothing.
pub proof fn lemma_append_nothing(s: Seq<DiagView>)
    ensures
        s + Seq::<DiagView>::empty() == s,
{
    assert(s + Seq::<DiagView>::empty() =~= s);
}

/// A type that values can be converted into.
pub trait TryFromValue: Sized {
    /// Whether a value converts into this type.
    spec fn accepts(v: Value) -> bool;

    /// What an accepted value converts into.
    spec fn converted(sv: Spanned<Value>) -> Self;

    /// The diagnostics that converting a value reports.
    spec fn reports(sv: Spanned<Value>) -> Seq<DiagView>;

    /// A value that does not convert is reported exactly once.
    proof fn lemma_rejection_reported_once(sv: Spanned<Value>)
        requires
            !Self::accepts(sv.v),
        ensures
            Self::reports(sv).len() == 1,
    ;

    /// Whether a value converts, without reporting anything.
    fn check(v: &Value) -> (r: bool)
        ensures
            r == Self::accepts(*v),
    ;

    /// Convert a value known to fit, without reporting anything.
    fn convert(sv: Spanned<Value>) -> (r: Self)
        requires
            Self::accepts(sv.v),
        ensures
            r == Self::converted(sv),
    ;

    /// Report what converting a value reports.
    fn report(sv: &Spanned<Value>, f: &mut Feedback)
        ensures
            final(f)@ == old(f)@ + Self::reports(*sv),
    ;

    /// Try to convert a value to this type.
    ///
    /// Returns `None` and reports an error if the value is not valid for this
    /// type.
    fn try_from_value(sv: Spanned<Value>, f: &mut Feedback) -> (r: Option<Self>)
        ensures
            r == (if Self::accepts(sv.v) {
                Some(Self::converted(sv))
            } else {
                None
            }),
            final(f)@ == old(f)@ + Self::reports(sv),
    {
        Self::report(&sv, f);
        if Self::check(&sv.v) {
            Some(Self::convert(sv))
        } else {
            None
        }
    }
}

/// Matches every value, unchanged.
impl TryFromValue for Value {
    open spec fn accepts(v: Value) -> bool {
        true
    }

    open spec fn converted(sv: Spanned<Value>) -> Value {
        sv.v
    }

    open spec fn reports(sv: Spanned<Value>) -> Seq<DiagView> {
        Seq::empty()
    }

    proof fn lemma_rejection_reported_once(sv: Spanned<Value>) {
    }

    fn check(v: &Value) -> (r: bool) {
        true
    }

    fn convert(sv: Spanned<Value>) -> (r: Value) {
        sv.v
    }

    fn report(sv: &Spanned<Value>, f: &mut Feedback) {
        proof {
            lemma_append_nothing(f@);
        }
    }
}

/// Matches an identifier value.
impl TryFromValue for Ident {
    open spec fn accepts(v: Value) -> bool {
        v is Ident
    }

    open spec fn converted(sv: Spanned<Value>) -> Ident {
        sv.v->Ident_0
    }

    open spec fn reports(sv: Spanned<Value>) -> Seq<DiagView> {
        if sv.v is Ident {
            Seq::empty()
        } else {
            mismatch("identifier"@, sv)
        }
    }

    proof fn lemma_rejection_reported_once(sv: Spanned<Value>) {
    }

    fn check(v: &Value) -> (r: bool) {
        matches!(v, Value::Ident(_))
    }

    fn convert(sv: Spanned<Value>) -> (r: Ident) {
        match sv.v {
            Value::Ident(x) => x,
            _ => unreached(),
        }
    }

    fn report(sv: &Spanned<Value>, f: &mut Feedback) {
        if Self::check(&sv.v) {
            proof {
                lemma_append_nothing(f@);
            }
        } else {
            report_mismatch("identifier", sv, f);
        }
    }
}

/// Matches a string value.
impl TryFromValue for String {
    open spec fn accepts(v: Value) -> bool {
        v is Str
    }

    open spec fn converted(sv: Spanned<Value>) -> String {
        sv.v->Str_0
    }

    open spec fn reports(sv: Spanned<Value>) -> Seq<DiagView> {
        if sv.v is Str {
            Seq::empty()
        } else {
            mismatch("string"@, sv)
        }
    }

    proof fn lemma_rejection_reported_once(sv: Spanned<Value>) {
    }

    fn check(v: &Value) -> (r: bool) {
        matches!(v, Value::Str(_))
    }

    fn convert(sv: Spanned<Value>) -> (r: String) {
        match sv.v {
            Value::Str(x) => x,
            _ => unreached(),
        }
    }

    fn report(sv: &Spanned<Value>, f: &mut Feedback) {
        if Self::check(&sv.v) {
            proof {
                lemma_append_nothing(f@);
            }
        } else {
            report_mismatch("string", sv, f);
        }
    }
}

/// Matches a boolean value.
impl TryFromValue for bool {
    open spec fn accepts(v: Value) -> bool {
        v is Bool
    }

    open spec fn converted(sv: Spanned<Value>) -> bool {
        sv.v->Bool_0
    }

    open spec fn reports(sv: Spanned<Value>) -> Seq<DiagView> {
        if sv.v is Bool {
            Seq::empty()
        } else {
            mismatch("bool"@, sv)
        }
    }

    proof fn lemma_rejection_reported_once(sv: Spanned<Value>) {
    }

    fn check(v: &Value) -> (r: bool) {
        matches!(v, Value::Bool(_))
    }

    fn convert(sv: Spanned<Value>) -> (r: bool) {
        match sv.v {
            Value::Bool(x) => x,
            _ => unreached(),
        }
    }

    fn report(sv: &Spanned<Value>, f: &mut Feedback) {
        if Self::check(&sv.v) {
            proof {
                lemma_append_nothing(f@);
            }
        } else {
            report_mismatch("bool", sv, f);
        }
    }
}

/// Matches a number value.
impl TryFromValue for Num {
    open spec fn accepts(v: Value) -> bool {
        v is Number
    }

    open spec fn converted(sv: Spanned<Value>) -> Num {
        sv.v->Number_0
    }

    open spec fn reports(sv: Spanned<Value>) -> Seq<DiagView> {
        if sv.v is Number {
            Seq::empty()
        } else {
            mismatch("number"@, sv)
        }
    }

    proof fn lemma_rejection_reported_once(sv: Spanned<Value>) {
    }

    fn check(v: &Value) -> (r: bool) {
        matches!(v, Value::Number(_))
    }

    fn convert(sv: Spanned<Value>) -> (r: Num) {
        match sv.v {
            Value::Number(x) => x,
            _ => unreached(),
        }
    }

    fn report(sv: &Spanned<Value>, f: &mut Feedback) {
        if Self::check(&sv.v) {
            proof {
                lemma_append_nothing(f@);
            }
        } else {
            report_mismatch("number", sv, f);
        }
    }
}

/// Matches a length value.
impl TryFromValue for Length {
    open spec fn accepts(v: Value) -> bool {
        v is Length
    }

    open spec fn converted(sv: Spanned<Value>) -> Length {
        sv.v->Length_0
    }

    open spec fn reports(sv: Spanned<Value>) -> Seq<DiagView> {
        if sv.v is Length {
            Seq::empty()
        } else {
            mismatch("length"@, sv)
        }
    }

    proof fn lemma_rejection_reported_once(sv: Spanned<Value>) {
    }

    fn check(v: &Value) -> (r: bool) {
        matches!(v, Value::Length(_))
    }

    fn convert(sv: Spanned<Value>) -> (r: Length) {
        match sv.v {
            Value::Length(x) => x,
            _ => unreached(),
        }
    }

    fn report(sv: &Spanned<Value>, f: &mut Feedback) {
        if Self::check(&sv.v) {
            proof {
                lemma_append_nothing(f@);
            }
        } else {
            report_mismatch("length", sv, f);
        }
    }
}

/// Matches a tree value.
impl TryFromValue for DomTree {
    open spec fn accepts(v: Value) -> bool {
        v is Tree
    }

    open spec fn converted(sv: Spanned<Value>) -> DomTree {
        sv.v->Tree_0
    }

    open spec fn reports(sv: Spanned<Value>) -> Seq<DiagView> {
        if sv.v is Tree {
            Seq::empty()
        } else {
            mismatch("tree"@, sv)
        }
    }

    proof fn lemma_rejection_reported_once(sv: Spanned<Value>) {
    }

    fn check(v: &Value) -> (r: bool) {
        matches!(v, Value::Tree(_))
    }

    fn convert(sv: Spanned<Value>) -> (r: DomTree) {
        match sv.v {
            Value::Tree(x) => x,
            _ => unreached(),
        }
    }

    fn report(sv: &Spanned<Value>, f: &mut Feedback) {
        if Self::check(&sv.v) {
            proof {
                lemma_append_nothing(f@);
            }
        } else {
            report_mismatch("tree", sv, f);
        }
    }
}

/// Matches a table value.
impl TryFromValue for Table {
    open spec fn accepts(v: Value) -> bool {
        v is Table
    }

    open spec fn converted(sv: Spanned<Value>) -> Table {
        sv.v->Table_0
    }

    open spec fn reports(sv: Spanned<Value>) -> Seq<DiagView> {
        if sv.v is Table {
            Seq::empty()
        } else {
            mismatch("table"@, sv)
        }
    }

    proof fn lemma_rejection_reported_once(sv: Spanned<Value>) {
    }

    fn check(v: &Value) -> (r: bool) {
        matches!(v, Value::Table(_))
    }

    fn convert(sv: Spanned<Value>) -> (r: Table) {
        match sv.v {
            Value::Table(x) => x,
            _ => unreached(),
        }
    }

    fn report(sv: &Spanned<Value>, f: &mut Feedback) {
        if Self::check(&sv.v) {
            proof {
                lemma_append_nothing(f@);
            }
        } else {
            report_mismatch("table", sv, f);
        }
    }
}

/// Matches a function value.
impl TryFromValue for FuncValue {
    open spec fn accepts(v: Value) -> bool {
        v is Func
    }

    open spec fn converted(sv: Spanned<Value>) -> FuncValue {
        sv.v->Func_0
    }

    open spec fn reports(sv: Spanned<Value>) -> Seq<DiagView> {
        if sv.v is Func {
            Seq::empty()
        } else {
            mismatch("function"@, sv)
        }
    }

    proof fn lemma_rejection_reported_once(sv: Spanned<Value>) {
    }

    fn check(v: &Value) -> (r: bool) {
        matches!(v, Value::Func(_))
    }

    fn convert(sv: Spanned<Value>) -> (r: FuncValue) {
        match sv.v {
            Value::Func(x) => x,
            _ => unreached(),
        }
    }

    fn report(sv: &Spanned<Value>, f: &mut Feedback) {
        if Self::check(&sv.v) {
            proof {
                lemma_append_nothing(f@);
            }
        } else {
            report_mismatch("function", sv, f);
        }
    }
}

/// A length, or a number that scales some other length.
#[derive(Debug, Clone, Copy, PartialEq, Eq, Structural)]
pub enum ScaleLength {
    Absolute(Length),
    Scaled(Num),
}

/// Matches a length or a number.
impl TryFromValue for ScaleLength {
    open spec fn accepts(v: Value) -> bool {
        v is Length || v is Number
    }

    open spec fn converted(sv: Spanned<Value>) -> ScaleLength {
        match sv.v {
            Value::Length(l) => ScaleLength::Absolute(l),
            _ => ScaleLength::Scaled(sv.v->Number_0),
        }
    }

    open spec fn reports(sv: Spanned<Value>) -> Seq<DiagView> {
        if Self::accepts(sv.v) {
            Seq::empty()
        } else {
            mismatch("number or length"@, sv)
        }
    }

    proof fn lemma_rejection_reported_once(sv: Spanned<Value>) {
    }

    fn check(v: &Value) -> (r: bool) {
        matches!(v, Value::Length(_)) || matches!(v, Value::Number(_))
    }

    fn convert(sv: Spanned<Value>) -> (r: ScaleLength) {
        match sv.v {
            Value::Length(l) => ScaleLength::Absolute(l),
            Value::Number(n) => ScaleLength::Scaled(n),
            _ => unreached(),
        }
    }

    fn report(sv: &Spanned<Value>, f: &mut Feedback) {
        if Self::check(&sv.v) {
            proof {
                lemma_append_nothing(f@);
            }
        } else {
            report_mismatch("number or length", sv, f);
        }
    }
}

/// Text that was written either as an identifier or as a string.
#[derive(Debug, Clone, PartialEq, Eq)]
pub struct StringLike(pub String);

impl StringLike {
    /// The text.
    pub fn as_str(&self) -> (r: &str)
        ensures
            r@ == self.0@,
    {
        self.0.as_str()
    }

    /// The text, as an owned string.
    pub fn into_string(self) -> (r: String)
        ensures
            r == self.0,
    {
        self.0
    }
}

impl From<StringLike> for String {
    fn from(like: StringLike) -> (r: String) {
        like.0
    }
}

impl vstd::std_specs::convert::FromSpecImpl<StringLike> for String {
    open spec fn obeys_from_spec() -> bool {
        true
    }

    open spec fn from_spec(like: StringLike) -> String {
        like.0
    }
}

/// Matches an identifier or a string and keeps its text.
impl TryFromValue for StringLike {
    open spec fn accepts(v: Value) -> bool {
        v is Ident || v is Str
    }

    open spec fn converted(sv: Spanned<Value>) -> StringLike {
        match sv.v {
            Value::Ident(i) => StringLike(i.0),
            _ => StringLike(sv.v->Str_0),
        }
    }

    open spec fn reports(sv: Spanned<Value>) -> Seq<DiagView> {
        if Self::accepts(sv.v) {
            Seq::empty()
        } else {
            mismatch("identifier or string"@, sv)
        }
    }

    proof fn lemma_rejection_reported_once(sv: Spanned<Value>) {
    }

    fn check(v: &Value) -> (r: bool) {
        matches!(v, Value::Ident(_)) || matches!(v, Value::Str(_))
    }

    fn convert(sv: Spanned<Value>) -> (r: StringLike) {
        match sv.v {
            Value::Ident(i) => StringLike(i.0),
            Value::Str(s) => StringLike(s),
            _ => unreached(),
        }
    }

    fn report(sv: &Spanned<Value>, f: &mut Feedback) {
        if Self::check(&sv.v) {
            proof {
                lemma_append_nothing(f@);
            }
        } else {
            report_mismatch("identifier or string", sv, f);
        }
    }
}

/// Converts as `T` does and keeps the span of the value.
impl<T: TryFromValue> TryFromValue for Spanned<T> {
    open spec fn accepts(v: Value) -> bool {
        T::accepts(v)
    }

    open spec fn converted(sv: Spanned<Value>) -> Spanned<T> {
        Spanned { v: T::converted(sv), span: sv.span }
    }

    open spec fn reports(sv: Spanned<Value>) -> Seq<DiagView> {
        T::reports(sv)
    }

    proof fn lemma_rejection_reported_once(sv: Spanned<Value>) {
        T::lemma_rejection_reported_once(sv);
    }

    fn check(v: &Value) -> (r: bool) {
        T::check(v)
    }

    fn convert(sv: Spanned<Value>) -> (r: Spanned<T>) {
        let span = sv.span;
        Spanned { v: T::convert(sv), span }
    }

    fn report(sv: &Spanned<Value>, f: &mut Feedback) {
        T::report(sv, f);
    }
}

} // verus!
