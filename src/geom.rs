//! Plain numeric and geometric values.
//!
//! Numbers are decimal fixed-point values with six fractional digits, so
//! comparisons and rounding are exact.

use vstd::prelude::*;

verus! {

/// The number of units in one whole of a [`Num`].
pub const SCALE: i64 = 1_000_000;

/// A decimal number, stored as a count of millionths.
#[derive(Debug, Clone, Copy, PartialEq, Eq, Structural)]
pub struct Num {
    pub scaled: i64,
}

impl Num {
    /// The whole number `n`.
    pub fn from_int(n: i32) -> (r: Num)
        ensures
            r.scaled == n as int * SCALE,
    {
        Num { scaled: n as i64 * SCALE }
    }

    /// The number `n / 1_000_000`.
    pub fn from_millionths(n: i64) -> (r: Num)
        ensures
            r.scaled == n,
    {
        Num { scaled: n }
    }
}

/// A length in typographic points.
#[derive(Debug, Clone, Copy, PartialEq, Eq, Structural)]
pub struct Length {
    pub pt: Num,
}

impl Length {
    /// A length of `n` whole points.
    pub fn pt(n: i32) -> (r: Length)
        ensures
            r.pt.scaled == n as int * SCALE,
    {
        Length { pt: Num::from_int(n) }
    }

    /// A length of `n / 1_000_000` points.
    pub fn from_millionths(n: i64) -> (r: Length)
        ensures
            r.pt.scaled == n,
    {
        Length { pt: Num { scaled: n } }
    }
}

/// `a / b` rounded towards zero.
pub open spec fn trunc_div(a: int, b: int) -> int {
    if a >= 0 {
        a / b
    } else {
        -((-a) / b)
    }
}

/// A length relative to some other length, as a ratio.
#[derive(Debug, Clone, Copy, PartialEq, Eq, Structural)]
pub struct Relative {
    pub ratio: Num,
}

/// The sum of a relative and an absolute part.
#[derive(Debug, Clone, Copy, PartialEq, Eq, Structural)]
pub struct Linear {
    pub rel: Relative,
    pub abs: Length,
}

impl Linear {
    /// The purely relative linear of `n / 1_000_000` of the base.
    pub open spec fn spec_relative(n: i64) -> Linear {
        Linear { rel: Relative { ratio: Num { scaled: n } }, abs: Length { pt: Num { scaled: 0 } } }
    }

    /// A purely relative linear of `n / 1_000_000` of the base.
    pub fn relative(n: i64) -> (r: Linear)
        ensures
            r == Linear::spec_relative(n),
    {
        Linear { rel: Relative { ratio: Num { scaled: n } }, abs: Length { pt: Num { scaled: 0 } } }
    }

    /// The length that this linear makes of `base`: the relative part of
    /// `base`, truncated to millionths of a point, plus the absolute part.
    pub open spec fn spec_resolve(self, base: Length) -> int {
        trunc_div(self.rel.ratio.scaled * base.pt.scaled, SCALE as int) + self.abs.pt.scaled
    }

    /// The length that this linear makes of `base`.
    pub fn resolve(self, base: Length) -> (r: Length)
        requires
            i64::MIN <= self.spec_resolve(base) <= i64::MAX,
        ensures
            r.pt.scaled == self.spec_resolve(base),
    {
        let p: i128 = self.rel.ratio.scaled as i128 * base.pt.scaled as i128;
        assert(-0x4000_0000_0000_0000_0000_0000_0000_0000 <= p <= 0x4000_0000_0000_0000_0000_0000_0000_0000) by (nonlinear_arith)
            requires p == self.rel.ratio.scaled as int * base.pt.scaled as int;
        let q: i128 = if p >= 0 { p / (SCALE as i128) } else { -((-p) / (SCALE as i128)) };
        Length { pt: Num { scaled: (q + self.abs.pt.scaled as i128) as i64 } }
    }

    /// The identity linear: all of the base and nothing added.
    pub fn one() -> (r: Linear)
        ensures
            r == Linear::spec_relative(SCALE),
    {
        Linear::relative(SCALE)
    }
}

/// A value for each side of a rectangle.
#[derive(Debug, Clone, Copy, PartialEq, Eq)]
pub struct Sides<T> {
    pub left: T,
    pub top: T,
    pub right: T,
    pub bottom: T,
}

impl<T: Copy> Sides<T> {
    /// The same value on every side.
    pub fn uniform(v: T) -> (r: Sides<T>)
        ensures
            r.left == v && r.top == v && r.right == v && r.bottom == v,
    {
        Sides { left: v, top: v, right: v, bottom: v }
    }
}

/// A width and a height.
#[derive(Debug, Clone, Copy, PartialEq, Eq, Structural)]
pub struct Size {
    pub width: Length,
    pub height: Length,
}

/// A range of positions in the source text.
#[derive(Debug, Clone, Copy, PartialEq, Eq, Structural)]
pub struct Span {
    pub start: u64,
    pub end: u64,
}

impl Span {
    /// The empty span at the start of the source.
    pub open spec fn spec_zero() -> Span {
        Span { start: 0, end: 0 }
    }

    /// The empty span at the start of the source.
    pub fn zero() -> (r: Span)
        ensures
            r == Span::spec_zero(),
    {
        Span { start: 0, end: 0 }
    }

    /// The span from `start` to `end`.
    pub fn new(start: u64, end: u64) -> (r: Span)
        ensures
            r.start == start && r.end == end,
    {
        Span { start, end }
    }

    /// The smallest span that covers both spans.
    pub open spec fn spec_merge(a: Span, b: Span) -> Span {
        Span {
            start: if a.start <= b.start { a.start } else { b.start },
            end: if a.end >= b.end { a.end } else { b.end },
        }
    }

    /// The smallest span that covers both spans.
    pub fn merge(a: Span, b: Span) -> (r: Span)
        ensures
            r == Span::spec_merge(a, b),
    {
        Span {
            start: if a.start <= b.start { a.start } else { b.start },
            end: if a.end >= b.end { a.end } else { b.end },
        }
    }
}

/// A value together with the source span it came from.
#[derive(Debug, Clone, Copy, PartialEq, Eq)]
pub struct Spanned<T> {
    pub v: T,
    pub span: Span,
}

impl<T> Spanned<T> {
    /// Attach a span to a value.
    pub fn new(v: T, span: Span) -> (r: Spanned<T>)
        ensures
            r.v == v && r.span == span,
    {
        Spanned { v, span }
    }

    /// Attach the zero span to a value.
    pub fn zero(v: T) -> (r: Spanned<T>)
        ensures
            r.v == v && r.span == Span::spec_zero(),
    {
        Spanned { v, span: Span::zero() }
    }
}

} // verus!
