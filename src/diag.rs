//! Diagnostics: errors and warnings attached to source spans.

use vstd::prelude::*;

use crate::geom::Span;

verus! {

/// How severe a diagnostic is.
#[derive(Debug, Clone, Copy, PartialEq, Eq, Structural)]
pub enum Level {
    Warning,
    Error,
}

/// A message at a span of the source.
#[derive(Debug, Clone, PartialEq, Eq)]
pub struct Diag {
    pub level: Level,
    pub span: Span,
    pub message: String,
}

/// The mathematical content of a diagnostic.
pub struct DiagView {
    pub level: Level,
    pub span: Span,
    pub message: Seq<char>,
}

impl View for Diag {
    type V = DiagView;

    open spec fn view(&self) -> DiagView {
        DiagView { level: self.level, span: self.span, message: self.message@ }
    }
}

/// The view of an error with the given span and message.
pub open spec fn error_at(span: Span, message: Seq<char>) -> DiagView {
    DiagView { level: Level::Error, span, message }
}

impl Diag {
    /// An error at `span`.
    pub fn error(span: Span, message: String) -> (r: Diag)
        ensures
            r@ == error_at(span, message@),
    {
        Diag { level: Level::Error, span, message }
    }
}

/// An append-only, ordered collection of diagnostics.
#[derive(Debug, Clone, PartialEq, Eq)]
pub struct Feedback {
    pub diagnostics: Vec<Diag>,
}

impl View for Feedback {
    type V = Seq<DiagView>;

    open spec fn view(&self) -> Seq<DiagView> {
        self.diagnostics@.map_values(|d: Diag| d@)
    }
}

impl Feedback {
    /// An empty collection.
    pub fn new() -> (r: Feedback)
        ensures
            r@ == Seq::<DiagView>::empty(),
    {
        let r = Feedback { diagnostics: Vec::new() };
        assert(r@ =~= Seq::<DiagView>::empty());
        r
    }

    /// Append an error with the given span and message.
    pub fn error(&mut self, span: Span, message: String)
        ensures
            final(self)@ == old(self)@.push(error_at(span, message@)),
    {
        let ghost before = self@;
        self.diagnostics.push(Diag::error(span, message));
        assert(self@ =~= before.push(error_at(span, message@)));
    }
}

} // verus!
