//! Markup built-ins and the execution of the templates they produce.
//!
//! A built-in pulls its arguments out of a table and returns a template.
//! Executing a template emits content into a context, styled by the context's
//! current state. Templates with a body change the state only while their
//! body runs and then restore it; without a body, a change persists for the
//! rest of the enclosing scope.

use vstd::prelude::*;

use crate::diag::Feedback;
use crate::extract::{expected, took, took_key};
use crate::geom::{trunc_div, Length, Linear, Num, Relative, Span, SCALE};
use crate::state::{FamilyMap, FontFamily, FontState, State};
use crate::table::Table;
use crate::value::{DomTree, Node};

verus! {

/// A node of content together with the style it was set in.
#[derive(Debug, Clone, PartialEq)]
pub struct Run {
    pub node: Node,
    /// Whether the strong toggle was on.
    pub strong: bool,
    /// Whether the emphasis toggle was on.
    pub emph: bool,
    /// The scale applied to the font size.
    pub scale: Linear,
    /// Whether monospace came first among the font families.
    pub monospace: bool,
}

/// Whether monospace comes first among the state's font families.
pub open spec fn leads_with_monospace(s: State) -> bool {
    s.font.families.list@.len() > 0 && s.font.families.list@[0] == FontFamily::Monospace
}

/// A node set in the style of a state.
pub open spec fn styled(node: Node, s: State) -> Run {
    Run {
        node,
        strong: s.font.strong,
        emph: s.font.emph,
        scale: s.font.scale,
        monospace: leads_with_monospace(s),
    }
}

/// Nodes set in the style of a state, in order.
pub open spec fn styled_all(nodes: Seq<Node>, s: State) -> Seq<Run> {
    nodes.map_values(|n: Node| styled(n, s))
}

/// The state with the strong toggle set to `on`.
pub open spec fn with_strong(s: State, on: bool) -> State {
    State { font: FontState { strong: on, ..s.font }, ..s }
}

/// The state with the emphasis toggle set to `on`.
pub open spec fn with_emph(s: State, on: bool) -> State {
    State { font: FontState { emph: on, ..s.font }, ..s }
}

/// The factor by which a heading of the given level scales the font size:
/// `1.6 - 0.1 * level`.
pub open spec fn upscale(level: Num) -> int {
    16 * SCALE / 10 - trunc_div(level.scaled as int, 10)
}

/// `v * k / 1_000_000`, rounded towards zero.
pub open spec fn times(v: i64, k: int) -> int {
    trunc_div(v * k, SCALE as int)
}

/// Whether scaling `l` by `k / 1_000_000` stays within the range of lengths.
pub open spec fn scale_fits(l: Linear, k: int) -> bool {
    &&& i64::MIN <= times(l.rel.ratio.scaled, k) <= i64::MAX
    &&& i64::MIN <= times(l.abs.pt.scaled, k) <= i64::MAX
}

/// `l` scaled by `k / 1_000_000`, where that fits.
pub open spec fn scaled(l: Linear, k: int) -> Linear {
    Linear {
        rel: Relative { ratio: Num { scaled: times(l.rel.ratio.scaled, k) as i64 } },
        abs: Length { pt: Num { scaled: times(l.abs.pt.scaled, k) as i64 } },
    }
}

/// The state in which a heading of the given level sets its body.
pub open spec fn heading_state(s: State, level: Num) -> State {
    State { font: FontState { scale: scaled(s.font.scale, upscale(level)), strong: true, ..s.font }, ..s }
}

/// `v * k / 1_000_000`, rounded towards zero.
fn times_exec(v: i64, k: i64) -> (r: i64)
    requires
        i64::MIN <= times(v, k as int) <= i64::MAX,
    ensures
        r == times(v, k as int),
{
    let p: i128 = v as i128 * k as i128;
    assert(-0x4000_0000_0000_0000_0000_0000_0000_0000 <= p <= 0x4000_0000_0000_0000_0000_0000_0000_0000) by (nonlinear_arith)
        requires
            p == v as int * k as int,
    ;
    let q: i128 = if p >= 0 {
        p / (SCALE as i128)
    } else {
        -((-p) / (SCALE as i128))
    };
    q as i64
}

/// The factor by which a heading of the given level scales the font size.
fn upscale_exec(level: Num) -> (r: i64)
    ensures
        r == upscale(level),
{
    let l = level.scaled as i128;
    let tenth: i128 = if l >= 0 {
        l / 10
    } else {
        -((-l) / 10)
    };
    (16 * SCALE as i128 / 10 - tenth) as i64
}

/// The state and the content under construction while executing templates.
#[derive(Debug)]
pub struct ExecCtx {
    /// The current state.
    pub state: State,
    /// The content emitted so far, in order.
    pub runs: Vec<Run>,
}

impl ExecCtx {
    /// A context in the given state with no content.
    pub fn new(state: State) -> (r: ExecCtx)
        ensures
            r.state == state,
            r.runs@.len() == 0,
    {
        ExecCtx { state, runs: Vec::new() }
    }

    /// Emit a node in the current style.
    pub fn push_node(&mut self, node: Node)
        ensures
            final(self).state == old(self).state,
            final(self).runs@ == old(self).runs@.push(styled(node, old(self).state)),
    {
        let list = &self.state.font.families.list;
        let monospace = list.len() > 0 && matches!(list[0], FontFamily::Monospace);
        let run = Run {
            node,
            strong: self.state.font.strong,
            emph: self.state.font.emph,
            scale: self.state.font.scale,
            monospace,
        };
        self.runs.push(run);
    }

    /// Emit a line break.
    pub fn linebreak(&mut self)
        ensures
            final(self).state == old(self).state,
            final(self).runs@ == old(self).runs@.push(styled(Node::Linebreak, old(self).state)),
    {
        self.push_node(Node::Linebreak);
    }

    /// Emit a paragraph break.
    pub fn parbreak(&mut self)
        ensures
            final(self).state == old(self).state,
            final(self).runs@ == old(self).runs@.push(styled(Node::Parbreak, old(self).state)),
    {
        self.push_node(Node::Parbreak);
    }

    /// Emit text.
    pub fn push_text(&mut self, text: String)
        ensures
            final(self).state == old(self).state,
            final(self).runs@ == old(self).runs@.push(styled(Node::Text(text), old(self).state)),
    {
        self.push_node(Node::Text(text));
    }

    /// Put monospace in front of the font families.
    pub fn set_monospace(&mut self)
        ensures
            final(self).state.font.families.list@ == seq![FontFamily::Monospace]
                + old(self).state.font.families.list@,
            final(self).state == (State {
                font: FontState {
                    families: FamilyMap {
                        list: final(self).state.font.families.list,
                        ..old(self).state.font.families
                    },
                    ..old(self).state.font
                },
                ..old(self).state
            }),
            final(self).runs@ == old(self).runs@,
    {
        self.state.font.families.list.insert(0, FontFamily::Monospace);
        assert(self.state.font.families.list@ =~= seq![FontFamily::Monospace] + old(
            self,
        ).state.font.families.list@);
    }

    /// Emit the nodes of a body in the current style.
    pub fn exec(&mut self, body: DomTree)
        ensures
            final(self).state == old(self).state,
            final(self).runs@ == old(self).runs@ + styled_all(body@, old(self).state),
    {
        let mut body = body;
        let ghost b = body@;
        let ghost start = self.runs@;
        let ghost mut i: int = 0;
        while body.len() > 0
            invariant
                0 <= i <= b.len(),
                body@ == b.subrange(i, b.len() as int),
                self.state == old(self).state,
                start == old(self).runs@,
                self.runs@ == start + styled_all(b.subrange(0, i), old(self).state),
            decreases body.len(),
        {
            let node = body.remove(0);
            assert(node == b[i]);
            self.push_node(node);
            assert(styled_all(b.subrange(0, i + 1), old(self).state) =~= styled_all(
                b.subrange(0, i),
                old(self).state,
            ).push(styled(b[i], old(self).state)));
            proof {
                i = i + 1;
            }
            assert(body@ =~= b.subrange(i, b.len() as int));
            assert(self.runs@ =~= start + styled_all(b.subrange(0, i), old(self).state));
        }
        assert(b.subrange(0, b.len() as int) =~= b);
    }
}

/// Content whose execution emits nodes and changes the state.
#[derive(Debug, PartialEq)]
pub enum Template {
    /// A line break.
    Linebreak,
    /// A paragraph break.
    Parbreak,
    /// Flip the strong toggle, for the body where there is one.
    Strong(Option<DomTree>),
    /// Flip the emphasis toggle, for the body where there is one.
    Emph(Option<DomTree>),
    /// A heading of the given level and body.
    Heading(Num, DomTree),
    /// Raw text, set in monospace, as a block of its own where the flag is set.
    Raw(String, bool),
}

/// A paragraph break where `block` holds.
pub open spec fn block_break(block: bool, s: State) -> Seq<Run> {
    if block {
        seq![styled(Node::Parbreak, s)]
    } else {
        Seq::empty()
    }
}

impl Template {
    /// Whether executing this template in state `s` stays within the range
    /// of lengths.
    pub open spec fn fits(&self, s: State) -> bool {
        match self {
            Template::Heading(level, _) => scale_fits(s.font.scale, upscale(*level)),
            _ => true,
        }
    }

    /// The state after executing this template in state `s`.
    pub open spec fn state_after(&self, s: State) -> State {
        match self {
            Template::Strong(None) => with_strong(s, !s.font.strong),
            Template::Emph(None) => with_emph(s, !s.font.emph),
            _ => s,
        }
    }

    /// What executing this template in state `s` emits.
    pub open spec fn emitted(&self, s: State) -> Seq<Run> {
        match self {
            Template::Linebreak => seq![styled(Node::Linebreak, s)],
            Template::Parbreak => seq![styled(Node::Parbreak, s)],
            Template::Strong(Some(body)) => styled_all(body@, with_strong(s, !s.font.strong)),
            Template::Emph(Some(body)) => styled_all(body@, with_emph(s, !s.font.emph)),
            Template::Heading(level, body) => styled_all(body@, heading_state(s, *level)).push(
                styled(Node::Parbreak, s),
            ),
            Template::Raw(text, block) => block_break(*block, s) + seq![
                Run {
                    node: Node::Text(*text),
                    strong: s.font.strong,
                    emph: s.font.emph,
                    scale: s.font.scale,
                    monospace: true,
                },
            ] + block_break(*block, s),
            _ => Seq::empty(),
        }
    }

    /// Execute this template: emit its content and apply its change of state.
    pub fn exec(self, ctx: &mut ExecCtx)
        requires
            self.fits(old(ctx).state),
        ensures
            final(ctx).state == self.state_after(old(ctx).state),
            final(ctx).runs@ == old(ctx).runs@ + self.emitted(old(ctx).state),
    {
        match self {
            Template::Linebreak => ctx.linebreak(),
            Template::Parbreak => ctx.parbreak(),
            Template::Strong(body) => exec_strong(ctx, body),
            Template::Emph(body) => exec_emph(ctx, body),
            Template::Heading(level, body) => exec_heading(ctx, level, body),
            Template::Raw(text, block) => exec_raw(ctx, text, block),
        }
    }
}

/// Flip the strong toggle: for the body where there is one, else for good.
fn exec_strong(ctx: &mut ExecCtx, body: Option<DomTree>)
    ensures
        final(ctx).state == Template::Strong(body).state_after(old(ctx).state),
        final(ctx).runs@ == old(ctx).runs@ + Template::Strong(body).emitted(old(ctx).state),
{
    let snapshot = ctx.state.font.strong;
    ctx.state.font.strong = !snapshot;
    if let Some(body) = body {
        ctx.exec(body);
        ctx.state.font.strong = snapshot;
    } else {
        assert(ctx.runs@ =~= old(ctx).runs@ + Seq::<Run>::empty());
    }
}

/// Flip the emphasis toggle: for the body where there is one, else for good.
fn exec_emph(ctx: &mut ExecCtx, body: Option<DomTree>)
    ensures
        final(ctx).state == Template::Emph(body).state_after(old(ctx).state),
        final(ctx).runs@ == old(ctx).runs@ + Template::Emph(body).emitted(old(ctx).state),
{
    let snapshot = ctx.state.font.emph;
    ctx.state.font.emph = !snapshot;
    if let Some(body) = body {
        ctx.exec(body);
        ctx.state.font.emph = snapshot;
    } else {
        assert(ctx.runs@ =~= old(ctx).runs@ + Seq::<Run>::empty());
    }
}

/// Set the body larger and strong, then end the paragraph.
fn exec_heading(ctx: &mut ExecCtx, level: Num, body: DomTree)
    requires
        scale_fits(old(ctx).state.font.scale, upscale(level)),
    ensures
        final(ctx).state == old(ctx).state,
        final(ctx).runs@ == old(ctx).runs@ + Template::Heading(level, body).emitted(old(ctx).state),
{
    let scale = ctx.state.font.scale;
    let strong = ctx.state.font.strong;
    let up = upscale_exec(level);
    ctx.state.font.scale = Linear {
        rel: Relative { ratio: Num { scaled: times_exec(scale.rel.ratio.scaled, up) } },
        abs: Length { pt: Num { scaled: times_exec(scale.abs.pt.scaled, up) } },
    };
    ctx.state.font.strong = true;
    assert(ctx.state == heading_state(old(ctx).state, level));
    ctx.exec(body);
    ctx.state.font.scale = scale;
    ctx.state.font.strong = strong;
    assert(ctx.state == old(ctx).state);
    ctx.parbreak();
    assert(ctx.runs@ =~= old(ctx).runs@ + Template::Heading(level, body).emitted(old(ctx).state));
}

/// Emit the text in monospace, between paragraph breaks where `block` holds.
fn exec_raw(ctx: &mut ExecCtx, text: String, block: bool)
    ensures
        final(ctx).state == old(ctx).state,
        final(ctx).runs@ == old(ctx).runs@ + Template::Raw(text, block).emitted(old(ctx).state),
{
    if block {
        ctx.parbreak();
    }
    let mut saved = ctx.state.font.families.list.clone();
    std::mem::swap(&mut saved, &mut ctx.state.font.families.list);
    ctx.set_monospace();
    ctx.push_text(text);
    ctx.state.font.families.list = saved;
    assert(ctx.state == old(ctx).state);
    if block {
        ctx.parbreak();
    }
    assert(ctx.runs@ =~= old(ctx).runs@ + Template::Raw(text, block).emitted(old(ctx).state));
}

/// `linebreak`: Start a new line.
///
/// Takes no arguments.
pub fn linebreak(args: &mut Table) -> (r: Template)
    ensures
        r == Template::Linebreak,
        *final(args) == *old(args),
{
    Template::Linebreak
}

/// `parbreak`: Start a new paragraph.
///
/// Takes no arguments.
pub fn parbreak(args: &mut Table) -> (r: Template)
    ensures
        r == Template::Parbreak,
        *final(args) == *old(args),
{
    Template::Parbreak
}

/// `strong`: Strong text.
///
/// The body is the first positional argument that is a tree, if any. The
/// template flips the strong toggle, scoped to the body if present.
pub fn strong(args: &mut Table) -> (r: Template)
    requires
        old(args).wf(),
    ensures
        r is Strong,
        took::<DomTree>(*old(args), *final(args), r->Strong_0),
{
    Template::Strong(args.take::<DomTree>())
}

/// `emph`: Emphasized text.
///
/// The body is the first positional argument that is a tree, if any. The
/// template flips the emphasis toggle, scoped to the body if present.
pub fn emph(args: &mut Table) -> (r: Template)
    requires
        old(args).wf(),
    ensures
        r is Emph,
        took::<DomTree>(*old(args), *final(args), r->Emph_0),
{
    Template::Emph(args.take::<DomTree>())
}

/// `heading`: A section heading.
///
/// The level is the named argument `level`, 1 by default; the body is the
/// required positional argument `body`, empty where it is missing. `span` is
/// where a missing body is reported. The template sets the body larger and
/// strong, then ends the paragraph.
pub fn heading(args: &mut Table, span: Span, f: &mut Feedback) -> (r: Template)
    requires
        old(args).wf(),
    ensures
        r is Heading,
        exists|mid: Table, diags: Seq<crate::diag::DiagView>, level: Option<Num>, body: Option<DomTree>|
            {
                &&& took_key::<Num>(*old(args), mid, "level"@, old(f)@, diags, level)
                &&& expected::<DomTree>(mid, *final(args), "body"@, span, diags, final(f)@, body)
                &&& r->Heading_0 == (match level {
                    Some(l) => l,
                    None => Num { scaled: SCALE },
                })
                &&& body is Some ==> r->Heading_1 == body->Some_0
                &&& body is None ==> r->Heading_1@.len() == 0
            },
{
    let ghost before = *args;
    let ghost diags0 = f@;
    let level = args.take_key::<Num>("level", f);
    let ghost mid = *args;
    let ghost diags = f@;
    let body = args.expect::<DomTree>("body", span, f);
    let ghost got_level = level;
    let level_num = match level {
        Some(l) => l,
        None => Num::from_int(1),
    };
    let body_tree = match body {
        Some(b) => b,
        None => Vec::new(),
    };
    let r = Template::Heading(level_num, body_tree);
    assert(took_key::<Num>(before, mid, "level"@, diags0, diags, got_level));
    r
}

/// `raw`: Raw text.
///
/// The text is the required positional argument `text`, empty where it is
/// missing; `span` is where a missing text is reported. The named argument
/// `lang` is taken and set aside; the named argument `block`, false by
/// default, makes the text a block of its own.
pub fn raw(args: &mut Table, span: Span, f: &mut Feedback) -> (r: Template)
    requires
        old(args).wf(),
    ensures
        r is Raw,
        exists|
            mid: Table,
            mid2: Table,
            d1: Seq<crate::diag::DiagView>,
            d2: Seq<crate::diag::DiagView>,
            text: Option<String>,
            lang: Option<String>,
            block: Option<bool>,
        |
            {
                &&& expected::<String>(*old(args), mid, "text"@, span, old(f)@, d1, text)
                &&& took_key::<String>(mid, mid2, "lang"@, d1, d2, lang)
                &&& took_key::<bool>(mid2, *final(args), "block"@, d2, final(f)@, block)
                &&& text is Some ==> r->Raw_0 == text->Some_0
                &&& text is None ==> r->Raw_0@.len() == 0
                &&& r->Raw_1 == (block == Some(true))
            },
{
    let text = args.expect::<String>("text", span, f);
    let ghost mid = *args;
    let ghost d1 = f@;
    let lang = args.take_key::<String>("lang", f);
    let ghost mid2 = *args;
    let ghost d2 = f@;
    let block = args.take_key::<bool>("block", f);
    let ghost got_lang = lang;
    let text = match text {
        Some(t) => t,
        None => String::new(),
    };
    let block = match block {
        Some(b) => b,
        None => false,
    };
    let r = Template::Raw(text, block);
    assert(took_key::<String>(mid, mid2, "lang"@, d1, d2, got_lang));
    r
}

} // verus!
