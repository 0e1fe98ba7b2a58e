use typst::diag::{Diag, Feedback};
use typst::geom::{Linear, Num, Span, Spanned};
use typst::markup::{emph, heading, linebreak, parbreak, raw, strong, ExecCtx, Run, Template};
use typst::state::{FontFamily, State};
use typst::table::{SpannedEntry, Table};
use typst::value::{Node, Value};

fn entry(value: Value) -> SpannedEntry {
    SpannedEntry::val(Spanned::zero(value))
}

fn run(node: Node, strong: bool, emph: bool, scale: Linear, monospace: bool) -> Run {
    Run { node, strong, emph, scale, monospace }
}

fn text(s: &str) -> Node {
    Node::Text(s.to_string())
}

#[test]
fn breaks_emit_their_nodes() {
    let mut args = Table::new();
    let mut ctx = ExecCtx::new(State::default());
    linebreak(&mut args).exec(&mut ctx);
    parbreak(&mut args).exec(&mut ctx);
    assert_eq!(
        ctx.runs,
        vec![
            run(Node::Linebreak, false, false, Linear::one(), false),
            run(Node::Parbreak, false, false, Linear::one(), false),
        ]
    );
    assert_eq!(ctx.state, State::default());
}

#[test]
fn strong_with_body_is_scoped() {
    let mut args = Table::new();
    args.insert(0, entry(Value::Bool(true)));
    args.insert(1, entry(Value::Tree(vec![text("bold")])));
    let template = strong(&mut args);
    assert_eq!(template, Template::Strong(Some(vec![text("bold")])));
    assert_eq!(args.len(), 1);
    let mut ctx = ExecCtx::new(State::default());
    template.exec(&mut ctx);
    assert_eq!(ctx.runs, vec![run(text("bold"), true, false, Linear::one(), false)]);
    assert_eq!(ctx.state, State::default());
}

#[test]
fn strong_without_body_persists() {
    let mut args = Table::new();
    let mut ctx = ExecCtx::new(State::default());
    strong(&mut args).exec(&mut ctx);
    assert!(ctx.state.font.strong);
    assert!(ctx.runs.is_empty());
    ctx.push_text("after".to_string());
    strong(&mut args).exec(&mut ctx);
    assert!(!ctx.state.font.strong);
    assert_eq!(ctx.runs, vec![run(text("after"), true, false, Linear::one(), false)]);
}

#[test]
fn emph_with_and_without_body() {
    let mut args = Table::new();
    args.insert(0, entry(Value::Tree(vec![text("it")])));
    let mut ctx = ExecCtx::new(State::default());
    emph(&mut args).exec(&mut ctx);
    assert!(!ctx.state.font.emph);
    emph(&mut args).exec(&mut ctx);
    assert!(ctx.state.font.emph);
    assert_eq!(ctx.runs, vec![run(text("it"), false, true, Linear::one(), false)]);
}

#[test]
fn heading_scales_and_ends_paragraph() {
    let mut f = Feedback::new();
    let mut args = Table::new();
    args.insert_str("level", entry(Value::Number(Num::from_int(2))));
    args.insert(0, entry(Value::Tree(vec![text("Intro")])));
    let template = heading(&mut args, Span::zero(), &mut f);
    assert_eq!(template, Template::Heading(Num::from_int(2), vec![text("Intro")]));
    assert!(args.is_empty());
    assert!(f.diagnostics.is_empty());
    let mut ctx = ExecCtx::new(State::default());
    template.exec(&mut ctx);
    assert_eq!(
        ctx.runs,
        vec![
            run(text("Intro"), true, false, Linear::relative(1_400_000), false),
            run(Node::Parbreak, false, false, Linear::one(), false),
        ]
    );
    assert_eq!(ctx.state, State::default());
}

#[test]
fn heading_defaults_level_and_reports_missing_body() {
    let mut f = Feedback::new();
    let mut args = Table::new();
    let span = Span::new(1, 4);
    let template = heading(&mut args, span, &mut f);
    assert_eq!(template, Template::Heading(Num::from_int(1), vec![]));
    assert_eq!(f.diagnostics, vec![Diag::error(span, "missing argument: body".to_string())]);
    let mut ctx = ExecCtx::new(State::default());
    template.exec(&mut ctx);
    assert_eq!(ctx.runs, vec![run(Node::Parbreak, false, false, Linear::one(), false)]);
}

#[test]
fn raw_block_is_monospace_between_breaks() {
    let mut f = Feedback::new();
    let mut args = Table::new();
    args.insert(0, entry(Value::Str("let x".to_string())));
    args.insert_str("lang", entry(Value::Str("rust".to_string())));
    args.insert_str("block", entry(Value::Bool(true)));
    let template = raw(&mut args, Span::zero(), &mut f);
    assert_eq!(template, Template::Raw("let x".to_string(), true));
    assert!(args.is_empty());
    let mut ctx = ExecCtx::new(State::default());
    template.exec(&mut ctx);
    assert_eq!(
        ctx.runs,
        vec![
            run(Node::Parbreak, false, false, Linear::one(), false),
            run(text("let x"), false, false, Linear::one(), true),
            run(Node::Parbreak, false, false, Linear::one(), false),
        ]
    );
    assert_eq!(ctx.state.font.families.list, vec![FontFamily::Serif]);
    assert_eq!(ctx.state, State::default());
}

#[test]
fn raw_inline_with_wrong_argument() {
    let mut f = Feedback::new();
    let mut args = Table::new();
    args.insert(0, entry(Value::Bool(false)));
    args.insert_str("block", entry(Value::Nil));
    let template = raw(&mut args, Span::zero(), &mut f);
    assert_eq!(template, Template::Raw(String::new(), false));
    assert_eq!(
        f.diagnostics,
        vec![
            Diag::error(Span::zero(), "expected string, found bool".to_string()),
            Diag::error(Span::zero(), "missing argument: text".to_string()),
            Diag::error(Span::zero(), "expected bool, found none".to_string()),
        ]
    );
}

#[test]
fn set_monospace_puts_monospace_first() {
    let mut ctx = ExecCtx::new(State::default());
    ctx.set_monospace();
    assert_eq!(
        ctx.state.font.families.list,
        vec![FontFamily::Monospace, FontFamily::Serif]
    );
    ctx.push_text("m".to_string());
    assert!(ctx.runs[0].monospace);
}
