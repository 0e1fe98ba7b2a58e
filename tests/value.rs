use typst::convert::{ScaleLength, StringLike, TryFromValue};
use typst::diag::{Diag, Feedback};
use typst::geom::{Length, Num, Span, Spanned};
use typst::table::{SpannedEntry, Table};
use typst::value::{FuncValue, Ident, Node, RgbaColor, Value};

fn entry(value: Value) -> SpannedEntry {
    SpannedEntry::val(Spanned::zero(value))
}

fn error(message: &str) -> Diag {
    Diag::error(Span::zero(), message.to_string())
}

fn ident(name: &str) -> Value {
    Value::Ident(Ident(name.to_string()))
}

#[test]
fn test_table_take_removes_correct_entry() {
    let mut table = Table::new();
    table.insert(1, entry(Value::Bool(false)));
    table.insert(2, entry(Value::Str("hi".to_string())));
    assert_eq!(table.take::<String>(), Some("hi".to_string()));
    assert_eq!(table.len(), 1);
    assert_eq!(table.take::<bool>(), Some(false));
    assert!(table.is_empty());
}

#[test]
fn test_table_expect_errors_about_previous_entries() {
    let mut f = Feedback::new();
    let mut table = Table::new();
    table.insert(1, entry(Value::Bool(false)));
    table.insert(3, entry(Value::Str("hi".to_string())));
    table.insert(5, entry(Value::Bool(true)));
    assert_eq!(
        table.expect::<String>("", Span::zero(), &mut f),
        Some("hi".to_string())
    );
    assert_eq!(f.diagnostics, vec![error("expected string, found bool")]);
    assert_eq!(table.len(), 1);
}

#[test]
fn test_table_take_with_key_removes_the_entry() {
    let mut f = Feedback::new();
    let mut table = Table::new();
    table.insert(1, entry(Value::Bool(false)));
    table.insert_str("hi", entry(Value::Bool(true)));
    assert_eq!(table.take::<bool>(), Some(false));
    assert_eq!(table.take_key::<Num>("hi", &mut f), None);
    assert_eq!(f.diagnostics, vec![error("expected number, found bool")]);
    assert!(table.is_empty());
}

#[test]
fn test_table_take_all_removes_the_correct_entries() {
    let mut table = Table::new();
    table.insert(1, entry(Value::Bool(false)));
    table.insert(3, entry(Value::Number(Num::from_int(0))));
    table.insert(7, entry(Value::Bool(true)));
    assert_eq!(table.take_all_num::<bool>(), vec![(1, false), (7, true)]);
    assert_eq!(table.len(), 1);
    assert_eq!(table.get(3).unwrap().val.v, Value::Number(Num::from_int(0)));
}

#[test]
fn take_reports_nothing_and_keeps_mismatches() {
    let mut table = Table::new();
    table.insert(4, entry(Value::Bool(true)));
    table.insert(2, entry(ident("x")));
    assert_eq!(table.take::<String>(), None);
    assert_eq!(table.len(), 2);
    assert_eq!(table.take::<Ident>(), Some(Ident("x".to_string())));
    assert_eq!(table.nums.len(), 1);
    assert_eq!(table.nums[0].0, 4);
}

#[test]
fn insert_keeps_number_keys_ordered_and_replaces() {
    let mut table = Table::new();
    table.insert(5, entry(Value::Bool(true)));
    table.insert(1, entry(Value::Bool(false)));
    table.insert(3, entry(Value::Nil));
    table.insert(3, entry(Value::Str("new".to_string())));
    let keys: Vec<u64> = table.nums.iter().map(|e| e.0).collect();
    assert_eq!(keys, vec![1, 3, 5]);
    assert_eq!(table.get(3).unwrap().val.v, Value::Str("new".to_string()));
    assert!(table.get(4).is_none());
}

#[test]
fn insert_str_replaces_in_place() {
    let mut table = Table::new();
    table.insert_str("a", entry(Value::Bool(true)));
    table.insert_str("b", entry(Value::Bool(false)));
    table.insert_str("a", entry(Value::Nil));
    assert_eq!(table.strs.len(), 2);
    assert_eq!(table.strs[0].0, "a");
    assert_eq!(table.strs[0].1.val.v, Value::Nil);
}

#[test]
fn expect_reports_missing_argument() {
    let mut f = Feedback::new();
    let mut table = Table::new();
    table.insert(1, entry(Value::Bool(false)));
    table.insert(2, entry(Value::Nil));
    let span = Span::new(3, 9);
    assert_eq!(table.expect::<String>("body", span, &mut f), None);
    assert_eq!(
        f.diagnostics,
        vec![
            error("expected string, found bool"),
            error("expected string, found none"),
            Diag::error(span, "missing argument: body".to_string()),
        ]
    );
    assert!(table.is_empty());
}

#[test]
fn expect_on_empty_table_reports_only_missing() {
    let mut f = Feedback::new();
    let mut table = Table::new();
    assert_eq!(table.expect::<bool>("flag", Span::zero(), &mut f), None);
    assert_eq!(f.diagnostics, vec![error("missing argument: flag")]);
}

#[test]
fn take_key_absent_reports_nothing() {
    let mut f = Feedback::new();
    let mut table = Table::new();
    table.insert(1, entry(Value::Bool(true)));
    assert_eq!(table.take_key::<bool>("1", &mut f), None);
    assert!(f.diagnostics.is_empty());
    assert_eq!(table.len(), 1);
}

#[test]
fn take_key_converts_and_removes() {
    let mut f = Feedback::new();
    let mut table = Table::new();
    table.insert_str("level", entry(Value::Number(Num::from_int(2))));
    table.insert_str("other", entry(Value::Nil));
    assert_eq!(table.take_key::<Num>("level", &mut f), Some(Num::from_int(2)));
    assert!(f.diagnostics.is_empty());
    assert_eq!(table.strs.len(), 1);
    assert_eq!(table.strs[0].0, "other");
}

#[test]
fn take_all_num_skips_middle_mismatch() {
    let mut table = Table::new();
    table.insert(1, entry(Value::Bool(true)));
    table.insert(3, entry(Value::Str("x".to_string())));
    table.insert(7, entry(Value::Bool(true)));
    assert_eq!(table.take_all_num::<bool>(), vec![(1, true), (7, true)]);
    assert_eq!(table.nums.len(), 1);
    assert_eq!(table.nums[0].0, 3);
    assert_eq!(table.nums[0].1.val.v, Value::Str("x".to_string()));
}

#[test]
fn take_all_num_vals_yields_values_only() {
    let mut table = Table::new();
    table.insert(2, entry(Value::Str("b".to_string())));
    table.insert(1, entry(Value::Str("a".to_string())));
    table.insert(3, entry(Value::Nil));
    assert_eq!(
        table.take_all_num_vals::<String>(),
        vec!["a".to_string(), "b".to_string()]
    );
    assert_eq!(table.len(), 1);
}

#[test]
fn take_all_str_keeps_insertion_order() {
    let mut table = Table::new();
    table.insert_str("z", entry(Value::Bool(true)));
    table.insert_str("m", entry(Value::Nil));
    table.insert_str("a", entry(Value::Bool(false)));
    table.insert(1, entry(Value::Bool(true)));
    assert_eq!(
        table.take_all_str::<bool>(),
        vec![("z".to_string(), true), ("a".to_string(), false)]
    );
    assert_eq!(table.strs.len(), 1);
    assert_eq!(table.strs[0].0, "m");
    assert_eq!(table.nums.len(), 1);
}

#[test]
fn unexpected_reports_every_leftover_entry() {
    let mut f = Feedback::new();
    let mut table = Table::new();
    table.insert_str(
        "x",
        SpannedEntry::new(Span::new(10, 11), Spanned::new(Value::Nil, Span::new(12, 16))),
    );
    table.insert(0, SpannedEntry::new(Span::new(2, 2), Spanned::new(Value::Nil, Span::new(2, 5))));
    table.unexpected(&mut f);
    assert_eq!(
        f.diagnostics,
        vec![
            Diag::error(Span::new(2, 5), "unexpected argument".to_string()),
            Diag::error(Span::new(10, 16), "unexpected argument".to_string()),
        ]
    );
    assert_eq!(table.len(), 2);
}

#[test]
fn value_names() {
    assert_eq!(Value::Nil.name(), "none");
    assert_eq!(ident("a").name(), "identifier");
    assert_eq!(Value::Str(String::new()).name(), "string");
    assert_eq!(Value::Bool(true).name(), "bool");
    assert_eq!(Value::Number(Num::from_int(1)).name(), "number");
    assert_eq!(Value::Length(Length::pt(1)).name(), "length");
    assert_eq!(Value::Color(RgbaColor { r: 1, g: 2, b: 3, a: 4 }).name(), "color");
    assert_eq!(Value::Table(Table::new()).name(), "table");
    assert_eq!(Value::Tree(vec![]).name(), "syntax tree");
    assert_eq!(Value::Func(FuncValue { id: 7 }).name(), "function");
}

#[test]
fn value_name_ignores_payload() {
    assert_eq!(Value::Bool(true).name(), Value::Bool(false).name());
    assert_eq!(
        Value::Str("a".to_string()).name(),
        Value::Str("completely different".to_string()).name()
    );
}

#[test]
fn functions_compare_by_identity() {
    assert_eq!(Value::Func(FuncValue { id: 3 }), Value::Func(FuncValue { id: 3 }));
    assert_ne!(Value::Func(FuncValue { id: 3 }), Value::Func(FuncValue { id: 4 }));
}

#[test]
fn flatten_tree_collects_nested_trees_in_order() {
    let mut inner = Table::new();
    inner.insert(1, entry(Value::Tree(vec![Node::Text("b".to_string())])));
    inner.insert(0, entry(Value::Bool(true)));
    let mut outer = Table::new();
    outer.insert_str("k", entry(Value::Tree(vec![Node::Parbreak])));
    outer.insert(2, entry(Value::Table(inner)));
    outer.insert(1, entry(Value::Tree(vec![Node::Text("a".to_string()), Node::Space])));
    let flat = Spanned::zero(Value::Table(outer)).flatten_tree();
    assert_eq!(
        flat,
        vec![
            Node::Text("a".to_string()),
            Node::Space,
            Node::Text("b".to_string()),
            Node::Parbreak,
        ]
    );
    assert_eq!(Spanned::zero(Value::Bool(true)).flatten_tree(), vec![]);
    assert_eq!(
        Spanned::zero(Value::Tree(vec![Node::Linebreak])).flatten_tree(),
        vec![Node::Linebreak]
    );
}

#[test]
fn conversions_report_mismatches() {
    let mut f = Feedback::new();
    let sv = Spanned::zero(Value::Nil);
    assert_eq!(Length::try_from_value(Spanned::zero(Value::Nil), &mut f), None);
    assert_eq!(Table::try_from_value(Spanned::zero(Value::Nil), &mut f), None);
    assert_eq!(FuncValue::try_from_value(Spanned::zero(Value::Nil), &mut f), None);
    assert_eq!(ScaleLength::try_from_value(Spanned::zero(Value::Nil), &mut f), None);
    assert_eq!(StringLike::try_from_value(Spanned::zero(Value::Nil), &mut f), None);
    assert_eq!(<Vec<Node>>::try_from_value(sv, &mut f), None);
    assert_eq!(
        f.diagnostics,
        vec![
            error("expected length, found none"),
            error("expected table, found none"),
            error("expected function, found none"),
            error("expected number or length, found none"),
            error("expected identifier or string, found none"),
            error("expected tree, found none"),
        ]
    );
}

#[test]
fn conversions_accept_their_kind() {
    let mut f = Feedback::new();
    assert_eq!(
        Value::try_from_value(Spanned::zero(Value::Nil), &mut f),
        Some(Value::Nil)
    );
    assert_eq!(
        ScaleLength::try_from_value(Spanned::zero(Value::Number(Num::from_int(2))), &mut f),
        Some(ScaleLength::Scaled(Num::from_int(2)))
    );
    assert_eq!(
        ScaleLength::try_from_value(Spanned::zero(Value::Length(Length::pt(3))), &mut f),
        Some(ScaleLength::Absolute(Length::pt(3)))
    );
    assert_eq!(
        StringLike::try_from_value(Spanned::zero(ident("serif")), &mut f)
            .map(|s| s.into_string()),
        Some("serif".to_string())
    );
    assert_eq!(
        StringLike::try_from_value(Spanned::zero(Value::Str("x y".to_string())), &mut f)
            .map(|s| s.as_str().to_string()),
        Some("x y".to_string())
    );
    assert_eq!(
        FuncValue::try_from_value(Spanned::zero(Value::Func(FuncValue { id: 9 })), &mut f),
        Some(FuncValue { id: 9 })
    );
    assert!(f.diagnostics.is_empty());
}

#[test]
fn spanned_conversion_keeps_the_span() {
    let mut f = Feedback::new();
    let span = Span::new(4, 8);
    let got = <Spanned<bool>>::try_from_value(Spanned::new(Value::Bool(true), span), &mut f);
    assert_eq!(got, Some(Spanned::new(true, span)));
    let bad = <Spanned<bool>>::try_from_value(Spanned::new(Value::Nil, span), &mut f);
    assert_eq!(bad, None);
    assert_eq!(f.diagnostics, vec![Diag::error(span, "expected bool, found none".to_string())]);
}

#[test]
fn take_next_num_walks_forward_with_a_cursor() {
    let mut table = Table::new();
    table.insert(1, entry(Value::Bool(false)));
    table.insert(3, entry(Value::Number(Num::from_int(0))));
    table.insert(7, entry(Value::Bool(true)));
    let mut skip: usize = 0;
    assert_eq!(table.take_next_num::<bool>(&mut skip), Some((1, false)));
    assert_eq!(skip, 0);
    assert_eq!(table.take_next_num::<bool>(&mut skip), Some((7, true)));
    assert_eq!(skip, 1);
    assert_eq!(table.take_next_num::<bool>(&mut skip), None);
    assert_eq!(skip, 1);
    assert_eq!(table.len(), 1);
    assert_eq!(table.get(3).unwrap().val.v, Value::Number(Num::from_int(0)));
}

#[test]
fn take_next_num_past_the_end_finds_nothing() {
    let mut table = Table::new();
    table.insert(1, entry(Value::Bool(true)));
    let mut skip: usize = 5;
    assert_eq!(table.take_next_num::<bool>(&mut skip), None);
    assert_eq!(skip, 1);
    assert_eq!(table.len(), 1);
}

#[test]
fn take_next_str_walks_in_insertion_order() {
    let mut table = Table::new();
    table.insert_str("z", entry(Value::Bool(true)));
    table.insert_str("m", entry(Value::Nil));
    table.insert_str("a", entry(Value::Bool(false)));
    let mut skip: usize = 0;
    assert_eq!(table.take_next_str::<bool>(&mut skip), Some(("z".to_string(), true)));
    assert_eq!(table.take_next_str::<bool>(&mut skip), Some(("a".to_string(), false)));
    assert_eq!(skip, 1);
    assert_eq!(table.take_next_str::<bool>(&mut skip), None);
    assert_eq!(table.strs.len(), 1);
    assert_eq!(table.strs[0].0, "m");
}
