//! Computational values, which syntactical expressions evaluate into.

use vstd::prelude::*;

use crate::geom::{Length, Num, Spanned};
use crate::table::{NumEntry, StrEntry, Table};

verus! {

/// An identifier: `ident`.
#[derive(Debug, Clone, PartialEq, Eq)]
pub struct Ident(pub String);

impl Ident {
    /// The identifier's text.
    pub fn as_str(&self) -> (r: &str)
        ensures
            r@ == self.0@,
    {
        self.0.as_str()
    }
}

/// A color with red, green, blue and alpha channels.
#[derive(Debug, Clone, Copy, PartialEq, Eq, Structural)]
pub struct RgbaColor {
    pub r: u8,
    pub g: u8,
    pub b: u8,
    pub a: u8,
}

/// A node of layoutable content.
#[derive(Debug, Clone, PartialEq, Eq)]
pub enum Node {
    /// A run of text.
    Text(String),
    /// A word space.
    Space,
    /// A forced line break.
    Linebreak,
    /// A paragraph break.
    Parbreak,
}

/// A tree of layoutable content, as the sequence of its top-level nodes.
pub type DomTree = Vec<Node>;

/// A value which represents an executable function.
///
/// The function itself lives in a registry of the evaluator; the value is a
/// handle to it. Two function values are equal exactly when they are handles
/// to the same function, whatever the functions do.
#[derive(Debug, Clone, Copy, PartialEq, Eq, Structural)]
pub struct FuncValue {
    pub id: u64,
}

/// A computational value.
#[derive(Debug, PartialEq)]
pub enum Value {
    /// The none value.
    Nil,
    /// An identifier: `ident`.
    Ident(Ident),
    /// A string: `"string"`.
    Str(String),
    /// A boolean: `true, false`.
    Bool(bool),
    /// A number: `1.2, 200%`.
    Number(Num),
    /// A length: `2cm, 5.2in`.
    Length(Length),
    /// A color value with alpha channel: `#f79143ff`.
    Color(RgbaColor),
    /// A table value: `(false, 12cm, greeting="hi")`.
    Table(Table),
    /// A dom-tree containing layoutable content.
    Tree(DomTree),
    /// A value which represents an executable function.
    Func(FuncValue),
}

/// The kinds of values, one per variant of [`Value`].
#[derive(Debug, Clone, Copy, PartialEq, Eq, Structural)]
pub enum Kind {
    Nil,
    Ident,
    Str,
    Bool,
    Number,
    Length,
    Color,
    Table,
    Tree,
    Func,
}

/// The kind of a value.
pub open spec fn kind_of(v: Value) -> Kind {
    match v {
        Value::Nil => Kind::Nil,
        Value::Ident(_) => Kind::Ident,
        Value::Str(_) => Kind::Str,
        Value::Bool(_) => Kind::Bool,
        Value::Number(_) => Kind::Number,
        Value::Length(_) => Kind::Length,
        Value::Color(_) => Kind::Color,
        Value::Table(_) => Kind::Table,
        Value::Tree(_) => Kind::Tree,
        Value::Func(_) => Kind::Func,
    }
}

/// The natural-language name of a kind of value.
pub open spec fn kind_name(k: Kind) -> Seq<char> {
    match k {
        Kind::Nil => "none"@,
        Kind::Ident => "identifier"@,
        Kind::Str => "string"@,
        Kind::Bool => "bool"@,
        Kind::Number => "number"@,
        Kind::Length => "length"@,
        Kind::Color => "color"@,
        Kind::Table => "table"@,
        Kind::Tree => "syntax tree"@,
        Kind::Func => "function"@,
    }
}

/// The natural-language name of the type of a value.
pub open spec fn value_name(v: Value) -> Seq<char> {
    kind_name(kind_of(v))
}

impl Value {
    /// A natural-language name of the type of this value, e.g. "identifier".
    pub fn name(&self) -> (r: &'static str)
        ensures
            r@ == value_name(*self),
    {
        match self {
            Value::Nil => "none",
            Value::Ident(_) => "identifier",
            Value::Str(_) => "string",
            Value::Bool(_) => "bool",
            Value::Number(_) => "number",
            Value::Length(_) => "length",
            Value::Color(_) => "color",
            Value::Table(_) => "table",
            Value::Tree(_) => "syntax tree",
            Value::Func(_) => "function",
        }
    }
}

/// Values of the same kind have the same name, whatever they hold.
pub proof fn lemma_name_depends_on_kind_only(a: Value, b: Value)
    requires
        kind_of(a) == kind_of(b),
    ensures
        value_name(a) == value_name(b),
{
}

/// The content of every tree in a value, in table order: a tree is its own
/// content, a table the content of its entries' values one after another
/// (number keys first, then string keys), anything else has none.
pub open spec fn flat(v: Value) -> Seq<Node>
    decreases v, 0int,
{
    match v {
        Value::Tree(t) => t@,
        Value::Table(t) => flat_nums(t.nums@, t.nums@.len() as int) + flat_strs(
            t.strs@,
            t.strs@.len() as int,
        ),
        _ => Seq::empty(),
    }
}

/// The content of the trees in the values of the first `n` entries of `s`.
pub open spec fn flat_nums(s: Seq<NumEntry>, n: int) -> Seq<Node>
    decreases s, n,
{
    if n <= 0 || n > s.len() {
        Seq::empty()
    } else {
        flat_nums(s, n - 1) + flat(s[n - 1].1.val.v)
    }
}

/// The content of the trees in the values of the first `n` entries of `s`.
pub open spec fn flat_strs(s: Seq<StrEntry>, n: int) -> Seq<Node>
    decreases s, n,
{
    if n <= 0 || n > s.len() {
        Seq::empty()
    } else {
        flat_strs(s, n - 1) + flat(s[n - 1].1.val.v)
    }
}

impl Spanned<Value> {
    /// Flatten all trees contained in this value into one.
    pub fn flatten_tree(self) -> (r: DomTree)
        ensures
            r@ == flat(self.v),
    {
        flatten_value(self.v)
    }
}

/// The content of every tree in `v`, in table order.
fn flatten_value(v: Value) -> (r: DomTree)
    ensures
        r@ == flat(v),
    decreases v,
{
    let ghost whole = v;
    match v {
        Value::Tree(tree) => tree,
        Value::Table(table) => {
            let ghost t = table;
            let Table { nums, strs } = table;
            let mut nums = nums;
            let mut strs = strs;
            let mut out: DomTree = Vec::new();
            let ghost s = nums@;
            let ghost n = s.len() as int;
            let ghost mut i: int = 0;
            while nums.len() > 0
                invariant
                    whole == Value::Table(t),
                    whole == v,
                    s == t.nums@,
                    n == s.len(),
                    0 <= i <= n,
                    nums@ == s.subrange(i, n),
                    out@ == flat_nums(s, i),
                decreases nums.len(),
            {
                let e = nums.remove(0);
                assert(e == s[i]);
                assert(decreases_to!(whole => e.1.val.v)) by {
                    assert(decreases_to!(whole => whole->Table_0));
                    assert(decreases_to!(t => t.nums));
                    assert(decreases_to!(t.nums => t.nums@));
                    assert(decreases_to!(s => s[i]));
                    assert(decreases_to!(s[i] => s[i].1));
                    assert(decreases_to!(s[i].1 => s[i].1.val));
                    assert(decreases_to!(s[i].1.val => s[i].1.val.v));
                }
                let mut sub = flatten_value(e.1.val.v);
                out.append(&mut sub);
                proof {
                    i = i + 1;
                }
                assert(nums@ =~= s.subrange(i, n));
            }
            let ghost s2 = strs@;
            let ghost n2 = s2.len() as int;
            let ghost mut j: int = 0;
            let ghost head = out@;
            while strs.len() > 0
                invariant
                    whole == Value::Table(t),
                    whole == v,
                    s2 == t.strs@,
                    n2 == s2.len(),
                    0 <= j <= n2,
                    head == flat_nums(t.nums@, t.nums@.len() as int),
                    strs@ == s2.subrange(j, n2),
                    out@ == head + flat_strs(s2, j),
                decreases strs.len(),
            {
                let e = strs.remove(0);
                assert(e == s2[j]);
                assert(decreases_to!(whole => e.1.val.v)) by {
                    assert(decreases_to!(whole => whole->Table_0));
                    assert(decreases_to!(t => t.strs));
                    assert(decreases_to!(t.strs => t.strs@));
                    assert(decreases_to!(s2 => s2[j]));
                    assert(decreases_to!(s2[j] => s2[j].1));
                    assert(decreases_to!(s2[j].1 => s2[j].1.val));
                    assert(decreases_to!(s2[j].1.val => s2[j].1.val.v));
                }
                let mut sub = flatten_value(e.1.val.v);
                out.append(&mut sub);
                proof {
                    j = j + 1;
                }
                assert(strs@ =~= s2.subrange(j, n2));
                assert(out@ =~= head + flat_strs(s2, j));
            }
            out
        },
        _ => Vec::new(),
    }
}

} // verus!
