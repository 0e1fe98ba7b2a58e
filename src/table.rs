//! Tables: ordered containers keyed by numbers and by strings.

use vstd::prelude::*;

use crate::geom::{Span, Spanned};
use crate::value::Value;

verus! {

/// A table entry: a value together with the span of its key.
#[derive(Debug, PartialEq)]
pub struct SpannedEntry {
    /// The span of the key, where there is one.
    pub key: Span,
    /// The value with its own span.
    pub val: Spanned<Value>,
}

impl SpannedEntry {
    /// An entry whose key has the zero span.
    pub fn val(val: Spanned<Value>) -> (r: SpannedEntry)
        ensures
            r.key == Span::spec_zero() && r.val == val,
    {
        SpannedEntry { key: Span::zero(), val }
    }

    /// An entry with both spans.
    pub fn new(key: Span, val: Spanned<Value>) -> (r: SpannedEntry)
        ensures
            r.key == key && r.val == val,
    {
        SpannedEntry { key, val }
    }
}

/// An entry under a number key.
pub type NumEntry = (u64, SpannedEntry);

/// An entry under a string key.
pub type StrEntry = (String, SpannedEntry);

/// Number keys that strictly increase along the sequence.
pub open spec fn keys_increase(s: Seq<NumEntry>) -> bool {
    forall|i: int, j: int| 0 <= i < j < s.len() ==> s[i].0 < s[j].0
}

/// String keys that occur at most once in the sequence.
pub open spec fn keys_distinct(s: Seq<StrEntry>) -> bool {
    forall|i: int, j: int| 0 <= i < j < s.len() ==> s[i].0@ != s[j].0@
}

/// The index of the first entry at or after `from` whose key is at least
/// `key`, or the length of `s` where there is none.
pub open spec fn key_position(s: Seq<NumEntry>, key: u64, from: int) -> int
    decreases s.len() - from,
{
    if from >= s.len() {
        s.len() as int
    } else if s[from].0 >= key {
        from
    } else {
        key_position(s, key, from + 1)
    }
}

/// `s` with `entry` under `key`: in place of the entry that was under `key`,
/// or inserted where the keys stay increasing.
pub open spec fn num_inserted(s: Seq<NumEntry>, key: u64, entry: SpannedEntry) -> Seq<NumEntry> {
    let i = key_position(s, key, 0);
    if i < s.len() && s[i].0 == key {
        s.update(i, (key, entry))
    } else {
        s.insert(i, (key, entry))
    }
}

/// `new` is `old` with `entry` under `key`: in place of the entry that was under
/// `key`, or appended where there was none.
pub open spec fn str_inserted(old: Seq<StrEntry>, new: Seq<StrEntry>, key: Seq<char>, entry: SpannedEntry) -> bool {
    if exists|i: int| 0 <= i < old.len() && old[i].0@ == key {
        exists|i: int|
            0 <= i < old.len() && old[i].0@ == key && new.len() == old.len() && new[i].0@ == key
                && new[i].1 == entry && forall|j: int|
                0 <= j < old.len() && j != i ==> new[j] == old[j]
    } else {
        &&& new.len() == old.len() + 1
        &&& new.drop_last() == old
        &&& new.last().0@ == key
        &&& new.last().1 == entry
    }
}

/// A table of values, with number keys in increasing order and string keys in
/// the order they were inserted in.
#[derive(Debug, PartialEq)]
pub struct Table {
    /// The entries with number keys, by increasing key.
    pub nums: Vec<NumEntry>,
    /// The entries with string keys, in insertion order.
    pub strs: Vec<StrEntry>,
}

/// The alias under which tables travel as values.
pub type TableValue = Table;

impl Table {
    /// Each key occurs once, and number keys increase.
    pub open spec fn wf(&self) -> bool {
        keys_increase(self.nums@) && keys_distinct(self.strs@)
    }

    /// The number of entries.
    pub open spec fn spec_len(&self) -> int {
        self.nums.len() + self.strs.len()
    }

    /// An empty table.
    pub fn new() -> (r: Table)
        ensures
            r.wf(),
            r.nums@.len() == 0,
            r.strs@.len() == 0,
    {
        Table { nums: Vec::new(), strs: Vec::new() }
    }

    /// The number of entries.
    pub fn len(&self) -> (r: usize)
        requires
            self.spec_len() <= usize::MAX,
        ensures
            r == self.spec_len(),
    {
        self.nums.len() + self.strs.len()
    }

    /// Whether the table has no entries.
    pub fn is_empty(&self) -> (r: bool)
        ensures
            r == (self.spec_len() == 0),
    {
        self.nums.len() == 0 && self.strs.len() == 0
    }

    /// Insert an entry under a number key, replacing the entry that was there.
    pub fn insert(&mut self, key: u64, entry: SpannedEntry)
        requires
            old(self).wf(),
        ensures
            final(self).wf(),
            final(self).strs@ == old(self).strs@,
            final(self).nums@ == num_inserted(old(self).nums@, key, entry),
    {
        let n = self.nums.len();
        let mut i: usize = 0;
        while i < n && self.nums[i].0 < key
            invariant
                n == self.nums.len(),
                i <= n,
                keys_increase(self.nums@),
                forall|j: int| 0 <= j < i ==> self.nums@[j].0 < key,
                key_position(self.nums@, key, 0) == key_position(self.nums@, key, i as int),
            decreases n - i,
        {
            i = i + 1;
        }
        let ghost s = self.nums@;
        assert(key_position(s, key, i as int) == i);
        if i < n && self.nums[i].0 == key {
            self.nums.remove(i);
            self.nums.insert(i, (key, entry));
            assert(self.nums@ =~= s.update(i as int, (key, entry)));
        } else {
            self.nums.insert(i, (key, entry));
            assert(self.nums@ =~= s.insert(i as int, (key, entry)));
            assert forall|a: int, b: int| 0 <= a < b < self.nums@.len() implies self.nums@[a].0
                < self.nums@[b].0 by {
                if b == i {
                } else if a == i {
                    assert(s[b - 1].0 >= s[i as int].0);
                }
            }
        }
    }

    /// Insert an entry under a string key, replacing the entry that was there.
    pub fn insert_str(&mut self, key: &str, entry: SpannedEntry)
        requires
            old(self).wf(),
        ensures
            final(self).wf(),
            final(self).nums@ == old(self).nums@,
            str_inserted(old(self).strs@, final(self).strs@, key@, entry),
    {
        let owned = key.to_owned();
        let n = self.strs.len();
        let mut i: usize = 0;
        while i < n && self.strs[i].0 != owned
            invariant
                n == self.strs.len(),
                i <= n,
                owned@ == key@,
                forall|j: int| 0 <= j < i ==> self.strs@[j].0@ != key@,
            decreases n - i,
        {
            i = i + 1;
        }
        let ghost s = self.strs@;
        if i < n {
            self.strs.remove(i);
            self.strs.insert(i, (owned, entry));
            assert(self.strs@ =~= s.update(i as int, self.strs@[i as int]));
        } else {
            self.strs.push((owned, entry));
            assert(self.strs@.drop_last() =~= s);
        }
        assert(keys_distinct(self.strs@));
    }

    /// The entry under a number key, if there is one.
    pub fn get(&self, key: u64) -> (r: Option<&SpannedEntry>)
        ensures
            match r {
                Some(e) => exists|i: int|
                    0 <= i < self.nums.len() && self.nums@[i].0 == key && *e == self.nums@[i].1,
                None => forall|i: int| 0 <= i < self.nums.len() ==> self.nums@[i].0 != key,
            },
    {
        let mut i: usize = 0;
        while i < self.nums.len()
            invariant
                i <= self.nums.len(),
                forall|j: int| 0 <= j < i ==> self.nums@[j].0 != key,
            decreases self.nums.len() - i,
        {
            if self.nums[i].0 == key {
                return Some(&self.nums[i].1);
            }
            i = i + 1;
        }
        None
    }
}

} // verus!
