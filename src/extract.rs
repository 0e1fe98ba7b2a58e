//! Extraction of typed arguments out of a table.
//!
//! Every operation removes what it extracts. `take` and the `take_all_*`
//! family skip non-matching entries silently and leave them in place, so that
//! another extractor can still claim them; `expect` consumes and reports every
//! entry it passes over, because a required positional argument stands in that
//! slot.

use vstd::prelude::*;
use vstd::string::*;

use crate::convert::TryFromValue;
use crate::diag::{error_at, DiagView, Feedback};
use crate::geom::Span;
use crate::table::{keys_distinct, keys_increase, NumEntry, StrEntry, Table};

verus! {

/// The index of the first entry at or after `from` whose value converts to
/// `T`, or the length of `s` where there is none.
pub open spec fn first_accepted<T: TryFromValue>(s: Seq<NumEntry>, from: int) -> int
    decreases s.len() - from,
{
    if from >= s.len() {
        s.len() as int
    } else if T::accepts(s[from].1.val.v) {
        from
    } else {
        first_accepted::<T>(s, from + 1)
    }
}

/// The index of the first entry at or after `from` whose value converts to
/// `T`, or the length of `s` where there is none.
pub open spec fn first_accepted_str<T: TryFromValue>(s: Seq<StrEntry>, from: int) -> int
    decreases s.len() - from,
{
    if from >= s.len() {
        s.len() as int
    } else if T::accepts(s[from].1.val.v) {
        from
    } else {
        first_accepted_str::<T>(s, from + 1)
    }
}

/// What converting the values of the first `n` entries of `s` to `T` reports,
/// in order.
pub open spec fn reports_upto<T: TryFromValue>(s: Seq<NumEntry>, n: int) -> Seq<DiagView>
    decreases n,
{
    if n <= 0 {
        Seq::empty()
    } else {
        reports_upto::<T>(s, n - 1) + T::reports(s[n - 1].1.val)
    }
}

/// The message for a required argument that is absent.
pub open spec fn missing_message(name: Seq<char>) -> Seq<char> {
    "missing argument: "@ + name
}

/// The pairs of key and converted value that `take_all_num` yields from `s`.
pub open spec fn taken_nums<T: TryFromValue>(s: Seq<NumEntry>) -> Seq<(u64, T)>
    decreases s.len(),
{
    if s.len() == 0 {
        Seq::empty()
    } else {
        let init = taken_nums::<T>(s.drop_last());
        if T::accepts(s.last().1.val.v) {
            init.push((s.last().0, T::converted(s.last().1.val)))
        } else {
            init
        }
    }
}

/// The entries of `s` whose values do not convert to `T`, in order.
pub open spec fn kept_nums<T: TryFromValue>(s: Seq<NumEntry>) -> Seq<NumEntry>
    decreases s.len(),
{
    if s.len() == 0 {
        Seq::empty()
    } else {
        let init = kept_nums::<T>(s.drop_last());
        if T::accepts(s.last().1.val.v) {
            init
        } else {
            init.push(s.last())
        }
    }
}

/// The pairs of key and converted value that `take_all_str` yields from `s`.
pub open spec fn taken_strs<T: TryFromValue>(s: Seq<StrEntry>) -> Seq<(Seq<char>, T)>
    decreases s.len(),
{
    if s.len() == 0 {
        Seq::empty()
    } else {
        let init = taken_strs::<T>(s.drop_last());
        if T::accepts(s.last().1.val.v) {
            init.push((s.last().0@, T::converted(s.last().1.val)))
        } else {
            init
        }
    }
}

/// The entries of `s` whose values do not convert to `T`, in order.
pub open spec fn kept_strs<T: TryFromValue>(s: Seq<StrEntry>) -> Seq<StrEntry>
    decreases s.len(),
{
    if s.len() == 0 {
        Seq::empty()
    } else {
        let init = kept_strs::<T>(s.drop_last());
        if T::accepts(s.last().1.val.v) {
            init
        } else {
            init.push(s.last())
        }
    }
}

/// The index of the first entry of `s` under `key`, or the length of `s`
/// where there is none.
pub open spec fn str_position(s: Seq<StrEntry>, key: Seq<char>, from: int) -> int
    decreases s.len() - from,
{
    if from >= s.len() {
        s.len() as int
    } else if s[from].0@ == key {
        from
    } else {
        str_position(s, key, from + 1)
    }
}

/// The message for an entry left over after extraction.
pub open spec fn unexpected_message() -> Seq<char> {
    "unexpected argument"@
}

/// The report for a left-over entry, spanning its key and its value.
pub open spec fn unexpected_report(e: crate::table::SpannedEntry) -> DiagView {
    error_at(Span::spec_merge(e.key, e.val.span), unexpected_message())
}

/// The reports for the entries left in a table: number keys first, then
/// string keys, each in table order.
pub open spec fn unexpected_reports(t: Table) -> Seq<DiagView> {
    t.nums@.map_values(|e: NumEntry| unexpected_report(e.1)) + t.strs@.map_values(
        |e: StrEntry| unexpected_report(e.1),
    )
}

/// What `take` does: `new` is `old` without the first entry under a number
/// key whose value converts to `T`, and `r` is that value converted; where
/// there is none, nothing changes and `r` is `None`.
pub open spec fn took<T: TryFromValue>(old: Table, new: Table, r: Option<T>) -> bool {
    let s = old.nums@;
    let k = first_accepted::<T>(s, 0);
    &&& new.wf()
    &&& new.strs@ == old.strs@
    &&& k < s.len() ==> r == Some(T::converted(s[k].1.val)) && new.nums@ == s.remove(k)
    &&& k >= s.len() ==> r is None && new.nums@ == s
}

/// What `expect` does: the entries under number keys are removed up to and
/// including the first whose value converts to `T`, and converting each of
/// them is reported; `r` is that value converted. Where none converts, all of
/// them are removed and reported, followed by a missing argument `name` at
/// `span`, and `r` is `None`.
pub open spec fn expected<T: TryFromValue>(
    old: Table,
    new: Table,
    name: Seq<char>,
    span: Span,
    diags: Seq<DiagView>,
    new_diags: Seq<DiagView>,
    r: Option<T>,
) -> bool {
    let s = old.nums@;
    let k = first_accepted::<T>(s, 0);
    &&& new.wf()
    &&& new.strs@ == old.strs@
    &&& k < s.len() ==> {
        &&& r == Some(T::converted(s[k].1.val))
        &&& new.nums@ == s.subrange(k + 1, s.len() as int)
        &&& new_diags == diags + reports_upto::<T>(s, k + 1)
    }
    &&& k >= s.len() ==> {
        &&& r is None
        &&& new.nums@.len() == 0
        &&& new_diags == diags + reports_upto::<T>(s, s.len() as int) + seq![
            error_at(span, missing_message(name)),
        ]
    }
}

/// What `take_key` does: the entry under the string `key` is removed and its
/// value converted to `T` with full reporting; where there is none, nothing
/// changes, nothing is reported and `r` is `None`.
pub open spec fn took_key<T: TryFromValue>(
    old: Table,
    new: Table,
    key: Seq<char>,
    diags: Seq<DiagView>,
    new_diags: Seq<DiagView>,
    r: Option<T>,
) -> bool {
    let s = old.strs@;
    let k = str_position(s, key, 0);
    &&& new.wf()
    &&& new.nums@ == old.nums@
    &&& k < s.len() ==> {
        &&& r == (if T::accepts(s[k].1.val.v) {
            Some(T::converted(s[k].1.val))
        } else {
            None
        })
        &&& new.strs@ == s.remove(k)
        &&& new_diags == diags + T::reports(s[k].1.val)
    }
    &&& k >= s.len() ==> r is None && new.strs@ == s && new_diags == diags
}

/// The first accepted index lies at or after `from`, every entry before it
/// is rejected, and the entry at it, if any, is accepted.
pub proof fn lemma_first_accepted<T: TryFromValue>(s: Seq<NumEntry>, from: int)
    requires
        0 <= from <= s.len(),
    ensures
        from <= first_accepted::<T>(s, from) <= s.len(),
        forall|j: int| from <= j < first_accepted::<T>(s, from) ==> !T::accepts(s[j].1.val.v),
        first_accepted::<T>(s, from) < s.len() ==> T::accepts(
            s[first_accepted::<T>(s, from)].1.val.v,
        ),
    decreases s.len() - from,
{
    if from < s.len() && !T::accepts(s[from].1.val.v) {
        lemma_first_accepted::<T>(s, from + 1);
    }
}

/// Removing an entry keeps number keys increasing.
proof fn lemma_remove_keeps_order(s: Seq<NumEntry>, k: int)
    requires
        keys_increase(s),
        0 <= k < s.len(),
    ensures
        keys_increase(s.remove(k)),
{
    assert forall|a: int, b: int| 0 <= a < b < s.remove(k).len() implies s.remove(k)[a].0 < s.remove(
        k,
    )[b].0 by {
        let ia = if a < k { a } else { a + 1 };
        let ib = if b < k { b } else { b + 1 };
        assert(s.remove(k)[a] == s[ia]);
        assert(s.remove(k)[b] == s[ib]);
    }
}

/// Converting the first `n` entries reports one diagnostic for each of them
/// where none of them converts.
proof fn lemma_rejections_counted<T: TryFromValue>(s: Seq<NumEntry>, n: int)
    requires
        0 <= n <= s.len(),
        forall|j: int| 0 <= j < n ==> !T::accepts(s[j].1.val.v),
    ensures
        reports_upto::<T>(s, n).len() == n,
    decreases n,
{
    if n > 0 {
        lemma_rejections_counted::<T>(s, n - 1);
        T::lemma_rejection_reported_once(s[n - 1].1.val);
    }
}

/// `expect` reports exactly one diagnostic for every entry it skips and
/// removes before the first match; beyond that, where a value matches, only
/// what converting the match reports, and where none does, exactly one
/// diagnostic for the missing argument. Success and the missing-argument
/// diagnostic never come together.
pub proof fn lemma_expect_diagnostic_count<T: TryFromValue>(s: Seq<NumEntry>, span: Span, name: Seq<char>)
    ensures
        first_accepted::<T>(s, 0) < s.len() ==> reports_upto::<T>(s, first_accepted::<T>(s, 0) + 1).len()
            == first_accepted::<T>(s, 0) + T::reports(s[first_accepted::<T>(s, 0)].1.val).len(),
        first_accepted::<T>(s, 0) >= s.len() ==> (reports_upto::<T>(s, s.len() as int) + seq![
            error_at(span, missing_message(name)),
        ]).len() == s.len() + 1,
{
    lemma_first_accepted::<T>(s, 0);
    let k = first_accepted::<T>(s, 0);
    lemma_rejections_counted::<T>(s, k);
}

/// A name is found at or after `from` only where some entry there holds it.
proof fn lemma_str_position_absent(s: Seq<StrEntry>, key: Seq<char>, from: int)
    requires
        0 <= from,
        forall|j: int| 0 <= j < s.len() ==> s[j].0@ != key,
    ensures
        str_position(s, key, from) >= s.len(),
    decreases s.len() - from,
{
    if from < s.len() {
        lemma_str_position_absent(s, key, from + 1);
    }
}

/// Entries under number keys are never found by a string key: after
/// inserting under a number key (which leaves the string entries as they
/// were), `take_key` with a name that no string entry holds finds nothing,
/// so it returns `None` and leaves the table and the diagnostics as they were.
pub proof fn lemma_take_key_ignores_number_keys(before: Table, after: Table, name: Seq<char>)
    requires
        after.strs@ == before.strs@,
        forall|j: int| 0 <= j < before.strs@.len() ==> before.strs@[j].0@ != name,
    ensures
        str_position(after.strs@, name, 0) >= after.strs@.len(),
{
    lemma_str_position_absent(after.strs@, name, 0);
}

impl Table {
    /// Retrieve and remove the matching value with the lowest number key,
    /// skipping and ignoring all non-matching entries with lower keys.
    ///
    /// Nothing is reported.
    pub fn take<T: TryFromValue>(&mut self) -> (r: Option<T>)
        requires
            old(self).wf(),
        ensures
            took::<T>(*old(self), *final(self), r),
    {
        let ghost s = self.nums@;
        let n = self.nums.len();
        let mut i: usize = 0;
        while i < n
            invariant
                n == s.len(),
                s == old(self).nums@,
                self.nums@ == s,
                self.strs@ == old(self).strs@,
                self.wf(),
                i <= n,
                first_accepted::<T>(s, 0) == first_accepted::<T>(s, i as int),
            decreases n - i,
        {
            if T::check(&self.nums[i].1.val.v) {
                proof {
                    lemma_remove_keeps_order(s, i as int);
                }
                assert(first_accepted::<T>(s, i as int) == i);
                let entry = self.nums.remove(i);
                return Some(T::convert(entry.1.val));
            }
            i = i + 1;
        }
        None
    }

    /// Retrieve and remove the matching value with the lowest number key,
    /// removing and reporting all non-matching entries with lower keys.
    ///
    /// Reports a missing argument `name` at `span` when no value matches.
    pub fn expect<T: TryFromValue>(&mut self, name: &str, span: Span, f: &mut Feedback) -> (r:
        Option<T>)
        requires
            old(self).wf(),
        ensures
            expected::<T>(*old(self), *final(self), name@, span, old(f)@, final(f)@, r),
    {
        let ghost s = self.nums@;
        let ghost f0 = f@;
        let ghost n = s.len() as int;
        let ghost mut i: int = 0;
        while self.nums.len() > 0
            invariant
                0 <= i <= n,
                n == s.len(),
                s == old(self).nums@,
                f0 == old(f)@,
                self.nums@ == s.subrange(i, n),
                self.strs@ == old(self).strs@,
                self.wf(),
                f@ == f0 + reports_upto::<T>(s, i),
                first_accepted::<T>(s, 0) == first_accepted::<T>(s, i),
            decreases self.nums.len(),
        {
            proof {
                lemma_remove_keeps_order(self.nums@, 0);
            }
            let entry = self.nums.remove(0);
            assert(entry == s[i]);
            let got = T::try_from_value(entry.1.val, f);
            assert(f@ =~= f0 + reports_upto::<T>(s, i + 1));
            if let Some(val) = got {
                assert(first_accepted::<T>(s, i) == i);
                assert(self.nums@ =~= s.subrange(i + 1, n));
                return Some(val);
            }
            proof {
                i = i + 1;
            }
            assert(self.nums@ =~= s.subrange(i, n));
        }
        let msg = String::from_str("missing argument: ").concat(name);
        f.error(span, msg);
        assert(f@ =~= f0 + reports_upto::<T>(s, n) + seq![error_at(span, missing_message(name@))]);
        None
    }

    /// Retrieve and remove the value under the string key `key`, if there is
    /// one, and convert it with full reporting.
    ///
    /// Reports nothing where the key is absent.
    pub fn take_key<T: TryFromValue>(&mut self, key: &str, f: &mut Feedback) -> (r: Option<T>)
        requires
            old(self).wf(),
        ensures
            took_key::<T>(*old(self), *final(self), key@, old(f)@, final(f)@, r),
    {
        let owned = key.to_owned();
        let ghost s = self.strs@;
        let n = self.strs.len();
        let mut i: usize = 0;
        while i < n
            invariant
                n == s.len(),
                s == old(self).strs@,
                self.strs@ == s,
                self.nums@ == old(self).nums@,
                self.wf(),
                owned@ == key@,
                f@ == old(f)@,
                i <= n,
                str_position(s, key@, 0) == str_position(s, key@, i as int),
            decreases n - i,
        {
            if self.strs[i].0 == owned {
                assert(str_position(s, key@, i as int) == i);
                let entry = self.strs.remove(i);
                assert forall|a: int, b: int| 0 <= a < b < self.strs@.len() implies self.strs@[a].0@
                    != self.strs@[b].0@ by {
                    let ia = if a < i { a } else { a + 1 };
                    let ib = if b < i { b } else { b + 1 };
                    assert(self.strs@[a] == s[ia]);
                    assert(self.strs@[b] == s[ib]);
                }
                return T::try_from_value(entry.1.val, f);
            }
            i = i + 1;
        }
        None
    }

    /// Retrieve and remove all matching pairs with number keys, skipping and
    /// ignoring non-matching entries.
    ///
    /// The pairs come in order of increasing keys. Nothing is reported.
    pub fn take_all_num<T: TryFromValue>(&mut self) -> (r: Vec<(u64, T)>)
        requires
            old(self).wf(),
        ensures
            final(self).wf(),
            final(self).strs@ == old(self).strs@,
            r@ == taken_nums::<T>(old(self).nums@),
            final(self).nums@ == kept_nums::<T>(old(self).nums@),
            forall|a: int, b: int| 0 <= a < b < r@.len() ==> r@[a].0 < r@[b].0,
    {
        let ghost s = self.nums@;
        let mut src: Vec<NumEntry> = Vec::new();
        std::mem::swap(&mut self.nums, &mut src);
        let mut out: Vec<(u64, T)> = Vec::new();
        let mut rest: Vec<NumEntry> = Vec::new();
        let ghost n = s.len() as int;
        let ghost mut i: int = 0;
        while src.len() > 0
            invariant
                0 <= i <= n,
                n == s.len(),
                s == old(self).nums@,
                keys_increase(s),
                src@ == s.subrange(i, n),
                out@ == taken_nums::<T>(s.subrange(0, i)),
                rest@ == kept_nums::<T>(s.subrange(0, i)),
                keys_increase(rest@),
                forall|a: int, b: int| 0 <= a < b < out@.len() ==> out@[a].0 < out@[b].0,
                i < n && rest@.len() > 0 ==> rest@.last().0 < s[i].0,
                i < n && out@.len() > 0 ==> out@.last().0 < s[i].0,
                self.strs@ == old(self).strs@,
                keys_distinct(self.strs@),
                self.nums@.len() == 0,
            decreases src.len(),
        {
            let entry = src.remove(0);
            assert(entry == s[i]);
            assert(s.subrange(0, i + 1).drop_last() =~= s.subrange(0, i));
            if T::check(&entry.1.val.v) {
                let key = entry.0;
                out.push((key, T::convert(entry.1.val)));
            } else {
                rest.push(entry);
            }
            proof {
                i = i + 1;
            }
            assert(src@ =~= s.subrange(i, n));
        }
        assert(s.subrange(0, n) =~= s);
        self.nums = rest;
        out
    }

    /// Retrieve and remove all matching values with number keys, skipping and
    /// ignoring non-matching entries.
    ///
    /// The values come in order of increasing keys. Nothing is reported.
    pub fn take_all_num_vals<T: TryFromValue>(&mut self) -> (r: Vec<T>)
        requires
            old(self).wf(),
        ensures
            final(self).wf(),
            final(self).strs@ == old(self).strs@,
            r@ == taken_nums::<T>(old(self).nums@).map_values(|p: (u64, T)| p.1),
            final(self).nums@ == kept_nums::<T>(old(self).nums@),
    {
        let mut pairs = self.take_all_num::<T>();
        let ghost p = pairs@;
        let mut out: Vec<T> = Vec::new();
        let ghost mut i: int = 0;
        while pairs.len() > 0
            invariant
                0 <= i <= p.len(),
                pairs@ == p.subrange(i, p.len() as int),
                out@ == p.subrange(0, i).map_values(|q: (u64, T)| q.1),
            decreases pairs.len(),
        {
            let pair = pairs.remove(0);
            out.push(pair.1);
            proof {
                i = i + 1;
            }
            assert(pairs@ =~= p.subrange(i, p.len() as int));
            assert(out@ =~= p.subrange(0, i).map_values(|q: (u64, T)| q.1));
        }
        assert(p.subrange(0, p.len() as int) =~= p);
        out
    }

    /// Retrieve and remove all matching pairs with string keys, skipping and
    /// ignoring non-matching entries.
    ///
    /// The pairs come in the order the keys were inserted in. Nothing is
    /// reported.
    pub fn take_all_str<T: TryFromValue>(&mut self) -> (r: Vec<(String, T)>)
        requires
            old(self).wf(),
        ensures
            final(self).wf(),
            final(self).nums@ == old(self).nums@,
            r@.map_values(|p: (String, T)| (p.0@, p.1)) == taken_strs::<T>(old(self).strs@),
            final(self).strs@ == kept_strs::<T>(old(self).strs@),
    {
        let ghost s = self.strs@;
        let mut src: Vec<StrEntry> = Vec::new();
        std::mem::swap(&mut self.strs, &mut src);
        let mut out: Vec<(String, T)> = Vec::new();
        let mut rest: Vec<StrEntry> = Vec::new();
        let ghost n = s.len() as int;
        let ghost mut i: int = 0;
        let ghost mut idx: Seq<int> = Seq::empty();
        while src.len() > 0
            invariant
                0 <= i <= n,
                n == s.len(),
                s == old(self).strs@,
                keys_distinct(s),
                src@ == s.subrange(i, n),
                out@.map_values(|p: (String, T)| (p.0@, p.1)) == taken_strs::<T>(
                    s.subrange(0, i),
                ),
                rest@ == kept_strs::<T>(s.subrange(0, i)),
                rest@.len() == idx.len(),
                forall|j: int| 0 <= j < idx.len() ==> 0 <= #[trigger] idx[j] < i && rest@[j] == s[idx[j]],
                forall|a: int, b: int| 0 <= a < b < idx.len() ==> idx[a] < idx[b],
                self.nums@ == old(self).nums@,
                keys_increase(self.nums@),
                self.strs@.len() == 0,
            decreases src.len(),
        {
            let entry = src.remove(0);
            assert(entry == s[i]);
            assert(s.subrange(0, i + 1).drop_last() =~= s.subrange(0, i));
            if T::check(&entry.1.val.v) {
                let ghost before = out@;
                let key = entry.0;
                out.push((key, T::convert(entry.1.val)));
                assert(out@.map_values(|p: (String, T)| (p.0@, p.1)) =~= before.map_values(
                    |p: (String, T)| (p.0@, p.1),
                ).push((s[i].0@, T::converted(s[i].1.val))));
            } else {
                rest.push(entry);
                proof {
                    idx = idx.push(i);
                }
            }
            proof {
                i = i + 1;
            }
            assert(src@ =~= s.subrange(i, n));
        }
        assert(s.subrange(0, n) =~= s);
        assert forall|a: int, b: int| 0 <= a < b < rest@.len() implies rest@[a].0@ != rest@[b].0@ by {
            assert(rest@[a] == s[idx[a]]);
            assert(rest@[b] == s[idx[b]]);
        }
        self.strs = rest;
        out
    }

    /// Report an unexpected argument for every entry still in the table.
    pub fn unexpected(&self, f: &mut Feedback)
        ensures
            final(f)@ == old(f)@ + unexpected_reports(*self),
    {
        let ghost f0 = f@;
        let mut i: usize = 0;
        while i < self.nums.len()
            invariant
                i <= self.nums.len(),
                f0 == old(f)@,
                f@ == f0 + self.nums@.subrange(0, i as int).map_values(
                    |e: NumEntry| unexpected_report(e.1),
                ),
            decreases self.nums.len() - i,
        {
            let entry = &self.nums[i].1;
            let span = Span::merge(entry.key, entry.val.span);
            f.error(span, String::from_str("unexpected argument"));
            assert(self.nums@.subrange(0, i + 1) =~= self.nums@.subrange(0, i as int).push(
                self.nums@[i as int],
            ));
            i = i + 1;
            assert(f@ =~= f0 + self.nums@.subrange(0, i as int).map_values(
                |e: NumEntry| unexpected_report(e.1),
            ));
        }
        assert(self.nums@.subrange(0, i as int) =~= self.nums@);
        let ghost f1 = f@;
        let mut j: usize = 0;
        while j < self.strs.len()
            invariant
                j <= self.strs.len(),
                f1 == f0 + self.nums@.map_values(|e: NumEntry| unexpected_report(e.1)),
                f0 == old(f)@,
                f@ == f1 + self.strs@.subrange(0, j as int).map_values(
                    |e: StrEntry| unexpected_report(e.1),
                ),
            decreases self.strs.len() - j,
        {
            let entry = &self.strs[j].1;
            let span = Span::merge(entry.key, entry.val.span);
            f.error(span, String::from_str("unexpected argument"));
            assert(self.strs@.subrange(0, j + 1) =~= self.strs@.subrange(0, j as int).push(
                self.strs@[j as int],
            ));
            j = j + 1;
            assert(f@ =~= f1 + self.strs@.subrange(0, j as int).map_values(
                |e: StrEntry| unexpected_report(e.1),
            ));
        }
        assert(self.strs@.subrange(0, j as int) =~= self.strs@);
        assert(f@ =~= old(f)@ + unexpected_reports(*self));
    }

    /// Retrieve and remove the next matching pair with a number key, at or
    /// after the cursor `skip`, skipping and ignoring non-matching entries.
    ///
    /// The cursor only moves forward: it ends on the position of the removed
    /// entry (where the next entry now stands), or past the end where nothing
    /// matched, so calling this again resumes where it stopped. Starting at
    /// zero and calling until `None` yields the matches in order of
    /// increasing keys. Nothing is reported.
    pub fn take_next_num<T: TryFromValue>(&mut self, skip: &mut usize) -> (r: Option<(u64, T)>)
        requires
            old(self).wf(),
        ensures
            final(self).wf(),
            final(self).strs@ == old(self).strs@,
            *final(skip) == first_accepted::<T>(old(self).nums@, *old(skip) as int),
            *final(skip) < old(self).nums@.len() ==> {
                &&& r == Some(
                    (
                        old(self).nums@[*final(skip) as int].0,
                        T::converted(old(self).nums@[*final(skip) as int].1.val),
                    ),
                )
                &&& final(self).nums@ == old(self).nums@.remove(*final(skip) as int)
            },
            *final(skip) >= old(self).nums@.len() ==> r is None && final(self).nums@ == old(
                self,
            ).nums@,
    {
        let ghost s = self.nums@;
        let ghost start = *skip as int;
        let n = self.nums.len();
        let mut i: usize = if *skip < n {
            *skip
        } else {
            n
        };
        while i < n
            invariant
                n == s.len(),
                s == old(self).nums@,
                self.nums@ == s,
                self.strs@ == old(self).strs@,
                self.wf(),
                i <= n,
                start == *old(skip) as int,
                first_accepted::<T>(s, start) == first_accepted::<T>(s, i as int),
            decreases n - i,
        {
            if T::check(&self.nums[i].1.val.v) {
                proof {
                    lemma_remove_keeps_order(s, i as int);
                }
                assert(first_accepted::<T>(s, i as int) == i);
                let entry = self.nums.remove(i);
                *skip = i;
                let key = entry.0;
                return Some((key, T::convert(entry.1.val)));
            }
            i = i + 1;
        }
        *skip = n;
        None
    }

    /// Retrieve and remove the next matching pair with a string key, at or
    /// after the cursor `skip` in insertion order, skipping and ignoring
    /// non-matching entries.
    ///
    /// The cursor moves as in `take_next_num`. Nothing is reported.
    pub fn take_next_str<T: TryFromValue>(&mut self, skip: &mut usize) -> (r: Option<(String, T)>)
        requires
            old(self).wf(),
        ensures
            final(self).wf(),
            final(self).nums@ == old(self).nums@,
            *final(skip) == first_accepted_str::<T>(old(self).strs@, *old(skip) as int),
            *final(skip) < old(self).strs@.len() ==> {
                &&& r is Some
                &&& r->Some_0.0@ == old(self).strs@[*final(skip) as int].0@
                &&& r->Some_0.1 == T::converted(old(self).strs@[*final(skip) as int].1.val)
                &&& final(self).strs@ == old(self).strs@.remove(*final(skip) as int)
            },
            *final(skip) >= old(self).strs@.len() ==> r is None && final(self).strs@ == old(
                self,
            ).strs@,
    {
        let ghost s = self.strs@;
        let ghost start = *skip as int;
        let n = self.strs.len();
        let mut i: usize = if *skip < n {
            *skip
        } else {
            n
        };
        while i < n
            invariant
                n == s.len(),
                s == old(self).strs@,
                self.strs@ == s,
                self.nums@ == old(self).nums@,
                self.wf(),
                i <= n,
                start == *old(skip) as int,
                first_accepted_str::<T>(s, start) == first_accepted_str::<T>(s, i as int),
            decreases n - i,
        {
            if T::check(&self.strs[i].1.val.v) {
                assert(first_accepted_str::<T>(s, i as int) == i);
                let entry = self.strs.remove(i);
                assert forall|a: int, b: int| 0 <= a < b < self.strs@.len() implies self.strs@[a].0@
                    != self.strs@[b].0@ by {
                    let ia = if a < i { a } else { a + 1 };
                    let ib = if b < i { b } else { b + 1 };
                    assert(self.strs@[a] == s[ia]);
                    assert(self.strs@[b] == s[ib]);
                }
                *skip = i;
                let key = entry.0;
                return Some((key, T::convert(entry.1.val)));
            }
            i = i + 1;
        }
        *skip = n;
        None
    }
}

} // verus!
