//! Composition of the `where` part of the list queries: each filter that
//! is asked for appends ` and <column> <op> $<k>`, where `$<k>` is the
//! placeholder of the parameter it binds, numbered from one in the order
//! the parameters are bound.

use vstd::prelude::*;
use crate::numeric::{decimal, format_u64};
use crate::text::{join, join_with, string_from, texts};

verus! {

/// A calendar day, bound as a `date` parameter.
#[derive(Debug, Clone, Copy)]
pub struct CalendarDay {
    pub year: i32,
    pub month: u32,
    pub day: u32,
}

/// A value bound to a query placeholder.
#[derive(Debug)]
pub enum SqlParam {
    Int(i32),
    Text(String),
    Bool(bool),
    Day(CalendarDay),
}

/// The placeholder of the `k`-th bound parameter: `$k`.
pub open spec fn placeholder(k: nat) -> Seq<char> {
    "$"@ + decimal(k)
}

/// The placeholders `$first, $first+1, ...` for `count` parameters,
/// separated by `, `.
pub open spec fn placeholder_list(first: nat, count: nat) -> Seq<char> {
    join_with(Seq::new(count, |i: int| placeholder((first + i) as nat)), ", "@)
}

/// The condition ` and <column> <op> $k`.
pub open spec fn condition(column: Seq<char>, op: Seq<char>, k: nat) -> Seq<char> {
    " and "@ + column + " "@ + op + " "@ + placeholder(k)
}

/// The condition for a list of `count` values whose first placeholder is
/// `$first`: nothing for no values, ` and <column> = $first` for one, and
/// ` and <column> in ($first, ...)` for more.
pub open spec fn list_condition(column: Seq<char>, first: nat, count: nat) -> Seq<char> {
    if count == 0 {
        seq![]
    } else if count == 1 {
        condition(column, "="@, first)
    } else {
        " and "@ + column + " in ("@ + placeholder_list(first, count) + ")"@
    }
}

/// The `where` part of a query under construction and the parameters bound
/// so far, in placeholder order.
#[derive(Debug)]
pub struct SqlFilter {
    pub text: String,
    pub params: Vec<SqlParam>,
}

/// The placeholder for position `k` (as `format!("${}", k)`).
pub fn placeholder_text_of(k: usize) -> (r: String)
    ensures
        r@ == placeholder(k as nat),
{
    placeholder_text(k)
}

fn placeholder_text(k: usize) -> (r: String)
    ensures
        r@ == placeholder(k as nat),
{
    let mut r = string_from("$");
    let d = format_u64(k as u64);
    r.append(d.as_str());
    r
}

impl SqlFilter {
    /// A filter with the fixed text `base` and no parameters.
    pub fn new(base: &str) -> (r: SqlFilter)
        ensures
            r.text@ == base@,
            r.params@.len() == 0,
    {
        SqlFilter { text: string_from(base), params: Vec::new() }
    }

    /// Appends fixed text.
    pub fn push_text(&mut self, t: &str)
        ensures
            final(self).text@ == old(self).text@ + t@,
            final(self).params@ == old(self).params@,
    {
        self.text.append(t);
    }

    /// Binds `value` and appends ` and <column> <op> $k` for it.
    pub fn push_condition(&mut self, column: &str, op: &str, value: SqlParam)
        ensures
            final(self).params@ == old(self).params@.push(value),
            final(self).text@ == old(self).text@ + condition(
                column@,
                op@,
                old(self).params@.len() + 1,
            ),
    {
        self.params.push(value);
        let k = self.params.len();
        let ph = placeholder_text(k);
        self.text.append(" and ");
        self.text.append(column);
        self.text.append(" ");
        self.text.append(op);
        self.text.append(" ");
        self.text.append(ph.as_str());
    }

    /// Binds every value of the list, in order, and appends the list
    /// condition for them.
    pub fn push_list(&mut self, column: &str, values: Vec<SqlParam>)
        ensures
            final(self).params@ == old(self).params@ + values@,
            final(self).text@ == old(self).text@ + list_condition(
                column@,
                old(self).params@.len() + 1,
                values@.len(),
            ),
    {
        let ghost all = values@;
        let n = values.len();
        if n == 0 {
            assert(old(self).params@ + all =~= old(self).params@);
            return ;
        }
        let mut vals = values;
        if n == 1 {
            let v = vals.remove(0);
            assert(old(self).params@ + all =~= old(self).params@.push(v));
            self.push_condition(column, "=", v);
            return ;
        }
        let ghost first = self.params@.len() + 1;
        let ghost start_params = self.params@;
        let mut placeholders: Vec<String> = Vec::new();
        let mut i: usize = 0;
        // bind the values in order, remembering their placeholders
        while i < n
            invariant
                n == all.len(),
                i <= n,
                vals@ == all.subrange(i as int, n as int),
                self.params@ == start_params + all.subrange(0, i as int),
                first == start_params.len() + 1,
                texts(placeholders@) == Seq::new(i as nat, |j: int| placeholder((first + j) as nat)),
                self.text@ == old(self).text@,
            decreases n - i,
        {
            let v = vals.remove(0);
            assert(v == all[i as int]);
            assert(vals@ =~= all.subrange(i + 1, n as int));
            self.params.push(v);
            let k = self.params.len();
            assert(k == first + i);
            let ph = placeholder_text(k);
            let ghost phv = ph@;
            let ghost before = placeholders@;
            assert(texts(before).len() == before.len());
            assert(before.len() == i);
            placeholders.push(ph);
            assert(texts(placeholders@).len() == placeholders@.len());
            assert(placeholders@ == before.push(ph));
            assert forall|j: int| 0 <= j < i + 1 implies texts(placeholders@)[j] == placeholder(
                (first + j) as nat,
            ) by {
                if j < i {
                    assert(texts(placeholders@)[j] == placeholders@[j]@);
                    assert(placeholders@[j] == before[j]);
                    assert(texts(before)[j] == before[j]@);
                } else {
                    assert(texts(placeholders@)[j] == placeholders@[j]@);
                }
            }
            assert(self.params@ =~= start_params + all.subrange(0, i + 1));
            assert(texts(placeholders@) =~= Seq::new(
                (i + 1) as nat,
                |j: int| placeholder((first + j) as nat),
            ));
            i = i + 1;
        }
        assert(all.subrange(0, n as int) =~= all);
        let list = join(&placeholders, ", ");
        self.text.append(" and ");
        self.text.append(column);
        self.text.append(" in (");
        self.text.append(list.as_str());
        self.text.append(")");
    }
}

} // verus!
