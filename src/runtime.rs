//! What generated operations use when they run: the tri-state value of a
//! default-capable field, and the builder that assembles an insert whose
//! columns depend on the payload.
use vstd::prelude::*;
use crate::query::{insert_sql, insert_statement};
use crate::text::views;

verus! {

/// The value of a default-capable field in an insert payload: either let the
/// store apply its default, or send this value. Distinct from `Option`, so
/// that an explicit `None` (SQL `NULL`) can still be sent.
#[derive(Debug, Clone, PartialEq, Eq)]
pub enum Defaultable<T> {
    Default,
    Value(T),
}

impl<T> Defaultable<T> {
    /// Whether an explicit value is carried, so that the column is sent.
    pub fn is_value(&self) -> (r: bool)
        ensures
            r == self is Value,
    {
        match self {
            Defaultable::Default => false,
            Defaultable::Value(_) => true,
        }
    }
}

/// The names in `optional` whose flag in `supplied` is set, in order.
pub open spec fn supplied_columns(optional: Seq<Seq<char>>, supplied: Seq<bool>) -> Seq<Seq<char>>
    decreases optional.len(),
{
    if optional.len() == 0 || supplied.len() != optional.len() {
        Seq::empty()
    } else {
        let rest = supplied_columns(optional.drop_last(), supplied.drop_last());
        if supplied.last() {
            rest.push(optional.last())
        } else {
            rest
        }
    }
}

/// The columns that an insert sends: those always sent, then each optional
/// column whose payload carries a value.
pub open spec fn chosen_columns(
    statics: Seq<Seq<char>>,
    optional: Seq<Seq<char>>,
    supplied: Seq<bool>,
) -> Seq<Seq<char>> {
    statics + supplied_columns(optional, supplied)
}

/// The column list of one insert, built as its payload is read. Parameters
/// are bound in the same order: `$k` belongs to the `k`-th column.
pub struct InsertColumns {
    columns: Vec<String>,
}

impl View for InsertColumns {
    type V = Seq<Seq<char>>;

    closed spec fn view(&self) -> Seq<Seq<char>> {
        views(self.columns@)
    }
}

impl InsertColumns {
    /// Starts with the columns that every insert sends.
    pub fn new(statics: Vec<String>) -> (r: InsertColumns)
        ensures
            r@ == views(statics@),
    {
        InsertColumns { columns: statics }
    }

    /// Adds `name` when its payload carries a value, and nothing otherwise.
    pub fn push_optional(&mut self, name: &str, supplied: bool)
        ensures
            final(self)@ == if supplied {
                old(self)@.push(name@)
            } else {
                old(self)@
            },
    {
        if supplied {
            self.columns.push(String::from_str(name));
            assert(views(self.columns@) =~= views(old(self).columns@).push(name@));
        }
    }

    /// The columns gathered so far.
    pub fn columns(&self) -> (r: &Vec<String>)
        ensures
            views(r@) == self@,
    {
        &self.columns
    }

    /// The insert statement for the gathered columns; with none, the store
    /// fills every column with its default.
    pub fn statement(&self, table: &str) -> (r: String)
        ensures
            r@ == insert_sql(table@, self@),
    {
        insert_statement(table, &self.columns)
    }
}

/// The names of a list of optional columns.
pub open spec fn optional_names(optional: Seq<(String, bool)>) -> Seq<Seq<char>> {
    Seq::new(optional.len(), |i: int| optional[i].0@)
}

/// Whether each optional column of a list carries a value.
pub open spec fn optional_flags(optional: Seq<(String, bool)>) -> Seq<bool> {
    Seq::new(optional.len(), |i: int| optional[i].1)
}

/// The columns of one insert: `statics`, then the name of each optional
/// column whose flag is set.
pub fn insert_columns(statics: Vec<String>, optional: &Vec<(String, bool)>) -> (r: InsertColumns)
    ensures
        r@ == chosen_columns(
            views(statics@),
            optional_names(optional@),
            optional_flags(optional@),
        ),
{
    let ghost st = views(statics@);
    let ghost names = optional_names(optional@);
    let ghost flags = optional_flags(optional@);
    let mut r = InsertColumns::new(statics);
    let mut i: usize = 0;
    while i < optional.len()
        invariant
            i <= optional@.len(),
            names == optional_names(optional@),
            flags == optional_flags(optional@),
            r@ == st + supplied_columns(names.take(i as int), flags.take(i as int)),
        decreases optional@.len() - i,
    {
        assert(names.take(i + 1).drop_last() == names.take(i as int));
        assert(flags.take(i + 1).drop_last() == flags.take(i as int));
        assert(names.take(i + 1).last() == optional@[i as int].0@);
        assert(flags.take(i + 1).last() == optional@[i as int].1);
        r.push_optional(optional[i].0.as_str(), optional[i].1);
        i = i + 1;
    }
    assert(names.take(optional@.len() as int) == names);
    assert(flags.take(optional@.len() as int) == flags);
    r
}

} // verus!
