//! What a row type tells the writer: its table, its columns and, per row,
//! the values to bind in column order.

use vstd::prelude::*;

verus! {

/// One value of an insert statement, as plain data.
#[derive(Debug, Clone, PartialEq, Eq)]
pub enum BindValue {
    /// Nanoseconds since the Unix epoch, UTC.
    Time(i64),
    Text(String),
    Int16(i16),
    Int64(i64),
    OptInt64(Option<i64>),
    OptBool(Option<bool>),
    OptTime(Option<i64>),
}

pub trait BatchInsertRow {
    /// The table's name within an exchange's schema.
    spec fn kind_table() -> Seq<char>;

    /// The column names, in declared order.
    spec fn column_names() -> Seq<Seq<char>>;

    /// The values of this row, in column order.
    spec fn bind_values(&self) -> Seq<BindValue>;

    /// The qualified table: `ex_<exchange>.<kind-table>`.
    fn table(&self, exchange: &str) -> (r: String)
        ensures
            r@ == "ex_"@ + exchange@ + "."@ + Self::kind_table(),
    ;

    /// The column names, in declared order.
    fn columns() -> (r: Vec<&'static str>)
        ensures
            r@.len() == Self::column_names().len(),
            forall|i: int| 0 <= i < r@.len() ==> (#[trigger] r@[i])@ == Self::column_names()[i],
    ;

    /// Appends the values to bind for this row: one per column, in column
    /// order.
    fn push_binds(&self, b: &mut Vec<BindValue>)
        ensures
            final(b)@ == old(b)@ + self.bind_values(),
            self.bind_values().len() == Self::column_names().len(),
    ;
}

} // verus!
