//! The head of an insert statement: the table and the column list, each
//! name in double quotes. Both come from the row type, never from input.

use crate::db::traits::BatchInsertRow;
use crate::text::{from_chars, replace_all, replaced, to_chars};
use vstd::prelude::*;
use vstd::string::*;

verus! {

/// A name in double quotes.
pub open spec fn quoted(name: Seq<char>) -> Seq<char> {
    "\""@ + name + "\""@
}

/// A qualified table with each of its parts in double quotes:
/// `ex_binance.trades` becomes `"ex_binance"."trades"`.
pub open spec fn quoted_table(table: Seq<char>) -> Seq<char> {
    "\""@ + replaced(table, "."@, "\".\""@) + "\""@
}

/// The first `n` columns, each in double quotes, joined by `, `.
pub open spec fn quoted_columns(columns: Seq<Seq<char>>, n: nat) -> Seq<char>
    decreases n,
{
    if n == 0 || n > columns.len() {
        Seq::empty()
    } else if n == 1 {
        quoted(columns[0])
    } else {
        quoted_columns(columns, (n - 1) as nat) + ", "@ + quoted(columns[n - 1])
    }
}

/// The statement up to its values:
/// `INSERT INTO "schema"."table" ("c1", "c2") `.
pub open spec fn insert_head(table: Seq<char>, columns: Seq<Seq<char>>) -> Seq<char> {
    "INSERT INTO "@ + quoted_table(table) + " ("@ + quoted_columns(columns, columns.len()) + ") "@
}

/// The head of the insert statement for rows of type `T` into `table`, with
/// the columns in their declared order.
pub fn insert_into<T: BatchInsertRow>(table: &str) -> (r: String)
    ensures
        r@ == insert_head(table@, T::column_names()),
{
    let columns = T::columns();
    let dotted = replace_all(&to_chars(table), &to_chars("."), &to_chars("\".\""));
    let mut r = String::from_str("INSERT INTO ");
    r.append("\"");
    r.append(from_chars(&dotted).as_str());
    r.append("\"");
    r.append(" (");
    let ghost names = T::column_names();
    let ghost head = "INSERT INTO "@ + quoted_table(table@) + " ("@;
    assert(r@ =~= head + quoted_columns(names, 0));
    let mut i: usize = 0;
    while i < columns.len()
        invariant
            i <= columns@.len(),
            columns@.len() == names.len(),
            forall|j: int| 0 <= j < columns@.len() ==> (#[trigger] columns@[j])@ == names[j],
            r@ == head + quoted_columns(names, i as nat),
        decreases columns@.len() - i,
    {
        if i > 0 {
            r.append(", ");
        }
        r.append("\"");
        r.append(columns[i]);
        r.append("\"");
        assert(columns@[i as int]@ == names[i as int]);
        assert(r@ =~= head + quoted_columns(names, (i + 1) as nat));
        i = i + 1;
    }
    r.append(") ");
    assert(r@ =~= insert_head(table@, names));
    r
}

} // verus!
