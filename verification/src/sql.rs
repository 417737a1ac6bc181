//! The SQL statements the settings handlers send to Postgres.

use vstd::prelude::*;
use crate::text::{decimal, push_char, push_u64};

verus! {

/// `items` separated by `", "`.
pub open spec fn comma_joined(items: Seq<Seq<char>>) -> Seq<char>
    decreases items.len(),
{
    if items.len() == 0 {
        Seq::empty()
    } else if items.len() == 1 {
        items[0]
    } else {
        comma_joined(items.drop_last()) + ", "@ + items.last()
    }
}

/// The placeholders `$2, $3, …` for `n` values following the id's `$1`.
pub open spec fn value_placeholders(n: nat) -> Seq<char>
    decreases n,
{
    if n == 0 {
        Seq::empty()
    } else if n == 1 {
        seq!['$'] + decimal(2)
    } else {
        value_placeholders((n - 1) as nat) + ", "@ + seq!['$'] + decimal(n + 1)
    }
}

/// The views of the column names.
pub open spec fn key_views(keys: Seq<&str>) -> Seq<Seq<char>> {
    keys.map_values(|k: &str| k@)
}

/// The statement that inserts a row with the id and the given columns.
pub open spec fn insert_text(table: Seq<char>, keys: Seq<Seq<char>>) -> Seq<char> {
    "INSERT INTO "@ + table + " (id, "@ + comma_joined(keys) + ")\n                        VALUES ($1, "@
        + value_placeholders(keys.len()) + ");"@
}

/// The statement that sets one column of a row, creating the row if needed.
pub open spec fn update_text(table: Seq<char>, key: Seq<char>) -> Seq<char> {
    "INSERT INTO "@ + table + " (id, "@ + key + ")\n                        VALUES ($1, $2)\n                    ON CONFLICT (id)\n                    DO UPDATE SET "@
        + key + " = $2;"@
}

/// The statement that adds to one column of a row, creating the row if needed.
/// The existing value is always read from the `users` table.
pub open spec fn update_increase_text(table: Seq<char>, key: Seq<char>) -> Seq<char> {
    "INSERT INTO "@ + table + " (id, "@ + key + ")\n                        VALUES ($1, $2)\n                    ON CONFLICT (id)\n                    DO UPDATE SET "@
        + key + " = users."@ + key + " + $2;"@
}

/// The statement that creates a table with the given column definitions.
pub open spec fn create_table_text(table: Seq<char>, schema: Seq<char>) -> Seq<char> {
    "CREATE TABLE IF NOT EXISTS "@ + table + " (\n"@ + schema + "\n)"@
}

/// The statement that creates an index on a table.
pub open spec fn create_index_text(name: Seq<char>, table: Seq<char>, content: Seq<char>) -> Seq<char> {
    "CREATE INDEX IF NOT EXISTS "@ + name + " ON ONLY "@ + table + " (\n"@ + content + "\n)"@
}

/// The statement that reads the row of one id.
pub open spec fn select_text(table: Seq<char>) -> Seq<char> {
    "SELECT * FROM "@ + table + " WHERE id = $1"@
}

/// See `insert_text`; the values are bound to `$1` (the id), `$2`, … in order.
pub fn insert_query(table: &str, keys: &[&str]) -> (q: String)
    requires
        keys@.len() + 2 <= usize::MAX,
    ensures
        q@ == insert_text(table@, key_views(keys@)),
{
    let mut names = String::new();
    let mut params = String::new();
    let n = keys.len();
    let mut i: usize = 0;
    while i < n
        invariant
            n == keys@.len(),
            n + 2 <= usize::MAX,
            i <= n,
            names@ == comma_joined(key_views(keys@.subrange(0, i as int))),
            params@ == value_placeholders(i as nat),
        decreases n - i,
    {
        let ghost prefix = key_views(keys@.subrange(0, i as int));
        let ghost next = key_views(keys@.subrange(0, i + 1));
        assert(next.drop_last() =~= prefix);
        assert(next.last() == keys@[i as int]@);
        if i > 0 {
            names.append(", ");
            params.append(", ");
        }
        names.append(keys[i]);
        push_char(&mut params, '$');
        let number: usize = i + 2;
        push_u64(&mut params, number as u64);
        proof {
            if i == 0 {
                assert(next =~= seq![keys@[0]@]);
                assert(names@ =~= comma_joined(next));
                assert(params@ =~= value_placeholders(1));
            } else {
                assert(names@ =~= comma_joined(next));
                assert(params@ =~= value_placeholders((i + 1) as nat));
            }
        }
        i = i + 1;
    }
    assert(keys@.subrange(0, n as int) =~= keys@);
    let mut q = String::new();
    q.append("INSERT INTO ");
    q.append(table);
    q.append(" (id, ");
    q.append(names.as_str());
    q.append(")\n                        VALUES ($1, ");
    q.append(params.as_str());
    q.append(");");
    q
}

/// See `update_text`.
pub fn update_query(table: &str, key: &str) -> (q: String)
    ensures
        q@ == update_text(table@, key@),
{
    let mut q = String::new();
    q.append("INSERT INTO ");
    q.append(table);
    q.append(" (id, ");
    q.append(key);
    q.append(")\n                        VALUES ($1, $2)\n                    ON CONFLICT (id)\n                    DO UPDATE SET ");
    q.append(key);
    q.append(" = $2;");
    q
}

/// See `update_increase_text`.
pub fn update_increase_query(table: &str, key: &str) -> (q: String)
    ensures
        q@ == update_increase_text(table@, key@),
{
    let mut q = String::new();
    q.append("INSERT INTO ");
    q.append(table);
    q.append(" (id, ");
    q.append(key);
    q.append(")\n                        VALUES ($1, $2)\n                    ON CONFLICT (id)\n                    DO UPDATE SET ");
    q.append(key);
    q.append(" = users.");
    q.append(key);
    q.append(" + $2;");
    q
}

/// See `create_table_text`.
pub fn create_table_query(table: &str, schema: &str) -> (q: String)
    ensures
        q@ == create_table_text(table@, schema@),
{
    let mut q = String::new();
    q.append("CREATE TABLE IF NOT EXISTS ");
    q.append(table);
    q.append(" (\n");
    q.append(schema);
    q.append("\n)");
    q
}

/// See `create_index_text`.
pub fn create_index_query(name: &str, table: &str, content: &str) -> (q: String)
    ensures
        q@ == create_index_text(name@, table@, content@),
{
    let mut q = String::new();
    q.append("CREATE INDEX IF NOT EXISTS ");
    q.append(name);
    q.append(" ON ONLY ");
    q.append(table);
    q.append(" (\n");
    q.append(content);
    q.append("\n)");
    q
}

/// See `select_text`.
pub fn select_query(table: &str) -> (q: String)
    ensures
        q@ == select_text(table@),
{
    let mut q = String::new();
    q.append("SELECT * FROM ");
    q.append(table);
    q.append(" WHERE id = $1");
    q
}

} // verus!
