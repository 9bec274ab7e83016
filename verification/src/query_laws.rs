//! What the rendered statements look like, stated as relations between the
//! statements of builders that differ by one call. Each law holds for every
//! builder state it names; a rendering that put another separator between
//! clauses of one kind, dropped or added a keyword, or let one clause
//! depend on another would break it.
use vstd::prelude::*;

use crate::query_builder::{
    list_clause, number_clause, delete_text, insert_text, placeholder, select_text, update_text, DeleteView, InsertView,
    SelectView, UpdateView,
};
use crate::text::{int_text, lemma_join_push};

verus! {

/// A join goes right after the table and the joins before it, separated by
/// a single space and nothing else.
pub proof fn law_select_join_appends(v: SelectView, table: Seq<char>, join: Seq<char>)
    requires
        v.wheres.len() == 0,
        v.order_by.len() == 0,
        v.limit is None,
        v.offset is None,
    ensures
        select_text(SelectView { joins: v.joins.push(join), ..v }, table) == select_text(v, table)
            + " "@ + join,
{
    reveal_strlit("");
    reveal_strlit(" ");
    lemma_join_push(v.joins, " "@, join);
    assert(select_text(SelectView { joins: v.joins.push(join), ..v }, table) =~= select_text(
        v,
        table,
    ) + " "@ + join);
}

/// A condition goes after the earlier ones: the first after ` WHERE `,
/// later ones after ` AND `.
pub proof fn law_select_condition_appends(v: SelectView, table: Seq<char>, cond: Seq<char>)
    requires
        v.order_by.len() == 0,
        v.limit is None,
        v.offset is None,
    ensures
        select_text(SelectView { wheres: v.wheres.push(cond), ..v }, table) == select_text(v, table)
            + (if v.wheres.len() == 0 {
            " WHERE "@
        } else {
            " AND "@
        }) + cond,
{
    reveal_strlit("WHERE");
    reveal_strlit(" WHERE ");
    lemma_join_push(v.wheres, " AND "@, cond);
    assert(select_text(SelectView { wheres: v.wheres.push(cond), ..v }, table) =~= select_text(
        v,
        table,
    ) + (if v.wheres.len() == 0 {
        " WHERE "@
    } else {
        " AND "@
    }) + cond);
}

/// An ordering term goes after the earlier ones: the first after
/// ` ORDER BY `, later ones after `, `.
pub proof fn law_select_order_appends(v: SelectView, table: Seq<char>, term: Seq<char>)
    requires
        v.limit is None,
        v.offset is None,
    ensures
        select_text(SelectView { order_by: v.order_by.push(term), ..v }, table) == select_text(
            v,
            table,
        ) + (if v.order_by.len() == 0 {
            " ORDER BY "@
        } else {
            ", "@
        }) + term,
{
    reveal_strlit("ORDER BY");
    reveal_strlit(" ORDER BY ");
    lemma_join_push(v.order_by, ", "@, term);
    assert(select_text(SelectView { order_by: v.order_by.push(term), ..v }, table) =~= select_text(
        v,
        table,
    ) + (if v.order_by.len() == 0 {
        " ORDER BY "@
    } else {
        ", "@
    }) + term);
}

/// A limit adds ` LIMIT n` after everything but the offset.
pub proof fn law_select_limit_appends(v: SelectView, table: Seq<char>, n: i64)
    requires
        v.offset is None,
    ensures
        select_text(SelectView { limit: Some(n), ..v }, table) == select_text(
            SelectView { limit: None, ..v },
            table,
        ) + " LIMIT "@ + int_text(n as int),
{
    reveal_strlit("LIMIT");
    reveal_strlit(" LIMIT ");
    assert(select_text(SelectView { limit: Some(n), ..v }, table) =~= select_text(
        SelectView { limit: None, ..v },
        table,
    ) + " LIMIT "@ + int_text(n as int));
}

/// An offset adds ` OFFSET n` at the very end, whether or not there is a
/// limit.
pub proof fn law_select_offset_appends(v: SelectView, table: Seq<char>, n: i64)
    ensures
        select_text(SelectView { offset: Some(n), ..v }, table) == select_text(
            SelectView { offset: None, ..v },
            table,
        ) + " OFFSET "@ + int_text(n as int),
{
    reveal_strlit("OFFSET");
    reveal_strlit(" OFFSET ");
    assert(select_text(SelectView { offset: Some(n), ..v }, table) =~= select_text(
        SelectView { offset: None, ..v },
        table,
    ) + " OFFSET "@ + int_text(n as int));
}

/// The statement begins `SELECT`, then the column list, then ` FROM ` and
/// the table; with no column chosen the list is `*`, a first column
/// replaces it, and each further column follows the earlier ones after `, `.
pub proof fn law_select_column_list(v: SelectView, table: Seq<char>, column: Seq<char>)
    ensures
        exists|cols: Seq<char>, rest: Seq<char>|
            #![trigger cols.len(), rest.len()]
            {
                &&& select_text(v, table) == "SELECT "@ + cols + " FROM "@ + table + rest
                &&& select_text(SelectView { columns: v.columns.push(column), ..v }, table)
                    == "SELECT "@ + (if v.columns.len() == 0 {
                    column
                } else {
                    cols + ", "@ + column
                }) + " FROM "@ + table + rest
                &&& (v.columns.len() == 0 ==> cols == "*"@)
            },
{
    lemma_join_push(v.columns, ", "@, column);
    let cols = if v.columns.len() == 0 {
        "*"@
    } else {
        crate::text::join_text(v.columns, ", "@)
    };
    let rest = list_clause(""@, v.joins, " "@) + list_clause("WHERE"@, v.wheres, " AND "@)
        + list_clause("ORDER BY"@, v.order_by, ", "@) + number_clause("LIMIT"@, v.limit)
        + number_clause("OFFSET"@, v.offset);
    assert(select_text(v, table) =~= "SELECT "@ + cols + " FROM "@ + table + rest);
    assert(select_text(SelectView { columns: v.columns.push(column), ..v }, table) =~= "SELECT "@
        + (if v.columns.len() == 0 {
        column
    } else {
        cols + ", "@ + column
    }) + " FROM "@ + table + rest);
    assert(cols.len() == cols.len() && rest.len() == rest.len());
}

/// With no `RETURNING` column an `INSERT` ends with the closing bracket of
/// its `VALUES` list.
pub proof fn law_insert_ends_with_values(v: InsertView, table: Seq<char>)
    requires
        v.returning.len() == 0,
    ensures
        insert_text(v, table).last() == ')',
        insert_text(v, table).len() > 0,
{
    reveal_strlit(")");
    let s = insert_text(v, table);
    assert(s =~= ("INSERT INTO "@ + table + " ("@ + crate::text::join_text(v.columns, ", "@)
        + ") VALUES ("@ + crate::text::join_text(crate::query_builder::placeholders(v.columns.len()), ", "@))
        + ")"@);
}

/// A `RETURNING` column goes at the end: the first after ` RETURNING `,
/// later ones after `, `.
pub proof fn law_insert_returning_appends(v: InsertView, table: Seq<char>, column: Seq<char>)
    ensures
        insert_text(InsertView { returning: v.returning.push(column), ..v }, table) == insert_text(
            v,
            table,
        ) + (if v.returning.len() == 0 {
            " RETURNING "@
        } else {
            ", "@
        }) + column,
{
    reveal_strlit("RETURNING");
    reveal_strlit(" RETURNING ");
    lemma_join_push(v.returning, ", "@, column);
    assert(insert_text(InsertView { returning: v.returning.push(column), ..v }, table) =~= insert_text(
        v,
        table,
    ) + (if v.returning.len() == 0 {
        " RETURNING "@
    } else {
        ", "@
    }) + column);
}

/// A column of an `INSERT` joins the column list after `, ` (or alone when
/// it is the first), and its placeholder `$n`, `n` the new number of
/// columns, joins the `VALUES` list in the same way; the rest is unchanged.
pub proof fn law_insert_column_appends(v: InsertView, table: Seq<char>, column: Seq<char>)
    ensures
        exists|cols: Seq<char>, vals: Seq<char>, rest: Seq<char>|
            #![trigger cols.len(), vals.len(), rest.len()]
            {
                &&& insert_text(v, table) == "INSERT INTO "@ + table + " ("@ + cols + ") VALUES ("@
                    + vals + ")"@ + rest
                &&& insert_text(InsertView { columns: v.columns.push(column), ..v }, table)
                    == "INSERT INTO "@ + table + " ("@ + (if v.columns.len() == 0 {
                    column
                } else {
                    cols + ", "@ + column
                }) + ") VALUES ("@ + (if v.columns.len() == 0 {
                    placeholder(1)
                } else {
                    vals + ", "@ + placeholder(v.columns.len() as int + 1)
                }) + ")"@ + rest
            },
{
    let n = v.columns.len();
    let ph = crate::query_builder::placeholders(n);
    let ph2 = crate::query_builder::placeholders(n + 1);
    assert(ph2 =~= ph.push(placeholder(n as int + 1)));
    lemma_join_push(v.columns, ", "@, column);
    lemma_join_push(ph, ", "@, placeholder(n as int + 1));
    let cols = crate::text::join_text(v.columns, ", "@);
    let vals = crate::text::join_text(ph, ", "@);
    let rest = crate::query_builder::list_clause("RETURNING"@, v.returning, ", "@);
    assert(insert_text(v, table) =~= "INSERT INTO "@ + table + " ("@ + cols + ") VALUES ("@ + vals
        + ")"@ + rest);
    assert(insert_text(InsertView { columns: v.columns.push(column), ..v }, table) =~= "INSERT INTO "@
        + table + " ("@ + (if n == 0 {
        column
    } else {
        cols + ", "@ + column
    }) + ") VALUES ("@ + (if n == 0 {
        placeholder(1)
    } else {
        vals + ", "@ + placeholder(n as int + 1)
    }) + ")"@ + rest);
    assert(cols.len() == cols.len() && vals.len() == vals.len() && rest.len() == rest.len());
}

/// A `RETURNING` column of an `UPDATE` goes at the end: the first after
/// ` RETURNING `, later ones after `, `.
pub proof fn law_update_returning_appends(v: UpdateView, table: Seq<char>, column: Seq<char>)
    ensures
        update_text(UpdateView { returning: v.returning.push(column), ..v }, table) == update_text(
            v,
            table,
        ) + (if v.returning.len() == 0 {
            " RETURNING "@
        } else {
            ", "@
        }) + column,
{
    reveal_strlit("RETURNING");
    reveal_strlit(" RETURNING ");
    lemma_join_push(v.returning, ", "@, column);
    assert(update_text(UpdateView { returning: v.returning.push(column), ..v }, table) =~= update_text(
        v,
        table,
    ) + (if v.returning.len() == 0 {
        " RETURNING "@
    } else {
        ", "@
    }) + column);
}

/// A condition of an `UPDATE` goes after the earlier ones: the first after
/// ` WHERE `, later ones after ` AND `.
pub proof fn law_update_condition_appends(v: UpdateView, table: Seq<char>, cond: Seq<char>)
    requires
        v.returning.len() == 0,
    ensures
        update_text(UpdateView { wheres: v.wheres.push(cond), ..v }, table) == update_text(v, table)
            + (if v.wheres.len() == 0 {
            " WHERE "@
        } else {
            " AND "@
        }) + cond,
{
    reveal_strlit("WHERE");
    reveal_strlit(" WHERE ");
    lemma_join_push(v.wheres, " AND "@, cond);
    assert(update_text(UpdateView { wheres: v.wheres.push(cond), ..v }, table) =~= update_text(
        v,
        table,
    ) + (if v.wheres.len() == 0 {
        " WHERE "@
    } else {
        " AND "@
    }) + cond);
}

/// An assignment of an `UPDATE` follows the earlier ones after `, ` (or
/// comes alone right after ` SET ` when it is the first); the rest is
/// unchanged.
pub proof fn law_update_assignment_appends(v: UpdateView, table: Seq<char>, assignment: Seq<char>)
    ensures
        exists|sets: Seq<char>, rest: Seq<char>|
            #![trigger sets.len(), rest.len()]
            {
                &&& update_text(v, table) == "UPDATE "@ + table + " SET "@ + sets + rest
                &&& update_text(UpdateView { sets: v.sets.push(assignment), ..v }, table)
                    == "UPDATE "@ + table + " SET "@ + (if v.sets.len() == 0 {
                    assignment
                } else {
                    sets + ", "@ + assignment
                }) + rest
            },
{
    lemma_join_push(v.sets, ", "@, assignment);
    let sets = crate::text::join_text(v.sets, ", "@);
    let rest = crate::query_builder::list_clause("WHERE"@, v.wheres, " AND "@)
        + crate::query_builder::list_clause("RETURNING"@, v.returning, ", "@);
    assert(update_text(v, table) =~= "UPDATE "@ + table + " SET "@ + sets + rest);
    assert(update_text(UpdateView { sets: v.sets.push(assignment), ..v }, table) =~= "UPDATE "@
        + table + " SET "@ + (if v.sets.len() == 0 {
        assignment
    } else {
        sets + ", "@ + assignment
    }) + rest);
    assert(sets.len() == sets.len() && rest.len() == rest.len());
}

/// A condition of a `DELETE` goes after the earlier ones: the first after
/// ` WHERE `, later ones after ` AND `.
pub proof fn law_delete_condition_appends(v: DeleteView, table: Seq<char>, cond: Seq<char>)
    ensures
        delete_text(DeleteView { wheres: v.wheres.push(cond), ..v }, table) == delete_text(v, table)
            + (if v.wheres.len() == 0 {
            " WHERE "@
        } else {
            " AND "@
        }) + cond,
{
    reveal_strlit("WHERE");
    reveal_strlit(" WHERE ");
    lemma_join_push(v.wheres, " AND "@, cond);
    assert(delete_text(DeleteView { wheres: v.wheres.push(cond), ..v }, table) =~= delete_text(
        v,
        table,
    ) + (if v.wheres.len() == 0 {
        " WHERE "@
    } else {
        " AND "@
    }) + cond);
}

} // verus!
