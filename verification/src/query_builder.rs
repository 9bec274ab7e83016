//! Builders for parameterised PostgreSQL statements.
//!
//! Each builder records clauses as text and numbers its `$n` placeholders
//! in the order in which parameters are added; `build` renders the
//! statement, or reports the part that a valid statement still lacks.
use vstd::prelude::*;
use vstd::string::*;

use crate::error::RepositoryError;
use crate::text::{int_text, join, join_text, push_int, texts};

verus! {

// ---------------------------------------------------------------------
// The text that the builders produce
// ---------------------------------------------------------------------

/// The view of an optional string.
pub open spec fn opt_text(o: Option<String>) -> Option<Seq<char>> {
    match o {
        Some(s) => Some(s@),
        None => None,
    }
}

/// A clause of the form ` PREFIX item1 SEP item2 ...` (or ` item1 SEP ...`
/// when the prefix is empty); nothing at all when there are no items.
pub open spec fn list_clause(prefix: Seq<char>, items: Seq<Seq<char>>, sep: Seq<char>) -> Seq<char> {
    if items.len() == 0 {
        seq![]
    } else if prefix.len() == 0 {
        seq![' '] + join_text(items, sep)
    } else {
        seq![' '] + prefix + seq![' '] + join_text(items, sep)
    }
}

/// A clause of the form ` PREFIX value`, or nothing when there is no value.
pub open spec fn number_clause(prefix: Seq<char>, value: Option<i64>) -> Seq<char> {
    match value {
        Some(v) => seq![' '] + prefix + seq![' '] + int_text(v as int),
        None => seq![],
    }
}

/// The placeholder `$n`.
pub open spec fn placeholder(n: int) -> Seq<char> {
    seq!['$'] + int_text(n)
}

/// The condition or assignment `column = $n`.
pub open spec fn param_condition(column: Seq<char>, n: int) -> Seq<char> {
    column + " = "@ + placeholder(n)
}

/// The placeholders `$1`, ..., `$n`.
pub open spec fn placeholders(n: nat) -> Seq<Seq<char>> {
    Seq::new(n, |i: int| placeholder(i + 1))
}

/// The conditions (or assignments) and the parameter count after
/// `column = $n` has been added for each of `columns` in turn, starting from
/// `items` and `count`: each step is what one call of `where_param`,
/// `set_always` or `where_id` does.
pub open spec fn add_param_conditions(items: Seq<Seq<char>>, count: int, columns: Seq<Seq<char>>) -> (
    Seq<Seq<char>>,
    int,
)
    decreases columns.len(),
{
    if columns.len() == 0 {
        (items, count)
    } else {
        let prev = add_param_conditions(items, count, columns.drop_last());
        (prev.0.push(param_condition(columns.last(), prev.1 + 1)), prev.1 + 1)
    }
}

/// Parameters are numbered in the order in which they are added: the
/// `k`-th one added (counting from 0) becomes `$(count + k + 1)`, and the
/// count grows by the number of parameters added.
pub proof fn lemma_params_numbered_in_call_order(
    items: Seq<Seq<char>>,
    count: int,
    columns: Seq<Seq<char>>,
)
    ensures
        add_param_conditions(items, count, columns).0 == items + Seq::new(
            columns.len(),
            |k: int| param_condition(columns[k], count + k + 1),
        ),
        add_param_conditions(items, count, columns).1 == count + columns.len(),
    decreases columns.len(),
{
    if columns.len() > 0 {
        let n = columns.len();
        lemma_params_numbered_in_call_order(items, count, columns.drop_last());
        assert(add_param_conditions(items, count, columns).0 =~= items + Seq::new(
            n,
            |k: int| param_condition(columns[k], count + k + 1),
        ));
    } else {
        assert(items + Seq::new(0, |k: int| param_condition(columns[k], count + k + 1)) =~= items);
    }
}

/// One step of `add_param_conditions` is one added parameter.
proof fn lemma_one_param_condition(items: Seq<Seq<char>>, count: int, column: Seq<char>)
    ensures
        add_param_conditions(items, count, seq![column]) == (
            items.push(param_condition(column, count + 1)),
            count + 1,
        ),
{
    let cols = seq![column];
    assert(cols.drop_last() =~= Seq::<Seq<char>>::empty());
    assert(add_param_conditions(items, count, cols.drop_last()) == (items, count));
    assert(cols.last() == column);
}

/// Appends `column = $n` to a list of conditions or assignments.
fn push_param_condition(items: &mut Vec<String>, column: &str, n: i32)
    ensures
        texts(final(items)@) == texts(old(items)@).push(param_condition(column@, n as int)),
{
    let mut c = column.to_owned();
    c.append(" = ");
    c.append("$");
    push_int(&mut c, n as i64);
    proof {
        reveal_strlit("$");
        assert(c@ =~= param_condition(column@, n as int));
    }
    items.push(c);
    assert(texts(items@) =~= texts(old(items)@).push(param_condition(column@, n as int)));
}

/// Appends a copy of `s` to `items`.
fn push_text(items: &mut Vec<String>, s: &str)
    ensures
        texts(final(items)@) == texts(old(items)@).push(s@),
{
    items.push(s.to_owned());
    assert(texts(items@) =~= texts(old(items)@).push(s@));
}

/// A statement under construction: its text so far.
struct QueryFragment {
    base: String,
}

impl QueryFragment {
    fn new(base: String) -> (r: Self)
        ensures
            r.base@ == base@,
    {
        QueryFragment { base }
    }

    fn append_if(self, prefix: &str, items: &Vec<String>, separator: &str) -> (r: Self)
        ensures
            r.base@ == self.base@ + list_clause(prefix@, texts(items@), separator@),
    {
        let mut base = self.base;
        if items.len() > 0 {
            let joined = join(items, separator);
            base.append(" ");
            if !prefix.is_empty() {
                base.append(prefix);
                base.append(" ");
            }
            base.append(joined.as_str());
        }
        proof {
            reveal_strlit(" ");
        }
        QueryFragment { base }
    }

    fn append_option(self, prefix: &str, value: Option<i64>) -> (r: Self)
        ensures
            r.base@ == self.base@ + number_clause(prefix@, value),
    {
        let mut base = self.base;
        if let Some(v) = value {
            base.append(" ");
            base.append(prefix);
            base.append(" ");
            push_int(&mut base, v);
        }
        proof {
            reveal_strlit(" ");
        }
        assert(base@ =~= self.base@ + number_clause(prefix@, value));
        QueryFragment { base }
    }

    fn build(self) -> (r: String)
        ensures
            r@ == self.base@,
    {
        self.base
    }
}


// ---------------------------------------------------------------------
// ORDER BY direction
// ---------------------------------------------------------------------

/// The direction of an `ORDER BY` term.
pub enum OrderDirection {
    Asc,
    Desc,
}

impl OrderDirection {
    /// The SQL keyword of the direction.
    pub open spec fn keyword(&self) -> Seq<char> {
        match self {
            OrderDirection::Asc => "ASC"@,
            OrderDirection::Desc => "DESC"@,
        }
    }

    /// The SQL keyword of the direction: `ASC` or `DESC`.
    pub fn as_str(&self) -> (r: &'static str)
        ensures
            r@ == self.keyword(),
    {
        match self {
            OrderDirection::Asc => "ASC",
            OrderDirection::Desc => "DESC",
        }
    }
}

// ---------------------------------------------------------------------
// SELECT
// ---------------------------------------------------------------------

/// What a `SelectBuilder` has recorded.
pub struct SelectView {
    pub columns: Seq<Seq<char>>,
    pub from: Option<Seq<char>>,
    pub joins: Seq<Seq<char>>,
    pub wheres: Seq<Seq<char>>,
    pub order_by: Seq<Seq<char>>,
    pub limit: Option<i64>,
    pub offset: Option<i64>,
    pub param_count: int,
}

impl SelectView {
    /// Nothing recorded: no columns, no table, no clauses, no parameters.
    pub open spec fn empty() -> SelectView {
        SelectView {
            columns: seq![],
            from: None,
            joins: seq![],
            wheres: seq![],
            order_by: seq![],
            limit: None,
            offset: None,
            param_count: 0,
        }
    }
}

/// The `SELECT` statement of a view whose table is `from`: the selected
/// columns (or `*` when none was chosen), the joins, the conditions joined
/// by `AND`, the ordering, then `LIMIT` and `OFFSET`.
pub open spec fn select_text(v: SelectView, from: Seq<char>) -> Seq<char> {
    let columns = if v.columns.len() == 0 {
        "*"@
    } else {
        join_text(v.columns, ", "@)
    };
    "SELECT "@ + columns + " FROM "@ + from
        + list_clause(""@, v.joins, " "@)
        + list_clause("WHERE"@, v.wheres, " AND "@)
        + list_clause("ORDER BY"@, v.order_by, ", "@)
        + number_clause("LIMIT"@, v.limit)
        + number_clause("OFFSET"@, v.offset)
}

/// One call of a `SelectBuilder` method, as far as the builder records it.
pub enum SelectCall {
    Select(Seq<char>),
    SelectAll,
    From(Seq<char>),
    InnerJoin(Seq<char>, Seq<char>),
    LeftJoin(Seq<char>, Seq<char>),
    /// The column and the direction's keyword.
    OrderBy(Seq<char>, Seq<char>),
    Limit(i64),
    Offset(i64),
    WhereClause(Seq<char>),
    WhereParam(Seq<char>),
}

impl SelectView {
    /// What one call does to the recorded clauses.
    pub open spec fn apply(self, c: SelectCall) -> SelectView {
        match c {
            SelectCall::Select(col) => SelectView { columns: self.columns.push(col), ..self },
            SelectCall::SelectAll => SelectView { columns: self.columns.push("*"@), ..self },
            SelectCall::From(t) => SelectView { from: Some(t), ..self },
            SelectCall::InnerJoin(t, on) => SelectView {
                joins: self.joins.push("INNER JOIN "@ + t + " ON "@ + on),
                ..self
            },
            SelectCall::LeftJoin(t, on) => SelectView {
                joins: self.joins.push("LEFT JOIN "@ + t + " ON "@ + on),
                ..self
            },
            SelectCall::OrderBy(col, dir) => SelectView {
                order_by: self.order_by.push(col + seq![' '] + dir),
                ..self
            },
            SelectCall::Limit(n) => SelectView { limit: Some(n), ..self },
            SelectCall::Offset(n) => SelectView { offset: Some(n), ..self },
            SelectCall::WhereClause(c) => SelectView { wheres: self.wheres.push(c), ..self },
            SelectCall::WhereParam(col) => SelectView {
                wheres: self.wheres.push(param_condition(col, self.param_count + 1)),
                param_count: self.param_count + 1,
                ..self
            },
        }
    }
}

/// What a sequence of calls, in order, does to the recorded clauses.
pub open spec fn apply_select_calls(v: SelectView, calls: Seq<SelectCall>) -> SelectView
    decreases calls.len(),
{
    if calls.len() == 0 {
        v
    } else {
        apply_select_calls(v, calls.drop_last()).apply(calls.last())
    }
}

/// The selected columns that the calls add, in order.
pub open spec fn selected_columns(calls: Seq<SelectCall>) -> Seq<Seq<char>>
    decreases calls.len(),
{
    if calls.len() == 0 {
        seq![]
    } else {
        let prev = selected_columns(calls.drop_last());
        match calls.last() {
            SelectCall::Select(col) => prev.push(col),
            SelectCall::SelectAll => prev.push("*"@),
            _ => prev,
        }
    }
}

/// The joins that the calls add, in order.
pub open spec fn join_terms(calls: Seq<SelectCall>) -> Seq<Seq<char>>
    decreases calls.len(),
{
    if calls.len() == 0 {
        seq![]
    } else {
        let prev = join_terms(calls.drop_last());
        match calls.last() {
            SelectCall::InnerJoin(t, on) => prev.push("INNER JOIN "@ + t + " ON "@ + on),
            SelectCall::LeftJoin(t, on) => prev.push("LEFT JOIN "@ + t + " ON "@ + on),
            _ => prev,
        }
    }
}

/// The ordering terms that the calls add, in order.
pub open spec fn order_terms(calls: Seq<SelectCall>) -> Seq<Seq<char>>
    decreases calls.len(),
{
    if calls.len() == 0 {
        seq![]
    } else {
        let prev = order_terms(calls.drop_last());
        match calls.last() {
            SelectCall::OrderBy(col, dir) => prev.push(col + seq![' '] + dir),
            _ => prev,
        }
    }
}

/// The condition calls (`where_clause` and `where_param`), in order.
pub open spec fn condition_calls(calls: Seq<SelectCall>) -> Seq<SelectCall>
    decreases calls.len(),
{
    if calls.len() == 0 {
        seq![]
    } else {
        let prev = condition_calls(calls.drop_last());
        match calls.last() {
            SelectCall::WhereClause(_) => prev.push(calls.last()),
            SelectCall::WhereParam(_) => prev.push(calls.last()),
            _ => prev,
        }
    }
}

/// How many of the calls are `where_param` calls.
pub open spec fn param_calls(calls: Seq<SelectCall>) -> nat
    decreases calls.len(),
{
    if calls.len() == 0 {
        0
    } else {
        param_calls(calls.drop_last()) + if calls.last() is WhereParam {
            1nat
        } else {
            0nat
        }
    }
}

/// The conditions that a sequence of condition calls records: a
/// `where_param` becomes `column = $k` when it is the `k`-th parameter.
pub open spec fn condition_texts(calls: Seq<SelectCall>) -> Seq<Seq<char>>
    decreases calls.len(),
{
    if calls.len() == 0 {
        seq![]
    } else {
        let prev = condition_texts(calls.drop_last());
        match calls.last() {
            SelectCall::WhereClause(c) => prev.push(c),
            SelectCall::WhereParam(col) => prev.push(
                param_condition(col, param_calls(calls.drop_last()) as int + 1),
            ),
            _ => prev,
        }
    }
}

/// The table of the last `from` call, if any.
pub open spec fn last_from(calls: Seq<SelectCall>) -> Option<Seq<char>>
    decreases calls.len(),
{
    if calls.len() == 0 {
        None
    } else {
        match calls.last() {
            SelectCall::From(t) => Some(t),
            _ => last_from(calls.drop_last()),
        }
    }
}

/// The argument of the last `limit` call, if any.
pub open spec fn last_limit(calls: Seq<SelectCall>) -> Option<i64>
    decreases calls.len(),
{
    if calls.len() == 0 {
        None
    } else {
        match calls.last() {
            SelectCall::Limit(n) => Some(n),
            _ => last_limit(calls.drop_last()),
        }
    }
}

/// The argument of the last `offset` call, if any.
pub open spec fn last_offset(calls: Seq<SelectCall>) -> Option<i64>
    decreases calls.len(),
{
    if calls.len() == 0 {
        None
    } else {
        match calls.last() {
            SelectCall::Offset(n) => Some(n),
            _ => last_offset(calls.drop_last()),
        }
    }
}

/// Counting parameters over the condition calls alone counts them all.
proof fn lemma_param_calls_in_conditions(calls: Seq<SelectCall>)
    ensures
        param_calls(condition_calls(calls)) == param_calls(calls),
    decreases calls.len(),
{
    if calls.len() > 0 {
        lemma_param_calls_in_conditions(calls.drop_last());
        let prev = condition_calls(calls.drop_last());
        match calls.last() {
            SelectCall::WhereClause(_) => {
                assert(condition_calls(calls).drop_last() =~= prev);
            },
            SelectCall::WhereParam(_) => {
                assert(condition_calls(calls).drop_last() =~= prev);
            },
            _ => {},
        }
    }
}

/// Rendering the condition calls alone gives the same conditions.
proof fn lemma_condition_texts_of_conditions(calls: Seq<SelectCall>)
    ensures
        condition_texts(condition_calls(calls)) == condition_texts(calls),
    decreases calls.len(),
{
    if calls.len() > 0 {
        lemma_condition_texts_of_conditions(calls.drop_last());
        lemma_param_calls_in_conditions(calls.drop_last());
        let prev = condition_calls(calls.drop_last());
        match calls.last() {
            SelectCall::WhereClause(_) => {
                assert(condition_calls(calls).drop_last() =~= prev);
            },
            SelectCall::WhereParam(_) => {
                assert(condition_calls(calls).drop_last() =~= prev);
            },
            _ => {},
        }
    }
}

/// What a fresh builder records after any sequence of calls: each list of
/// clauses holds the clauses of its own kind of call, in call order; the
/// table, limit and offset are those of the last such call; and the number
/// of parameters is the number of `where_param` calls, the `k`-th of which
/// reads `column = $k`.
pub proof fn lemma_select_calls(calls: Seq<SelectCall>)
    ensures
        apply_select_calls(SelectView::empty(), calls) == (SelectView {
            columns: selected_columns(calls),
            from: last_from(calls),
            joins: join_terms(calls),
            wheres: condition_texts(calls),
            order_by: order_terms(calls),
            limit: last_limit(calls),
            offset: last_offset(calls),
            param_count: param_calls(calls) as int,
        }),
    decreases calls.len(),
{
    if calls.len() > 0 {
        lemma_select_calls(calls.drop_last());
    }
}

/// The statement does not depend on how calls of different kinds are
/// interleaved: two call sequences that add the same columns, joins,
/// conditions and ordering terms in the same order, and end with the same
/// table, limit and offset, leave a fresh builder with the same clauses
/// (and so with the same statement and parameter count).
pub proof fn lemma_select_interleaving(c1: Seq<SelectCall>, c2: Seq<SelectCall>)
    requires
        selected_columns(c1) == selected_columns(c2),
        join_terms(c1) == join_terms(c2),
        condition_calls(c1) == condition_calls(c2),
        order_terms(c1) == order_terms(c2),
        last_from(c1) == last_from(c2),
        last_limit(c1) == last_limit(c2),
        last_offset(c1) == last_offset(c2),
    ensures
        apply_select_calls(SelectView::empty(), c1) == apply_select_calls(SelectView::empty(), c2),
{
    lemma_select_calls(c1);
    lemma_select_calls(c2);
    lemma_condition_texts_of_conditions(c1);
    lemma_condition_texts_of_conditions(c2);
    lemma_param_calls_in_conditions(c1);
    lemma_param_calls_in_conditions(c2);
}

/// The last table given wins: an earlier `from` leaves no trace.
pub proof fn lemma_last_from_wins(v: SelectView, earlier: Seq<char>, table: Seq<char>)
    ensures
        v.apply(SelectCall::From(earlier)).apply(SelectCall::From(table)) == v.apply(
            SelectCall::From(table),
        ),
{
}

/// Builds a `SELECT` statement.
pub struct SelectBuilder {
    columns: Vec<String>,
    from: Option<String>,
    joins: Vec<String>,
    wheres: Vec<String>,
    order_by: Vec<String>,
    limit: Option<i64>,
    offset: Option<i64>,
    param_count: i32,
}

impl View for SelectBuilder {
    type V = SelectView;

    closed spec fn view(&self) -> SelectView {
        SelectView {
            columns: texts(self.columns@),
            from: opt_text(self.from),
            joins: texts(self.joins@),
            wheres: texts(self.wheres@),
            order_by: texts(self.order_by@),
            limit: self.limit,
            offset: self.offset,
            param_count: self.param_count as int,
        }
    }
}

impl SelectBuilder {
    /// An empty builder: no columns, no table, no clauses, no parameters.
    pub fn new() -> (r: Self)
        ensures
            r@ == SelectView::empty(),
    {
        let r = SelectBuilder {
            columns: Vec::new(),
            from: None,
            joins: Vec::new(),
            wheres: Vec::new(),
            order_by: Vec::new(),
            limit: None,
            offset: None,
            param_count: 0,
        };
        assert(texts(r.columns@) =~= seq![]);
        assert(texts(r.joins@) =~= seq![]);
        assert(texts(r.wheres@) =~= seq![]);
        assert(texts(r.order_by@) =~= seq![]);
        r
    }

    /// Adds `column` to the selected columns.
    pub fn select(self, column: &str) -> (r: Self)
        ensures
            r@ == self@.apply(SelectCall::Select(column@)),
            r@ == (SelectView { columns: self@.columns.push(column@), ..self@ }),
    {
        let mut this = self;
        push_text(&mut this.columns, column);
        this
    }

    /// Adds `*` to the selected columns.
    pub fn select_all(self) -> (r: Self)
        ensures
            r@ == self@.apply(SelectCall::SelectAll),
            r@ == (SelectView { columns: self@.columns.push("*"@), ..self@ }),
    {
        let mut this = self;
        push_text(&mut this.columns, "*");
        this
    }

    /// Sets the table to select from, replacing any earlier one.
    pub fn from(self, table: &str) -> (r: Self)
        ensures
            r@ == self@.apply(SelectCall::From(table@)),
            r@ == (SelectView { from: Some(table@), ..self@ }),
    {
        let mut this = self;
        this.from = Some(table.to_owned());
        this
    }

    /// Adds `INNER JOIN table ON on`.
    pub fn inner_join(self, table: &str, on: &str) -> (r: Self)
        ensures
            r@ == self@.apply(SelectCall::InnerJoin(table@, on@)),
            r@ == (SelectView {
                joins: self@.joins.push("INNER JOIN "@ + table@ + " ON "@ + on@),
                ..self@
            }),
    {
        let mut this = self;
        let mut j = "INNER JOIN ".to_owned();
        j.append(table);
        j.append(" ON ");
        j.append(on);
        push_text(&mut this.joins, j.as_str());
        this
    }

    /// Adds `LEFT JOIN table ON on`.
    pub fn left_join(self, table: &str, on: &str) -> (r: Self)
        ensures
            r@ == self@.apply(SelectCall::LeftJoin(table@, on@)),
            r@ == (SelectView {
                joins: self@.joins.push("LEFT JOIN "@ + table@ + " ON "@ + on@),
                ..self@
            }),
    {
        let mut this = self;
        let mut j = "LEFT JOIN ".to_owned();
        j.append(table);
        j.append(" ON ");
        j.append(on);
        push_text(&mut this.joins, j.as_str());
        this
    }

    /// Adds the ordering term `column ASC` or `column DESC`.
    pub fn order_by(self, column: &str, direction: OrderDirection) -> (r: Self)
        ensures
            r@ == self@.apply(SelectCall::OrderBy(column@, direction.keyword())),
            r@ == (SelectView {
                order_by: self@.order_by.push(column@ + seq![' '] + direction.keyword()),
                ..self@
            }),
    {
        let mut this = self;
        let mut o = column.to_owned();
        o.append(" ");
        o.append(direction.as_str());
        proof {
            reveal_strlit(" ");
        }
        assert(o@ =~= column@ + seq![' '] + direction.keyword());
        push_text(&mut this.order_by, o.as_str());
        this
    }

    /// Sets the row limit, replacing any earlier one.
    pub fn limit(self, limit: i64) -> (r: Self)
        ensures
            r@ == self@.apply(SelectCall::Limit(limit)),
            r@ == (SelectView { limit: Some(limit), ..self@ }),
    {
        let mut this = self;
        this.limit = Some(limit);
        this
    }

    /// Sets the number of rows to skip, replacing any earlier one.
    pub fn offset(self, offset: i64) -> (r: Self)
        ensures
            r@ == self@.apply(SelectCall::Offset(offset)),
            r@ == (SelectView { offset: Some(offset), ..self@ }),
    {
        let mut this = self;
        this.offset = Some(offset);
        this
    }

    /// Adds a condition written out in full; it takes no parameter.
    pub fn where_clause(self, condition: &str) -> (r: Self)
        ensures
            r@ == self@.apply(SelectCall::WhereClause(condition@)),
            r@ == (SelectView { wheres: self@.wheres.push(condition@), ..self@ }),
    {
        let mut this = self;
        push_text(&mut this.wheres, condition);
        this
    }

    /// Adds the condition `column = $n`, where `n` is the number of
    /// parameters so far, this one included.
    pub fn where_param<T>(self, column: &str, _value: &T) -> (r: Self)
        requires
            self@.param_count < i32::MAX,
        ensures
            r@ == self@.apply(SelectCall::WhereParam(column@)),
            r@ == (SelectView {
                wheres: self@.wheres.push(param_condition(column@, self@.param_count + 1)),
                param_count: self@.param_count + 1,
                ..self@
            }),
            (r@.wheres, r@.param_count) == add_param_conditions(
                self@.wheres,
                self@.param_count,
                seq![column@],
            ),
    {
        proof {
            lemma_one_param_condition(self@.wheres, self@.param_count, column@);
        }
        let mut this = self;
        this.param_count = this.param_count + 1;
        push_param_condition(&mut this.wheres, column, this.param_count);
        this
    }

    /// The statement; an `InvalidQuery` error when no table was given.
    pub fn build(self) -> (r: Result<String, RepositoryError>)
        ensures
            match r {
                Ok(q) => self@.from matches Some(t) && q@ == select_text(self@, t),
                Err(e) => self@.from is None && (e matches RepositoryError::InvalidQuery(m)
                    && m@ == "FROM clause is required"@),
            },
    {
        let from = match self.from {
            Some(f) => f,
            None => {
                return Err(RepositoryError::InvalidQuery("FROM clause is required".to_owned()));
            },
        };
        let columns = if self.columns.len() == 0 {
            "*".to_owned()
        } else {
            join(&self.columns, ", ")
        };
        let mut head = "SELECT ".to_owned();
        head.append(columns.as_str());
        head.append(" FROM ");
        head.append(from.as_str());
        let query = QueryFragment::new(head)
            .append_if("", &self.joins, " ")
            .append_if("WHERE", &self.wheres, " AND ")
            .append_if("ORDER BY", &self.order_by, ", ")
            .append_option("LIMIT", self.limit)
            .append_option("OFFSET", self.offset)
            .build();
        Ok(query)
    }

    /// The number of parameters added so far.
    pub fn param_count(&self) -> (r: i32)
        ensures
            r == self@.param_count,
    {
        self.param_count
    }
}

impl Default for SelectBuilder {
    fn default() -> (r: Self)
        ensures
            r@ == SelectView::empty(),
    {
        Self::new()
    }
}


// ---------------------------------------------------------------------
// INSERT
// ---------------------------------------------------------------------

/// What an `InsertBuilder` has recorded. Each column takes one parameter,
/// so the number of parameters is the number of columns.
pub struct InsertView {
    pub table: Option<Seq<char>>,
    pub columns: Seq<Seq<char>>,
    pub returning: Seq<Seq<char>>,
}

impl InsertView {
    /// Nothing recorded.
    pub open spec fn empty() -> InsertView {
        InsertView { table: None, columns: seq![], returning: seq![] }
    }
}

/// The `INSERT` statement into `table`: the columns, one placeholder per
/// column numbered from `$1` in column order, then the `RETURNING` list.
pub open spec fn insert_text(v: InsertView, table: Seq<char>) -> Seq<char> {
    "INSERT INTO "@ + table + " ("@ + join_text(v.columns, ", "@) + ") VALUES ("@
        + join_text(placeholders(v.columns.len()), ", "@) + ")"@
        + list_clause("RETURNING"@, v.returning, ", "@)
}

/// One call of an `InsertBuilder` method, as far as the builder records it:
/// a column call records the column's name, never its value.
pub enum InsertCall {
    Into(Seq<char>),
    Column(Seq<char>),
    Returning(Seq<char>),
}

impl InsertView {
    /// What one call does to the recorded clauses.
    pub open spec fn apply(self, c: InsertCall) -> InsertView {
        match c {
            InsertCall::Into(t) => InsertView { table: Some(t), ..self },
            InsertCall::Column(name) => InsertView { columns: self.columns.push(name), ..self },
            InsertCall::Returning(col) => InsertView {
                returning: self.returning.push(col),
                ..self
            },
        }
    }
}

/// Builds an `INSERT` statement.
pub struct InsertBuilder {
    table: Option<String>,
    columns: Vec<String>,
    param_count: i32,
    returning: Vec<String>,
}

impl InsertBuilder {
    /// Every column has taken exactly one parameter.
    #[verifier::type_invariant]
    spec fn params_match_columns(self) -> bool {
        self.param_count == self.columns@.len()
    }
}

impl View for InsertBuilder {
    type V = InsertView;

    closed spec fn view(&self) -> InsertView {
        InsertView {
            table: opt_text(self.table),
            columns: texts(self.columns@),
            returning: texts(self.returning@),
        }
    }
}

/// The placeholders `$1`, ..., `$n` as strings.
fn placeholder_list(n: i32) -> (r: Vec<String>)
    requires
        n >= 0,
    ensures
        texts(r@) == placeholders(n as nat),
{
    let mut r: Vec<String> = Vec::new();
    let mut i: i32 = 0;
    while i < n
        invariant
            0 <= i <= n,
            texts(r@) == placeholders(i as nat),
        decreases n - i,
    {
        let mut p = "$".to_owned();
        push_int(&mut p, (i + 1) as i64);
        proof {
            reveal_strlit("$");
        }
        assert(p@ =~= placeholder(i + 1));
        let ghost old_r = r@;
        r.push(p);
        assert(texts(r@) =~= texts(old_r).push(placeholder(i + 1)));
        i = i + 1;
        assert(texts(r@) =~= placeholders(i as nat));
    }
    r
}

impl InsertBuilder {
    /// An empty builder: no table, no columns, nothing returned.
    pub fn new() -> (r: Self)
        ensures
            r@ == InsertView::empty(),
    {
        let r = InsertBuilder { table: None, columns: Vec::new(), param_count: 0, returning: Vec::new() };
        assert(texts(r.columns@) =~= seq![]);
        assert(texts(r.returning@) =~= seq![]);
        r
    }

    /// Sets the table to insert into, replacing any earlier one.
    pub fn into(self, table: &str) -> (r: Self)
        ensures
            r@ == self@.apply(InsertCall::Into(table@)),
            r@ == (InsertView { table: Some(table@), ..self@ }),
    {
        proof {
            use_type_invariant(&self);
        }
        let InsertBuilder { table: _, columns, param_count, returning } = self;
        InsertBuilder { table: Some(table.to_owned()), columns, param_count, returning }
    }

    /// Adds a column; its value becomes the next parameter.
    pub fn column<T>(self, name: &str, _value: &T) -> (r: Self)
        requires
            self@.columns.len() < i32::MAX,
        ensures
            r@ == self@.apply(InsertCall::Column(name@)),
            r@ == (InsertView { columns: self@.columns.push(name@), ..self@ }),
    {
        proof {
            use_type_invariant(&self);
        }
        let InsertBuilder { table, mut columns, param_count, returning } = self;
        push_text(&mut columns, name);
        assert(columns@.len() == texts(columns@).len());
        InsertBuilder { table, columns, param_count: param_count + 1, returning }
    }

    /// Adds `column` to the `RETURNING` list.
    pub fn returning(self, column: &str) -> (r: Self)
        ensures
            r@ == self@.apply(InsertCall::Returning(column@)),
            r@ == (InsertView { returning: self@.returning.push(column@), ..self@ }),
    {
        proof {
            use_type_invariant(&self);
        }
        let InsertBuilder { table, columns, param_count, mut returning } = self;
        push_text(&mut returning, column);
        InsertBuilder { table, columns, param_count, returning }
    }

    /// Adds `*` to the `RETURNING` list.
    pub fn returning_all(self) -> (r: Self)
        ensures
            r@ == self@.apply(InsertCall::Returning("*"@)),
            r@ == (InsertView { returning: self@.returning.push("*"@), ..self@ }),
    {
        self.returning("*")
    }

    /// The statement; an `InvalidQuery` error when no table was given or
    /// no column was added.
    pub fn build(self) -> (r: Result<String, RepositoryError>)
        ensures
            match r {
                Ok(q) => self@.table matches Some(t) && self@.columns.len() > 0
                    && q@ == insert_text(self@, t),
                Err(e) => match self@.table {
                    None => e matches RepositoryError::InvalidQuery(m)
                        && m@ == "table name is required"@,
                    Some(_) => self@.columns.len() == 0 && (e matches RepositoryError::InvalidQuery(m)
                        && m@ == "at least one column is required"@),
                },
            },
    {
        proof {
            use_type_invariant(&self);
        }
        let InsertBuilder { table, columns, param_count, returning } = self;
        let table = match table {
            Some(t) => t,
            None => {
                return Err(RepositoryError::InvalidQuery("table name is required".to_owned()));
            },
        };
        if columns.len() == 0 {
            return Err(RepositoryError::InvalidQuery("at least one column is required".to_owned()));
        }
        let placeholders = placeholder_list(param_count);
        let mut head = "INSERT INTO ".to_owned();
        head.append(table.as_str());
        head.append(" (");
        head.append(join(&columns, ", ").as_str());
        head.append(") VALUES (");
        head.append(join(&placeholders, ", ").as_str());
        head.append(")");
        let query = QueryFragment::new(head).append_if("RETURNING", &returning, ", ").build();
        Ok(query)
    }
}

impl Default for InsertBuilder {
    fn default() -> (r: Self)
        ensures
            r@ == InsertView::empty(),
    {
        Self::new()
    }
}


// ---------------------------------------------------------------------
// UPDATE
// ---------------------------------------------------------------------

/// What an `UpdateBuilder` has recorded.
pub struct UpdateView {
    pub table: Option<Seq<char>>,
    pub sets: Seq<Seq<char>>,
    pub wheres: Seq<Seq<char>>,
    pub param_count: int,
    pub returning: Seq<Seq<char>>,
}

impl UpdateView {
    /// Nothing recorded.
    pub open spec fn empty() -> UpdateView {
        UpdateView { table: None, sets: seq![], wheres: seq![], param_count: 0, returning: seq![] }
    }
}

/// The `UPDATE` statement of `table`: the assignments, the conditions
/// joined by `AND`, then the `RETURNING` list.
pub open spec fn update_text(v: UpdateView, table: Seq<char>) -> Seq<char> {
    "UPDATE "@ + table + " SET "@ + join_text(v.sets, ", "@)
        + list_clause("WHERE"@, v.wheres, " AND "@)
        + list_clause("RETURNING"@, v.returning, ", "@)
}

/// One call of an `UpdateBuilder` method, as far as the builder records it;
/// `Assign` is `set`, carrying whether a value was given; `AssignAlways` is `set_always`.
pub enum UpdateCall {
    Table(Seq<char>),
    Assign(Seq<char>, bool),
    AssignAlways(Seq<char>),
    WhereId,
    WhereClause(Seq<char>),
    WhereParam(Seq<char>),
    Returning(Seq<char>),
}

impl UpdateView {
    /// What one call does to the recorded clauses.
    pub open spec fn apply(self, c: UpdateCall) -> UpdateView {
        match c {
            UpdateCall::Table(t) => UpdateView { table: Some(t), ..self },
            UpdateCall::Assign(col, given) => if given {
                UpdateView {
                    sets: self.sets.push(param_condition(col, self.param_count + 1)),
                    param_count: self.param_count + 1,
                    ..self
                }
            } else {
                self
            },
            UpdateCall::AssignAlways(col) => UpdateView {
                sets: self.sets.push(param_condition(col, self.param_count + 1)),
                param_count: self.param_count + 1,
                ..self
            },
            UpdateCall::WhereId => UpdateView {
                wheres: self.wheres.push(param_condition("id"@, self.param_count + 1)),
                param_count: self.param_count + 1,
                ..self
            },
            UpdateCall::WhereClause(c) => UpdateView { wheres: self.wheres.push(c), ..self },
            UpdateCall::WhereParam(col) => UpdateView {
                wheres: self.wheres.push(param_condition(col, self.param_count + 1)),
                param_count: self.param_count + 1,
                ..self
            },
            UpdateCall::Returning(col) => UpdateView {
                returning: self.returning.push(col),
                ..self
            },
        }
    }
}

/// What a sequence of calls, in order, does to the recorded clauses.
pub open spec fn apply_update_calls(v: UpdateView, calls: Seq<UpdateCall>) -> UpdateView
    decreases calls.len(),
{
    if calls.len() == 0 {
        v
    } else {
        apply_update_calls(v, calls.drop_last()).apply(calls.last())
    }
}

/// How many of the calls add an assignment: `set` with a value, or `set_always`.
pub open spec fn assignment_calls(calls: Seq<UpdateCall>) -> nat
    decreases calls.len(),
{
    if calls.len() == 0 {
        0
    } else {
        assignment_calls(calls.drop_last()) + match calls.last() {
            UpdateCall::Assign(_, given) => if given {
                1nat
            } else {
                0nat
            },
            UpdateCall::AssignAlways(_) => 1nat,
            _ => 0nat,
        }
    }
}

/// After any sequence of calls on a fresh builder there is one assignment
/// per `set` with a value and per `set_always`, so the builder is empty
/// (`is_empty`) exactly when there was no such call.
pub proof fn lemma_update_assignments(calls: Seq<UpdateCall>)
    ensures
        apply_update_calls(UpdateView::empty(), calls).sets.len() == assignment_calls(calls),
        (apply_update_calls(UpdateView::empty(), calls).sets.len() == 0) == (assignment_calls(calls)
            == 0),
    decreases calls.len(),
{
    if calls.len() > 0 {
        lemma_update_assignments(calls.drop_last());
    }
}

/// Builds an `UPDATE` statement.
pub struct UpdateBuilder {
    table: Option<String>,
    sets: Vec<String>,
    wheres: Vec<String>,
    param_count: i32,
    returning: Vec<String>,
}

impl View for UpdateBuilder {
    type V = UpdateView;

    closed spec fn view(&self) -> UpdateView {
        UpdateView {
            table: opt_text(self.table),
            sets: texts(self.sets@),
            wheres: texts(self.wheres@),
            param_count: self.param_count as int,
            returning: texts(self.returning@),
        }
    }
}

impl UpdateBuilder {
    /// An empty builder: no table, no assignments, no conditions, no parameters.
    pub fn new() -> (r: Self)
        ensures
            r@ == UpdateView::empty(),
    {
        let r = UpdateBuilder {
            table: None,
            sets: Vec::new(),
            wheres: Vec::new(),
            param_count: 0,
            returning: Vec::new(),
        };
        assert(texts(r.sets@) =~= seq![]);
        assert(texts(r.wheres@) =~= seq![]);
        assert(texts(r.returning@) =~= seq![]);
        r
    }

    /// Sets the table to update, replacing any earlier one.
    pub fn table(self, table: &str) -> (r: Self)
        ensures
            r@ == self@.apply(UpdateCall::Table(table@)),
            r@ == (UpdateView { table: Some(table@), ..self@ }),
    {
        let mut this = self;
        this.table = Some(table.to_owned());
        this
    }

    /// Adds the assignment `column = $n` when a value is given, `n` being
    /// the number of parameters so far, this one included; without a value
    /// the builder is left as it was.
    pub fn set<T>(self, column: &str, value: &Option<T>) -> (r: Self)
        requires
            value is Some ==> self@.param_count < i32::MAX,
        ensures
            r@ == self@.apply(UpdateCall::Assign(column@, value is Some)),
            r@ == (if value is Some {
                UpdateView {
                    sets: self@.sets.push(param_condition(column@, self@.param_count + 1)),
                    param_count: self@.param_count + 1,
                    ..self@
                }
            } else {
                self@
            }),
            value is Some ==> (r@.sets, r@.param_count) == add_param_conditions(
                self@.sets,
                self@.param_count,
                seq![column@],
            ),
    {
        proof {
            lemma_one_param_condition(self@.sets, self@.param_count, column@);
        }
        let mut this = self;
        if value.is_some() {
            this.param_count = this.param_count + 1;
            push_param_condition(&mut this.sets, column, this.param_count);
        }
        this
    }

    /// Adds the assignment `column = $n`, `n` being the number of parameters
    /// so far, this one included.
    pub fn set_always<T>(self, column: &str, _value: &T) -> (r: Self)
        requires
            self@.param_count < i32::MAX,
        ensures
            r@ == self@.apply(UpdateCall::AssignAlways(column@)),
            r@ == (UpdateView {
                sets: self@.sets.push(param_condition(column@, self@.param_count + 1)),
                param_count: self@.param_count + 1,
                ..self@
            }),
            (r@.sets, r@.param_count) == add_param_conditions(
                self@.sets,
                self@.param_count,
                seq![column@],
            ),
    {
        proof {
            lemma_one_param_condition(self@.sets, self@.param_count, column@);
        }
        let mut this = self;
        this.param_count = this.param_count + 1;
        push_param_condition(&mut this.sets, column, this.param_count);
        this
    }

    /// Adds the condition `id = $n`, `n` being the number of parameters so
    /// far, this one included.
    pub fn where_id(self, _id: i32) -> (r: Self)
        requires
            self@.param_count < i32::MAX,
        ensures
            r@ == self@.apply(UpdateCall::WhereId),
            r@ == (UpdateView {
                wheres: self@.wheres.push(param_condition("id"@, self@.param_count + 1)),
                param_count: self@.param_count + 1,
                ..self@
            }),
            (r@.wheres, r@.param_count) == add_param_conditions(
                self@.wheres,
                self@.param_count,
                seq!["id"@],
            ),
    {
        proof {
            lemma_one_param_condition(self@.wheres, self@.param_count, "id"@);
        }
        let mut this = self;
        this.param_count = this.param_count + 1;
        push_param_condition(&mut this.wheres, "id", this.param_count);
        this
    }

    /// Adds a condition written out in full; it takes no parameter.
    pub fn where_clause(self, condition: &str) -> (r: Self)
        ensures
            r@ == self@.apply(UpdateCall::WhereClause(condition@)),
            r@ == (UpdateView { wheres: self@.wheres.push(condition@), ..self@ }),
    {
        let mut this = self;
        push_text(&mut this.wheres, condition);
        this
    }

    /// Adds the condition `column = $n`, `n` being the number of parameters
    /// so far, this one included.
    pub fn where_param<T>(self, column: &str, _value: &T) -> (r: Self)
        requires
            self@.param_count < i32::MAX,
        ensures
            r@ == self@.apply(UpdateCall::WhereParam(column@)),
            r@ == (UpdateView {
                wheres: self@.wheres.push(param_condition(column@, self@.param_count + 1)),
                param_count: self@.param_count + 1,
                ..self@
            }),
            (r@.wheres, r@.param_count) == add_param_conditions(
                self@.wheres,
                self@.param_count,
                seq![column@],
            ),
    {
        proof {
            lemma_one_param_condition(self@.wheres, self@.param_count, column@);
        }
        let mut this = self;
        this.param_count = this.param_count + 1;
        push_param_condition(&mut this.wheres, column, this.param_count);
        this
    }

    /// Adds `column` to the `RETURNING` list.
    pub fn returning(self, column: &str) -> (r: Self)
        ensures
            r@ == self@.apply(UpdateCall::Returning(column@)),
            r@ == (UpdateView { returning: self@.returning.push(column@), ..self@ }),
    {
        let mut this = self;
        push_text(&mut this.returning, column);
        this
    }

    /// Adds `*` to the `RETURNING` list.
    pub fn returning_all(self) -> (r: Self)
        ensures
            r@ == self@.apply(UpdateCall::Returning("*"@)),
            r@ == (UpdateView { returning: self@.returning.push("*"@), ..self@ }),
    {
        let mut this = self;
        push_text(&mut this.returning, "*");
        this
    }

    /// Whether no assignment has been added.
    pub fn is_empty(&self) -> (r: bool)
        ensures
            r == (self@.sets.len() == 0),
    {
        self.sets.len() == 0
    }

    /// The statement; an `InvalidQuery` error when no table was given, no
    /// assignment was added, or no condition was added (checked in that order).
    pub fn build(self) -> (r: Result<String, RepositoryError>)
        ensures
            match r {
                Ok(q) => self@.table matches Some(t) && self@.sets.len() > 0
                    && self@.wheres.len() > 0 && q@ == update_text(self@, t),
                Err(e) => if self@.table is None {
                    e matches RepositoryError::InvalidQuery(m) && m@ == "table name is required"@
                } else if self@.sets.len() == 0 {
                    e matches RepositoryError::InvalidQuery(m)
                        && m@ == "at least one SET clause is required"@
                } else {
                    self@.wheres.len() == 0 && (e matches RepositoryError::InvalidQuery(m)
                        && m@ == "WHERE clause is required for UPDATE"@)
                },
            },
    {
        let table = match self.table {
            Some(t) => t,
            None => {
                return Err(RepositoryError::InvalidQuery("table name is required".to_owned()));
            },
        };
        if self.sets.len() == 0 {
            return Err(
                RepositoryError::InvalidQuery("at least one SET clause is required".to_owned()),
            );
        }
        if self.wheres.len() == 0 {
            return Err(
                RepositoryError::InvalidQuery("WHERE clause is required for UPDATE".to_owned()),
            );
        }
        let mut head = "UPDATE ".to_owned();
        head.append(table.as_str());
        head.append(" SET ");
        head.append(join(&self.sets, ", ").as_str());
        let query = QueryFragment::new(head)
            .append_if("WHERE", &self.wheres, " AND ")
            .append_if("RETURNING", &self.returning, ", ")
            .build();
        Ok(query)
    }
}

impl Default for UpdateBuilder {
    fn default() -> (r: Self)
        ensures
            r@ == UpdateView::empty(),
    {
        Self::new()
    }
}

// ---------------------------------------------------------------------
// DELETE
// ---------------------------------------------------------------------

/// What a `DeleteBuilder` has recorded.
pub struct DeleteView {
    pub table: Option<Seq<char>>,
    pub wheres: Seq<Seq<char>>,
    pub param_count: int,
}

impl DeleteView {
    /// Nothing recorded.
    pub open spec fn empty() -> DeleteView {
        DeleteView { table: None, wheres: seq![], param_count: 0 }
    }
}

/// The `DELETE` statement on `table` with its conditions joined by `AND`.
pub open spec fn delete_text(v: DeleteView, table: Seq<char>) -> Seq<char> {
    "DELETE FROM "@ + table + list_clause("WHERE"@, v.wheres, " AND "@)
}

/// Builds a `DELETE` statement.
pub struct DeleteBuilder {
    table: Option<String>,
    wheres: Vec<String>,
    param_count: i32,
}

impl View for DeleteBuilder {
    type V = DeleteView;

    closed spec fn view(&self) -> DeleteView {
        DeleteView {
            table: opt_text(self.table),
            wheres: texts(self.wheres@),
            param_count: self.param_count as int,
        }
    }
}

impl DeleteBuilder {
    /// An empty builder: no table, no conditions, no parameters.
    pub fn new() -> (r: Self)
        ensures
            r@ == DeleteView::empty(),
    {
        let r = DeleteBuilder { table: None, wheres: Vec::new(), param_count: 0 };
        assert(texts(r.wheres@) =~= seq![]);
        r
    }

    /// Sets the table to delete from, replacing any earlier one.
    pub fn from(self, table: &str) -> (r: Self)
        ensures
            r@ == (DeleteView { table: Some(table@), ..self@ }),
    {
        let mut this = self;
        this.table = Some(table.to_owned());
        this
    }

    /// Adds a condition written out in full; it takes no parameter.
    pub fn where_clause(self, condition: &str) -> (r: Self)
        ensures
            r@ == (DeleteView { wheres: self@.wheres.push(condition@), ..self@ }),
    {
        let mut this = self;
        push_text(&mut this.wheres, condition);
        this
    }

    /// Adds the condition `column = $n`, `n` being the number of parameters
    /// so far, this one included.
    pub fn where_param<T>(self, column: &str, _value: &T) -> (r: Self)
        requires
            self@.param_count < i32::MAX,
        ensures
            r@ == (DeleteView {
                wheres: self@.wheres.push(param_condition(column@, self@.param_count + 1)),
                param_count: self@.param_count + 1,
                ..self@
            }),
            (r@.wheres, r@.param_count) == add_param_conditions(
                self@.wheres,
                self@.param_count,
                seq![column@],
            ),
    {
        proof {
            lemma_one_param_condition(self@.wheres, self@.param_count, column@);
        }
        let mut this = self;
        this.param_count = this.param_count + 1;
        push_param_condition(&mut this.wheres, column, this.param_count);
        this
    }

    /// The statement; an `InvalidQuery` error when no table was given or no
    /// condition was added (checked in that order).
    pub fn build(self) -> (r: Result<String, RepositoryError>)
        ensures
            match r {
                Ok(q) => self@.table matches Some(t) && self@.wheres.len() > 0
                    && q@ == delete_text(self@, t),
                Err(e) => if self@.table is None {
                    e matches RepositoryError::InvalidQuery(m) && m@ == "table name is required"@
                } else {
                    self@.wheres.len() == 0 && (e matches RepositoryError::InvalidQuery(m)
                        && m@ == "WHERE clause is required for DELETE"@)
                },
            },
    {
        let table = match self.table {
            Some(t) => t,
            None => {
                return Err(RepositoryError::InvalidQuery("table name is required".to_owned()));
            },
        };
        if self.wheres.len() == 0 {
            return Err(
                RepositoryError::InvalidQuery("WHERE clause is required for DELETE".to_owned()),
            );
        }
        let mut head = "DELETE FROM ".to_owned();
        head.append(table.as_str());
        let query = QueryFragment::new(head).append_if("WHERE", &self.wheres, " AND ").build();
        Ok(query)
    }
}

impl Default for DeleteBuilder {
    fn default() -> (r: Self)
        ensures
            r@ == DeleteView::empty(),
    {
        Self::new()
    }
}

} // verus!
