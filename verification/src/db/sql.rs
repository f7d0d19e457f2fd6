//! Values bound to SQL parameters, statements, and the bulk `INSERT` and
//! `DELETE ... IN (...)` statements that the mirror is written with.

use vstd::prelude::*;
use vstd::string::*;

verus! {

broadcast use vstd::seq::Seq::lemma_flatten_push, vstd::seq::Seq::lemma_flatten_singleton;

/// A value bound to a `?` parameter of a statement, or read from a column.
#[derive(Debug, PartialEq)]
pub enum SqlValue {
    Null,
    Integer(i64),
    Text(String),
    /// A fixed text of the library, such as the name of an enum value.
    Name(&'static str),
    Bool(bool),
}

impl SqlValue {
    /// A copy of the value.
    pub fn copy(&self) -> (r: SqlValue)
        ensures
            r == *self,
    {
        match self {
            SqlValue::Null => SqlValue::Null,
            SqlValue::Integer(i) => SqlValue::Integer(*i),
            SqlValue::Text(s) => SqlValue::Text(s.clone()),
            SqlValue::Name(n) => SqlValue::Name(n),
            SqlValue::Bool(b) => SqlValue::Bool(*b),
        }
    }
}

/// A statement: its SQL text and the values of its `?` parameters, in order.
#[derive(Debug)]
pub struct Statement {
    pub sql: String,
    pub binds: Vec<SqlValue>,
}

/// What a statement is: its text and its parameter values.
pub struct StatementView {
    pub sql: Seq<char>,
    pub binds: Seq<SqlValue>,
}

impl View for Statement {
    type V = StatementView;

    open spec fn view(&self) -> StatementView {
        StatementView { sql: self.sql@, binds: self.binds@ }
    }
}

/// The views of a list of statements.
pub open spec fn views(s: Seq<Statement>) -> Seq<StatementView> {
    s.map_values(|x: Statement| x@)
}

/// The number of rows that one bulk `INSERT` carries.
pub const INSERT_CHUNK: usize = 50;

/// The number of ids that one `DELETE ... IN (...)` carries.
pub const DELETE_CHUNK: usize = 500;

/// `n` copies of `item`, separated by `sep`.
pub open spec fn repeat_sep(item: Seq<char>, sep: Seq<char>, n: nat) -> Seq<char>
    decreases n,
{
    if n == 0 {
        seq![]
    } else if n == 1 {
        item
    } else {
        repeat_sep(item, sep, (n - 1) as nat) + sep + item
    }
}

/// The parameter list of one row of `width` values: `(?, ?, ...)`.
pub open spec fn tuple_text(width: nat) -> Seq<char> {
    "("@ + repeat_sep("?"@, ", "@, width) + ")"@
}

/// The `VALUES` clause of `rows` rows of `width` values each.
pub open spec fn values_text(rows: nat, width: nat) -> Seq<char> {
    "VALUES "@ + repeat_sep(tuple_text(width), ", "@, rows)
}

/// `s` cut into consecutive pieces of `size` elements; the last piece may be shorter.
pub open spec fn chunks<A>(s: Seq<A>, size: nat) -> Seq<Seq<A>>
    decreases s.len(),
{
    if s.len() == 0 || size == 0 {
        seq![]
    } else if s.len() <= size {
        seq![s]
    } else {
        seq![s.take(size as int)] + chunks(s.skip(size as int), size)
    }
}

/// One bulk insert: `prefix`, the `VALUES` clause for `rows`, `suffix`; the
/// values of the rows are bound in order.
pub open spec fn insert_statement(
    prefix: Seq<char>,
    suffix: Seq<char>,
    rows: Seq<Seq<SqlValue>>,
    width: nat,
) -> StatementView {
    StatementView { sql: prefix + values_text(rows.len(), width) + suffix, binds: rows.flatten() }
}

/// The bulk inserts that write `rows`, fifty rows to a statement.
pub open spec fn insert_statements(
    prefix: Seq<char>,
    suffix: Seq<char>,
    rows: Seq<Seq<SqlValue>>,
    width: nat,
) -> Seq<StatementView> {
    chunks(rows, INSERT_CHUNK as nat).map_values(
        |c: Seq<Seq<SqlValue>>| insert_statement(prefix, suffix, c, width),
    )
}

/// One delete of the rows of `table` whose `column` is one of `ids`.
pub open spec fn delete_in_statement(table: Seq<char>, column: Seq<char>, ids: Seq<i64>) -> StatementView {
    StatementView {
        sql: "DELETE FROM "@ + table + " WHERE "@ + column + " IN ("@ + repeat_sep("?"@, ", "@, ids.len()) + ")"@,
        binds: ids.map_values(|i: i64| SqlValue::Integer(i)),
    }
}

/// The deletes of the rows of `table` whose `column` is one of `ids`, five
/// hundred ids to a statement.
pub open spec fn delete_in_statements(table: Seq<char>, column: Seq<char>, ids: Seq<i64>) -> Seq<StatementView> {
    chunks(ids, DELETE_CHUNK as nat).map_values(|c: Seq<i64>| delete_in_statement(table, column, c))
}

/// Appends `n` copies of `item` separated by `sep`.
fn push_repeat_sep(s: &mut String, item: &str, sep: &str, n: usize)
    ensures
        final(s)@ == old(s)@ + repeat_sep(item@, sep@, n as nat),
{
    let ghost start = s@;
    let mut i: usize = 0;
    while i < n
        invariant
            i <= n,
            s@ == start + repeat_sep(item@, sep@, i as nat),
        decreases n - i,
    {
        if i > 0 {
            s.append(sep);
        }
        s.append(item);
        i = i + 1;
        assert(s@ =~= start + repeat_sep(item@, sep@, i as nat));
    }
}

/// Cutting `s` into pieces: the first piece is the first `size` elements,
/// the rest are the pieces of what follows them.
proof fn lemma_chunks_step<A>(s: Seq<A>, size: nat)
    requires
        s.len() > 0,
        size > 0,
    ensures
        chunks(s, size) =~= seq![s.take(if s.len() < size { s.len() as int } else { size as int })]
            + chunks(s.skip(if s.len() < size { s.len() as int } else { size as int }), size),
{
    if s.len() <= size {
        assert(s.take(s.len() as int) =~= s);
        assert(s.skip(s.len() as int) =~= Seq::<A>::empty());
        assert(chunks(s.skip(s.len() as int), size) =~= Seq::<Seq<A>>::empty());
        if s.len() == size {
            assert(s.take(size as int) =~= s);
        }
    }
}

/// Flattening the pieces of `s` gives `s` back: every element lands in
/// exactly one piece, in order.
pub proof fn lemma_chunks_flatten<A>(s: Seq<A>, size: nat)
    requires
        size > 0,
    ensures
        chunks(s, size).flatten() =~= s,
    decreases s.len(),
{
    if s.len() == 0 {
    } else if s.len() <= size {
        assert(chunks(s, size) =~= seq![s]);
        assert(seq![s].flatten() =~= s + Seq::<Seq<A>>::empty().flatten());
    } else {
        lemma_chunks_flatten(s.skip(size as int), size);
        let rest = chunks(s.skip(size as int), size);
        assert(chunks(s, size) == seq![s.take(size as int)] + rest);
        assert((seq![s.take(size as int)] + rest).drop_first() =~= rest);
        assert(s.take(size as int) + s.skip(size as int) =~= s);
    }
}

/// Every piece is non-empty and at most `size` long.
pub proof fn lemma_chunks_sizes<A>(s: Seq<A>, size: nat)
    requires
        size > 0,
    ensures
        forall|i: int| 0 <= i < chunks(s, size).len() ==> 0 < #[trigger] chunks(s, size)[i].len() <= size,
    decreases s.len(),
{
    if s.len() == 0 {
    } else if s.len() <= size {
    } else {
        lemma_chunks_sizes(s.skip(size as int), size);
        let rest = chunks(s.skip(size as int), size);
        assert forall|i: int| 0 <= i < chunks(s, size).len() implies 0 < #[trigger] chunks(s, size)[i].len() <= size by {
            if i > 0 {
                assert(chunks(s, size)[i] == rest[i - 1]);
            }
        }
    }
}

/// The number of `?` parameters in a statement's text.
pub open spec fn placeholders(s: Seq<char>) -> nat
    decreases s.len(),
{
    if s.len() == 0 {
        0
    } else {
        placeholders(s.drop_last()) + if s.last() == '?' { 1nat } else { 0nat }
    }
}

proof fn lemma_placeholders_concat(a: Seq<char>, b: Seq<char>)
    ensures
        placeholders(a + b) == placeholders(a) + placeholders(b),
    decreases b.len(),
{
    if b.len() == 0 {
        assert(a + b =~= a);
    } else {
        lemma_placeholders_concat(a, b.drop_last());
        assert((a + b).drop_last() =~= a + b.drop_last());
    }
}

proof fn lemma_placeholders_repeat(item: Seq<char>, sep: Seq<char>, n: nat)
    requires
        placeholders(sep) == 0,
    ensures
        placeholders(repeat_sep(item, sep, n)) == n * placeholders(item),
    decreases n,
{
    if n > 1 {
        lemma_placeholders_repeat(item, sep, (n - 1) as nat);
        lemma_placeholders_concat(repeat_sep(item, sep, (n - 1) as nat), sep);
        lemma_placeholders_concat(repeat_sep(item, sep, (n - 1) as nat) + sep, item);
        assert(n * placeholders(item) == (n - 1) * placeholders(item) + placeholders(item)) by (nonlinear_arith);
    } else if n == 0 {
        assert(placeholders(Seq::<char>::empty()) == 0);
    } else {
        assert(1 * placeholders(item) == placeholders(item));
    }
}

proof fn lemma_flatten_width(rows: Seq<Seq<SqlValue>>, width: nat)
    requires
        forall|i: int| 0 <= i < rows.len() ==> (#[trigger] rows[i]).len() == width,
    ensures
        rows.flatten().len() == rows.len() * width,
    decreases rows.len(),
{
    if rows.len() > 0 {
        assert forall|i: int| 0 <= i < rows.drop_first().len() implies (#[trigger] rows.drop_first()[i]).len() == width by {
            assert(rows.drop_first()[i] == rows[i + 1]);
        }
        lemma_flatten_width(rows.drop_first(), width);
        assert(rows[0].len() == width);
        assert(rows.len() * width == (rows.len() - 1) * width + width) by (nonlinear_arith);
    }
}

/// The text of a bulk insert has one `?` for each value it binds, when
/// every row has `width` values and neither `prefix` nor `suffix` holds a
/// `?`; so has that of a delete of ids, one for each id.
pub proof fn lemma_statement_placeholders(
    prefix: Seq<char>,
    suffix: Seq<char>,
    rows: Seq<Seq<SqlValue>>,
    width: nat,
    table: Seq<char>,
    column: Seq<char>,
    ids: Seq<i64>,
)
    requires
        placeholders(prefix) == 0,
        placeholders(suffix) == 0,
        placeholders(table) == 0,
        placeholders(column) == 0,
        forall|i: int| 0 <= i < rows.len() ==> (#[trigger] rows[i]).len() == width,
    ensures
        placeholders(insert_statement(prefix, suffix, rows, width).sql) == insert_statement(prefix, suffix, rows, width).binds.len(),
        placeholders(delete_in_statement(table, column, ids).sql) == delete_in_statement(table, column, ids).binds.len(),
{
    reveal_strlit("?");
    reveal_strlit(", ");
    reveal_strlit("(");
    reveal_strlit(")");
    reveal_strlit("VALUES ");
    reveal_strlit("DELETE FROM ");
    reveal_strlit(" WHERE ");
    reveal_strlit(" IN (");
    reveal_with_fuel(placeholders, 13);
    assert(placeholders("?"@) == 1);
    assert(placeholders(", "@) == 0);
    assert(placeholders("("@) == 0);
    assert(placeholders(")"@) == 0);
    assert(placeholders("VALUES "@) == 0);
    assert(placeholders("DELETE FROM "@) == 0);
    assert(placeholders(" WHERE "@) == 0);
    assert(placeholders(" IN ("@) == 0);
    lemma_placeholders_repeat("?"@, ", "@, width);
    lemma_placeholders_concat("("@, repeat_sep("?"@, ", "@, width));
    lemma_placeholders_concat("("@ + repeat_sep("?"@, ", "@, width), ")"@);
    let tuple = tuple_text(width);
    assert(placeholders(tuple) == width);
    lemma_placeholders_repeat(tuple, ", "@, rows.len());
    lemma_placeholders_concat("VALUES "@, repeat_sep(tuple, ", "@, rows.len()));
    let values = values_text(rows.len(), width);
    assert(placeholders(values) == rows.len() * width);
    lemma_placeholders_concat(prefix, values);
    lemma_placeholders_concat(prefix + values, suffix);
    lemma_flatten_width(rows, width);
    assert(rows.len() * width == width * rows.len()) by (nonlinear_arith);
    let q = repeat_sep("?"@, ", "@, ids.len());
    lemma_placeholders_repeat("?"@, ", "@, ids.len());
    lemma_placeholders_concat("DELETE FROM "@, table);
    lemma_placeholders_concat("DELETE FROM "@ + table, " WHERE "@);
    lemma_placeholders_concat("DELETE FROM "@ + table + " WHERE "@, column);
    lemma_placeholders_concat("DELETE FROM "@ + table + " WHERE "@ + column, " IN ("@);
    lemma_placeholders_concat("DELETE FROM "@ + table + " WHERE "@ + column + " IN ("@, q);
    lemma_placeholders_concat("DELETE FROM "@ + table + " WHERE "@ + column + " IN ("@ + q, ")"@);
}

/// The statement that inserts `rows[start..end]`.
fn insert_statement_exec(
    prefix: &str,
    suffix: &str,
    rows: &Vec<Vec<SqlValue>>,
    start: usize,
    end: usize,
    width: usize,
) -> (r: Statement)
    requires
        start <= end <= rows.len(),
    ensures
        r@ == insert_statement(prefix@, suffix@, rows@.subrange(start as int, end as int).map_values(|v: Vec<SqlValue>| v@), width as nat),
{
    let ghost all = rows@.map_values(|v: Vec<SqlValue>| v@);
    let mut tuple = String::new();
    tuple.append("(");
    push_repeat_sep(&mut tuple, "?", ", ", width);
    tuple.append(")");
    assert(tuple@ =~= tuple_text(width as nat));

    let mut sql = String::new();
    sql.append(prefix);
    sql.append("VALUES ");
    let mut binds: Vec<SqlValue> = Vec::new();
    let mut j: usize = start;
    while j < end
        invariant
            start <= j <= end <= rows.len(),
            all == rows@.map_values(|v: Vec<SqlValue>| v@),
            tuple@ == tuple_text(width as nat),
            sql@ == prefix@ + "VALUES "@ + repeat_sep(tuple_text(width as nat), ", "@, (j - start) as nat),
            binds@ == all.subrange(start as int, j as int).flatten(),
        decreases end - j,
    {
        if j > start {
            sql.append(", ");
        }
        sql.append(tuple.as_str());
        let row = &rows[j];
        let ghost before = binds@;
        let mut k: usize = 0;
        while k < row.len()
            invariant
                k <= row.len(),
                binds@ == before + row@.take(k as int),
            decreases row.len() - k,
        {
            binds.push(row[k].copy());
            k = k + 1;
            assert(binds@ =~= before + row@.take(k as int));
        }
        assert(row@.take(row.len() as int) =~= row@);
        assert(all.subrange(start as int, j + 1) =~= all.subrange(start as int, j as int).push(all[j as int]));
        j = j + 1;
        assert(sql@ =~= prefix@ + "VALUES "@ + repeat_sep(tuple_text(width as nat), ", "@, (j - start) as nat));
    }
    sql.append(suffix);
    assert(all.subrange(start as int, end as int) =~= rows@.subrange(start as int, end as int).map_values(|v: Vec<SqlValue>| v@));
    assert(sql@ =~= prefix@ + values_text((end - start) as nat, width as nat) + suffix@);
    Statement { sql, binds }
}

/// The bulk inserts that write `rows`, fifty rows to a statement, each
/// statement `prefix`, a `VALUES` clause of `width` parameters per row, then
/// `suffix`.
pub fn insert_statements_exec(prefix: &str, suffix: &str, rows: &Vec<Vec<SqlValue>>, width: usize) -> (r: Vec<Statement>)
    ensures
        views(r@) == insert_statements(prefix@, suffix@, rows@.map_values(|v: Vec<SqlValue>| v@), width as nat),
{
    let ghost all = rows@.map_values(|v: Vec<SqlValue>| v@);
    let n = rows.len();
    let mut out: Vec<Statement> = Vec::new();
    let mut start: usize = 0;
    assert(all.skip(0) =~= all);
    assert(views(out@) + insert_statements(prefix@, suffix@, all, width as nat)
        =~= insert_statements(prefix@, suffix@, all, width as nat));
    while start < n
        invariant
            n == rows.len(),
            start <= n,
            all == rows@.map_values(|v: Vec<SqlValue>| v@),
            views(out@) + insert_statements(prefix@, suffix@, all.skip(start as int), width as nat)
                == insert_statements(prefix@, suffix@, all, width as nat),
        decreases n - start,
    {
        let end = if n - start < INSERT_CHUNK { n } else { start + INSERT_CHUNK };
        let stmt = insert_statement_exec(prefix, suffix, rows, start, end, width);
        let ghost rest = all.skip(start as int);
        proof {
            lemma_chunks_step(rest, INSERT_CHUNK as nat);
            assert(rest.take((end - start) as int) =~= all.subrange(start as int, end as int));
            assert(all.subrange(start as int, end as int) =~= rows@.subrange(start as int, end as int).map_values(|v: Vec<SqlValue>| v@));
            assert(rest.skip((end - start) as int) =~= all.skip(end as int));
            let f = |c: Seq<Seq<SqlValue>>| insert_statement(prefix@, suffix@, c, width as nat);
            let tail = chunks(all.skip(end as int), INSERT_CHUNK as nat);
            assert(chunks(rest, INSERT_CHUNK as nat) =~= seq![all.subrange(start as int, end as int)] + tail);
            assert((seq![all.subrange(start as int, end as int)] + tail).map_values(f)
                =~= seq![stmt@] + tail.map_values(f));
        }
        let ghost before = out@;
        out.push(stmt);
        assert(views(out@) =~= views(before).push(stmt@));
        start = end;
    }
    assert(all.skip(n as int) =~= Seq::<Seq<SqlValue>>::empty());
    assert(views(out@) + insert_statements(prefix@, suffix@, all.skip(n as int), width as nat) =~= views(out@));
    out
}

/// The deletes of the rows of `table` whose `column` is one of `ids`, five
/// hundred ids to a statement.
pub fn delete_in_statements_exec(table: &str, column: &str, ids: &[i64]) -> (r: Vec<Statement>)
    ensures
        views(r@) == delete_in_statements(table@, column@, ids@),
{
    let n = ids.len();
    let mut out: Vec<Statement> = Vec::new();
    let mut start: usize = 0;
    assert(ids@.skip(0) =~= ids@);
    assert(views(out@) + delete_in_statements(table@, column@, ids@)
        =~= delete_in_statements(table@, column@, ids@));
    while start < n
        invariant
            n == ids@.len(),
            start <= n,
            views(out@) + delete_in_statements(table@, column@, ids@.skip(start as int))
                == delete_in_statements(table@, column@, ids@),
        decreases n - start,
    {
        let end = if n - start < DELETE_CHUNK { n } else { start + DELETE_CHUNK };
        let mut sql = String::new();
        sql.append("DELETE FROM ");
        sql.append(table);
        sql.append(" WHERE ");
        sql.append(column);
        sql.append(" IN (");
        push_repeat_sep(&mut sql, "?", ", ", end - start);
        sql.append(")");
        let mut binds: Vec<SqlValue> = Vec::new();
        let mut j: usize = start;
        while j < end
            invariant
                start <= j <= end <= n,
                n == ids@.len(),
                binds@ == ids@.subrange(start as int, j as int).map_values(|i: i64| SqlValue::Integer(i)),
            decreases end - j,
        {
            binds.push(SqlValue::Integer(ids[j]));
            j = j + 1;
            assert(binds@ =~= ids@.subrange(start as int, j as int).map_values(|i: i64| SqlValue::Integer(i)));
        }
        let stmt = Statement { sql, binds };
        let ghost rest = ids@.skip(start as int);
        let ghost piece = ids@.subrange(start as int, end as int);
        proof {
            lemma_chunks_step(rest, DELETE_CHUNK as nat);
            assert(rest.take((end - start) as int) =~= piece);
            assert(rest.skip((end - start) as int) =~= ids@.skip(end as int));
            assert(stmt@.sql =~= delete_in_statement(table@, column@, piece).sql);
            assert(stmt@.binds =~= delete_in_statement(table@, column@, piece).binds);
            let f = |c: Seq<i64>| delete_in_statement(table@, column@, c);
            let tail = chunks(ids@.skip(end as int), DELETE_CHUNK as nat);
            assert(chunks(rest, DELETE_CHUNK as nat) =~= seq![piece] + tail);
            assert((seq![piece] + tail).map_values(f) =~= seq![stmt@] + tail.map_values(f));
        }
        let ghost before = out@;
        out.push(stmt);
        assert(views(out@) =~= views(before).push(stmt@));
        start = end;
    }
    assert(ids@.skip(n as int) =~= Seq::<i64>::empty());
    assert(views(out@) + delete_in_statements(table@, column@, ids@.skip(n as int)) =~= views(out@));
    out
}

} // verus!
