use vstd::prelude::*;

use crate::app::App;
use crate::app::AppError;
use crate::db;
use crate::utils::lemma_comma_join_step;
use crate::utils::spec_comma_join;

verus! {

// ---------------------------------------------------------------------------
// Row insertion: the catalog probe that drives it, and the two INSERT
// statements (manual values and the consecutive heuristic).
// ---------------------------------------------------------------------------

/// A column read back from the database's own catalog: its name and its
/// declared SQL type.
pub struct Column {
    pub name: String,
    pub sqltype: String,
}

impl View for Column {
    type V = (Seq<char>, Seq<char>);

    open spec fn view(&self) -> Self::V {
        (self.name@, self.sqltype@)
    }
}

/// The introspected columns as pairs of character sequences.
pub open spec fn columns_view(cols: Seq<Column>) -> Seq<(Seq<char>, Seq<char>)> {
    cols.map_values(|c: Column| c@)
}

/// The catalog probe: a zero-row query whose result set carries the table's
/// column metadata.
pub open spec fn spec_probe_query(name: Seq<char>) -> Seq<char> {
    "SELECT * FROM "@ + name + " LIMIT 0"@
}

/// Builds the catalog probe for a table name.
pub fn probe_query(name: &str) -> (r: String)
    ensures
        r@ == spec_probe_query(name@),
{
    let mut q = "SELECT * FROM ".to_owned();
    q.append(name);
    q.append(" LIMIT 0");
    q
}

/// The schema pragma whose rows carry a table's column names and declared
/// types.
pub open spec fn spec_pragma_query(name: Seq<char>) -> Seq<char> {
    "PRAGMA table_info("@ + name + ")"@
}

/// Builds the schema pragma for a table name.
pub fn pragma_query(name: &str) -> (r: String)
    ensures
        r@ == spec_pragma_query(name@),
{
    let mut q = "PRAGMA table_info(".to_owned();
    q.append(name);
    q.append(")");
    q
}

/// The columns that carry a declared type, in order, as pairs of name and
/// type; a column whose declared type the engine left empty is left out.
pub open spec fn spec_declared_columns(info: Seq<(String, String)>) -> Seq<(Seq<char>, Seq<char>)>
    decreases info.len(),
{
    if info.len() == 0 {
        Seq::empty()
    } else {
        let rest = spec_declared_columns(info.drop_last());
        if info.last().1@.len() == 0 {
            rest
        } else {
            rest.push((info.last().0@, info.last().1@))
        }
    }
}

/// Keeps the probed columns that have a declared type; a table yielding none
/// is reported as a schema failure.
pub fn save_column_info(info: Vec<(String, String)>) -> (r: Result<Vec<Column>, AppError>)
    ensures
        spec_declared_columns(info@).len() == 0 ==> r == Err::<Vec<Column>, AppError>(
            AppError::Schema,
        ),
        spec_declared_columns(info@).len() > 0 ==> r is Ok,
        r matches Ok(cols) ==> columns_view(cols@) == spec_declared_columns(info@) && cols@.len()
            > 0,
{
    let mut kept: Vec<Column> = Vec::new();
    let n = info.len();
    let mut i: usize = 0;
    proof {
        assert(columns_view(kept@) =~= spec_declared_columns(info@.take(0)));
    }
    while i < n
        invariant
            i <= n,
            n == info@.len(),
            columns_view(kept@) == spec_declared_columns(info@.take(i as int)),
        decreases n - i,
    {
        let entry = &info[i];
        if !entry.1.as_str().is_empty() {
            kept.push(Column { name: entry.0.clone(), sqltype: entry.1.clone() });
        }
        proof {
            assert(info@.take(i + 1).drop_last() =~= info@.take(i as int));
            assert(info@.take(i + 1).last() == info@[i as int]);
            assert(columns_view(kept@) =~= spec_declared_columns(info@.take(i + 1)));
        }
        i += 1;
    }
    proof {
        assert(info@.take(n as int) =~= info@);
    }
    if kept.len() == 0 {
        Err(AppError::Schema)
    } else {
        Ok(kept)
    }
}

/// Reads the active table's columns back from the catalog: the zero-row
/// probe checks that the name resolves, and the schema pragma supplies each
/// column's name and declared type.  With no active table the operation is
/// rejected before any statement is built.
pub fn get_table(app: &App) -> (r: Result<Vec<Column>, AppError>)
    ensures
        app.spec_active_table() is None ==> r == Err::<Vec<Column>, AppError>(
            AppError::NoActiveTable,
        ),
        app.spec_active_table() is Some && !app.spec_connected() ==> (r matches Err(
            AppError::Connection { .. },
        )),
        r matches Ok(cols) ==> app.spec_active_table() is Some && app.spec_connected()
            && cols@.len() > 0,
        app.spec_active_table() is Some && app.spec_connected() ==> (r is Ok || r == Err::<
            Vec<Column>,
            AppError,
        >(AppError::Schema) || (r matches Err(AppError::Execution { .. }))),
{
    let name = match &app.active_table {
        Some(name) => name,
        None => {
            return Err(AppError::NoActiveTable);
        },
    };
    let conn = match &app.connection {
        Some(conn) => conn,
        None => {
            return Err(AppError::Connection { message: "connection is not set".to_owned() });
        },
    };
    let probe = probe_query(name.as_str());
    let pragma = pragma_query(name.as_str());
    match db::probe_table_columns(conn, probe.as_str(), pragma.as_str()) {
        Ok(info) => save_column_info(info),
        Err(e) => Err(AppError::Execution { message: db::sqlite_error_text(&e) }),
    }
}

/// The manual INSERT statement: `INSERT INTO name VALUES (v1,v2,...)`, with
/// the values inserted as raw literal text.
pub open spec fn spec_insert_query(name: Seq<char>, values: Seq<Seq<char>>) -> Seq<char> {
    "INSERT INTO "@ + name + " VALUES ("@ + spec_comma_join(values) + ")"@
}

/// Builds the manual INSERT statement from one value per column.  The values
/// are taken verbatim: the operator is trusted, and no escaping is applied.
pub fn build_insert(name: &str, values: &Vec<String>) -> (r: String)
    requires
        values@.len() > 0,
    ensures
        r@ == spec_insert_query(name@, values.deep_view()),
{
    let ghost parts = values.deep_view();
    let mut query = "INSERT INTO ".to_owned();
    query.append(name);
    query.append(" VALUES (");
    let ghost prefix = query@;
    let n = values.len();
    let mut i: usize = 0;
    proof {
        assert(parts.take(0) =~= Seq::<Seq<char>>::empty());
    }
    while i < n
        invariant
            i <= n,
            n == values@.len(),
            parts == values.deep_view(),
            query@ == prefix + spec_comma_join(parts.take(i as int)),
        decreases n - i,
    {
        if i > 0 {
            query.append(",");
        }
        query.append(values[i].as_str());
        proof {
            reveal_strlit(",");
            lemma_comma_join_step(parts, i as int);
            assert(parts[i as int] == values@[i as int]@);
            assert(query@ =~= prefix + spec_comma_join(parts.take(i as int + 1)));
        }
        i += 1;
    }
    query.append(")");
    proof {
        assert(parts.take(n as int) =~= parts);
        assert(query@ =~= spec_insert_query(name@, values.deep_view()));
    }
    query
}

/// Builds and executes the manual INSERT for the active table.  With no
/// active table the operation is rejected before any statement is built.
pub fn user_defined_insert(app: &App, values: &Vec<String>) -> (r: Result<(), AppError>)
    requires
        values@.len() > 0,
    ensures
        app.spec_active_table() is None ==> r == Err::<(), AppError>(AppError::NoActiveTable),
        app.spec_active_table() is Some && !app.spec_connected() ==> (r matches Err(
            AppError::Connection { .. },
        )),
        app.spec_active_table() is Some && app.spec_connected() ==> (r is Ok || (r matches Err(
            AppError::Execution { .. },
        ))),
{
    let name = match &app.active_table {
        Some(name) => name,
        None => {
            return Err(AppError::NoActiveTable);
        },
    };
    let conn = match &app.connection {
        Some(conn) => conn,
        None => {
            return Err(AppError::Connection { message: "connection is not set".to_owned() });
        },
    };
    let query = build_insert(name.as_str(), values);
    match db::execute_sql(conn, query.as_str()) {
        Ok(_) => Ok(()),
        Err(e) => Err(AppError::Execution { message: db::sqlite_error_text(&e) }),
    }
}

/// Each column rendered as the aggregate expression `MAX((name+1)||1)`: the
/// heuristic that derives one new, distinct value from the column's current
/// maximum while tolerating mixed affinities.
pub open spec fn spec_consecutive_parts(cols: Seq<(Seq<char>, Seq<char>)>) -> Seq<Seq<char>> {
    cols.map_values(|c: (Seq<char>, Seq<char>)| "MAX(("@ + c.0 + "+1)||1)"@)
}

/// The consecutive INSERT statement:
/// `INSERT INTO name SELECT MAX((c1+1)||1),... FROM name`.
pub open spec fn spec_consecutive_insert_query(
    name: Seq<char>,
    cols: Seq<(Seq<char>, Seq<char>)>,
) -> Seq<char> {
    "INSERT INTO "@ + name + " SELECT "@ + spec_comma_join(spec_consecutive_parts(cols))
        + " FROM "@ + name
}

/// Builds the consecutive INSERT statement from the introspected columns.
pub fn build_consecutive_insert(name: &str, columns: &Vec<Column>) -> (r: String)
    requires
        columns@.len() > 0,
    ensures
        r@ == spec_consecutive_insert_query(name@, columns_view(columns@)),
{
    let ghost parts = spec_consecutive_parts(columns_view(columns@));
    let mut query = "INSERT INTO ".to_owned();
    query.append(name);
    query.append(" SELECT ");
    let ghost prefix = query@;
    let n = columns.len();
    let mut i: usize = 0;
    proof {
        assert(parts.take(0) =~= Seq::<Seq<char>>::empty());
    }
    while i < n
        invariant
            i <= n,
            n == columns@.len(),
            parts == spec_consecutive_parts(columns_view(columns@)),
            query@ == prefix + spec_comma_join(parts.take(i as int)),
        decreases n - i,
    {
        if i > 0 {
            query.append(",");
        }
        query.append("MAX((");
        query.append(columns[i].name.as_str());
        query.append("+1)||1)");
        proof {
            reveal_strlit(",");
            lemma_comma_join_step(parts, i as int);
            assert(parts[i as int] == "MAX(("@ + columns@[i as int]@.0 + "+1)||1)"@);
            assert(query@ =~= prefix + spec_comma_join(parts.take(i as int + 1)));
        }
        i += 1;
    }
    query.append(" FROM ");
    query.append(name);
    proof {
        assert(parts.take(n as int) =~= parts);
        assert(query@ =~= spec_consecutive_insert_query(name@, columns_view(columns@)));
    }
    query
}

/// Introspects the active table, builds the consecutive INSERT, executes it,
/// and checks that exactly one row was inserted.  With no active table the
/// operation is rejected before any statement is built.
pub fn insert_consecutive_rows(app: &App) -> (r: Result<(), AppError>)
    ensures
        app.spec_active_table() is None ==> r == Err::<(), AppError>(AppError::NoActiveTable),
        app.spec_active_table() is Some && !app.spec_connected() ==> (r matches Err(
            AppError::Connection { .. },
        )),
        app.spec_active_table() is Some && app.spec_connected() ==> (r is Ok || r == Err::<
            (),
            AppError,
        >(AppError::Schema) || (r matches Err(AppError::Execution { .. }))),
{
    let columns = match get_table(app) {
        Ok(columns) => columns,
        Err(e) => {
            return Err(e);
        },
    };
    let name = match &app.active_table {
        Some(name) => name,
        None => {
            return Err(AppError::NoActiveTable);
        },
    };
    let conn = match &app.connection {
        Some(conn) => conn,
        None => {
            return Err(AppError::Connection { message: "connection is not set".to_owned() });
        },
    };
    let query = build_consecutive_insert(name.as_str(), &columns);
    match db::execute_sql(conn, query.as_str()) {
        Ok(count) => confirm_single_row(count),
        Err(e) => Err(AppError::Execution { message: db::sqlite_error_text(&e) }),
    }
}

/// Confirms the engine's affected-row count for the consecutive insert:
/// anything but exactly one inserted row is a failure.
fn confirm_single_row(count: usize) -> (r: Result<(), AppError>)
    ensures
        r is Ok <==> count == 1,
        r matches Err(e) ==> (e matches AppError::Execution { .. }),
{
    if count == 1 {
        Ok(())
    } else {
        Err(AppError::Execution { message: "row was not inserted".to_owned() })
    }
}

} // verus!
