use vstd::prelude::*;

use crate::app::App;
use crate::app::AppError;
use crate::db;
use crate::utils::lemma_comma_join_step;
use crate::utils::spec_comma_join;
use crate::utils::spec_valid_identifier;
use crate::utils::str_equals;
use crate::utils::spec_valid_type;
use crate::utils::validate_column_name;
use crate::utils::validate_sql_type;
use crate::utils::validate_table_name;

verus! {

// ---------------------------------------------------------------------------
// The define-table flow's data: a table under construction, and the CREATE
// statement built from it.
// ---------------------------------------------------------------------------

/// One column of a table under definition: its name and its free-form SQL
/// type (with modifiers).
pub struct ColumnDefinition {
    pub name: String,
    pub sql_type: String,
}

impl View for ColumnDefinition {
    type V = (Seq<char>, Seq<char>);

    open spec fn view(&self) -> Self::V {
        (self.name@, self.sql_type@)
    }
}

/// The columns as pairs of character sequences.
pub open spec fn cols_view(cols: Seq<ColumnDefinition>) -> Seq<(Seq<char>, Seq<char>)> {
    cols.map_values(|c: ColumnDefinition| c@)
}

/// A table under definition: an optional name and an ordered column list.
pub struct TableDefinition {
    pub name: Option<String>,
    pub columns: Vec<ColumnDefinition>,
}

impl View for TableDefinition {
    type V = (Option<Seq<char>>, Seq<(Seq<char>, Seq<char>)>);

    open spec fn view(&self) -> Self::V {
        (
            match self.name {
                Some(name) => Some(name@),
                None => None,
            },
            cols_view(self.columns@),
        )
    }
}

/// The position of the first column with the given name, or -1 when none
/// has it.
pub open spec fn spec_first_col_index(cols: Seq<(Seq<char>, Seq<char>)>, name: Seq<char>) -> int
    decreases cols.len(),
{
    if cols.len() == 0 {
        -1
    } else if cols[0].0 == name {
        0
    } else {
        let rest = spec_first_col_index(cols.drop_first(), name);
        if rest < 0 {
            -1
        } else {
            rest + 1
        }
    }
}

/// Whether some column has the given name.
pub open spec fn spec_has_column(cols: Seq<(Seq<char>, Seq<char>)>, name: Seq<char>) -> bool {
    spec_first_col_index(cols, name) >= 0
}

proof fn lemma_first_col_index_found(cols: Seq<(Seq<char>, Seq<char>)>, name: Seq<char>, i: int)
    requires
        0 <= i < cols.len(),
        cols[i].0 == name,
        forall|j: int| 0 <= j < i ==> (#[trigger] cols[j]).0 != name,
    ensures
        spec_first_col_index(cols, name) == i,
    decreases i,
{
    if i == 0 {
    } else {
        assert(cols[0].0 != name);
        assert(cols.drop_first()[i - 1] == cols[i]);
        assert(forall|j: int| 0 <= j < i - 1 ==> (#[trigger] cols.drop_first()[j]) == cols[j + 1]);
        lemma_first_col_index_found(cols.drop_first(), name, i - 1);
    }
}

proof fn lemma_first_col_index_none(cols: Seq<(Seq<char>, Seq<char>)>, name: Seq<char>)
    requires
        forall|j: int| 0 <= j < cols.len() ==> (#[trigger] cols[j]).0 != name,
    ensures
        spec_first_col_index(cols, name) == -1,
    decreases cols.len(),
{
    if cols.len() == 0 {
    } else {
        assert(forall|j: int| 0 <= j < cols.len() - 1 ==> (#[trigger] cols.drop_first()[j])
            == cols[j + 1]);
        lemma_first_col_index_none(cols.drop_first(), name);
    }
}

impl TableDefinition {
    /// A definition can produce a CREATE statement once a name is set and at
    /// least one column was added.
    pub open spec fn spec_is_ready(self) -> bool {
        self@.0 is Some && self@.1.len() > 0
    }

    /// An empty definition: no name, no columns.
    pub fn new() -> (r: Self)
        ensures
            r@.0 is None,
            r@.1 == Seq::<(Seq<char>, Seq<char>)>::empty(),
    {
        let r = Self { name: None, columns: Vec::new() };
        proof {
            assert(r@.1 =~= Seq::<(Seq<char>, Seq<char>)>::empty());
        }
        r
    }

    /// Sets (or replaces) the table's name after validating it.
    pub fn set_name(&mut self, name: &str) -> (r: Result<(), AppError>)
        ensures
            !spec_valid_identifier(name@) ==> r == Err::<(), AppError>(AppError::Validation)
                && final(self)@ == old(self)@,
            spec_valid_identifier(name@) ==> r is Ok && final(self)@.0 == Some(name@)
                && final(self)@.1 == old(self)@.1,
    {
        if !validate_table_name(name) {
            return Err(AppError::Validation);
        }
        self.name = Some(name.to_owned());
        Ok(())
    }

    /// Appends a column after validating its name and its type token.
    pub fn add_column(&mut self, name: &str, sql_type: &str) -> (r: Result<(), AppError>)
        ensures
            !(spec_valid_identifier(name@) && spec_valid_type(sql_type@)) ==> r == Err::<
                (),
                AppError,
            >(AppError::Validation) && final(self)@ == old(self)@,
            spec_valid_identifier(name@) && spec_valid_type(sql_type@) ==> r is Ok
                && final(self)@.0 == old(self)@.0 && final(self)@.1 == old(self)@.1.push(
                (name@, sql_type@),
            ),
    {
        if !validate_column_name(name) {
            return Err(AppError::Validation);
        }
        if !validate_sql_type(sql_type) {
            return Err(AppError::Validation);
        }
        let column = ColumnDefinition { name: name.to_owned(), sql_type: sql_type.to_owned() };
        self.columns.push(column);
        proof {
            assert(final(self)@.1 =~= old(self)@.1.push((name@, sql_type@)));
        }
        Ok(())
    }

    /// The position of the first column with the given name, if any.
    fn find_column(&self, name: &str) -> (r: Option<usize>)
        ensures
            match r {
                Some(i) => i < self@.1.len() && spec_first_col_index(self@.1, name@) == i,
                None => !spec_has_column(self@.1, name@),
            },
    {
        let n = self.columns.len();
        let mut i: usize = 0;
        while i < n
            invariant
                i <= n,
                n == self.columns@.len(),
                forall|j: int| 0 <= j < i ==> (#[trigger] self@.1[j]).0 != name@,
            decreases n - i,
        {
            let c = &self.columns[i];
            if str_equals(c.name.as_str(), name) {
                proof {
                    lemma_first_col_index_found(self@.1, name@, i as int);
                }
                return Some(i);
            }
            i += 1;
        }
        proof {
            lemma_first_col_index_none(self@.1, name@);
        }
        None
    }

    /// Removes the first column with the given name; reports when none has
    /// it, instead of assuming its presence.
    pub fn delete_column(&mut self, name: &str) -> (r: Result<(), AppError>)
        ensures
            final(self)@.0 == old(self)@.0,
            !spec_has_column(old(self)@.1, name@) ==> r == Err::<(), AppError>(AppError::NotFound)
                && final(self)@ == old(self)@,
            spec_has_column(old(self)@.1, name@) ==> r is Ok && final(self)@.1 == old(
                self,
            )@.1.remove(spec_first_col_index(old(self)@.1, name@)),
    {
        match self.find_column(name) {
            Some(i) => {
                self.columns.remove(i);
                proof {
                    assert(final(self)@.1 =~= old(self)@.1.remove(
                        spec_first_col_index(old(self)@.1, name@),
                    ));
                }
                Ok(())
            },
            None => Err(AppError::NotFound),
        }
    }

    /// Replaces the name and type of the first column with the given name,
    /// after validating the new values; reports when none has it.
    pub fn set_column(&mut self, name: &str, new_name: &str, new_sql_type: &str) -> (r: Result<
        (),
        AppError,
    >)
        ensures
            final(self)@.0 == old(self)@.0,
            !(spec_valid_identifier(new_name@) && spec_valid_type(new_sql_type@)) ==> r == Err::<
                (),
                AppError,
            >(AppError::Validation) && final(self)@ == old(self)@,
            spec_valid_identifier(new_name@) && spec_valid_type(new_sql_type@) && !spec_has_column(
                old(self)@.1,
                name@,
            ) ==> r == Err::<(), AppError>(AppError::NotFound) && final(self)@ == old(self)@,
            spec_valid_identifier(new_name@) && spec_valid_type(new_sql_type@) && spec_has_column(
                old(self)@.1,
                name@,
            ) ==> r is Ok && final(self)@.1 == old(self)@.1.update(
                spec_first_col_index(old(self)@.1, name@),
                (new_name@, new_sql_type@),
            ),
    {
        if !validate_column_name(new_name) {
            return Err(AppError::Validation);
        }
        if !validate_sql_type(new_sql_type) {
            return Err(AppError::Validation);
        }
        match self.find_column(name) {
            Some(i) => {
                self.columns[i] = ColumnDefinition {
                    name: new_name.to_owned(),
                    sql_type: new_sql_type.to_owned(),
                };
                proof {
                    assert(final(self)@.1 =~= old(self)@.1.update(
                        spec_first_col_index(old(self)@.1, name@),
                        (new_name@, new_sql_type@),
                    ));
                }
                Ok(())
            },
            None => Err(AppError::NotFound),
        }
    }
}

// ---------------------------------------------------------------------------
// The define-table flow's menu, as data: which actions are offered for the
// current state of the definition.
// ---------------------------------------------------------------------------

/// An action offered by the define-table menu.
#[derive(Clone, Debug)]
pub enum DefineTablePromptOption {
    SetName,
    AddColumn,
    SetColumn(String),
    Create,
    Cancel,
}

/// The actions the define-table menu offers, in order: naming comes first;
/// columns can be added once a name is set; each existing column can be
/// modified or removed; a table with a name and at least one column can be
/// created; cancelling is always last.
pub fn define_table_prompt_options(table: &TableDefinition) -> (r: Vec<DefineTablePromptOption>)
    ensures
        table@.0 is None ==> r@ == seq![
            DefineTablePromptOption::SetName,
            DefineTablePromptOption::Cancel,
        ],
        table@.0 is Some && table@.1.len() == 0 ==> r@ == seq![
            DefineTablePromptOption::SetName,
            DefineTablePromptOption::AddColumn,
            DefineTablePromptOption::Cancel,
        ],
        table@.0 is Some && table@.1.len() > 0 ==> {
            &&& r@.len() == table@.1.len() + 4
            &&& r@[0] == DefineTablePromptOption::SetName
            &&& r@[1] == DefineTablePromptOption::AddColumn
            &&& forall|j: int|
                0 <= j < table@.1.len() ==> ((#[trigger] r@[2 + j]) matches
                    DefineTablePromptOption::SetColumn(n) && n@ == table@.1[j].0)
            &&& r@[r@.len() - 2] == DefineTablePromptOption::Create
            &&& r@[r@.len() - 1] == DefineTablePromptOption::Cancel
        },
{
    let mut options: Vec<DefineTablePromptOption> = Vec::new();
    options.push(DefineTablePromptOption::SetName);
    if table.name.is_some() {
        options.push(DefineTablePromptOption::AddColumn);
        let n = table.columns.len();
        if n > 0 {
            let mut i: usize = 0;
            while i < n
                invariant
                    i <= n,
                    n == table.columns@.len(),
                    options@.len() == 2 + i,
                    options@[0] == DefineTablePromptOption::SetName,
                    options@[1] == DefineTablePromptOption::AddColumn,
                    forall|j: int|
                        0 <= j < i ==> ((#[trigger] options@[2 + j]) matches
                            DefineTablePromptOption::SetColumn(name) && name@ == table@.1[j].0),
                decreases n - i,
            {
                let c = &table.columns[i];
                options.push(DefineTablePromptOption::SetColumn(c.name.clone()));
                i += 1;
            }
            options.push(DefineTablePromptOption::Create);
        }
    }
    options.push(DefineTablePromptOption::Cancel);
    options
}

// ---------------------------------------------------------------------------
// The CREATE statement.
// ---------------------------------------------------------------------------

/// Each column rendered as `name type`.
pub open spec fn spec_column_parts(cols: Seq<(Seq<char>, Seq<char>)>) -> Seq<Seq<char>> {
    cols.map_values(|c: (Seq<char>, Seq<char>)| c.0 + seq![' '] + c.1)
}

/// The text of the CREATE statement for a named table and its columns:
/// `CREATE TABLE IF NOT EXISTS name(c1 t1,c2 t2,...)`.
pub open spec fn spec_create_query(name: Seq<char>, cols: Seq<(Seq<char>, Seq<char>)>) -> Seq<
    char,
> {
    "CREATE TABLE IF NOT EXISTS "@ + name + "("@ + spec_comma_join(spec_column_parts(cols))
        + ")"@
}

/// Builds the CREATE statement's text from a ready definition.
pub fn create_query_from_definition(table: &TableDefinition) -> (r: String)
    requires
        table.spec_is_ready(),
    ensures
        r@ == spec_create_query(table@.0.unwrap(), table@.1),
{
    let ghost parts = spec_column_parts(table@.1);
    let mut query = "CREATE TABLE IF NOT EXISTS ".to_owned();
    match &table.name {
        Some(name) => query.append(name.as_str()),
        None => {},
    }
    query.append("(");
    let ghost prefix = query@;
    let n = table.columns.len();
    let mut i: usize = 0;
    while i < n
        invariant
            i <= n,
            n == table.columns@.len(),
            parts == spec_column_parts(cols_view(table.columns@)),
            query@ == prefix + spec_comma_join(parts.take(i as int)),
        decreases n - i,
    {
        if i > 0 {
            query.append(",");
        }
        let c = &table.columns[i];
        query.append(c.name.as_str());
        query.append(" ");
        query.append(c.sql_type.as_str());
        proof {
            reveal_strlit(",");
            reveal_strlit(" ");
            lemma_comma_join_step(parts, i as int);
            assert(parts[i as int] == table@.1[i as int].0 + seq![' '] + table@.1[i as int].1);
            assert(query@ =~= prefix + spec_comma_join(parts.take(i as int + 1)));
        }
        i += 1;
    }
    query.append(")");
    proof {
        assert(parts.take(n as int) =~= parts);
        assert(query@ =~= spec_create_query(table@.0.unwrap(), table@.1));
    }
    query
}

/// Generating the CREATE statement is deterministic: two builds from the
/// same name and column contents yield character-for-character identical
/// statement text.
pub proof fn lemma_create_query_idempotent(
    name1: Seq<char>,
    cols1: Seq<(Seq<char>, Seq<char>)>,
    name2: Seq<char>,
    cols2: Seq<(Seq<char>, Seq<char>)>,
)
    requires
        name1 == name2,
        cols1 == cols2,
    ensures
        spec_create_query(name1, cols1) == spec_create_query(name2, cols2),
{
}

/// Executes the CREATE statement built from a ready definition and, on
/// success, marks the new table active.
pub fn create_defined_table(app: &mut App, table: &TableDefinition) -> (r: Result<(), AppError>)
    requires
        table.spec_is_ready(),
    ensures
        final(app).connection == old(app).connection,
        final(app).connection_type == old(app).connection_type,
        !old(app).spec_connected() ==> (r matches Err(AppError::Connection { .. })),
        r is Ok ==> old(app).spec_connected() && final(app).spec_active_table() == Some(
            table@.0.unwrap(),
        ),
        r is Err ==> final(app).active_table == old(app).active_table,
        old(app).spec_connected() ==> (r is Ok || (r matches Err(AppError::Execution { .. }))),
{
    let query = create_query_from_definition(table);
    match &app.connection {
        None => {
            return Err(AppError::Connection { message: "connection is not set".to_owned() });
        },
        Some(conn) => {
            match db::execute_sql(conn, query.as_str()) {
                Ok(_) => {},
                Err(e) => {
                    return Err(AppError::Execution { message: db::sqlite_error_text(&e) });
                },
            }
        },
    }
    if let Some(name) = &table.name {
        app.active_table = Some(name.clone());
    }
    Ok(())
}

} // verus!
