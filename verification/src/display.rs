use vstd::prelude::*;

use crate::app::App;
use crate::app::AppError;
use crate::db;
use crate::utils::lemma_comma_join_step;
use crate::utils::spec_comma_join;
use crate::utils::spec_decimal;
use crate::utils::str_equals;
use crate::utils::usize_to_decimal;

verus! {

// ---------------------------------------------------------------------------
// Row browsing: the sort specification, the paginated SELECT statement, the
// page state, and conditional deletion.
// ---------------------------------------------------------------------------

/// How many rows one page shows.
pub const ROWS_PER_PAGE: usize = 50;

/// No two entries name the same column.
pub open spec fn spec_sort_wf(v: Seq<(Seq<char>, bool)>) -> bool {
    forall|i: int, j: int|
        0 <= i < j < v.len() ==> (#[trigger] v[i]).0 != (#[trigger] v[j]).0
}

/// Whether some entry names the given column.
pub open spec fn spec_sort_has(v: Seq<(Seq<char>, bool)>, name: Seq<char>) -> bool {
    exists|i: int| 0 <= i < v.len() && (#[trigger] v[i]).0 == name
}

/// The position of the entry naming the given column (meaningful when the
/// entries are well-formed and one exists).
pub open spec fn spec_sort_index(v: Seq<(Seq<char>, bool)>, name: Seq<char>) -> int {
    choose|i: int| 0 <= i < v.len() && (#[trigger] v[i]).0 == name
}

/// One toggle of a column's direction: no entry becomes ascending, an
/// ascending entry becomes descending, and a descending entry is removed.
pub open spec fn spec_toggle(v: Seq<(Seq<char>, bool)>, name: Seq<char>) -> Seq<
    (Seq<char>, bool),
> {
    if !spec_sort_has(v, name) {
        v.push((name, true))
    } else {
        let i = spec_sort_index(v, name);
        if v[i].1 {
            v.update(i, (name, false))
        } else {
            v.remove(i)
        }
    }
}

/// The ordered sort specification for a browsing session: an entry per
/// sorted column, `true` for ascending, in the order the columns were first
/// toggled.
pub struct SortSpec {
    pub entries: Vec<(String, bool)>,
}

impl View for SortSpec {
    type V = Seq<(Seq<char>, bool)>;

    open spec fn view(&self) -> Self::V {
        self.entries@.map_values(|p: (String, bool)| (p.0@, p.1))
    }
}

impl SortSpec {
    /// Entries are well-formed: no column is named twice.
    pub open spec fn wf(self) -> bool {
        spec_sort_wf(self@)
    }

    /// An empty specification: nothing is sorted.
    pub fn new() -> (r: Self)
        ensures
            r@ == Seq::<(Seq<char>, bool)>::empty(),
            r.wf(),
    {
        let r = SortSpec { entries: Vec::new() };
        proof {
            assert(r@ =~= Seq::<(Seq<char>, bool)>::empty());
        }
        r
    }

    /// The direction chosen for a column: ascending, descending, or none.
    pub fn direction_of(&self, name: &str) -> (r: Option<bool>)
        requires
            self.wf(),
        ensures
            !spec_sort_has(self@, name@) ==> r is None,
            spec_sort_has(self@, name@) ==> r == Some(self@[spec_sort_index(self@, name@)].1),
    {
        let n = self.entries.len();
        let mut i: usize = 0;
        while i < n
            invariant
                i <= n,
                n == self.entries@.len(),
                self.wf(),
                forall|j: int| 0 <= j < i ==> (#[trigger] self@[j]).0 != name@,
            decreases n - i,
        {
            let hit = str_equals(self.entries[i].0.as_str(), name);
            if hit {
                proof {
                    assert(self@[i as int].0 == name@);
                    lemma_sort_index_unique(self@, name@, i as int);
                }
                return Some(self.entries[i].1);
            }
            i += 1;
        }
        None
    }

    /// Cycles one column's direction: none to ascending, ascending to
    /// descending, descending back to none.
    pub fn toggle(&mut self, name: &str)
        requires
            old(self).wf(),
        ensures
            final(self).wf(),
            final(self)@ == spec_toggle(old(self)@, name@),
    {
        let ghost orig = self@;
        let n = self.entries.len();
        let mut i: usize = 0;
        while i < n
            invariant
                i <= n,
                n == self.entries@.len(),
                self@ == orig,
                old(self)@ == orig,
                spec_sort_wf(orig),
                forall|j: int| 0 <= j < i ==> (#[trigger] orig[j]).0 != name@,
            decreases n - i,
        {
            let hit = str_equals(self.entries[i].0.as_str(), name);
            if hit {
                proof {
                    assert(orig[i as int].0 == name@);
                    lemma_sort_index_unique(orig, name@, i as int);
                }
                if self.entries[i].1 {
                    proof {
                        assert(orig[i as int].1);
                    }
                    self.entries[i] = (name.to_owned(), false);
                    proof {
                        assert(spec_toggle(orig, name@) == orig.update(i as int, (name@, false)));
                        assert(self@ =~= orig.update(i as int, (name@, false)));
                        lemma_sort_wf_update(orig, i as int, name@);
                    }
                } else {
                    proof {
                        assert(!orig[i as int].1);
                    }
                    self.entries.remove(i);
                    proof {
                        assert(spec_toggle(orig, name@) == orig.remove(i as int));
                        assert(self@ =~= orig.remove(i as int));
                        lemma_sort_wf_remove(orig, i as int);
                    }
                }
                return;
            }
            i += 1;
        }
        self.entries.push((name.to_owned(), true));
        proof {
            assert(!spec_sort_has(orig, name@));
            assert(self@ =~= orig.push((name@, true)));
            lemma_sort_wf_push(orig, name@);
        }
    }

}

proof fn lemma_sort_index_unique(v: Seq<(Seq<char>, bool)>, name: Seq<char>, i: int)
    requires
        spec_sort_wf(v),
        0 <= i < v.len(),
        v[i].0 == name,
    ensures
        spec_sort_has(v, name),
        spec_sort_index(v, name) == i,
{
    assert(spec_sort_has(v, name));
    let k = spec_sort_index(v, name);
    assert(0 <= k < v.len() && v[k].0 == name);
    if k < i {
        assert(v[k].0 != v[i].0);
    }
    if k > i {
        assert(v[i].0 != v[k].0);
    }
}

proof fn lemma_sort_wf_update(v: Seq<(Seq<char>, bool)>, i: int, name: Seq<char>)
    requires
        spec_sort_wf(v),
        0 <= i < v.len(),
        v[i].0 == name,
    ensures
        spec_sort_wf(v.update(i, (name, false))),
{
    let w = v.update(i, (name, false));
    assert forall|a: int, b: int| 0 <= a < b < w.len() implies (w[a]).0 != (w[b]).0 by {
        assert((w[a]).0 == (v[a]).0);
        assert((w[b]).0 == (v[b]).0);
        assert((v[a]).0 != (v[b]).0);
    }
}

proof fn lemma_sort_wf_remove(v: Seq<(Seq<char>, bool)>, i: int)
    requires
        spec_sort_wf(v),
        0 <= i < v.len(),
    ensures
        spec_sort_wf(v.remove(i)),
{
    let w = v.remove(i);
    assert forall|a: int, b: int| 0 <= a < b < w.len() implies (w[a]).0 != (w[b]).0 by {
        let ia = if a < i { a } else { a + 1 };
        let ib = if b < i { b } else { b + 1 };
        assert((w[a]).0 == (v[ia]).0);
        assert((w[b]).0 == (v[ib]).0);
        assert((v[ia]).0 != (v[ib]).0);
    }
}

proof fn lemma_sort_wf_push(v: Seq<(Seq<char>, bool)>, name: Seq<char>)
    requires
        spec_sort_wf(v),
        !spec_sort_has(v, name),
    ensures
        spec_sort_wf(v.push((name, true))),
{
    let w = v.push((name, true));
    assert forall|a: int, b: int| 0 <= a < b < w.len() implies (w[a]).0 != (w[b]).0 by {
        if b < v.len() {
            assert((v[a]).0 != (v[b]).0);
        } else {
            assert((w[b]).0 == name);
            assert((w[a]).0 == (v[a]).0);
        }
    }
}

/// Toggling a column that has no entry three times returns the sort
/// specification to its original contents: none, then ascending, then
/// descending, then none again.
pub proof fn lemma_toggle_cycle(v: Seq<(Seq<char>, bool)>, name: Seq<char>)
    requires
        spec_sort_wf(v),
        !spec_sort_has(v, name),
    ensures
        spec_toggle(spec_toggle(spec_toggle(v, name), name), name) == v,
{
    let t1 = spec_toggle(v, name);
    assert(t1 == v.push((name, true)));
    assert(t1[v.len() as int].0 == name);
    assert(spec_sort_has(t1, name));
    let k1 = spec_sort_index(t1, name);
    assert(0 <= k1 < t1.len() && t1[k1].0 == name);
    if k1 < v.len() {
        assert(t1[k1] == v[k1]);
        assert(spec_sort_has(v, name));
    }
    assert(k1 == v.len());
    assert(t1[k1].1 == true);
    let t2 = spec_toggle(t1, name);
    assert(t2 == t1.update(k1, (name, false)));
    assert(t2[k1].0 == name);
    assert(spec_sort_has(t2, name));
    let k2 = spec_sort_index(t2, name);
    assert(0 <= k2 < t2.len() && t2[k2].0 == name);
    if k2 < v.len() {
        assert(t2[k2] == v[k2]);
        assert(spec_sort_has(v, name));
    }
    assert(k2 == v.len());
    assert(t2[k2].1 == false);
    let t3 = spec_toggle(t2, name);
    assert(t3 == t2.remove(k2));
    assert(t3 =~= v);
}

/// Each sorted column rendered as `name ASC` or `name DESC`.
pub open spec fn spec_order_parts(sort: Seq<(Seq<char>, bool)>) -> Seq<Seq<char>> {
    sort.map_values(
        |p: (Seq<char>, bool)|
            p.0 + seq![' '] + (if p.1 {
                "ASC"@
            } else {
                "DESC"@
            }),
    )
}

/// The paginated SELECT statement:
/// `SELECT * FROM name [ORDER BY c1 d1,...] LIMIT page*size, (page+1)*size`,
/// with the ORDER BY clause omitted for an empty sort specification.
pub open spec fn spec_select_query(
    table: Seq<char>,
    page: nat,
    size: nat,
    sort: Seq<(Seq<char>, bool)>,
) -> Seq<char> {
    "SELECT * FROM "@ + table + (if sort.len() == 0 {
        Seq::<char>::empty()
    } else {
        " ORDER BY "@ + spec_comma_join(spec_order_parts(sort))
    }) + " LIMIT "@ + spec_decimal((page * size) as nat) + ", "@ + spec_decimal(
        ((page + 1) * size) as nat,
    )
}

/// Builds the paginated SELECT statement for one page of a table, in the
/// sort specification's own order.
pub fn build_select(table: &str, page: usize, size: usize, sort: &SortSpec) -> (r: String)
    requires
        ((page as nat) + 1) * (size as nat) <= usize::MAX,
    ensures
        r@ == spec_select_query(table@, page as nat, size as nat, sort@),
{
    proof {
        assert((page as nat) * (size as nat) + (size as nat) == ((page as nat) + 1) * (
        size as nat)) by (nonlinear_arith);
    }
    let offset = page * size;
    let limit = offset + size;
    let ghost parts = spec_order_parts(sort@);
    let mut query = "SELECT * FROM ".to_owned();
    query.append(table);
    let ghost base = query@;
    let n = sort.entries.len();
    if n > 0 {
        query.append(" ORDER BY ");
        let ghost prefix = query@;
        let mut i: usize = 0;
        proof {
            assert(parts.take(0) =~= Seq::<Seq<char>>::empty());
        }
        while i < n
            invariant
                i <= n,
                n == sort.entries@.len(),
                parts == spec_order_parts(sort@),
                query@ == prefix + spec_comma_join(parts.take(i as int)),
            decreases n - i,
        {
            if i > 0 {
                query.append(",");
            }
            query.append(sort.entries[i].0.as_str());
            query.append(" ");
            if sort.entries[i].1 {
                query.append("ASC");
            } else {
                query.append("DESC");
            }
            proof {
                reveal_strlit(",");
                reveal_strlit(" ");
                lemma_comma_join_step(parts, i as int);
                assert(sort@[i as int] == (sort.entries@[i as int].0@, sort.entries@[i as int].1));
                assert(parts[i as int] == sort@[i as int].0 + seq![' '] + (if sort@[i as int].1 {
                    "ASC"@
                } else {
                    "DESC"@
                }));
                assert(query@ =~= prefix + spec_comma_join(parts.take(i as int + 1)));
            }
            i += 1;
        }
        proof {
            assert(parts.take(n as int) =~= parts);
        }
    }
    query.append(" LIMIT ");
    let offset_text = usize_to_decimal(offset);
    query.append(offset_text.as_str());
    query.append(", ");
    let limit_text = usize_to_decimal(limit);
    query.append(limit_text.as_str());
    proof {
        assert(query@ =~= spec_select_query(table@, page as nat, size as nat, sort@));
    }
    query
}

/// An action offered by the row-browsing menu.
#[derive(Clone, Copy, Debug, Eq, PartialEq, Structural)]
pub enum DisplayAnswer {
    NextPage,
    PreviousPage,
    DefineSorting,
    DeleteRows,
    GoBack,
}

impl DisplayAnswer {
    /// Decodes the zero-based index of a selected browsing-menu entry.
    pub fn from_index(index: usize) -> (r: Option<DisplayAnswer>)
        ensures
            index == 0 ==> r == Some(DisplayAnswer::NextPage),
            index == 1 ==> r == Some(DisplayAnswer::PreviousPage),
            index == 2 ==> r == Some(DisplayAnswer::DefineSorting),
            index == 3 ==> r == Some(DisplayAnswer::DeleteRows),
            index == 4 ==> r == Some(DisplayAnswer::GoBack),
            index > 4 ==> r is None,
    {
        match index {
            0 => Some(DisplayAnswer::NextPage),
            1 => Some(DisplayAnswer::PreviousPage),
            2 => Some(DisplayAnswer::DefineSorting),
            3 => Some(DisplayAnswer::DeleteRows),
            4 => Some(DisplayAnswer::GoBack),
            _ => None,
        }
    }
}

/// The state of one browsing session: the zero-based page index and the
/// sort specification.
pub struct DisplayState {
    pub page: usize,
    pub sort: SortSpec,
}

impl DisplayState {
    /// A fresh session: first page, nothing sorted.
    pub fn new() -> (r: Self)
        ensures
            r.page == 0,
            r.sort@ == Seq::<(Seq<char>, bool)>::empty(),
            r.sort.wf(),
    {
        DisplayState { page: 0, sort: SortSpec::new() }
    }

    /// Steps to the next page.
    pub fn next_page(&mut self)
        requires
            old(self).page < usize::MAX,
        ensures
            final(self).page == old(self).page + 1,
            final(self).sort == old(self).sort,
    {
        self.page = self.page + 1;
    }

    /// Steps to the previous page, staying at the first.
    pub fn previous_page(&mut self)
        ensures
            final(self).page == (if old(self).page > 0 {
                old(self).page - 1
            } else {
                0
            }),
            final(self).sort == old(self).sort,
    {
        if self.page > 0 {
            self.page = self.page - 1;
        }
    }

    /// The SELECT statement for the current page of the given table, or
    /// nothing when the page's row offsets do not fit the machine.
    pub fn current_query(&self, table: &str) -> (r: Option<String>)
        ensures
            ((self.page as nat) + 1) * (ROWS_PER_PAGE as nat) <= usize::MAX ==> r is Some,
            r matches Some(q) ==> q@ == spec_select_query(
                table@,
                self.page as nat,
                ROWS_PER_PAGE as nat,
                self.sort@,
            ),
    {
        proof {
            assert((self.page as nat) * (ROWS_PER_PAGE as nat) + (ROWS_PER_PAGE as nat) == ((
            self.page as nat) + 1) * (ROWS_PER_PAGE as nat)) by (nonlinear_arith);
        }
        match self.page.checked_mul(ROWS_PER_PAGE) {
            Some(offset) => match offset.checked_add(ROWS_PER_PAGE) {
                Some(_) => Some(build_select(table, self.page, ROWS_PER_PAGE, &self.sort)),
                None => None,
            },
            None => None,
        }
    }
}

/// The conditional DELETE statement: `DELETE FROM name WHERE condition`,
/// with the operator's condition taken verbatim.
pub open spec fn spec_delete_query(table: Seq<char>, condition: Seq<char>) -> Seq<char> {
    "DELETE FROM "@ + table + " WHERE "@ + condition
}

/// Builds the conditional DELETE statement.
pub fn build_delete(table: &str, condition: &str) -> (r: String)
    ensures
        r@ == spec_delete_query(table@, condition@),
{
    let mut query = "DELETE FROM ".to_owned();
    query.append(table);
    query.append(" WHERE ");
    query.append(condition);
    proof {
        assert(query@ =~= spec_delete_query(table@, condition@));
    }
    query
}

/// Builds and executes the conditional DELETE for the active table.  With no
/// active table the operation is rejected before any statement is built.
pub fn delete_on_where(app: &App, condition: &str) -> (r: Result<(), AppError>)
    ensures
        app.spec_active_table() is None ==> r == Err::<(), AppError>(AppError::NoActiveTable),
        app.spec_active_table() is Some && !app.spec_connected() ==> (r matches Err(
            AppError::Connection { .. },
        )),
        app.spec_active_table() is Some && app.spec_connected() ==> (r is Ok || (r matches Err(
            AppError::Execution { .. },
        ))),
{
    let name = match &app.active_table {
        Some(name) => name,
        None => {
            return Err(AppError::NoActiveTable);
        },
    };
    let conn = match &app.connection {
        Some(conn) => conn,
        None => {
            return Err(AppError::Connection { message: "connection is not set".to_owned() });
        },
    };
    let query = build_delete(name.as_str(), condition);
    match db::execute_sql(conn, query.as_str()) {
        Ok(_) => Ok(()),
        Err(e) => Err(AppError::Execution { message: db::sqlite_error_text(&e) }),
    }
}

} // verus!
