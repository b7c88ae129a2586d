//! An interactive terminal tool's core: it lets an operator define SQL
//! tables, insert rows, and browse, sort or delete rows in an embedded
//! SQLite database.  The statement builders, the lexical validation of
//! identifiers, the session state that gates table-scoped operations, and
//! the flows' decision logic are verified; the database engine itself is
//! reached through the small trusted boundary in `db`.

pub mod app;
pub mod define_table;
pub mod display;
pub mod db;
pub mod insert_row;
pub mod utils;

use vstd::prelude::*;

verus! {

/// A choice made in the tool's main menu.
#[derive(Clone, Copy, Debug, Eq, PartialEq, Structural)]
pub enum MainMenuOption {
    DefineTable,
    SelectTable,
    InsertRow,
    Display,
    Quit,
}

impl MainMenuOption {
    /// Decodes the zero-based index of a selected main-menu entry.
    pub fn from_index(index: usize) -> (r: Option<MainMenuOption>)
        ensures
            index == 0 ==> r == Some(MainMenuOption::DefineTable),
            index == 1 ==> r == Some(MainMenuOption::SelectTable),
            index == 2 ==> r == Some(MainMenuOption::InsertRow),
            index == 3 ==> r == Some(MainMenuOption::Display),
            index == 4 ==> r == Some(MainMenuOption::Quit),
            index > 4 ==> r is None,
    {
        match index {
            0 => Some(MainMenuOption::DefineTable),
            1 => Some(MainMenuOption::SelectTable),
            2 => Some(MainMenuOption::InsertRow),
            3 => Some(MainMenuOption::Display),
            4 => Some(MainMenuOption::Quit),
            _ => None,
        }
    }
}

} // verus!
