//! The panels of the editors, and the version of a MySQL server, which decides some of them.
use vstd::prelude::*;

pub mod mysql_table;
pub mod mysql_user;
pub mod mysql_view;
pub mod pg_role;
pub mod pg_table;
pub mod pg_view;

verus! {

/// The major version of a MySQL server: some panels exist on MySQL 8 only.
#[derive(PartialEq, Eq, Structural, Clone, Copy)]
pub enum Version {
    Five,
    Eight,
}

/// A command that an editor's panel offers in the command bar.
#[derive(PartialEq, Eq, Structural, Clone, Copy)]
pub enum EditorCommand {
    Up,
    Down,
    NextPanel,
    PrevPanel,
    New,
    Confirm,
    Edit,
    Delete,
    Back,
    Save,
}

/// The command names and commands seen as plain values.
pub open spec fn editor_command_views(v: Seq<(&'static str, EditorCommand)>) -> Seq<(Seq<char>, EditorCommand)> {
    v.map_values(|c: (&'static str, EditorCommand)| (c.0@, c.1))
}

} // verus!
