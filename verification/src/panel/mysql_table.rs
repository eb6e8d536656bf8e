//! The panels of the MySQL table editor and how the tab keys move between them.
use vstd::prelude::*;
use crate::panel::{editor_command_views, EditorCommand, Version};
use crate::index::{get_table_down_index, get_table_up_index};

verus! {

/// The panels of the MySQL table editor, in the order in which the tab keys cycle through them.
#[derive(PartialEq, Eq, Structural, Clone, Copy)]
pub enum PanelKind {
    Fields,
    Indexes,
    ForeignKeys,
    Triggers,
    Checks,
    Options,
    Comment,
    SQLPreview,
}

/// The panel that the tab key to the right moves to on a server of version `v`.
pub open spec fn right_of(p: PanelKind, v: Version) -> PanelKind {
    match p {
        PanelKind::Fields => PanelKind::Indexes,
        PanelKind::Indexes => PanelKind::ForeignKeys,
        PanelKind::ForeignKeys => PanelKind::Triggers,
        PanelKind::Triggers => match v { Version::Eight => PanelKind::Checks, Version::Five => PanelKind::Options },
        PanelKind::Checks => PanelKind::Options,
        PanelKind::Options => PanelKind::Comment,
        PanelKind::Comment => PanelKind::SQLPreview,
        PanelKind::SQLPreview => PanelKind::Fields,
    }
}

/// The panel that the tab key to the left moves to on a server of version `v`.
pub open spec fn left_of(p: PanelKind, v: Version) -> PanelKind {
    match p {
        PanelKind::Fields => PanelKind::SQLPreview,
        PanelKind::Indexes => PanelKind::Fields,
        PanelKind::ForeignKeys => PanelKind::Indexes,
        PanelKind::Triggers => PanelKind::ForeignKeys,
        PanelKind::Checks => PanelKind::Triggers,
        PanelKind::Options => match v { Version::Eight => PanelKind::Checks, Version::Five => PanelKind::Triggers },
        PanelKind::Comment => PanelKind::Options,
        PanelKind::SQLPreview => PanelKind::Comment,
    }
}

/// The panel after a tab to the right (see `right_of`).
pub fn tab_right(p: PanelKind, v: Version) -> (r: PanelKind)
    ensures
        r == right_of(p, v),
{
    match p {
        PanelKind::Fields => PanelKind::Indexes,
        PanelKind::Indexes => PanelKind::ForeignKeys,
        PanelKind::ForeignKeys => PanelKind::Triggers,
        PanelKind::Triggers => match v { Version::Eight => PanelKind::Checks, Version::Five => PanelKind::Options },
        PanelKind::Checks => PanelKind::Options,
        PanelKind::Options => PanelKind::Comment,
        PanelKind::Comment => PanelKind::SQLPreview,
        PanelKind::SQLPreview => PanelKind::Fields,
    }
}

/// The panel after a tab to the left (see `left_of`).
pub fn tab_left(p: PanelKind, v: Version) -> (r: PanelKind)
    ensures
        r == left_of(p, v),
{
    match p {
        PanelKind::Fields => PanelKind::SQLPreview,
        PanelKind::Indexes => PanelKind::Fields,
        PanelKind::ForeignKeys => PanelKind::Indexes,
        PanelKind::Triggers => PanelKind::ForeignKeys,
        PanelKind::Checks => PanelKind::Triggers,
        PanelKind::Options => match v { Version::Eight => PanelKind::Checks, Version::Five => PanelKind::Triggers },
        PanelKind::Comment => PanelKind::Options,
        PanelKind::SQLPreview => PanelKind::Comment,
    }
}

/// A tab to the right undoes a tab to the left and the other way round, on every panel that
/// the server's version shows (the checks panel only exists on MySQL 8).
pub proof fn lemma_tabs_undo_each_other(p: PanelKind, v: Version)
    requires
        v == Version::Eight || (p != PanelKind::Checks),
    ensures
        left_of(right_of(p, v), v) == p,
        right_of(left_of(p, v), v) == p,
{
}

/// On MySQL 5 the tab keys lead from a panel that the version shows only to panels that it shows.
pub proof fn lemma_tabs_stay_in_version(p: PanelKind)
    requires
        p != PanelKind::Checks,
    ensures
        right_of(p, Version::Five) != PanelKind::Checks,
        left_of(p, Version::Five) != PanelKind::Checks,
{
}

/// The commands of a panel of the table editor: on a list panel, moving the selection, the
/// tab keys and adding an item, and editing and deleting it when one is selected (`selected`);
/// on the other panels the tab keys alone. The options panel adds the commands of its form.
pub open spec fn panel_commands(p: PanelKind, selected: bool) -> Seq<(Seq<char>, EditorCommand)> {
    let nav = seq![("Up"@, EditorCommand::Up), ("Down"@, EditorCommand::Down), ("Next Panel"@, EditorCommand::NextPanel)];
    let tabs = seq![("Next Panel"@, EditorCommand::NextPanel), ("Previous Panel"@, EditorCommand::PrevPanel)];
    let list = |prev: Seq<char>, add: Seq<char>, edit_name: Seq<char>, edit: EditorCommand, delete: Seq<char>|
        nav + seq![(prev, EditorCommand::PrevPanel), (add, EditorCommand::New)]
            + (if selected { seq![(edit_name, edit), (delete, EditorCommand::Delete)] } else { Seq::empty() });
    match p {
        PanelKind::Fields => list("Prev Panel"@, "Add Field"@, "Edit Field"@, EditorCommand::Confirm, "Delete Field"@),
        PanelKind::Indexes => list("Previous Panel"@, "Add Index"@, "Edit Index"@, EditorCommand::Edit, "Delete Index"@),
        PanelKind::ForeignKeys => list("Previous Panel"@, "Add Foreign Key"@, "Edit Foreign Key"@, EditorCommand::Edit,
            "Delete Foreign Key"@),
        PanelKind::Triggers => list("Previous Panel"@, "Add Trigger"@, "Edit Trigger"@, EditorCommand::Edit, "Delete Trigger"@),
        PanelKind::Checks => list("Previous Panel"@, "Add Check"@, "Edit Check"@, EditorCommand::Edit, "Delete Check"@),
        PanelKind::Options | PanelKind::Comment | PanelKind::SQLPreview => tabs,
    }
}

/// The commands that the table editor shows on the panel `p`: those of the panel (see
/// `panel_commands`), then going back and saving.
pub open spec fn main_commands(p: PanelKind, selected: bool) -> Seq<(Seq<char>, EditorCommand)> {
    panel_commands(p, selected) + seq![("Back"@, EditorCommand::Back), ("Save"@, EditorCommand::Save)]
}

fn list_commands(prev: &'static str, add: &'static str, edit_name: &'static str, edit: EditorCommand,
    delete: &'static str, selected: bool) -> (r: Vec<(&'static str, EditorCommand)>)
    ensures
        editor_command_views(r@) == seq![("Up"@, EditorCommand::Up), ("Down"@, EditorCommand::Down),
            ("Next Panel"@, EditorCommand::NextPanel), (prev@, EditorCommand::PrevPanel), (add@, EditorCommand::New)]
            + (if selected { seq![(edit_name@, edit), (delete@, EditorCommand::Delete)] } else { Seq::empty() }),
{
    let mut v: Vec<(&'static str, EditorCommand)> = Vec::new();
    v.push(("Up", EditorCommand::Up));
    v.push(("Down", EditorCommand::Down));
    v.push(("Next Panel", EditorCommand::NextPanel));
    v.push((prev, EditorCommand::PrevPanel));
    v.push((add, EditorCommand::New));
    if selected {
        v.push((edit_name, edit));
        v.push((delete, EditorCommand::Delete));
    }
    assert(editor_command_views(v@) =~= seq![("Up"@, EditorCommand::Up), ("Down"@, EditorCommand::Down),
        ("Next Panel"@, EditorCommand::NextPanel), (prev@, EditorCommand::PrevPanel), (add@, EditorCommand::New)]
        + (if selected { seq![(edit_name@, edit), (delete@, EditorCommand::Delete)] } else { Seq::empty() }));
    v
}

/// The commands that the table editor shows on the panel `p` (see `main_commands`); `selected`
/// tells whether an item of a list panel is selected.
pub fn get_main_commands(p: PanelKind, selected: bool) -> (r: Vec<(&'static str, EditorCommand)>)
    ensures
        editor_command_views(r@) == main_commands(p, selected),
{
    let mut v = match p {
        PanelKind::Fields => list_commands("Prev Panel", "Add Field", "Edit Field", EditorCommand::Confirm, "Delete Field", selected),
        PanelKind::Indexes => list_commands("Previous Panel", "Add Index", "Edit Index", EditorCommand::Edit, "Delete Index", selected),
        PanelKind::ForeignKeys => list_commands("Previous Panel", "Add Foreign Key", "Edit Foreign Key", EditorCommand::Edit,
            "Delete Foreign Key", selected),
        PanelKind::Triggers => list_commands("Previous Panel", "Add Trigger", "Edit Trigger", EditorCommand::Edit,
            "Delete Trigger", selected),
        PanelKind::Checks => list_commands("Previous Panel", "Add Check", "Edit Check", EditorCommand::Edit, "Delete Check", selected),
        _ => {
            let mut t: Vec<(&'static str, EditorCommand)> = Vec::new();
            t.push(("Next Panel", EditorCommand::NextPanel));
            t.push(("Previous Panel", EditorCommand::PrevPanel));
            t
        },
    };
    let ghost before = editor_command_views(v@);
    assert(before =~= panel_commands(p, selected));
    v.push(("Back", EditorCommand::Back));
    v.push(("Save", EditorCommand::Save));
    assert(editor_command_views(v@) =~= main_commands(p, selected));
    v
}

/// What a key on a list panel of the table editor asks of the editor beyond moving the panel
/// or the selection.
#[derive(PartialEq, Eq, Structural, Clone, Copy)]
pub enum PanelAction {
    Nothing,
    /// Ask whether to leave the editor.
    Back,
    /// Save the table.
    Save,
    /// Open the dialog for a new item (for a field, first the choice of its type).
    NewItem,
    /// Open the dialog that edits the item at this index.
    EditItem(usize),
    /// Ask whether to delete the item at this index.
    DeleteItem(usize),
}

/// The selection after a move up or down in a list of `len` items; no move in an empty list.
pub open spec fn moved_selection(down: bool, selected: Option<usize>, len: nat) -> Option<usize> {
    if len == 0 {
        selected
    } else if down {
        Some(match selected { Some(i) => if i < len - 1 { (i + 1) as usize } else { (len - 1) as usize }, None => 0 })
    } else {
        Some(match selected { Some(i) => if i > 0 { (i - 1) as usize } else { 0 }, None => 0 })
    }
}

/// The panel, selection and action after the command `cmd` on the list panel `p` of a table
/// editor for a server of version `v`, whose list holds `len` items with `selected` selected.
pub open spec fn list_panel_step(p: PanelKind, v: Version, cmd: EditorCommand, selected: Option<usize>, len: nat)
    -> (PanelKind, Option<usize>, PanelAction) {
    match cmd {
        EditorCommand::NextPanel => (right_of(p, v), selected, PanelAction::Nothing),
        EditorCommand::PrevPanel => (left_of(p, v), selected, PanelAction::Nothing),
        EditorCommand::Back => (p, selected, PanelAction::Back),
        EditorCommand::Save => (p, selected, PanelAction::Save),
        EditorCommand::Up => (p, moved_selection(false, selected, len), PanelAction::Nothing),
        EditorCommand::Down => (p, moved_selection(true, selected, len), PanelAction::Nothing),
        EditorCommand::New => (p, selected, PanelAction::NewItem),
        EditorCommand::Confirm => (p, selected, match selected {
            Some(i) => PanelAction::EditItem(i),
            None => PanelAction::Nothing,
        }),
        EditorCommand::Delete => (p, selected, match selected {
            Some(i) => PanelAction::DeleteItem(i),
            None => PanelAction::Nothing,
        }),
        EditorCommand::Edit => (p, selected, PanelAction::Nothing),
    }
}

/// The answer to a command on a list panel (fields, indexes, foreign keys, triggers or checks)
/// of the table editor (see `list_panel_step`).
pub fn handle_list_panel_event(p: PanelKind, v: Version, cmd: EditorCommand, selected: Option<usize>, len: usize)
    -> (r: (PanelKind, Option<usize>, PanelAction))
    requires
        selected matches Some(i) ==> i < len,
    ensures
        r == list_panel_step(p, v, cmd, selected, len as nat),
{
    match cmd {
        EditorCommand::NextPanel => (tab_right(p, v), selected, PanelAction::Nothing),
        EditorCommand::PrevPanel => (tab_left(p, v), selected, PanelAction::Nothing),
        EditorCommand::Back => (p, selected, PanelAction::Back),
        EditorCommand::Save => (p, selected, PanelAction::Save),
        EditorCommand::Up => (p, if len > 0 { Some(get_table_up_index(selected)) } else { selected }, PanelAction::Nothing),
        EditorCommand::Down => (p, if len > 0 { Some(get_table_down_index(selected, len)) } else { selected },
            PanelAction::Nothing),
        EditorCommand::New => (p, selected, PanelAction::NewItem),
        EditorCommand::Confirm => (p, selected, match selected {
            Some(i) => PanelAction::EditItem(i),
            None => PanelAction::Nothing,
        }),
        EditorCommand::Delete => (p, selected, match selected {
            Some(i) => PanelAction::DeleteItem(i),
            None => PanelAction::Nothing,
        }),
        EditorCommand::Edit => (p, selected, PanelAction::Nothing),
    }
}

/// A command on a list panel keeps the selection within the list.
pub proof fn lemma_list_panel_selection_in_range(p: PanelKind, v: Version, cmd: EditorCommand,
    selected: Option<usize>, len: nat)
    requires
        selected matches Some(i) ==> i < len,
    ensures
        list_panel_step(p, v, cmd, selected, len).1 matches Some(i) ==> i < len,
{
}

} // verus!
