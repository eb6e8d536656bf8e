//! The panels of the PostgreSQL role editor and how the tab keys move between them.
use vstd::prelude::*;

verus! {

/// The panels of the PostgreSQL role editor, in the order in which the tab keys cycle through them.
#[derive(PartialEq, Eq, Structural, Clone, Copy)]
pub enum PanelKind {
    General,
    MemberOf,
    Members,
    Privileges,
    Comment,
    SQLPreview,
}

/// The panel that the tab key to the right moves to.
pub open spec fn right_of(p: PanelKind) -> PanelKind {
    match p {
        PanelKind::General => PanelKind::MemberOf,
        PanelKind::MemberOf => PanelKind::Members,
        PanelKind::Members => PanelKind::Privileges,
        PanelKind::Privileges => PanelKind::Comment,
        PanelKind::Comment => PanelKind::SQLPreview,
        PanelKind::SQLPreview => PanelKind::General,
    }
}

/// The panel that the tab key to the left moves to.
pub open spec fn left_of(p: PanelKind) -> PanelKind {
    match p {
        PanelKind::General => PanelKind::SQLPreview,
        PanelKind::MemberOf => PanelKind::General,
        PanelKind::Members => PanelKind::MemberOf,
        PanelKind::Privileges => PanelKind::Members,
        PanelKind::Comment => PanelKind::Privileges,
        PanelKind::SQLPreview => PanelKind::Comment,
    }
}

/// The panel after a tab to the right (see `right_of`).
pub fn tab_right(p: PanelKind) -> (r: PanelKind)
    ensures
        r == right_of(p),
{
    match p {
        PanelKind::General => PanelKind::MemberOf,
        PanelKind::MemberOf => PanelKind::Members,
        PanelKind::Members => PanelKind::Privileges,
        PanelKind::Privileges => PanelKind::Comment,
        PanelKind::Comment => PanelKind::SQLPreview,
        PanelKind::SQLPreview => PanelKind::General,
    }
}

/// The panel after a tab to the left (see `left_of`).
pub fn tab_left(p: PanelKind) -> (r: PanelKind)
    ensures
        r == left_of(p),
{
    match p {
        PanelKind::General => PanelKind::SQLPreview,
        PanelKind::MemberOf => PanelKind::General,
        PanelKind::Members => PanelKind::MemberOf,
        PanelKind::Privileges => PanelKind::Members,
        PanelKind::Comment => PanelKind::Privileges,
        PanelKind::SQLPreview => PanelKind::Comment,
    }
}

/// A tab to the right undoes a tab to the left and the other way round.
pub proof fn lemma_tabs_undo_each_other(p: PanelKind)
    ensures
        left_of(right_of(p)) == p,
        right_of(left_of(p)) == p,
{
}

/// Tabbing 6 times to the right comes back to the panel it started from.
pub proof fn lemma_tabs_cycle(p: PanelKind)
    ensures
        right_of(right_of(right_of(right_of(right_of(right_of(p)))))) == p,
{
}

} // verus!
