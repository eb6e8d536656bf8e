//! The panels of the PostgreSQL view editor and how the tab keys move between them.
use vstd::prelude::*;

verus! {

/// The panels of the PostgreSQL view editor, in the order in which the tab keys cycle through them.
#[derive(PartialEq, Eq, Structural, Clone, Copy)]
pub enum PanelKind {
    Definition,
    Rules,
    Advanced,
    Comment,
    SQLPreview,
}

/// The panel that the tab key to the right moves to.
pub open spec fn right_of(p: PanelKind) -> PanelKind {
    match p {
        PanelKind::Definition => PanelKind::Rules,
        PanelKind::Rules => PanelKind::Advanced,
        PanelKind::Advanced => PanelKind::Comment,
        PanelKind::Comment => PanelKind::SQLPreview,
        PanelKind::SQLPreview => PanelKind::Definition,
    }
}

/// The panel that the tab key to the left moves to.
pub open spec fn left_of(p: PanelKind) -> PanelKind {
    match p {
        PanelKind::Definition => PanelKind::SQLPreview,
        PanelKind::Rules => PanelKind::Definition,
        PanelKind::Advanced => PanelKind::Rules,
        PanelKind::Comment => PanelKind::Advanced,
        PanelKind::SQLPreview => PanelKind::Comment,
    }
}

/// The panel after a tab to the right (see `right_of`).
pub fn tab_right(p: PanelKind) -> (r: PanelKind)
    ensures
        r == right_of(p),
{
    match p {
        PanelKind::Definition => PanelKind::Rules,
        PanelKind::Rules => PanelKind::Advanced,
        PanelKind::Advanced => PanelKind::Comment,
        PanelKind::Comment => PanelKind::SQLPreview,
        PanelKind::SQLPreview => PanelKind::Definition,
    }
}

/// The panel after a tab to the left (see `left_of`).
pub fn tab_left(p: PanelKind) -> (r: PanelKind)
    ensures
        r == left_of(p),
{
    match p {
        PanelKind::Definition => PanelKind::SQLPreview,
        PanelKind::Rules => PanelKind::Definition,
        PanelKind::Advanced => PanelKind::Rules,
        PanelKind::Comment => PanelKind::Advanced,
        PanelKind::SQLPreview => PanelKind::Comment,
    }
}

/// A tab to the right undoes a tab to the left and the other way round.
pub proof fn lemma_tabs_undo_each_other(p: PanelKind)
    ensures
        left_of(right_of(p)) == p,
        right_of(left_of(p)) == p,
{
}

/// Tabbing 5 times to the right comes back to the panel it started from.
pub proof fn lemma_tabs_cycle(p: PanelKind)
    ensures
        right_of(right_of(right_of(right_of(right_of(p))))) == p,
{
}

} // verus!
