//! The panels of the MySQL account editor and how the tab keys move between them.
use vstd::prelude::*;
use crate::panel::Version;

verus! {

/// The panels of the MySQL account editor, in the order in which the tab keys cycle through them.
#[derive(PartialEq, Eq, Structural, Clone, Copy)]
pub enum PanelKind {
    General,
    Advanced,
    MemberOf,
    Members,
    ServerPrivs,
    Privileges,
    SQLPreview,
}

/// The panel that the tab key to the right moves to on a server of version `v`.
pub open spec fn right_of(p: PanelKind, v: Version) -> PanelKind {
    match p {
        PanelKind::General => PanelKind::Advanced,
        PanelKind::Advanced => match v { Version::Eight => PanelKind::MemberOf, Version::Five => PanelKind::ServerPrivs },
        PanelKind::MemberOf => PanelKind::Members,
        PanelKind::Members => PanelKind::ServerPrivs,
        PanelKind::ServerPrivs => PanelKind::Privileges,
        PanelKind::Privileges => PanelKind::SQLPreview,
        PanelKind::SQLPreview => PanelKind::General,
    }
}

/// The panel that the tab key to the left moves to on a server of version `v`.
pub open spec fn left_of(p: PanelKind, v: Version) -> PanelKind {
    match p {
        PanelKind::General => PanelKind::SQLPreview,
        PanelKind::Advanced => PanelKind::General,
        PanelKind::MemberOf => PanelKind::Advanced,
        PanelKind::Members => PanelKind::MemberOf,
        PanelKind::ServerPrivs => match v { Version::Eight => PanelKind::Members, Version::Five => PanelKind::Advanced },
        PanelKind::Privileges => PanelKind::ServerPrivs,
        PanelKind::SQLPreview => PanelKind::Privileges,
    }
}

/// The panel after a tab to the right (see `right_of`).
pub fn tab_right(p: PanelKind, v: Version) -> (r: PanelKind)
    ensures
        r == right_of(p, v),
{
    match p {
        PanelKind::General => PanelKind::Advanced,
        PanelKind::Advanced => match v { Version::Eight => PanelKind::MemberOf, Version::Five => PanelKind::ServerPrivs },
        PanelKind::MemberOf => PanelKind::Members,
        PanelKind::Members => PanelKind::ServerPrivs,
        PanelKind::ServerPrivs => PanelKind::Privileges,
        PanelKind::Privileges => PanelKind::SQLPreview,
        PanelKind::SQLPreview => PanelKind::General,
    }
}

/// The panel after a tab to the left (see `left_of`).
pub fn tab_left(p: PanelKind, v: Version) -> (r: PanelKind)
    ensures
        r == left_of(p, v),
{
    match p {
        PanelKind::General => PanelKind::SQLPreview,
        PanelKind::Advanced => PanelKind::General,
        PanelKind::MemberOf => PanelKind::Advanced,
        PanelKind::Members => PanelKind::MemberOf,
        PanelKind::ServerPrivs => match v { Version::Eight => PanelKind::Members, Version::Five => PanelKind::Advanced },
        PanelKind::Privileges => PanelKind::ServerPrivs,
        PanelKind::SQLPreview => PanelKind::Privileges,
    }
}

/// A tab to the right undoes a tab to the left and the other way round, on every panel that
/// the server's version shows (the membership panels only exist on MySQL 8).
pub proof fn lemma_tabs_undo_each_other(p: PanelKind, v: Version)
    requires
        v == Version::Eight || (p != PanelKind::MemberOf && p != PanelKind::Members),
    ensures
        left_of(right_of(p, v), v) == p,
        right_of(left_of(p, v), v) == p,
{
}

/// On MySQL 5 the tab keys lead from a panel that the version shows only to panels that it shows.
pub proof fn lemma_tabs_stay_in_version(p: PanelKind)
    requires
        p != PanelKind::MemberOf && p != PanelKind::Members,
    ensures
        right_of(p, Version::Five) != PanelKind::MemberOf,
        left_of(p, Version::Five) != PanelKind::MemberOf,
        right_of(p, Version::Five) != PanelKind::Members,
        left_of(p, Version::Five) != PanelKind::Members,
{
}

} // verus!
