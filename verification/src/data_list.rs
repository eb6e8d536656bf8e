//! The rows of a table, read a page at a time: which page is shown, how many there are, which
//! row is selected, and what a key asks.
use vstd::prelude::*;
use crate::app::MainPanel;
use crate::index::{get_table_down_index, get_table_up_index};

verus! {

/// The number of rows of a page.
pub const PAGE_SIZE: usize = 1000;

/// The number of pages of `count` rows, `size` rows a page: the count divided by the size,
/// rounded up; none for no rows.
pub open spec fn pages_for(count: int, size: int) -> int {
    if count <= 0 { 0 } else { (count + size - 1) / size }
}

/// The page count as a `usize`, saturating.
pub open spec fn page_count(count: int, size: int) -> usize {
    if pages_for(count, size) <= usize::MAX { pages_for(count, size) as usize } else { usize::MAX }
}

/// What a key asks of the list of rows; the key bindings of the application decide which key
/// asks what.
#[derive(PartialEq, Eq, Structural, Clone, Copy)]
pub enum DataCommand {
    Up,
    Down,
    PageNext,
    PagePrev,
    Back,
    Confirm,
    Refresh,
    Other,
}

/// What the application does after the list has taken a command.
#[derive(PartialEq, Eq, Structural, Clone, Copy)]
pub enum DataAction {
    /// Nothing more.
    Nothing,
    /// Read the rows of the current page again (and the row count).
    Reload,
    /// Go back to the panel the list was opened from.
    Back(MainPanel),
    /// Show the row at this index in a dialog.
    OpenRow(usize),
}

/// The state of the list of rows: the selected row, the number of rows read, the current page
/// (from 1; 0 when there are no rows), the page size, the number of pages, and the panel the
/// list was opened from.
pub struct DataListComponent {
    pub selected: Option<usize>,
    pub row_count: usize,
    pub page: usize,
    pub page_size: usize,
    pub total_page: usize,
    pub parent: Option<MainPanel>,
}

fn count_pages(total_count: i64, size: usize) -> (r: usize)
    requires
        size > 0,
    ensures
        r == page_count(total_count as int, size as int),
{
    if total_count <= 0 {
        return 0;
    }
    let c: u64 = total_count as u64;
    let s: u64 = size as u64;
    let q: u64 = c / s;
    let pages: u64 = if c % s != 0 { q + 1 } else { q };
    proof {
        assert(pages as int == (c + s - 1) / (s as int)) by (nonlinear_arith)
            requires
                s > 0,
                q == c / s,
                pages == (if c % s != 0 { q + 1 } else { q as int }),
        {
        }
    }
    if pages <= usize::MAX as u64 {
        pages as usize
    } else {
        usize::MAX
    }
}

/// The commands that the list offers: up, down, next and previous page, open (when a row is
/// selected), refresh and back.
pub open spec fn data_commands(selected: bool) -> Seq<(Seq<char>, DataCommand)> {
    seq![
        ("Up"@, DataCommand::Up),
        ("Down"@, DataCommand::Down),
        ("Page Next"@, DataCommand::PageNext),
        ("Page Prev"@, DataCommand::PagePrev),
    ] + (if selected { seq![("Open"@, DataCommand::Confirm)] } else { Seq::empty() })
        + seq![("Refresh"@, DataCommand::Refresh), ("Back"@, DataCommand::Back)]
}

impl DataListComponent {
    /// An empty list: no rows, page 0 of 0, pages of `PAGE_SIZE` rows.
    pub fn new() -> (r: DataListComponent)
        ensures
            r.selected is None,
            r.row_count == 0,
            r.page == 0,
            r.page_size == PAGE_SIZE,
            r.total_page == 0,
            r.parent is None,
    {
        DataListComponent { selected: None, row_count: 0, page: 0, page_size: PAGE_SIZE, total_page: 0, parent: None }
    }

    /// Loads a table of `total_count` rows, of which `row_count` were read, opened from
    /// `parent`: nothing selected, on the first page when there are rows (else page 0).
    pub fn set_data(&mut self, parent: MainPanel, row_count: usize, total_count: i64)
        requires
            old(self).page_size > 0,
        ensures
            final(self).selected is None,
            final(self).row_count == row_count,
            final(self).page == (if total_count > 0 { 1usize } else { 0 }),
            final(self).page_size == old(self).page_size,
            final(self).total_page == page_count(total_count as int, old(self).page_size as int),
            final(self).parent == Some(parent),
    {
        self.selected = None;
        self.row_count = row_count;
        self.parent = Some(parent);
        self.page = if total_count > 0 { 1 } else { 0 };
        self.total_page = count_pages(total_count, self.page_size);
    }

    /// Records a new reading of the current page: `row_count` rows read of `total_count`.
    pub fn refresh(&mut self, row_count: usize, total_count: i64)
        requires
            old(self).page_size > 0,
        ensures
            final(self).row_count == row_count,
            final(self).total_page == page_count(total_count as int, old(self).page_size as int),
            final(self).selected == old(self).selected,
            final(self).page == old(self).page,
            final(self).page_size == old(self).page_size,
            final(self).parent == old(self).parent,
    {
        self.row_count = row_count;
        self.total_page = count_pages(total_count, self.page_size);
    }

    /// The index of the first row of the current page.
    pub fn offset(&self) -> (r: usize)
        requires
            self.page >= 1,
            (self.page - 1) * self.page_size <= usize::MAX,
        ensures
            r == (self.page - 1) * self.page_size,
    {
        (self.page - 1) * self.page_size
    }

    /// Takes a command of the keyboard: up and down move the selection among the rows read;
    /// the next or previous page is taken when there is one (and the rows are to be read
    /// again); back goes to the panel the list came from; confirming opens the selected row.
    pub fn handle_main_event(&mut self, cmd: DataCommand) -> (r: DataAction)
        requires
            old(self).selected matches Some(i) ==> i < old(self).row_count,
            cmd == DataCommand::Back ==> old(self).parent is Some,
        ensures
            final(self).row_count == old(self).row_count,
            final(self).page_size == old(self).page_size,
            final(self).total_page == old(self).total_page,
            final(self).parent == old(self).parent,
            final(self).selected == match cmd {
                DataCommand::Up => if old(self).row_count > 0 {
                    Some(match old(self).selected { Some(i) => if i > 0 { (i - 1) as usize } else { 0 }, None => 0 })
                } else {
                    old(self).selected
                },
                DataCommand::Down => if old(self).row_count > 0 {
                    Some(match old(self).selected {
                        Some(i) => if i < old(self).row_count - 1 { (i + 1) as usize } else { (old(self).row_count - 1) as usize },
                        None => 0,
                    })
                } else {
                    old(self).selected
                },
                _ => old(self).selected,
            },
            final(self).page == match cmd {
                DataCommand::PageNext => if old(self).page < old(self).total_page { (old(self).page + 1) as usize } else { old(self).page },
                DataCommand::PagePrev => if old(self).page > 1 { (old(self).page - 1) as usize } else { old(self).page },
                _ => old(self).page,
            },
            r == match cmd {
                DataCommand::PageNext => if old(self).page < old(self).total_page { DataAction::Reload } else { DataAction::Nothing },
                DataCommand::PagePrev => if old(self).page > 1 { DataAction::Reload } else { DataAction::Nothing },
                DataCommand::Back => DataAction::Back(old(self).parent->0),
                DataCommand::Confirm => match old(self).selected { Some(i) => DataAction::OpenRow(i), None => DataAction::Nothing },
                DataCommand::Refresh => DataAction::Reload,
                _ => DataAction::Nothing,
            },
    {
        match cmd {
            DataCommand::Up => {
                if self.row_count > 0 {
                    self.selected = Some(get_table_up_index(self.selected));
                }
                DataAction::Nothing
            },
            DataCommand::Down => {
                if self.row_count > 0 {
                    self.selected = Some(get_table_down_index(self.selected, self.row_count));
                }
                DataAction::Nothing
            },
            DataCommand::PageNext => {
                if self.page < self.total_page {
                    self.page = self.page + 1;
                    DataAction::Reload
                } else {
                    DataAction::Nothing
                }
            },
            DataCommand::PagePrev => {
                if self.page > 1 {
                    self.page = self.page - 1;
                    DataAction::Reload
                } else {
                    DataAction::Nothing
                }
            },
            DataCommand::Back => {
                match self.parent {
                    Some(p) => DataAction::Back(p),
                    None => DataAction::Nothing,
                }
            },
            DataCommand::Confirm => {
                match self.selected {
                    Some(i) => DataAction::OpenRow(i),
                    None => DataAction::Nothing,
                }
            },
            DataCommand::Refresh => DataAction::Reload,
            DataCommand::Other => DataAction::Nothing,
        }
    }

    /// The commands that the list offers for the command bar (see `data_commands`).
    pub fn get_main_commands(&self) -> (r: Vec<(&'static str, DataCommand)>)
        ensures
            r@.map_values(|c: (&'static str, DataCommand)| (c.0@, c.1)) == data_commands(self.selected is Some),
    {
        let mut cmds: Vec<(&'static str, DataCommand)> = Vec::new();
        cmds.push(("Up", DataCommand::Up));
        cmds.push(("Down", DataCommand::Down));
        cmds.push(("Page Next", DataCommand::PageNext));
        cmds.push(("Page Prev", DataCommand::PagePrev));
        if self.selected.is_some() {
            cmds.push(("Open", DataCommand::Confirm));
        }
        cmds.push(("Refresh", DataCommand::Refresh));
        cmds.push(("Back", DataCommand::Back));
        assert(cmds@.map_values(|c: (&'static str, DataCommand)| (c.0@, c.1)) =~= data_commands(self.selected is Some));
        cmds
    }
}

/// Paging keeps the page within the pages there are: on a page from 1 to the last, the next
/// and previous pages stay there too; taking the next page and then the previous one returns
/// to where it was.
pub proof fn lemma_paging_stays_in_range(page: usize, total: usize)
    requires
        1 <= page <= total,
    ensures
        page < total ==> 1 <= page + 1 <= total,
        page > 1 ==> 1 <= page - 1 <= total,
        page < total ==> (page + 1) - 1 == page,
{
}

/// The pages hold every row and no page is empty: `pages_for(count, size)` full pages are at
/// least the count, and one page fewer is less than it.
pub proof fn lemma_pages_cover_rows(count: int, size: int)
    requires
        count > 0,
        size > 0,
    ensures
        pages_for(count, size) * size >= count,
        (pages_for(count, size) - 1) * size < count,
{
    let p = pages_for(count, size);
    assert(p == (count + size - 1) / size);
    assert(p * size >= count && (p - 1) * size < count) by (nonlinear_arith)
        requires
            p == (count + size - 1) / size,
            count > 0,
            size > 0,
    {
    }
}

} // verus!
