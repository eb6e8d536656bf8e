//! Which panel of the application is shown and has the keyboard, and how the answer of a
//! component to a key moves it.
use vstd::prelude::*;

verus! {

/// What a dialog answers to a key.
pub enum DialogResult<T> {
    Done,
    Cancel,
    Confirm(T),
    Changed(String, String),
}

/// The kinds of database server the application talks to.
#[derive(PartialEq, Eq, Structural, Clone, Copy)]
pub enum DatabaseKind {
    MySQL,
    PostgreSQL,
}

/// Where a component asks the application to go. Connection ids are the 128-bit values of
/// the connections' UUIDs.
#[allow(inconsistent_fields)]
pub enum Goto {
    TableListMySQL { conn_id: u128, db_name: String },
    TableDetailMySQL { conn_id: u128, db_name: String, table_name: Option<String> },
    TableListPG { conn_id: u128, db_name: String, schema_name: String },
    TableDetailPG { conn_id: u128, db_name: String, schema_name: String, table_name: Option<String> },
    QueryList { conn_id: u128, db_name: String, kind: DatabaseKind },
    QueryDetailMySQL { conn_id: u128, db_name: String, query_name: Option<String> },
    QueryDetailPG { conn_id: u128, db_name: String, query_name: Option<String> },
    ViewListMySQL { conn_id: u128, db_name: String },
    ViewDetailMySQL { conn_id: u128, db_name: String, view_name: Option<String> },
    ViewListPG { conn_id: u128, db_name: String, schema_name: String },
    ViewDetailPG { conn_id: u128, db_name: String, schema_name: String, view_name: Option<String> },
    UserListMySQL { conn_id: u128 },
    UserDetailMySQL { conn_id: u128, user_host: Option<String>, user_name: Option<String> },
    RoleListPG { conn_id: u128 },
    RoleDetailPG { conn_id: u128, role_name: Option<String> },
    DataListMySQL { conn_id: u128, db_name: String, table_name: String },
    DataListPG { conn_id: u128, db_name: String, schema_name: String, table_name: String },
}

/// Which half of the screen has the keyboard.
#[derive(PartialEq, Eq, Structural, Clone, Copy)]
pub enum Focus {
    LeftPanel,
    MainPanel,
}

/// The panels that the main half of the screen can show.
#[derive(PartialEq, Eq, Structural, Clone, Copy)]
pub enum MainPanel {
    Home,
    TableListMySQL,
    TableDetailMySQL,
    DataListMySQL,
    TableListPG,
    TableDetailPG,
    DataListPG,
    QueryList,
    QueryDetailMySQL,
    QueryDetailPG,
    ViewListMySQL,
    ViewDetailMySQL,
    ViewListPG,
    ViewDetailPG,
    UserListMySQL,
    UserDetailMySQL,
    RoleListPG,
    RoleDetailPG,
}

/// What a component answers to a key.
pub enum ComponentResult {
    Back(MainPanel),
    BackRefresh(MainPanel),
    Done,
    Goto(Goto),
    Focus(Focus),
}

/// The component that a key goes to: the connection tree, or the panel shown in the main half.
#[derive(PartialEq, Eq, Structural, Clone, Copy)]
pub enum Target {
    ConnectionList,
    Panel(MainPanel),
}

/// What the application does with the components after a step.
pub enum Action {
    /// Nothing.
    Nothing,
    /// Load the component that `goto` names with its data (a data list also with the panel that
    /// it goes back to). The step's new state holds only once the load has succeeded.
    SetData { goto: Goto, back: Option<MainPanel> },
    /// Reload the list of PostgreSQL tables. The step's new state holds whether or not that
    /// succeeds.
    RefreshTableListPG,
}

/// The navigation state of the application.
pub struct App {
    pub focus: Focus,
    pub main_panel: MainPanel,
}

/// The component that has the keyboard.
pub open spec fn target_of(focus: Focus, panel: MainPanel) -> Target {
    match focus {
        Focus::LeftPanel => Target::ConnectionList,
        Focus::MainPanel => Target::Panel(panel),
    }
}

/// A load of `goto` into `panel`, with the focus set to `focus`.
pub open spec fn load(goto: Goto, back: Option<MainPanel>, focus: Focus, panel: MainPanel) -> (Action, Focus, MainPanel) {
    (Action::SetData { goto, back }, focus, panel)
}

/// The step of the application when the component that has the keyboard answers `result`: the
/// action to perform, and the focus and main panel afterwards.
pub open spec fn step(focus: Focus, panel: MainPanel, result: ComponentResult) -> (Action, Focus, MainPanel) {
    let stay = (Action::Nothing, focus, panel);
    let main = Focus::MainPanel;
    match focus {
        Focus::LeftPanel => match result {
            ComponentResult::Goto(g) => match g {
                Goto::TableListMySQL { .. } => load(g, None, main, MainPanel::TableListMySQL),
                Goto::TableListPG { .. } => load(g, None, main, MainPanel::TableListPG),
                Goto::QueryList { .. } => load(g, None, main, MainPanel::QueryList),
                Goto::ViewListMySQL { .. } => load(g, None, main, MainPanel::ViewListMySQL),
                Goto::ViewListPG { .. } => load(g, None, main, MainPanel::ViewListPG),
                Goto::UserListMySQL { .. } => load(g, None, main, MainPanel::UserListMySQL),
                Goto::RoleListPG { .. } => load(g, None, main, MainPanel::RoleListPG),
                _ => stay,
            },
            ComponentResult::Focus(f) => (Action::Nothing, f, panel),
            _ => stay,
        },
        Focus::MainPanel => match panel {
            MainPanel::Home => match result {
                ComponentResult::Focus(f) => (Action::Nothing, f, panel),
                _ => stay,
            },
            MainPanel::TableListMySQL => match result {
                ComponentResult::Goto(g) => match g {
                    Goto::TableDetailMySQL { .. } => load(g, None, focus, MainPanel::TableDetailMySQL),
                    Goto::DataListMySQL { .. } => load(g, Some(MainPanel::TableListMySQL), focus, MainPanel::DataListMySQL),
                    _ => stay,
                },
                ComponentResult::Focus(f) => (Action::Nothing, f, panel),
                _ => stay,
            },
            MainPanel::TableListPG => match result {
                ComponentResult::Goto(g) => match g {
                    Goto::TableDetailPG { .. } => load(g, None, focus, MainPanel::TableDetailPG),
                    Goto::DataListPG { .. } => load(g, Some(MainPanel::TableListPG), focus, MainPanel::DataListPG),
                    _ => stay,
                },
                ComponentResult::Focus(f) => (Action::Nothing, f, panel),
                _ => stay,
            },
            MainPanel::TableDetailMySQL => match result {
                ComponentResult::Back(_) => (Action::Nothing, focus, MainPanel::TableListMySQL),
                _ => stay,
            },
            MainPanel::TableDetailPG => match result {
                ComponentResult::Back(_) => (Action::Nothing, focus, MainPanel::TableListPG),
                ComponentResult::BackRefresh(_) => (Action::RefreshTableListPG, focus, MainPanel::TableListPG),
                _ => stay,
            },
            MainPanel::DataListMySQL | MainPanel::DataListPG => match result {
                ComponentResult::Back(p) => (Action::Nothing, focus, p),
                _ => stay,
            },
            MainPanel::QueryList => match result {
                ComponentResult::Goto(g) => match g {
                    Goto::QueryDetailMySQL { .. } => load(g, None, focus, MainPanel::QueryDetailMySQL),
                    Goto::QueryDetailPG { .. } => load(g, None, focus, MainPanel::QueryDetailPG),
                    _ => stay,
                },
                ComponentResult::Focus(f) => (Action::Nothing, f, panel),
                _ => stay,
            },
            MainPanel::QueryDetailMySQL | MainPanel::QueryDetailPG => match result {
                ComponentResult::Back(_) => (Action::Nothing, focus, MainPanel::QueryList),
                ComponentResult::Focus(f) => (Action::Nothing, f, panel),
                _ => stay,
            },
            MainPanel::ViewListMySQL => match result {
                ComponentResult::Goto(g) => match g {
                    Goto::ViewDetailMySQL { .. } => load(g, None, main, MainPanel::ViewDetailMySQL),
                    Goto::DataListMySQL { .. } => load(g, Some(MainPanel::ViewListMySQL), focus, MainPanel::DataListMySQL),
                    _ => stay,
                },
                ComponentResult::Focus(f) => (Action::Nothing, f, panel),
                _ => stay,
            },
            MainPanel::ViewDetailMySQL => match result {
                ComponentResult::Back(_) => (Action::Nothing, focus, MainPanel::ViewListMySQL),
                ComponentResult::Focus(f) => (Action::Nothing, f, panel),
                _ => stay,
            },
            MainPanel::ViewListPG => match result {
                ComponentResult::Goto(g) => match g {
                    Goto::ViewDetailPG { .. } => load(g, None, main, MainPanel::ViewDetailPG),
                    Goto::DataListPG { .. } => load(g, Some(MainPanel::ViewListPG), main, MainPanel::DataListPG),
                    _ => stay,
                },
                ComponentResult::Focus(f) => (Action::Nothing, f, panel),
                _ => stay,
            },
            MainPanel::ViewDetailPG => match result {
                ComponentResult::Back(_) => (Action::Nothing, focus, MainPanel::ViewListPG),
                ComponentResult::Focus(f) => (Action::Nothing, f, panel),
                _ => stay,
            },
            MainPanel::UserListMySQL => match result {
                ComponentResult::Goto(g) => match g {
                    Goto::UserDetailMySQL { .. } => load(g, None, main, MainPanel::UserDetailMySQL),
                    _ => stay,
                },
                ComponentResult::Focus(f) => (Action::Nothing, f, panel),
                _ => stay,
            },
            MainPanel::UserDetailMySQL => match result {
                ComponentResult::Back(_) => (Action::Nothing, focus, MainPanel::UserListMySQL),
                ComponentResult::Focus(f) => (Action::Nothing, f, panel),
                _ => stay,
            },
            MainPanel::RoleListPG => match result {
                ComponentResult::Goto(g) => match g {
                    Goto::RoleDetailPG { .. } => load(g, None, main, MainPanel::RoleDetailPG),
                    _ => stay,
                },
                ComponentResult::Focus(f) => (Action::Nothing, f, panel),
                _ => stay,
            },
            MainPanel::RoleDetailPG => match result {
                ComponentResult::Back(_) => (Action::Nothing, focus, MainPanel::RoleListPG),
                ComponentResult::Focus(f) => (Action::Nothing, f, panel),
                _ => stay,
            },
        },
    }
}

impl App {
    /// The application as it starts: the connection tree has the keyboard, the home panel shows.
    pub fn new() -> (r: App)
        ensures
            r.focus == Focus::LeftPanel,
            r.main_panel == MainPanel::Home,
    {
        App { focus: Focus::LeftPanel, main_panel: MainPanel::Home }
    }

    /// The component that the next key goes to.
    pub fn target(&self) -> (r: Target)
        ensures
            r == target_of(self.focus, self.main_panel),
    {
        match self.focus {
            Focus::LeftPanel => Target::ConnectionList,
            Focus::MainPanel => Target::Panel(self.main_panel),
        }
    }

    /// The step of the application for the answer `result` of the component that has the
    /// keyboard (see `step`): returns the action, and the focus and panel that follow it.
    pub fn handle_input_event(&self, result: ComponentResult) -> (r: (Action, Focus, MainPanel))
        ensures
            r == step(self.focus, self.main_panel, result),
    {
        let focus = self.focus;
        let panel = self.main_panel;
        let main = Focus::MainPanel;
        match focus {
            Focus::LeftPanel => match result {
                ComponentResult::Goto(g) => match g {
                    Goto::TableListMySQL { .. } => (Action::SetData { goto: g, back: None }, main, MainPanel::TableListMySQL),
                    Goto::TableListPG { .. } => (Action::SetData { goto: g, back: None }, main, MainPanel::TableListPG),
                    Goto::QueryList { .. } => (Action::SetData { goto: g, back: None }, main, MainPanel::QueryList),
                    Goto::ViewListMySQL { .. } => (Action::SetData { goto: g, back: None }, main, MainPanel::ViewListMySQL),
                    Goto::ViewListPG { .. } => (Action::SetData { goto: g, back: None }, main, MainPanel::ViewListPG),
                    Goto::UserListMySQL { .. } => (Action::SetData { goto: g, back: None }, main, MainPanel::UserListMySQL),
                    Goto::RoleListPG { .. } => (Action::SetData { goto: g, back: None }, main, MainPanel::RoleListPG),
                    _ => (Action::Nothing, focus, panel),
                },
                ComponentResult::Focus(f) => (Action::Nothing, f, panel),
                _ => (Action::Nothing, focus, panel),
            },
            Focus::MainPanel => match panel {
                MainPanel::Home => match result {
                    ComponentResult::Focus(f) => (Action::Nothing, f, panel),
                    _ => (Action::Nothing, focus, panel),
                },
                MainPanel::TableListMySQL => match result {
                    ComponentResult::Goto(g) => match g {
                        Goto::TableDetailMySQL { .. } => (Action::SetData { goto: g, back: None }, focus, MainPanel::TableDetailMySQL),
                        Goto::DataListMySQL { .. } => (Action::SetData { goto: g, back: Some(MainPanel::TableListMySQL) }, focus, MainPanel::DataListMySQL),
                        _ => (Action::Nothing, focus, panel),
                    },
                    ComponentResult::Focus(f) => (Action::Nothing, f, panel),
                    _ => (Action::Nothing, focus, panel),
                },
                MainPanel::TableListPG => match result {
                    ComponentResult::Goto(g) => match g {
                        Goto::TableDetailPG { .. } => (Action::SetData { goto: g, back: None }, focus, MainPanel::TableDetailPG),
                        Goto::DataListPG { .. } => (Action::SetData { goto: g, back: Some(MainPanel::TableListPG) }, focus, MainPanel::DataListPG),
                        _ => (Action::Nothing, focus, panel),
                    },
                    ComponentResult::Focus(f) => (Action::Nothing, f, panel),
                    _ => (Action::Nothing, focus, panel),
                },
                MainPanel::TableDetailMySQL => match result {
                    ComponentResult::Back(_) => (Action::Nothing, focus, MainPanel::TableListMySQL),
                    _ => (Action::Nothing, focus, panel),
                },
                MainPanel::TableDetailPG => match result {
                    ComponentResult::Back(_) => (Action::Nothing, focus, MainPanel::TableListPG),
                    ComponentResult::BackRefresh(_) => (Action::RefreshTableListPG, focus, MainPanel::TableListPG),
                    _ => (Action::Nothing, focus, panel),
                },
                MainPanel::DataListMySQL | MainPanel::DataListPG => match result {
                    ComponentResult::Back(p) => (Action::Nothing, focus, p),
                    _ => (Action::Nothing, focus, panel),
                },
                MainPanel::QueryList => match result {
                    ComponentResult::Goto(g) => match g {
                        Goto::QueryDetailMySQL { .. } => (Action::SetData { goto: g, back: None }, focus, MainPanel::QueryDetailMySQL),
                        Goto::QueryDetailPG { .. } => (Action::SetData { goto: g, back: None }, focus, MainPanel::QueryDetailPG),
                        _ => (Action::Nothing, focus, panel),
                    },
                    ComponentResult::Focus(f) => (Action::Nothing, f, panel),
                    _ => (Action::Nothing, focus, panel),
                },
                MainPanel::QueryDetailMySQL | MainPanel::QueryDetailPG => match result {
                    ComponentResult::Back(_) => (Action::Nothing, focus, MainPanel::QueryList),
                    ComponentResult::Focus(f) => (Action::Nothing, f, panel),
                    _ => (Action::Nothing, focus, panel),
                },
                MainPanel::ViewListMySQL => match result {
                    ComponentResult::Goto(g) => match g {
                        Goto::ViewDetailMySQL { .. } => (Action::SetData { goto: g, back: None }, main, MainPanel::ViewDetailMySQL),
                        Goto::DataListMySQL { .. } => (Action::SetData { goto: g, back: Some(MainPanel::ViewListMySQL) }, focus, MainPanel::DataListMySQL),
                        _ => (Action::Nothing, focus, panel),
                    },
                    ComponentResult::Focus(f) => (Action::Nothing, f, panel),
                    _ => (Action::Nothing, focus, panel),
                },
                MainPanel::ViewDetailMySQL => match result {
                    ComponentResult::Back(_) => (Action::Nothing, focus, MainPanel::ViewListMySQL),
                    ComponentResult::Focus(f) => (Action::Nothing, f, panel),
                    _ => (Action::Nothing, focus, panel),
                },
                MainPanel::ViewListPG => match result {
                    ComponentResult::Goto(g) => match g {
                        Goto::ViewDetailPG { .. } => (Action::SetData { goto: g, back: None }, main, MainPanel::ViewDetailPG),
                        Goto::DataListPG { .. } => (Action::SetData { goto: g, back: Some(MainPanel::ViewListPG) }, main, MainPanel::DataListPG),
                        _ => (Action::Nothing, focus, panel),
                    },
                    ComponentResult::Focus(f) => (Action::Nothing, f, panel),
                    _ => (Action::Nothing, focus, panel),
                },
                MainPanel::ViewDetailPG => match result {
                    ComponentResult::Back(_) => (Action::Nothing, focus, MainPanel::ViewListPG),
                    ComponentResult::Focus(f) => (Action::Nothing, f, panel),
                    _ => (Action::Nothing, focus, panel),
                },
                MainPanel::UserListMySQL => match result {
                    ComponentResult::Goto(g) => match g {
                        Goto::UserDetailMySQL { .. } => (Action::SetData { goto: g, back: None }, main, MainPanel::UserDetailMySQL),
                        _ => (Action::Nothing, focus, panel),
                    },
                    ComponentResult::Focus(f) => (Action::Nothing, f, panel),
                    _ => (Action::Nothing, focus, panel),
                },
                MainPanel::UserDetailMySQL => match result {
                    ComponentResult::Back(_) => (Action::Nothing, focus, MainPanel::UserListMySQL),
                    ComponentResult::Focus(f) => (Action::Nothing, f, panel),
                    _ => (Action::Nothing, focus, panel),
                },
                MainPanel::RoleListPG => match result {
                    ComponentResult::Goto(g) => match g {
                        Goto::RoleDetailPG { .. } => (Action::SetData { goto: g, back: None }, main, MainPanel::RoleDetailPG),
                        _ => (Action::Nothing, focus, panel),
                    },
                    ComponentResult::Focus(f) => (Action::Nothing, f, panel),
                    _ => (Action::Nothing, focus, panel),
                },
                MainPanel::RoleDetailPG => match result {
                    ComponentResult::Back(_) => (Action::Nothing, focus, MainPanel::RoleListPG),
                    ComponentResult::Focus(f) => (Action::Nothing, f, panel),
                    _ => (Action::Nothing, focus, panel),
                },
            },
        }
    }

    /// Puts the step's focus and panel into effect.
    pub fn apply(&mut self, focus: Focus, panel: MainPanel)
        ensures
            final(self).focus == focus,
            final(self).main_panel == panel,
    {
        self.focus = focus;
        self.main_panel = panel;
    }
}


/// The panels that hand a focus change on to the application.
pub open spec fn forwards_focus(focus: Focus, panel: MainPanel) -> bool {
    focus == Focus::LeftPanel || !(panel == MainPanel::TableDetailMySQL || panel == MainPanel::TableDetailPG
        || panel == MainPanel::DataListMySQL || panel == MainPanel::DataListPG)
}

/// The panels that show one object in detail.
pub open spec fn is_detail(panel: MainPanel) -> bool {
    panel == MainPanel::TableDetailMySQL || panel == MainPanel::TableDetailPG
        || panel == MainPanel::QueryDetailMySQL || panel == MainPanel::QueryDetailPG
        || panel == MainPanel::ViewDetailMySQL || panel == MainPanel::ViewDetailPG
        || panel == MainPanel::UserDetailMySQL || panel == MainPanel::RoleDetailPG
}

/// A component that answers `Done` leaves the application as it is.
pub proof fn lemma_done_changes_nothing(focus: Focus, panel: MainPanel)
    ensures
        step(focus, panel, ComponentResult::Done) == (Action::Nothing, focus, panel),
{
}

/// A focus change answered by the connection tree, or by a panel that hands it on, moves the
/// keyboard and nothing else; the other panels ignore it.
pub proof fn lemma_focus_moves_only_focus(focus: Focus, panel: MainPanel, f: Focus)
    ensures
        forwards_focus(focus, panel) ==> step(focus, panel, ComponentResult::Focus(f)) == (Action::Nothing, f, panel),
        !forwards_focus(focus, panel) ==> step(focus, panel, ComponentResult::Focus(f)) == (Action::Nothing, focus, panel),
{
}

/// A list opened from the connection tree takes the keyboard to the main panel.
pub proof fn lemma_open_from_tree_focuses_main(panel: MainPanel, g: Goto)
    ensures
        step(Focus::LeftPanel, panel, ComponentResult::Goto(g)).0 is SetData
            ==> step(Focus::LeftPanel, panel, ComponentResult::Goto(g)).1 == Focus::MainPanel
                && !is_detail(step(Focus::LeftPanel, panel, ComponentResult::Goto(g)).2),
{
}

/// Going from a list to the detail of one of its objects and back returns to the list.
pub proof fn lemma_detail_back_returns(panel: MainPanel, g: Goto, x: MainPanel)
    ensures
        ({
            let (a, f2, d) = step(Focus::MainPanel, panel, ComponentResult::Goto(g));
            a is SetData && is_detail(d) ==> step(f2, d, ComponentResult::Back(x)).2 == panel
        }),
{
}

/// Opening the data of a table or view hands the data list the panel it came from, and the
/// data list's going back to that panel returns there.
pub proof fn lemma_data_list_back_returns(panel: MainPanel, g: Goto)
    ensures
        ({
            let (a, f2, d) = step(Focus::MainPanel, panel, ComponentResult::Goto(g));
            a matches Action::SetData { back: Some(b), .. } ==> {
                &&& b == panel
                &&& (d == MainPanel::DataListMySQL || d == MainPanel::DataListPG)
                &&& step(f2, d, ComponentResult::Back(b)) == (Action::Nothing, f2, panel)
            }
        }),
{
}

} // verus!
