//! The application state and the decisions taken on it: what a key press
//! does, what a background result does, and which outside work follows.
use crate::date::{
    chrono_day, chrono_month, first_of_next_month, first_of_previous_month, next_month_exists,
    next_month_start, prev_month_start, previous_month_exists, Date, MAX_DAYS, MIN_DAYS,
};
use crate::models::{Project, TimeEntry, User, Workspace};
use crate::lists::{first_index, lemma_first_index_found, lemma_first_index_none};
use crate::text::{append_str, clock_value, owned, parse_clock, pop_char, push_char};
use vstd::prelude::*;

verus! {

/// The view shown in the main panel.
#[derive(PartialEq, Eq, Clone, Copy, Debug, Structural)]
pub enum ActiveTab {
    Day,
    Week,
    Month,
    Dashboard,
}

/// The panel that arrow keys act on.
#[derive(PartialEq, Eq, Clone, Copy, Debug, Structural)]
pub enum Focus {
    Sidebar,
    Calendar,
}

/// Results of background work, handed back to the state.
pub enum Action {
    SetUser(User),
    SetWorkspaces(Vec<Workspace>),
    SetProjects(Vec<Project>),
    SetTimeEntries(Vec<TimeEntry>),
    SetError(String),
    SetStatus(String),
    Loading(bool),
    RefreshLogs,
}

/// A key press, as far as the client tells keys apart.
#[derive(PartialEq, Eq, Clone, Copy, Debug, Structural)]
pub enum Key {
    Esc,
    Tab,
    Up,
    Down,
    Left,
    Right,
    Backspace,
    Enter,
    Char(char),
    Other,
}

/// The local clock at the moment a key is pressed: today's date and the
/// wall-clock time now and an hour from now, as `HH:MM`.
pub struct LocalNow {
    pub today: Date,
    pub time_now: String,
    pub time_in_an_hour: String,
}

/// Outside work that a decision asks for.
pub enum Command {
    /// Nothing to do.
    Nothing,
    /// Leave the program.
    Quit,
    /// Queue a refresh of the time entries around the selected date.
    RefreshLogs,
    /// Load projects and time entries of a workspace.
    FetchWorkspace(String),
    /// Load the time entries of a user between two days (inclusive).
    FetchLogs { workspace_id: String, user_id: String, from: Date, to: Date },
    /// Log a finished time entry on a day, between two local clock times.
    CreateEntry {
        workspace_id: String,
        project_id: Option<String>,
        description: String,
        date: Date,
        start_hour: u32,
        start_minute: u32,
        end_hour: u32,
        end_minute: u32,
    },
    /// Start a timer now.
    StartTimer { workspace_id: String, project_id: Option<String>, description: String },
    /// Stop the user's running timer now.
    StopTimer { workspace_id: String, user_id: String },
}

/// Everything the client shows and remembers between frames.
pub struct AppState {
    pub user: Option<User>,
    pub workspaces: Vec<Workspace>,
    pub projects: Vec<Project>,
    pub time_entries: Vec<TimeEntry>,
    pub selected_workspace_id: Option<String>,
    pub selected_project_id: Option<String>,
    pub selected_date: Date,
    pub active_tab: ActiveTab,
    pub focus: Focus,
    pub sidebar_index: usize,
    pub sidebar_selection: usize,
    /// Row highlighted in the workspace list.
    pub workspace_list_selected: Option<usize>,
    /// Row highlighted in the project list (row 0 is "[All Projects]").
    pub project_list_selected: Option<usize>,
    pub error: Option<String>,
    pub loading: bool,
    pub status_message: Option<String>,
    pub show_input_modal: bool,
    /// 0 = description, 1 = start time, 2 = end time.
    pub active_modal_field: usize,
    pub modal_description: String,
    pub modal_start_time: String,
    pub modal_end_time: String,
}

/// The sidebar rows 0 to 3 select these views.
pub open spec fn tab_at(i: int) -> ActiveTab {
    if i == 0 {
        ActiveTab::Day
    } else if i == 1 {
        ActiveTab::Week
    } else if i == 2 {
        ActiveTab::Month
    } else {
        ActiveTab::Dashboard
    }
}

/// Number of sidebar rows: four views, the workspaces, "[All Projects]"
/// and the projects.
pub open spec fn sidebar_total(workspaces: nat, projects: nat) -> nat {
    4 + workspaces + projects + 1
}

/// Workspaces with the given id.
pub open spec fn workspace_has_id(id: Seq<char>) -> spec_fn(Workspace) -> bool {
    |w: Workspace| w.id@ == id
}

/// What applying the sidebar row under the cursor does (see
/// `AppState::update_selections_from_sidebar_index`).
pub open spec fn sidebar_applied(o: AppState, f: AppState, cmd: Command) -> bool {
    let sel = o.sidebar_selection as int;
    let wl = o.workspaces@.len() as int;
    let pl = o.projects@.len() as int;
    &&& sel < 4 ==> f == AppState { sidebar_index: o.sidebar_selection, active_tab: tab_at(sel), ..o }
        && cmd is Nothing
    &&& 4 <= sel < 4 + wl ==> {
        let ws = o.workspaces@[sel - 4];
        let same = o.selected_workspace_id matches Some(cur) && cur@ == ws.id@;
        &&& f.workspace_list_selected == Some((sel - 4) as usize)
        &&& same ==> f == AppState { workspace_list_selected: f.workspace_list_selected, ..o }
            && cmd is Nothing
        &&& !same ==> f == AppState {
            workspace_list_selected: f.workspace_list_selected,
            selected_workspace_id: Some(ws.id),
            ..o
        } && cmd == Command::FetchWorkspace(ws.id)
    }
    &&& sel >= 4 + wl ==> {
        let k = if sel - 4 - wl < pl { sel - 4 - wl } else { pl };
        &&& f.project_list_selected == Some(k as usize)
        &&& f.selected_project_id == (if k == 0 {
            None::<String>
        } else {
            Some(o.projects@[k - 1].id)
        })
        &&& f == AppState {
            project_list_selected: f.project_list_selected,
            selected_project_id: f.selected_project_id,
            ..o
        }
        &&& cmd is Nothing
    }
}

/// The other panel.
pub open spec fn toggled(f: Focus) -> Focus {
    match f {
        Focus::Sidebar => Focus::Calendar,
        Focus::Calendar => Focus::Sidebar,
    }
}

/// The day that Left selects: the day before when the calendar has focus;
/// from the sidebar, one view-sized step back (a day, a week, or the first
/// day of the previous month).
pub open spec fn left_target(s: AppState) -> Option<int> {
    let d = s.selected_date.days as int;
    if s.focus == Focus::Calendar {
        Some(d - 1)
    } else {
        match s.active_tab {
            ActiveTab::Day => Some(d - 1),
            ActiveTab::Week => Some(d - 7),
            ActiveTab::Month => prev_month_start(d),
            ActiveTab::Dashboard => Some(d - 1),
        }
    }
}

/// The day that Right selects, the mirror of `left_target` (the first day of
/// the next month in the month view).
pub open spec fn right_target(s: AppState) -> Option<int> {
    let d = s.selected_date.days as int;
    if s.focus == Focus::Calendar {
        Some(d + 1)
    } else {
        match s.active_tab {
            ActiveTab::Day => Some(d + 1),
            ActiveTab::Week => Some(d + 7),
            ActiveTab::Month => next_month_start(d),
            ActiveTab::Dashboard => Some(d + 1),
        }
    }
}

/// Days that Up and Down move the focused calendar: a week in the week and
/// month grids, a day otherwise.
pub open spec fn vertical_step(t: ActiveTab) -> int {
    match t {
        ActiveTab::Month | ActiveTab::Week => 7,
        _ => 1,
    }
}

/// Sidebar row above `sel`, wrapping from the top to the last row.
pub open spec fn sidebar_up(sel: int, total: int) -> int {
    if sel > 0 {
        sel - 1
    } else {
        total - 1
    }
}

/// Sidebar row below `sel`, wrapping from the last row to the top.
pub open spec fn sidebar_down(sel: int, total: int) -> int {
    (sel + 1) % total
}

/// Some entry in the list is a running timer.
pub open spec fn has_running(entries: Seq<TimeEntry>) -> bool {
    exists|i: int| 0 <= i < entries.len() && (#[trigger] entries[i]).is_running()
}

/// The text without its last character (unchanged when empty).
pub open spec fn without_last(s: Seq<char>) -> Seq<char> {
    if s.len() == 0 {
        s
    } else {
        s.drop_last()
    }
}

/// Length in bytes of the UTF-8 encoding of a text (`str::len`).
pub open spec fn utf8_len(s: Seq<char>) -> nat {
    vstd::utf8::encode_utf8(s).len()
}

/// A time field takes a typed character only while it holds fewer than five
/// bytes.
pub open spec fn typed_into_time(s: Seq<char>, c: char) -> Seq<char> {
    if (utf8_len(s) as usize) < 5 {
        s.push(c)
    } else {
        s
    }
}

/// The timer key: with a workspace selected, stop the running timer if one
/// is listed, otherwise start one on the selected project.
pub open spec fn timer_command_for(o: AppState, cmd: Command) -> bool {
    match o.selected_workspace_id {
        None => cmd is Nothing,
        Some(ws) => if has_running(o.time_entries@) {
            cmd matches Command::StopTimer { workspace_id, user_id } && workspace_id == ws
                && user_id@ == (match o.user {
                Some(u) => u.id@,
                None => Seq::<char>::empty(),
            })
        } else {
            cmd matches Command::StartTimer { workspace_id, project_id, description }
                && workspace_id == ws && project_id == o.selected_project_id && description@
                == "Tracked from Clockify TUI"@
        },
    }
}

/// Enter in the entry form: with a workspace selected and both times valid,
/// log the entry on the selected day and project.
pub open spec fn entry_command_for(o: AppState, cmd: Command) -> bool {
    match o.selected_workspace_id {
        None => cmd is Nothing,
        Some(ws) => match (clock_value(o.modal_start_time@), clock_value(o.modal_end_time@)) {
            (Some((sh, sm)), Some((eh, em))) => cmd == Command::CreateEntry {
                workspace_id: ws,
                project_id: o.selected_project_id,
                description: o.modal_description,
                date: o.selected_date,
                start_hour: sh as u32,
                start_minute: sm as u32,
                end_hour: eh as u32,
                end_minute: em as u32,
            },
            _ => cmd is Nothing,
        },
    }
}

/// What a key does while the entry form is open.
pub open spec fn modal_key_done(o: AppState, f: AppState, key: Key, cmd: Command) -> bool {
    match key {
        Key::Esc => f == AppState { show_input_modal: false, ..o } && cmd is Nothing,
        Key::Tab | Key::Down => f == AppState {
            active_modal_field: ((o.active_modal_field + 1) % 3) as usize,
            ..o
        } && cmd is Nothing,
        Key::Up => f == AppState { active_modal_field: ((o.active_modal_field + 2) % 3) as usize, ..o }
            && cmd is Nothing,
        Key::Backspace => cmd is Nothing && if o.active_modal_field == 0 {
            f == AppState { modal_description: f.modal_description, ..o } && f.modal_description@
                == without_last(o.modal_description@)
        } else if o.active_modal_field == 1 {
            f == AppState { modal_start_time: f.modal_start_time, ..o } && f.modal_start_time@
                == without_last(o.modal_start_time@)
        } else {
            f == AppState { modal_end_time: f.modal_end_time, ..o } && f.modal_end_time@
                == without_last(o.modal_end_time@)
        },
        Key::Char(c) => cmd is Nothing && if o.active_modal_field == 0 {
            f == AppState { modal_description: f.modal_description, ..o } && f.modal_description@
                == o.modal_description@.push(c)
        } else if o.active_modal_field == 1 {
            f == AppState { modal_start_time: f.modal_start_time, ..o } && f.modal_start_time@
                == typed_into_time(o.modal_start_time@, c)
        } else {
            f == AppState { modal_end_time: f.modal_end_time, ..o } && f.modal_end_time@
                == typed_into_time(o.modal_end_time@, c)
        },
        Key::Enter => f == AppState { show_input_modal: false, ..o } && entry_command_for(o, cmd),
        _ => f == o && cmd is Nothing,
    }
}

/// What a key does while the entry form is closed.
pub open spec fn main_key_done(o: AppState, f: AppState, key: Key, now: LocalNow, cmd: Command) -> bool {
    let d = o.selected_date.days as int;
    let total = sidebar_total(o.workspaces@.len(), o.projects@.len()) as int;
    match key {
        Key::Esc => f == o && cmd is Quit,
        Key::Char(c) => if c == 'q' {
            f == o && cmd is Quit
        } else if c == 'n' {
            &&& f == AppState {
                show_input_modal: true,
                active_modal_field: 0,
                modal_description: f.modal_description,
                modal_start_time: now.time_now,
                modal_end_time: now.time_in_an_hour,
                ..o
            }
            &&& f.modal_description@.len() == 0
            &&& cmd is Nothing
        } else if c == 't' {
            &&& f == AppState { selected_date: now.today, status_message: f.status_message, ..o }
            &&& f.status_message matches Some(m) && m@ == "Jumped to Today"@
            &&& cmd is RefreshLogs
        } else if c == 's' {
            f == o && timer_command_for(o, cmd)
        } else {
            f == o && cmd is Nothing
        },
        Key::Tab => f == AppState { focus: toggled(o.focus), ..o } && cmd is Nothing,
        Key::Left => left_target(o) matches Some(t) && f == AppState {
            selected_date: Date { days: t as i32 },
            ..o
        } && cmd is RefreshLogs,
        Key::Right => right_target(o) matches Some(t) && f == AppState {
            selected_date: Date { days: t as i32 },
            ..o
        } && cmd is RefreshLogs,
        Key::Up => if o.focus == Focus::Sidebar {
            sidebar_applied(
                AppState { sidebar_selection: sidebar_up(o.sidebar_selection as int, total) as usize, ..o },
                f,
                cmd,
            )
        } else {
            f == AppState {
                selected_date: Date { days: (d - vertical_step(o.active_tab)) as i32 },
                ..o
            } && cmd is RefreshLogs
        },
        Key::Down => if o.focus == Focus::Sidebar {
            sidebar_applied(
                AppState {
                    sidebar_selection: sidebar_down(o.sidebar_selection as int, total) as usize,
                    ..o
                },
                f,
                cmd,
            )
        } else {
            f == AppState {
                selected_date: Date { days: (d + vertical_step(o.active_tab)) as i32 },
                ..o
            } && cmd is RefreshLogs
        },
        _ => f == o && cmd is Nothing,
    }
}

/// The user id sent with requests: the loaded user's id, or empty before the
/// profile has loaded.
pub open spec fn user_id_of(u: Option<User>) -> Seq<char> {
    match u {
        Some(u) => u.id@,
        None => Seq::<char>::empty(),
    }
}

/// Row of the workspace list to highlight after a new list arrives: the
/// first workspace with the selected id, else the row highlighted before.
pub open spec fn workspace_row_after(o: AppState, w: Seq<Workspace>) -> Option<usize> {
    match o.selected_workspace_id {
        Some(id) => match first_index(w, workspace_has_id(id@)) {
            Some(i) => Some(i as usize),
            None => o.workspace_list_selected,
        },
        None => o.workspace_list_selected,
    }
}

/// What a background result does to the state, and the work it asks for.
pub open spec fn action_done(o: AppState, f: AppState, a: Action, cmd: Command) -> bool {
    match a {
        Action::SetUser(u) => f == AppState {
            user: Some(u),
            selected_workspace_id: if o.selected_workspace_id is None {
                Some(u.default_workspace)
            } else {
                o.selected_workspace_id
            },
            ..o
        } && cmd is Nothing,
        Action::SetWorkspaces(w) => f == AppState {
            workspaces: w,
            workspace_list_selected: workspace_row_after(o, w@),
            ..o
        } && cmd is Nothing,
        Action::SetProjects(p) => f == AppState {
            projects: p,
            project_list_selected: Some(0),
            selected_project_id: None,
            ..o
        } && cmd is Nothing,
        Action::SetTimeEntries(t) => f == AppState { time_entries: t, loading: false, ..o }
            && cmd is Nothing,
        Action::SetError(e) => f == AppState { error: Some(e), loading: false, ..o } && cmd is Nothing,
        Action::SetStatus(m) => f == AppState { status_message: Some(m), ..o } && cmd is Nothing,
        Action::Loading(l) => f == AppState { loading: l, ..o } && cmd is Nothing,
        Action::RefreshLogs => f == o && match o.selected_workspace_id {
            None => cmd is Nothing,
            Some(ws) => cmd matches Command::FetchLogs { workspace_id, user_id, from, to }
                && workspace_id == ws && user_id@ == user_id_of(o.user) && from.days
                == o.selected_date.days - 31 && to.days == o.selected_date.days + 31,
        },
    }
}

/// What a key press does: with the entry form open it edits the form,
/// otherwise it acts on the main screen.  Month steps from the sidebar land
/// on the first day of the previous or next month.
pub open spec fn key_done(o: AppState, f: AppState, key: Key, now: LocalNow, cmd: Command) -> bool {
    let m = chrono_month(o.selected_date.days as int);
    let month_step = !o.show_input_modal && o.focus == Focus::Sidebar && o.active_tab
        == ActiveTab::Month;
    &&& o.show_input_modal ==> modal_key_done(o, f, key, cmd)
    &&& !o.show_input_modal ==> main_key_done(o, f, key, now, cmd)
    &&& month_step && key == Key::Left ==> chrono_day(f.selected_date.days as int) == 1 && chrono_month(
        f.selected_date.days as int,
    ) == (if m == 1 {
        12
    } else {
        m - 1
    })
    &&& month_step && key == Key::Right ==> chrono_day(f.selected_date.days as int) == 1
        && chrono_month(f.selected_date.days as int) == (if m == 12 {
        1
    } else {
        m + 1
    })
}

/// The key can be handled without leaving the calendar: the day it selects
/// is representable (for a month step, the first day of the month it moves
/// to), and the sidebar counts fit.
pub open spec fn key_defined(s: AppState, key: Key) -> bool {
    let d = s.selected_date.days as int;
    let side = s.focus == Focus::Sidebar;
    let lists_fit = s.workspaces@.len() + s.projects@.len() + 5 <= usize::MAX;
    &&& s.selected_date.valid()
    &&& s.active_modal_field < 3
    &&& !s.show_input_modal ==> match key {
        Key::Left => if !side {
            MIN_DAYS <= d - 1
        } else {
            match s.active_tab {
                ActiveTab::Week => MIN_DAYS <= d - 7,
                ActiveTab::Month => prev_month_start(d) is Some,
                _ => MIN_DAYS <= d - 1,
            }
        },
        Key::Right => if !side {
            d + 1 <= MAX_DAYS
        } else {
            match s.active_tab {
                ActiveTab::Week => d + 7 <= MAX_DAYS,
                ActiveTab::Month => next_month_start(d) is Some,
                _ => d + 1 <= MAX_DAYS,
            }
        },
        Key::Up => if side {
            lists_fit
        } else {
            MIN_DAYS <= d - vertical_step(s.active_tab)
        },
        Key::Down => if side {
            lists_fit && s.sidebar_selection < usize::MAX
        } else {
            d + vertical_step(s.active_tab) <= MAX_DAYS
        },
        _ => true,
    }
}

/// The background result can be applied: a refresh needs the days 31 before
/// and after the selected date to be representable.
pub open spec fn action_defined(s: AppState, a: Action) -> bool {
    a is RefreshLogs && s.selected_workspace_id is Some ==> MIN_DAYS <= s.selected_date.days - 31
        && s.selected_date.days + 31 <= MAX_DAYS
}

impl AppState {
    /// The state's invariant: the selected date is representable, the modal
    /// field is one of the three, and the sidebar counts fit.
    pub open spec fn wf(self) -> bool {
        &&& self.selected_date.valid()
        &&& self.active_modal_field < 3
        &&& self.workspaces.len() + self.projects.len() + 5 <= usize::MAX
        &&& self.sidebar_selection < usize::MAX
    }

    /// Whether the state satisfies `wf`.
    pub fn check_wf(&self) -> (b: bool)
        ensures
            b == self.wf(),
    {
        MIN_DAYS <= self.selected_date.days && self.selected_date.days <= MAX_DAYS
            && self.active_modal_field < 3 && self.projects.len() <= usize::MAX
            - 5 && self.workspaces.len() <= usize::MAX - 5 - self.projects.len() && self.sidebar_selection < usize::MAX
    }

    /// The state at start-up: nothing loaded, today selected, the day view
    /// shown and the sidebar focused.
    pub fn new(today: Date) -> (s: AppState)
        requires
            today.valid(),
        ensures
            s.wf(),
            s.user is None,
            s.workspaces@.len() == 0,
            s.projects@.len() == 0,
            s.time_entries@.len() == 0,
            s.selected_workspace_id is None,
            s.selected_project_id is None,
            s.selected_date == today,
            s.active_tab == ActiveTab::Day,
            s.focus == Focus::Sidebar,
            s.sidebar_index == 0,
            s.sidebar_selection == 0,
            s.workspace_list_selected is None,
            s.project_list_selected is None,
            s.error is None,
            s.loading,
            s.status_message matches Some(m) && m@ == "Connecting to Clockify..."@,
            !s.show_input_modal,
            s.active_modal_field == 0,
            s.modal_description@.len() == 0,
            s.modal_start_time@ == "09:00"@,
            s.modal_end_time@ == "10:00"@,
    {
        AppState {
            user: None,
            workspaces: Vec::new(),
            projects: Vec::new(),
            time_entries: Vec::new(),
            selected_workspace_id: None,
            selected_project_id: None,
            selected_date: today,
            active_tab: ActiveTab::Day,
            focus: Focus::Sidebar,
            sidebar_index: 0,
            sidebar_selection: 0,
            workspace_list_selected: None,
            project_list_selected: None,
            error: None,
            loading: true,
            status_message: Some(owned("Connecting to Clockify...")),
            show_input_modal: false,
            active_modal_field: 0,
            modal_description: String::new(),
            modal_start_time: owned("09:00"),
            modal_end_time: owned("10:00"),
        }
    }

    /// Number of rows in the sidebar.
    pub fn get_total_sidebar_items(&self) -> (n: usize)
        requires
            self.workspaces.len() + self.projects.len() + 5 <= usize::MAX,
        ensures
            n == sidebar_total(self.workspaces.len() as nat, self.projects.len() as nat),
    {
        4 + self.workspaces.len() + self.projects.len() + 1
    }

    /// Applies the sidebar row under the cursor: a view row shows that view,
    /// a workspace row selects the workspace (asking for its data when it was
    /// not selected already), and a project row sets the project filter, row
    /// "[All Projects]" clearing it.  Rows past the end count as the last.
    pub fn update_selections_from_sidebar_index(&mut self) -> (cmd: Command)
        ensures
            sidebar_applied(*old(self), *final(self), cmd),
    {
        let ws_len = self.workspaces.len();
        let sel = self.sidebar_selection;
        if sel < 4 {
            self.sidebar_index = sel;
            self.active_tab = if sel == 0 {
                ActiveTab::Day
            } else if sel == 1 {
                ActiveTab::Week
            } else if sel == 2 {
                ActiveTab::Month
            } else {
                ActiveTab::Dashboard
            };
            Command::Nothing
        } else if sel - 4 < ws_len {
            let ws_idx = sel - 4;
            self.workspace_list_selected = Some(ws_idx);
            let same = match &self.selected_workspace_id {
                Some(cur) => *cur == self.workspaces[ws_idx].id,
                None => false,
            };
            if !same {
                let id = self.workspaces[ws_idx].id.clone();
                self.selected_workspace_id = Some(id.clone());
                Command::FetchWorkspace(id)
            } else {
                Command::Nothing
            }
        } else {
            let rest = sel - 4 - ws_len;
            let max_proj_idx = self.projects.len();
            let proj_idx = if rest < max_proj_idx { rest } else { max_proj_idx };
            self.project_list_selected = Some(proj_idx);
            if proj_idx == 0 {
                self.selected_project_id = None;
            } else {
                self.selected_project_id = Some(self.projects[proj_idx - 1].id.clone());
            }
            Command::Nothing
        }
    }

    /// Whether `handle_key` can take the key (`key_defined`).
    pub fn can_handle_key(&self, key: Key) -> (b: bool)
        ensures
            b == key_defined(*self, key),
    {
        let d = self.selected_date.days;
        if !(MIN_DAYS <= d && d <= MAX_DAYS) || self.active_modal_field >= 3 {
            return false;
        }
        if self.show_input_modal {
            return true;
        }
        let side = self.focus == Focus::Sidebar;
        let lists_fit = self.projects.len() <= usize::MAX - 5 && self.workspaces.len() <= usize::MAX
            - 5 - self.projects.len();
        let step: i32 = match self.active_tab {
            ActiveTab::Month | ActiveTab::Week => 7,
            _ => 1,
        };
        match key {
            Key::Left => if !side {
                MIN_DAYS <= d - 1
            } else {
                match self.active_tab {
                    ActiveTab::Week => MIN_DAYS <= d - 7,
                    ActiveTab::Month => previous_month_exists(self.selected_date),
                    _ => MIN_DAYS <= d - 1,
                }
            },
            Key::Right => if !side {
                d + 1 <= MAX_DAYS
            } else {
                match self.active_tab {
                    ActiveTab::Week => d + 7 <= MAX_DAYS,
                    ActiveTab::Month => next_month_exists(self.selected_date),
                    _ => d + 1 <= MAX_DAYS,
                }
            },
            Key::Up => if side {
                lists_fit
            } else {
                MIN_DAYS <= d - step
            },
            Key::Down => if side {
                lists_fit && self.sidebar_selection < usize::MAX
            } else {
                d + step <= MAX_DAYS
            },
            _ => true,
        }
    }

    /// Whether `apply_action` can take the result (`action_defined`).
    pub fn can_apply_action(&self, action: &Action) -> (b: bool)
        ensures
            b == action_defined(*self, *action),
    {
        match action {
            Action::RefreshLogs => self.selected_workspace_id.is_none() || (MIN_DAYS + 31
                <= self.selected_date.days && self.selected_date.days <= MAX_DAYS - 31),
            _ => true,
        }
    }

    /// Handles a key press while the entry form is open.
    fn modal_key(&mut self, key: Key) -> (cmd: Command)
        requires
            old(self).active_modal_field < 3,
        ensures
            modal_key_done(*old(self), *final(self), key, cmd),
    {
        match key {
            Key::Esc => {
                self.show_input_modal = false;
                Command::Nothing
            },
            Key::Tab | Key::Down => {
                self.active_modal_field = (self.active_modal_field + 1) % 3;
                Command::Nothing
            },
            Key::Up => {
                self.active_modal_field = (self.active_modal_field + 2) % 3;
                Command::Nothing
            },
            Key::Backspace => {
                if self.active_modal_field == 0 {
                    pop_char(&mut self.modal_description);
                } else if self.active_modal_field == 1 {
                    pop_char(&mut self.modal_start_time);
                } else {
                    pop_char(&mut self.modal_end_time);
                }
                Command::Nothing
            },
            Key::Char(c) => {
                if self.active_modal_field == 0 {
                    push_char(&mut self.modal_description, c);
                } else if self.active_modal_field == 1 {
                    if self.modal_start_time.as_str().len() < 5 {
                        push_char(&mut self.modal_start_time, c);
                    }
                } else {
                    if self.modal_end_time.as_str().len() < 5 {
                        push_char(&mut self.modal_end_time, c);
                    }
                }
                Command::Nothing
            },
            Key::Enter => {
                let cmd = self.entry_command();
                self.show_input_modal = false;
                cmd
            },
            _ => Command::Nothing,
        }
    }

    /// The command Enter gives in the entry form.
    fn entry_command(&self) -> (cmd: Command)
        ensures
            entry_command_for(*self, cmd),
    {
        match &self.selected_workspace_id {
            None => Command::Nothing,
            Some(ws) => {
                let start = parse_clock(self.modal_start_time.as_str());
                let end = parse_clock(self.modal_end_time.as_str());
                match (start, end) {
                    (Some((sh, sm)), Some((eh, em))) => Command::CreateEntry {
                        workspace_id: ws.clone(),
                        project_id: self.selected_project_id.clone(),
                        description: self.modal_description.clone(),
                        date: self.selected_date,
                        start_hour: sh,
                        start_minute: sm,
                        end_hour: eh,
                        end_minute: em,
                    },
                    _ => Command::Nothing,
                }
            },
        }
    }

    /// The command the timer key gives.
    pub fn timer_command(&self) -> (cmd: Command)
        ensures
            timer_command_for(*self, cmd),
    {
        match &self.selected_workspace_id {
            None => Command::Nothing,
            Some(ws) => {
                let mut i: usize = 0;
                let mut running = false;
                while i < self.time_entries.len() && !running
                    invariant
                        0 <= i <= self.time_entries@.len(),
                        !running ==> forall|j: int| 0 <= j < i ==> !(#[trigger] self.time_entries@[j]).is_running(),
                        running ==> has_running(self.time_entries@),
                    decreases self.time_entries.len() - i,
                {
                    if self.time_entries[i].time_interval.end.is_none() {
                        running = true;
                        assert(self.time_entries@[i as int].is_running());
                    }
                    i = i + 1;
                }
                if running {
                    let user_id = match &self.user {
                        Some(u) => u.id.clone(),
                        None => String::new(),
                    };
                    Command::StopTimer { workspace_id: ws.clone(), user_id }
                } else {
                    Command::StartTimer {
                        workspace_id: ws.clone(),
                        project_id: self.selected_project_id.clone(),
                        description: owned("Tracked from Clockify TUI"),
                    }
                }
            },
        }
    }

    /// Handles a key press when `handle_key` can take it; otherwise leaves
    /// the state as it is and gives `None`.
    pub fn try_handle_key(&mut self, key: Key, now: &LocalNow) -> (r: Option<Command>)
        requires
            now.today.valid(),
        ensures
            key_defined(*old(self), key) ==> (r matches Some(cmd) && key_done(
                *old(self),
                *final(self),
                key,
                *now,
                cmd,
            )),
            !key_defined(*old(self), key) ==> r is None && *final(self) == *old(self),
    {
        if self.can_handle_key(key) {
            Some(self.handle_key(key, now))
        } else {
            None
        }
    }

    /// Handles a key press.  With the entry form open, keys edit the form;
    /// otherwise they quit, open the form, switch focus, move the selected
    /// date or the sidebar cursor, jump to today, or start/stop the timer.
    pub fn handle_key(&mut self, key: Key, now: &LocalNow) -> (cmd: Command)
        requires
            key_defined(*old(self), key),
            now.today.valid(),
        ensures
            key_done(*old(self), *final(self), key, *now, cmd),
            old(self).wf() ==> final(self).wf(),
            final(self).selected_date.valid(),
            final(self).active_modal_field < 3,
            final(self).workspaces@ == old(self).workspaces@,
            final(self).projects@ == old(self).projects@,
    {
        if self.show_input_modal {
            return self.modal_key(key);
        }
        match key {
            Key::Esc => Command::Quit,
            Key::Char(c) => {
                if c == 'q' {
                    Command::Quit
                } else if c == 'n' {
                    self.show_input_modal = true;
                    self.active_modal_field = 0;
                    self.modal_description = String::new();
                    self.modal_start_time = now.time_now.clone();
                    self.modal_end_time = now.time_in_an_hour.clone();
                    Command::Nothing
                } else if c == 't' {
                    self.selected_date = now.today;
                    self.status_message = Some(owned("Jumped to Today"));
                    Command::RefreshLogs
                } else if c == 's' {
                    self.timer_command()
                } else {
                    Command::Nothing
                }
            },
            Key::Tab => {
                self.focus = match self.focus {
                    Focus::Sidebar => Focus::Calendar,
                    Focus::Calendar => Focus::Sidebar,
                };
                Command::Nothing
            },
            Key::Left => {
                let d = self.selected_date;
                self.selected_date = if self.focus == Focus::Calendar {
                    d.add_days(-1)
                } else {
                    match self.active_tab {
                        ActiveTab::Day => d.add_days(-1),
                        ActiveTab::Week => d.add_days(-7),
                        ActiveTab::Month => first_of_previous_month(d),
                        ActiveTab::Dashboard => d.add_days(-1),
                    }
                };
                Command::RefreshLogs
            },
            Key::Right => {
                let d = self.selected_date;
                self.selected_date = if self.focus == Focus::Calendar {
                    d.add_days(1)
                } else {
                    match self.active_tab {
                        ActiveTab::Day => d.add_days(1),
                        ActiveTab::Week => d.add_days(7),
                        ActiveTab::Month => first_of_next_month(d),
                        ActiveTab::Dashboard => d.add_days(1),
                    }
                };
                Command::RefreshLogs
            },
            Key::Up => {
                if self.focus == Focus::Sidebar {
                    let total = self.get_total_sidebar_items();
                    if self.sidebar_selection > 0 {
                        self.sidebar_selection = self.sidebar_selection - 1;
                    } else {
                        self.sidebar_selection = total - 1;
                    }
                    self.update_selections_from_sidebar_index()
                } else {
                    let step: i32 = match self.active_tab {
                        ActiveTab::Month | ActiveTab::Week => 7,
                        _ => 1,
                    };
                    self.selected_date = self.selected_date.add_days(-step);
                    Command::RefreshLogs
                }
            },
            Key::Down => {
                if self.focus == Focus::Sidebar {
                    let total = self.get_total_sidebar_items();
                    self.sidebar_selection = (self.sidebar_selection + 1) % total;
                    self.update_selections_from_sidebar_index()
                } else {
                    let step: i32 = match self.active_tab {
                        ActiveTab::Month | ActiveTab::Week => 7,
                        _ => 1,
                    };
                    self.selected_date = self.selected_date.add_days(step);
                    Command::RefreshLogs
                }
            },
            _ => Command::Nothing,
        }
    }

    /// The user id sent with requests.
    fn user_id(&self) -> (r: String)
        ensures
            r@ == user_id_of(self.user),
    {
        match &self.user {
            Some(u) => u.id.clone(),
            None => String::new(),
        }
    }

    /// Applies a background result.  A refresh asks for the entries from 31
    /// days before to 31 days after the selected date.
    pub fn apply_action(&mut self, action: Action) -> (cmd: Command)
        requires
            action_defined(*old(self), action),
        ensures
            action_done(*old(self), *final(self), action, cmd),
    {
        match action {
            Action::SetUser(u) => {
                let dw = u.default_workspace.clone();
                self.user = Some(u);
                if self.selected_workspace_id.is_none() {
                    self.selected_workspace_id = Some(dw);
                }
                Command::Nothing
            },
            Action::SetWorkspaces(w) => {
                let row = match &self.selected_workspace_id {
                    Some(id) => find_workspace(&w, id),
                    None => None,
                };
                self.workspaces = w;
                if row.is_some() {
                    self.workspace_list_selected = row;
                }
                Command::Nothing
            },
            Action::SetProjects(p) => {
                self.projects = p;
                self.project_list_selected = Some(0);
                self.selected_project_id = None;
                Command::Nothing
            },
            Action::SetTimeEntries(t) => {
                self.time_entries = t;
                self.loading = false;
                Command::Nothing
            },
            Action::SetError(e) => {
                self.error = Some(e);
                self.loading = false;
                Command::Nothing
            },
            Action::SetStatus(m) => {
                self.status_message = Some(m);
                Command::Nothing
            },
            Action::Loading(l) => {
                self.loading = l;
                Command::Nothing
            },
            Action::RefreshLogs => {
                match &self.selected_workspace_id {
                    None => Command::Nothing,
                    Some(ws) => {
                        let (from, to) = log_window(self.selected_date);
                        Command::FetchLogs { workspace_id: ws.clone(), user_id: self.user_id(), from, to }
                    },
                }
            },
        }
    }
}

/// Position of the first workspace with the given id.
pub fn find_workspace(ws: &Vec<Workspace>, id: &String) -> (r: Option<usize>)
    ensures
        r matches Some(i) ==> first_index(ws@, workspace_has_id(id@)) == Some(i as int) && i < ws@.len(),
        r is None ==> first_index(ws@, workspace_has_id(id@)) is None,
{
    let mut i: usize = 0;
    while i < ws.len()
        invariant
            0 <= i <= ws@.len(),
            forall|j: int| 0 <= j < i ==> !workspace_has_id(id@)(#[trigger] ws@[j]),
        decreases ws.len() - i,
    {
        if ws[i].id == *id {
            proof {
                lemma_first_index_found(ws@, workspace_has_id(id@), i as int);
            }
            return Some(i);
        }
        i = i + 1;
    }
    proof {
        lemma_first_index_none(ws@, workspace_has_id(id@));
    }
    None
}

/// The days whose entries are loaded around `center`: 31 days before it to
/// 31 days after it.
pub fn log_window(center: Date) -> (r: (Date, Date))
    requires
        MIN_DAYS <= center.days - 31,
        center.days + 31 <= MAX_DAYS,
    ensures
        r.0.days == center.days - 31,
        r.1.days == center.days + 31,
{
    (center.add_days(-31), center.add_days(31))
}

/// Which request a reply answers.
#[derive(PartialEq, Eq, Clone, Copy, Debug, Structural)]
pub enum RequestKind {
    CreateEntry,
    StopTimer,
    StartTimer,
}

/// Text reported when a request succeeds.
pub open spec fn success_text(k: RequestKind) -> Seq<char> {
    match k {
        RequestKind::CreateEntry => "Time Entry Saved!"@,
        RequestKind::StopTimer => "Timer Stopped!"@,
        RequestKind::StartTimer => "Timer Started!"@,
    }
}

/// Text put before the reason when a request fails.
pub open spec fn failure_prefix(k: RequestKind) -> Seq<char> {
    match k {
        RequestKind::CreateEntry => "Error saving time entry: "@,
        RequestKind::StopTimer => "Error stopping timer: "@,
        RequestKind::StartTimer => "Error starting timer: "@,
    }
}

/// `prefix` followed by `reason`.
fn prefixed(prefix: &str, reason: &str) -> (r: String)
    ensures
        r@ == prefix@ + reason@,
{
    let mut out = owned(prefix);
    append_str(&mut out, reason);
    out
}

/// What follows the reply to a timer or entry request: on success a status
/// line and a refresh of the entries, on failure the error line.
pub fn request_outcome_actions(kind: RequestKind, result: Result<(), String>) -> (r: Vec<Action>)
    ensures
        result is Ok ==> r@.len() == 2 && (r@[0] matches Action::SetStatus(m) && m@ == success_text(
            kind,
        )) && r@[1] is RefreshLogs,
        result matches Err(e) ==> r@.len() == 1 && (r@[0] matches Action::SetError(m) && m@
            == failure_prefix(kind) + e@),
{
    let mut out: Vec<Action> = Vec::new();
    match result {
        Ok(()) => {
            let m = match kind {
                RequestKind::CreateEntry => owned("Time Entry Saved!"),
                RequestKind::StopTimer => owned("Timer Stopped!"),
                RequestKind::StartTimer => owned("Timer Started!"),
            };
            out.push(Action::SetStatus(m));
            out.push(Action::RefreshLogs);
        },
        Err(e) => {
            let prefix = match kind {
                RequestKind::CreateEntry => "Error saving time entry: ",
                RequestKind::StopTimer => "Error stopping timer: ",
                RequestKind::StartTimer => "Error starting timer: ",
            };
            out.push(Action::SetError(prefixed(prefix, e.as_str())));
        },
    }
    out
}

/// What follows the start-up requests for the profile and the workspaces:
/// on success the profile, the workspaces, the end of loading and a status
/// line, plus the workspace whose data to load next (the user's default);
/// on failure the first error and the end of loading.
pub fn initial_load_actions(user: Result<User, String>, workspaces: Result<Vec<Workspace>, String>) -> (r: (Vec<Action>, Option<String>))
    ensures
        match (user, workspaces) {
            (Ok(u), Ok(w)) => {
                &&& r.0@.len() == 4
                &&& r.0@[0] == Action::SetUser(u)
                &&& r.0@[1] == Action::SetWorkspaces(w)
                &&& r.0@[2] == Action::Loading(false)
                &&& r.0@[3] matches Action::SetStatus(m) && m@ == "Loaded user profile successfully!"@
                &&& r.1 == Some(u.default_workspace)
            },
            (Err(e), _) | (Ok(_), Err(e)) => {
                &&& r.1 is None
                &&& r.0@.len() == 2
                &&& r.0@[0] matches Action::SetError(m) && m@ == "Failed to connect: "@ + e@
                &&& r.0@[1] == Action::Loading(false)
            },
        },
{
    let mut out: Vec<Action> = Vec::new();
    match (user, workspaces) {
        (Ok(u), Ok(w)) => {
            let dw = u.default_workspace.clone();
            out.push(Action::SetUser(u));
            out.push(Action::SetWorkspaces(w));
            out.push(Action::Loading(false));
            out.push(Action::SetStatus(owned("Loaded user profile successfully!")));
            (out, Some(dw))
        },
        (Err(e), _) | (_, Err(e)) => {
            out.push(Action::SetError(prefixed("Failed to connect: ", e.as_str())));
            out.push(Action::Loading(false));
            (out, None)
        },
    }
}

/// What follows loading a workspace's projects and entries: both lists and a
/// status line, or the first error.
pub fn workspace_details_actions(projects: Result<Vec<Project>, String>, logs: Result<Vec<TimeEntry>, String>) -> (r: Vec<Action>)
    ensures
        match (projects, logs) {
            (Ok(p), Ok(t)) => {
                &&& r@.len() == 3
                &&& r@[0] == Action::SetProjects(p)
                &&& r@[1] == Action::SetTimeEntries(t)
                &&& r@[2] matches Action::SetStatus(m) && m@ == "Data synced with Clockify"@
            },
            (Err(e), _) | (Ok(_), Err(e)) => {
                &&& r@.len() == 1
                &&& r@[0] matches Action::SetError(m) && m@ == "Failed to load workspace data: "@ + e@
            },
        },
{
    let mut out: Vec<Action> = Vec::new();
    match (projects, logs) {
        (Ok(p), Ok(t)) => {
            out.push(Action::SetProjects(p));
            out.push(Action::SetTimeEntries(t));
            out.push(Action::SetStatus(owned("Data synced with Clockify")));
        },
        (Err(e), _) | (_, Err(e)) => {
            out.push(Action::SetError(prefixed("Failed to load workspace data: ", e.as_str())));
        },
    }
    out
}

/// What follows a refresh of the entries: the new list, or nothing when the
/// request failed.
pub fn refresh_outcome_actions(logs: Result<Vec<TimeEntry>, String>) -> (r: Vec<Action>)
    ensures
        logs matches Ok(t) ==> r@.len() == 1 && r@[0] == Action::SetTimeEntries(t),
        logs is Err ==> r@.len() == 0,
{
    let mut out: Vec<Action> = Vec::new();
    if let Ok(t) = logs {
        out.push(Action::SetTimeEntries(t));
    }
    out
}

} // verus!
