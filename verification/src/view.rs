//! What the panels show, computed from the state: titles, status lines,
//! sidebar rows and the timer box.  Drawing them is left to the caller.
use crate::lists::{first_index, lemma_first_index_found, lemma_first_index_none};
use crate::models::{Project, TimeEntry, Workspace};
use crate::state::{workspace_has_id, ActiveTab, AppState, Focus};
use crate::text::{append_str, owned, truncate_str, truncated};
use vstd::prelude::*;

verus! {

/// `o`'s text, or `default` when there is none.
pub open spec fn text_or(o: Option<Seq<char>>, default: Seq<char>) -> Seq<char> {
    match o {
        Some(t) => t,
        None => default,
    }
}

/// The view of an optional string.
pub open spec fn opt_view(o: Option<String>) -> Option<Seq<char>> {
    match o {
        Some(s) => Some(s@),
        None => None,
    }
}

/// Projects with the given id.
pub open spec fn project_has_id(id: Seq<char>) -> spec_fn(Project) -> bool {
    |p: Project| p.id@ == id
}

/// Running timers.
pub open spec fn entry_running() -> spec_fn(TimeEntry) -> bool {
    |e: TimeEntry| e.time_interval.end is None
}

/// Name of the first project with the given id.
pub open spec fn project_name(ps: Seq<Project>, id: Seq<char>) -> Option<Seq<char>> {
    match first_index(ps, project_has_id(id)) {
        Some(i) => Some(ps[i].name@),
        None => None,
    }
}

/// Name of the first workspace with the given id.
pub open spec fn workspace_name(ws: Seq<Workspace>, id: Seq<char>) -> Option<Seq<char>> {
    match first_index(ws, workspace_has_id(id)) {
        Some(i) => Some(ws[i].name@),
        None => None,
    }
}

/// The first running timer in the list.
pub open spec fn running_index(es: Seq<TimeEntry>) -> Option<int> {
    first_index(es, entry_running())
}

/// Position of the first project with the given id.
pub fn find_project(ps: &Vec<Project>, id: &String) -> (r: Option<usize>)
    ensures
        r matches Some(i) ==> first_index(ps@, project_has_id(id@)) == Some(i as int) && i < ps@.len(),
        r is None ==> first_index(ps@, project_has_id(id@)) is None,
{
    let mut i: usize = 0;
    while i < ps.len()
        invariant
            0 <= i <= ps@.len(),
            forall|j: int| 0 <= j < i ==> !project_has_id(id@)(#[trigger] ps@[j]),
        decreases ps.len() - i,
    {
        if ps[i].id == *id {
            proof {
                lemma_first_index_found(ps@, project_has_id(id@), i as int);
            }
            return Some(i);
        }
        i = i + 1;
    }
    proof {
        lemma_first_index_none(ps@, project_has_id(id@));
    }
    None
}

/// Position of the first running timer.
pub fn running_entry(es: &Vec<TimeEntry>) -> (r: Option<usize>)
    ensures
        r matches Some(i) ==> running_index(es@) == Some(i as int) && i < es@.len(),
        r is None ==> running_index(es@) is None,
{
    let mut i: usize = 0;
    while i < es.len()
        invariant
            0 <= i <= es@.len(),
            forall|j: int| 0 <= j < i ==> !entry_running()(#[trigger] es@[j]),
        decreases es.len() - i,
    {
        if es[i].time_interval.end.is_none() {
            proof {
                lemma_first_index_found(es@, entry_running(), i as int);
            }
            return Some(i);
        }
        i = i + 1;
    }
    proof {
        lemma_first_index_none(es@, entry_running());
    }
    None
}

/// Name of the project with the given id, or `default`.
fn project_name_or(ps: &Vec<Project>, id: &String, default: &str) -> (r: String)
    ensures
        r@ == text_or(project_name(ps@, id@), default@),
{
    match find_project(ps, id) {
        Some(i) => ps[i].name.clone(),
        None => owned(default),
    }
}

/// The description, or `default` when the entry has none.
fn description_or(e: &TimeEntry, default: &str) -> (r: String)
    ensures
        r@ == text_or(opt_view(e.description), default@),
{
    match &e.description {
        Some(d) => d.clone(),
        None => owned(default),
    }
}

// ---------------------------------------------------------------------
// Header and footer
// ---------------------------------------------------------------------

/// Header line: the selected workspace's name and the running timer.
pub open spec fn header_text(s: AppState) -> Seq<char> {
    let ws = match s.selected_workspace_id {
        Some(id) => text_or(workspace_name(s.workspaces@, id@), "No Workspace selected"@),
        None => "No Workspace selected"@,
    };
    let timer = match running_index(s.time_entries@) {
        Some(i) => " ● Tracking: "@ + text_or(
            opt_view(s.time_entries@[i].description),
            "No description"@,
        ),
        None => " ○ Idle"@,
    };
    " Clockify TUI  |  Workspace: "@ + ws + "  |  Status:"@ + timer
}

/// The header line.
pub fn header_title(s: &AppState) -> (r: String)
    ensures
        r@ == header_text(*s),
{
    let ws = match &s.selected_workspace_id {
        Some(id) => match crate::state::find_workspace(&s.workspaces, id) {
            Some(i) => s.workspaces[i].name.clone(),
            None => owned("No Workspace selected"),
        },
        None => owned("No Workspace selected"),
    };
    let timer = match running_entry(&s.time_entries) {
        Some(i) => {
            let mut t = owned(" ● Tracking: ");
            let d = description_or(&s.time_entries[i], "No description");
            append_str(&mut t, d.as_str());
            t
        },
        None => owned(" ○ Idle"),
    };
    let mut out = owned(" Clockify TUI  |  Workspace: ");
    append_str(&mut out, ws.as_str());
    append_str(&mut out, "  |  Status:");
    append_str(&mut out, timer.as_str());
    out
}

/// Footer line: the error or status message, the key help, and a loading
/// marker.
pub open spec fn footer_line(s: AppState) -> Seq<char> {
    let status = match s.error {
        Some(e) => "Error: "@ + e@,
        None => text_or(opt_view(s.status_message), "System Ready"@),
    };
    let loading = if s.loading {
        " [LOADING...] "@
    } else {
        Seq::<char>::empty()
    };
    status
        + " | Keys: [Tab] Focus Panel | [Arrows] Navigate | [t] Today | [n] New Entry | [s] Start/Stop Timer | [Esc/q] Quit "@
        + loading
}

/// The footer line.
pub fn footer_text(s: &AppState) -> (r: String)
    ensures
        r@ == footer_line(*s),
{
    let mut out = match &s.error {
        Some(e) => {
            let mut t = owned("Error: ");
            append_str(&mut t, e.as_str());
            t
        },
        None => match &s.status_message {
            Some(m) => m.clone(),
            None => owned("System Ready"),
        },
    };
    append_str(
        &mut out,
        " | Keys: [Tab] Focus Panel | [Arrows] Navigate | [t] Today | [n] New Entry | [s] Start/Stop Timer | [Esc/q] Quit ",
    );
    if s.loading {
        append_str(&mut out, " [LOADING...] ");
    }
    proof {
        if !s.loading {
            assert(out@ =~= footer_line(*s));
        }
    }
    out
}

// ---------------------------------------------------------------------
// Sidebar
// ---------------------------------------------------------------------

/// Which sidebar box holds the cursor (at most one, none when the calendar
/// has focus).
#[derive(PartialEq, Eq, Clone, Copy, Debug, Structural)]
pub struct SidebarFocus {
    pub views: bool,
    pub workspaces: bool,
    pub projects: bool,
}

/// The sidebar box under the cursor.
pub fn sidebar_focus(s: &AppState) -> (r: SidebarFocus)
    requires
        s.workspaces@.len() + 4 <= usize::MAX,
    ensures
        r.views == (s.focus == Focus::Sidebar && s.sidebar_selection < 4),
        r.workspaces == (s.focus == Focus::Sidebar && 4 <= s.sidebar_selection && s.sidebar_selection
            < 4 + s.workspaces@.len()),
        r.projects == (s.focus == Focus::Sidebar && s.sidebar_selection >= 4 + s.workspaces@.len()),
{
    let side = s.focus == Focus::Sidebar;
    let sel = s.sidebar_selection;
    let wl = s.workspaces.len();
    SidebarFocus {
        views: side && sel < 4,
        workspaces: side && sel >= 4 && sel < 4 + wl,
        projects: side && sel >= 4 + wl,
    }
}

/// A row of the views box.
pub struct NavItem {
    pub label: String,
    /// The cursor is on this row.
    pub hovered: bool,
    /// This view is the one shown.
    pub selected: bool,
}

/// Names of the four views, in sidebar order.
pub open spec fn view_name(i: int) -> Seq<char> {
    if i == 0 {
        "Day View"@
    } else if i == 1 {
        "Week View"@
    } else if i == 2 {
        "Month View"@
    } else {
        "Dashboard"@
    }
}

/// The rows of the views box: each view's name, marked with `▶ ` when it is
/// the view shown.
pub fn nav_items(s: &AppState) -> (r: Vec<NavItem>)
    ensures
        r@.len() == 4,
        forall|i: int|
            0 <= i < 4 ==> {
                let sel = s.active_tab == crate::state::tab_at(i);
                &&& (#[trigger] r@[i]).selected == sel
                &&& r@[i].hovered == (s.focus == Focus::Sidebar && s.sidebar_selection < 4
                    && s.sidebar_selection == i)
                &&& r@[i].label@ == (if sel {
                    "▶ "@
                } else {
                    "  "@
                }) + view_name(i)
            },
{
    let views_focused = s.focus == Focus::Sidebar && s.sidebar_selection < 4;
    let mut out: Vec<NavItem> = Vec::new();
    let mut i: usize = 0;
    while i < 4
        invariant
            0 <= i <= 4,
            out@.len() == i,
            views_focused == (s.focus == Focus::Sidebar && s.sidebar_selection < 4),
            forall|k: int|
                0 <= k < i ==> {
                    let sel = s.active_tab == crate::state::tab_at(k);
                    &&& (#[trigger] out@[k]).selected == sel
                    &&& out@[k].hovered == (views_focused && s.sidebar_selection == k)
                    &&& out@[k].label@ == (if sel {
                        "▶ "@
                    } else {
                        "  "@
                    }) + view_name(k)
                },
        decreases 4 - i,
    {
        let tab = if i == 0 {
            ActiveTab::Day
        } else if i == 1 {
            ActiveTab::Week
        } else if i == 2 {
            ActiveTab::Month
        } else {
            ActiveTab::Dashboard
        };
        let name = if i == 0 {
            "Day View"
        } else if i == 1 {
            "Week View"
        } else if i == 2 {
            "Month View"
        } else {
            "Dashboard"
        };
        let selected = s.active_tab == tab;
        let mut label = if selected {
            owned("▶ ")
        } else {
            owned("  ")
        };
        append_str(&mut label, name);
        out.push(NavItem { label, hovered: views_focused && s.sidebar_selection == i, selected });
        i = i + 1;
    }
    out
}

/// Rows of the projects box: `[All Projects]` then every project's name.
pub fn project_rows(s: &AppState) -> (r: Vec<String>)
    ensures
        r@.len() == s.projects@.len() + 1,
        r@[0]@ == "[All Projects]"@,
        forall|i: int| 0 <= i < s.projects@.len() ==> (#[trigger] r@[i + 1])@ == s.projects@[i].name@,
{
    let mut out: Vec<String> = Vec::new();
    out.push(owned("[All Projects]"));
    let mut i: usize = 0;
    while i < s.projects.len()
        invariant
            0 <= i <= s.projects@.len(),
            out@.len() == i + 1,
            out@[0]@ == "[All Projects]"@,
            forall|k: int| 0 <= k < i ==> (#[trigger] out@[k + 1])@ == s.projects@[k].name@,
        decreases s.projects.len() - i,
    {
        out.push(s.projects[i].name.clone());
        i = i + 1;
    }
    out
}

/// Text of the active-timer box for the running timer `e`, given the elapsed
/// clock: elapsed time, description and project name, the last two cut to
/// 22 characters.
pub open spec fn running_box_text(s: AppState, e: TimeEntry, elapsed: Seq<char>) -> Seq<char> {
    let desc = truncated(text_or(opt_view(e.description), "(No description)"@), 22);
    let proj = match e.project_id {
        Some(p) => text_or(project_name(s.projects@, p@), "Unknown Project"@),
        None => "No Project"@,
    };
    " ● RUNNING  "@ + elapsed + "\n "@ + desc + "\n ["@ + truncated(proj, 22) + "]"@
}

/// The active-timer box: its text and whether a timer runs.
pub struct TimerBox {
    pub text: String,
    pub running: bool,
}

/// The active-timer box.  `elapsed` is the clock shown for the running timer
/// (see `get_elapsed_time_string`).
pub fn timer_box(s: &AppState, elapsed: &str) -> (r: TimerBox)
    ensures
        match running_index(s.time_entries@) {
            Some(i) => r.running && r.text@ == running_box_text(*s, s.time_entries@[i], elapsed@),
            None => !r.running && r.text@ == " ○ IDLE\n No active timer\n Press [s] to start"@,
        },
{
    match running_entry(&s.time_entries) {
        Some(i) => {
            let e = &s.time_entries[i];
            let d = description_or(e, "(No description)");
            let desc = truncate_str(d.as_str(), 22);
            let proj = match &e.project_id {
                Some(p) => project_name_or(&s.projects, p, "Unknown Project"),
                None => owned("No Project"),
            };
            let proj_t = truncate_str(proj.as_str(), 22);
            let mut out = owned(" ● RUNNING  ");
            append_str(&mut out, elapsed);
            append_str(&mut out, "\n ");
            append_str(&mut out, desc.as_str());
            append_str(&mut out, "\n [");
            append_str(&mut out, proj_t.as_str());
            append_str(&mut out, "]");
            TimerBox { text: out, running: true }
        },
        None => TimerBox { text: owned(" ○ IDLE\n No active timer\n Press [s] to start"), running: false },
    }
}

/// Suffix naming the project filter in view titles, empty without a filter.
pub open spec fn filter_suffix(s: AppState) -> Seq<char> {
    match s.selected_project_id {
        Some(p) => " [Project: "@ + text_or(project_name(s.projects@, p@), "Unknown"@) + "] "@,
        None => Seq::<char>::empty(),
    }
}

/// The project-filter suffix of the view titles.
pub fn project_filter_suffix(s: &AppState) -> (r: String)
    ensures
        r@ == filter_suffix(*s),
{
    match &s.selected_project_id {
        Some(p) => {
            let mut out = owned(" [Project: ");
            let name = project_name_or(&s.projects, p, "Unknown");
            append_str(&mut out, name.as_str());
            append_str(&mut out, "] ");
            out
        },
        None => String::new(),
    }
}

} // verus!
