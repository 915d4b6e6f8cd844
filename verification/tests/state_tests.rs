use chrono::{Datelike, NaiveDate};
use clockify_tui::date::{Date, MAX_DAYS, MAX_YEAR, MIN_DAYS, MIN_YEAR};
use clockify_tui::models::{Project, TimeEntry, TimeInterval, User, Workspace};
use clockify_tui::state::{
    initial_load_actions, refresh_outcome_actions, request_outcome_actions,
    workspace_details_actions, Action, ActiveTab, AppState, Command, Focus, Key, LocalNow,
    RequestKind,
};

fn day(y: i32, m: u32, d: u32) -> Date {
    Date { days: NaiveDate::from_ymd_opt(y, m, d).unwrap().num_days_from_ce() }
}

fn ymd(d: Date) -> (i32, u32, u32) {
    let n = NaiveDate::from_num_days_from_ce_opt(d.days).unwrap();
    (n.year(), n.month(), n.day())
}

fn now(today: Date) -> LocalNow {
    LocalNow { today, time_now: "14:05".to_string(), time_in_an_hour: "15:05".to_string() }
}

fn user() -> User {
    User {
        id: "u1".to_string(),
        email: "a@b.c".to_string(),
        name: "Ann".to_string(),
        active_workspace: "w1".to_string(),
        default_workspace: "w1".to_string(),
    }
}

fn ws(id: &str, name: &str) -> Workspace {
    Workspace { id: id.to_string(), name: name.to_string() }
}

fn proj(id: &str, name: &str) -> Project {
    Project { id: id.to_string(), name: name.to_string(), client_id: None, color: "#fff".to_string() }
}

fn entry(id: &str, project: Option<&str>, end: Option<&str>) -> TimeEntry {
    TimeEntry {
        id: id.to_string(),
        description: Some(format!("work {}", id)),
        project_id: project.map(|p| p.to_string()),
        time_interval: TimeInterval {
            start: "2026-03-15T09:00:00Z".to_string(),
            end: end.map(|e| e.to_string()),
            duration: Some("PT1H".to_string()),
        },
    }
}

fn loaded_state() -> AppState {
    let mut s = AppState::new(day(2026, 3, 15));
    s.apply_action(Action::SetUser(user()));
    s.apply_action(Action::SetWorkspaces(vec![ws("w0", "Zero"), ws("w1", "One")]));
    s.apply_action(Action::SetProjects(vec![proj("p1", "Alpha"), proj("p2", "Beta")]));
    s
}

#[test]
fn calendar_range_constants_match_chrono() {
    assert_eq!(NaiveDate::MIN.num_days_from_ce(), MIN_DAYS);
    assert_eq!(NaiveDate::MAX.num_days_from_ce(), MAX_DAYS);
    assert_eq!(NaiveDate::MIN.year(), MIN_YEAR);
    assert_eq!(NaiveDate::MAX.year(), MAX_YEAR);
}

#[test]
fn initial_state() {
    let s = AppState::new(day(2026, 3, 15));
    assert!(s.check_wf());
    assert_eq!(s.active_tab, ActiveTab::Day);
    assert_eq!(s.focus, Focus::Sidebar);
    assert!(s.loading);
    assert_eq!(s.status_message.as_deref(), Some("Connecting to Clockify..."));
    assert_eq!(s.modal_start_time, "09:00");
    assert_eq!(s.modal_end_time, "10:00");
    assert_eq!(s.get_total_sidebar_items(), 5);
}

#[test]
fn set_user_selects_default_workspace() {
    let mut s = AppState::new(day(2026, 3, 15));
    assert!(matches!(s.apply_action(Action::SetUser(user())), Command::Nothing));
    assert_eq!(s.selected_workspace_id.as_deref(), Some("w1"));
    // a later profile does not replace the selection
    s.selected_workspace_id = Some("w0".to_string());
    s.apply_action(Action::SetUser(user()));
    assert_eq!(s.selected_workspace_id.as_deref(), Some("w0"));
}

#[test]
fn set_workspaces_highlights_selected_row() {
    let s = loaded_state();
    assert_eq!(s.workspace_list_selected, Some(1));
    assert_eq!(s.get_total_sidebar_items(), 4 + 2 + 2 + 1);
}

#[test]
fn set_projects_resets_filter() {
    let mut s = loaded_state();
    s.selected_project_id = Some("p2".to_string());
    s.project_list_selected = Some(2);
    s.apply_action(Action::SetProjects(vec![proj("p3", "Gamma")]));
    assert_eq!(s.selected_project_id, None);
    assert_eq!(s.project_list_selected, Some(0));
}

#[test]
fn loading_error_status_and_entries() {
    let mut s = loaded_state();
    s.apply_action(Action::Loading(true));
    assert!(s.loading);
    s.apply_action(Action::SetTimeEntries(vec![entry("e1", None, None)]));
    assert!(!s.loading);
    assert_eq!(s.time_entries.len(), 1);
    s.apply_action(Action::Loading(true));
    s.apply_action(Action::SetError("boom".to_string()));
    assert!(!s.loading);
    assert_eq!(s.error.as_deref(), Some("boom"));
    s.apply_action(Action::SetStatus("ok".to_string()));
    assert_eq!(s.status_message.as_deref(), Some("ok"));
}

#[test]
fn refresh_asks_for_window_around_selected_date() {
    let mut s = loaded_state();
    match s.apply_action(Action::RefreshLogs) {
        Command::FetchLogs { workspace_id, user_id, from, to } => {
            assert_eq!(workspace_id, "w1");
            assert_eq!(user_id, "u1");
            assert_eq!(ymd(from), (2026, 2, 12));
            assert_eq!(ymd(to), (2026, 4, 15));
        }
        _ => panic!("expected a fetch"),
    }
    let mut fresh = AppState::new(day(2026, 3, 15));
    assert!(matches!(fresh.apply_action(Action::RefreshLogs), Command::Nothing));
}

#[test]
fn quit_keys() {
    let mut s = loaded_state();
    let n = now(day(2026, 3, 15));
    assert!(matches!(s.handle_key(Key::Char('q'), &n), Command::Quit));
    assert!(matches!(s.handle_key(Key::Esc, &n), Command::Quit));
}

#[test]
fn tab_toggles_focus_and_back() {
    let mut s = loaded_state();
    let n = now(day(2026, 3, 15));
    s.handle_key(Key::Tab, &n);
    assert_eq!(s.focus, Focus::Calendar);
    s.handle_key(Key::Tab, &n);
    assert_eq!(s.focus, Focus::Sidebar);
}

#[test]
fn calendar_arrows_move_by_day_and_week() {
    let mut s = loaded_state();
    let n = now(day(2026, 3, 15));
    s.handle_key(Key::Tab, &n);
    assert!(matches!(s.handle_key(Key::Left, &n), Command::RefreshLogs));
    assert_eq!(ymd(s.selected_date), (2026, 3, 14));
    s.handle_key(Key::Right, &n);
    assert_eq!(ymd(s.selected_date), (2026, 3, 15));
    s.handle_key(Key::Up, &n);
    assert_eq!(ymd(s.selected_date), (2026, 3, 14));
    s.active_tab = ActiveTab::Week;
    s.handle_key(Key::Down, &n);
    assert_eq!(ymd(s.selected_date), (2026, 3, 21));
}

#[test]
fn sidebar_arrows_step_by_view() {
    let mut s = loaded_state();
    let n = now(day(2026, 3, 15));
    s.active_tab = ActiveTab::Week;
    s.handle_key(Key::Left, &n);
    assert_eq!(ymd(s.selected_date), (2026, 3, 8));
    s.handle_key(Key::Right, &n);
    assert_eq!(ymd(s.selected_date), (2026, 3, 15));
    s.active_tab = ActiveTab::Month;
    s.handle_key(Key::Left, &n);
    assert_eq!(ymd(s.selected_date), (2026, 2, 1));
    s.handle_key(Key::Right, &n);
    assert_eq!(ymd(s.selected_date), (2026, 3, 1));
    s.selected_date = day(2026, 12, 31);
    s.handle_key(Key::Right, &n);
    assert_eq!(ymd(s.selected_date), (2027, 1, 1));
    s.handle_key(Key::Left, &n);
    assert_eq!(ymd(s.selected_date), (2026, 12, 1));
    s.selected_date = day(2026, 1, 20);
    s.handle_key(Key::Left, &n);
    assert_eq!(ymd(s.selected_date), (2025, 12, 1));
}

#[test]
fn today_key_jumps_to_today() {
    let mut s = loaded_state();
    let n = now(day(2026, 6, 1));
    assert!(matches!(s.handle_key(Key::Char('t'), &n), Command::RefreshLogs));
    assert_eq!(ymd(s.selected_date), (2026, 6, 1));
    assert_eq!(s.status_message.as_deref(), Some("Jumped to Today"));
}

#[test]
fn sidebar_cursor_walks_views_workspaces_and_projects() {
    let mut s = loaded_state();
    let n = now(day(2026, 3, 15));
    // views
    s.handle_key(Key::Down, &n);
    assert_eq!(s.sidebar_selection, 1);
    assert_eq!(s.active_tab, ActiveTab::Week);
    s.handle_key(Key::Down, &n);
    s.handle_key(Key::Down, &n);
    assert_eq!(s.active_tab, ActiveTab::Dashboard);
    // first workspace row: a different workspace, so its data is loaded
    match s.handle_key(Key::Down, &n) {
        Command::FetchWorkspace(id) => assert_eq!(id, "w0"),
        _ => panic!("expected a workspace fetch"),
    }
    assert_eq!(s.selected_workspace_id.as_deref(), Some("w0"));
    assert_eq!(s.workspace_list_selected, Some(0));
    // second workspace row
    assert!(matches!(s.handle_key(Key::Down, &n), Command::FetchWorkspace(_)));
    assert_eq!(s.selected_workspace_id.as_deref(), Some("w1"));
    // "[All Projects]"
    s.handle_key(Key::Down, &n);
    assert_eq!(s.project_list_selected, Some(0));
    assert_eq!(s.selected_project_id, None);
    // first project
    s.handle_key(Key::Down, &n);
    assert_eq!(s.project_list_selected, Some(1));
    assert_eq!(s.selected_project_id.as_deref(), Some("p1"));
    s.handle_key(Key::Down, &n);
    assert_eq!(s.selected_project_id.as_deref(), Some("p2"));
    // wraps to the top
    s.handle_key(Key::Down, &n);
    assert_eq!(s.sidebar_selection, 0);
    assert_eq!(s.active_tab, ActiveTab::Day);
    // and back up to the last row
    s.handle_key(Key::Up, &n);
    assert_eq!(s.sidebar_selection, 8);
    assert_eq!(s.selected_project_id.as_deref(), Some("p2"));
}

#[test]
fn reselecting_same_workspace_fetches_nothing() {
    let mut s = loaded_state();
    s.sidebar_selection = 5;
    assert!(matches!(s.update_selections_from_sidebar_index(), Command::Nothing));
    assert_eq!(s.workspace_list_selected, Some(1));
}

#[test]
fn project_row_past_the_end_counts_as_last() {
    let mut s = loaded_state();
    s.sidebar_selection = 40;
    s.update_selections_from_sidebar_index();
    assert_eq!(s.project_list_selected, Some(2));
    assert_eq!(s.selected_project_id.as_deref(), Some("p2"));
}

#[test]
fn timer_key_starts_or_stops() {
    let mut s = loaded_state();
    let n = now(day(2026, 3, 15));
    s.selected_project_id = Some("p1".to_string());
    s.time_entries = vec![entry("e1", None, Some("2026-03-15T10:00:00Z"))];
    match s.handle_key(Key::Char('s'), &n) {
        Command::StartTimer { workspace_id, project_id, description } => {
            assert_eq!(workspace_id, "w1");
            assert_eq!(project_id.as_deref(), Some("p1"));
            assert_eq!(description, "Tracked from Clockify TUI");
        }
        _ => panic!("expected start"),
    }
    s.time_entries.push(entry("e2", None, None));
    match s.handle_key(Key::Char('s'), &n) {
        Command::StopTimer { workspace_id, user_id } => {
            assert_eq!(workspace_id, "w1");
            assert_eq!(user_id, "u1");
        }
        _ => panic!("expected stop"),
    }
    let mut fresh = AppState::new(day(2026, 3, 15));
    assert!(matches!(fresh.handle_key(Key::Char('s'), &n), Command::Nothing));
}

#[test]
fn entry_form_edit_and_submit() {
    let mut s = loaded_state();
    let n = now(day(2026, 3, 15));
    s.handle_key(Key::Char('n'), &n);
    assert!(s.show_input_modal);
    assert_eq!(s.active_modal_field, 0);
    assert_eq!(s.modal_description, "");
    assert_eq!(s.modal_start_time, "14:05");
    assert_eq!(s.modal_end_time, "15:05");
    for c in "Fix bug".chars() {
        s.handle_key(Key::Char(c), &n);
    }
    s.handle_key(Key::Backspace, &n);
    assert_eq!(s.modal_description, "Fix bu");
    // start time: erase and retype; at most five bytes are taken
    s.handle_key(Key::Tab, &n);
    assert_eq!(s.active_modal_field, 1);
    for _ in 0..5 {
        s.handle_key(Key::Backspace, &n);
    }
    s.handle_key(Key::Backspace, &n);
    assert_eq!(s.modal_start_time, "");
    for c in "09:150".chars() {
        s.handle_key(Key::Char(c), &n);
    }
    assert_eq!(s.modal_start_time, "09:15");
    s.handle_key(Key::Up, &n);
    assert_eq!(s.active_modal_field, 0);
    s.handle_key(Key::Up, &n);
    assert_eq!(s.active_modal_field, 2);
    match s.handle_key(Key::Enter, &n) {
        Command::CreateEntry {
            workspace_id,
            project_id,
            description,
            date,
            start_hour,
            start_minute,
            end_hour,
            end_minute,
        } => {
            assert_eq!(workspace_id, "w1");
            assert_eq!(project_id, None);
            assert_eq!(description, "Fix bu");
            assert_eq!(ymd(date), (2026, 3, 15));
            assert_eq!((start_hour, start_minute, end_hour, end_minute), (9, 15, 15, 5));
        }
        _ => panic!("expected an entry"),
    }
    assert!(!s.show_input_modal);
}

#[test]
fn entry_form_rejects_bad_time_and_escape_cancels() {
    let mut s = loaded_state();
    let n = now(day(2026, 3, 15));
    s.handle_key(Key::Char('n'), &n);
    s.modal_end_time = "25:00".to_string();
    assert!(matches!(s.handle_key(Key::Enter, &n), Command::Nothing));
    assert!(!s.show_input_modal);
    s.handle_key(Key::Char('n'), &n);
    assert!(matches!(s.handle_key(Key::Esc, &n), Command::Nothing));
    assert!(!s.show_input_modal);
    // with the form closed, Esc quits
    assert!(matches!(s.handle_key(Key::Esc, &n), Command::Quit));
}

#[test]
fn entry_form_time_field_counts_bytes() {
    let mut s = loaded_state();
    let n = now(day(2026, 3, 15));
    s.handle_key(Key::Char('n'), &n);
    s.handle_key(Key::Down, &n);
    s.handle_key(Key::Down, &n);
    s.modal_end_time = "1é:".to_string(); // four bytes
    s.handle_key(Key::Char('x'), &n);
    assert_eq!(s.modal_end_time, "1é:x");
    s.handle_key(Key::Char('y'), &n);
    assert_eq!(s.modal_end_time, "1é:x");
}

#[test]
fn outcome_of_requests() {
    let ok = request_outcome_actions(RequestKind::CreateEntry, Ok(()));
    assert_eq!(ok.len(), 2);
    assert!(matches!(&ok[0], Action::SetStatus(m) if m == "Time Entry Saved!"));
    assert!(matches!(&ok[1], Action::RefreshLogs));
    let err = request_outcome_actions(RequestKind::StopTimer, Err("404".to_string()));
    assert_eq!(err.len(), 1);
    assert!(matches!(&err[0], Action::SetError(m) if m == "Error stopping timer: 404"));
    let started = request_outcome_actions(RequestKind::StartTimer, Ok(()));
    assert!(matches!(&started[0], Action::SetStatus(m) if m == "Timer Started!"));
}

#[test]
fn outcome_of_startup_requests() {
    let (acts, next) = initial_load_actions(Ok(user()), Ok(vec![ws("w1", "One")]));
    assert_eq!(acts.len(), 4);
    assert!(matches!(&acts[0], Action::SetUser(_)));
    assert!(matches!(&acts[1], Action::SetWorkspaces(w) if w.len() == 1));
    assert!(matches!(&acts[2], Action::Loading(false)));
    assert!(matches!(&acts[3], Action::SetStatus(m) if m == "Loaded user profile successfully!"));
    assert_eq!(next.as_deref(), Some("w1"));
    let (acts, next) = initial_load_actions(Err("offline".to_string()), Err("later".to_string()));
    assert_eq!(next, None);
    assert!(matches!(&acts[0], Action::SetError(m) if m == "Failed to connect: offline"));
    assert!(matches!(&acts[1], Action::Loading(false)));
    let (acts, _) = initial_load_actions(Ok(user()), Err("denied".to_string()));
    assert!(matches!(&acts[0], Action::SetError(m) if m == "Failed to connect: denied"));
}

#[test]
fn outcome_of_workspace_and_refresh_requests() {
    let acts = workspace_details_actions(Ok(vec![proj("p1", "A")]), Ok(vec![]));
    assert_eq!(acts.len(), 3);
    assert!(matches!(&acts[2], Action::SetStatus(m) if m == "Data synced with Clockify"));
    let acts = workspace_details_actions(Ok(vec![]), Err("x".to_string()));
    assert_eq!(acts.len(), 1);
    assert!(matches!(&acts[0], Action::SetError(m) if m == "Failed to load workspace data: x"));
    assert_eq!(refresh_outcome_actions(Err("x".to_string())).len(), 0);
    assert_eq!(refresh_outcome_actions(Ok(vec![entry("e", None, None)])).len(), 1);
}

#[test]
fn entry_form_fields_cycle() {
    let mut s = loaded_state();
    let n = now(day(2026, 3, 15));
    s.handle_key(Key::Char('n'), &n);
    for _ in 0..3 {
        s.handle_key(Key::Tab, &n);
    }
    assert_eq!(s.active_modal_field, 0);
    s.handle_key(Key::Down, &n);
    s.handle_key(Key::Up, &n);
    assert_eq!(s.active_modal_field, 0);
    s.handle_key(Key::Down, &n);
    s.handle_key(Key::Down, &n);
    s.handle_key(Key::Down, &n);
    assert_eq!(s.active_modal_field, 0);
}

#[test]
fn sidebar_down_then_up_returns() {
    let n = now(day(2026, 3, 15));
    for start in 0..9usize {
        let mut s = loaded_state();
        s.sidebar_selection = start;
        s.handle_key(Key::Down, &n);
        assert!(s.sidebar_selection < 9);
        s.handle_key(Key::Up, &n);
        assert_eq!(s.sidebar_selection, start);
    }
}

#[test]
fn keys_refused_at_the_calendar_edge() {
    let mut s = loaded_state();
    s.selected_date = Date { days: MIN_DAYS };
    s.focus = Focus::Calendar;
    assert!(!s.can_handle_key(Key::Left));
    assert!(s.can_handle_key(Key::Right));
    assert!(s.can_handle_key(Key::Tab));
    s.focus = Focus::Sidebar;
    s.active_tab = ActiveTab::Month;
    // January of the first year: no month before it, but one after it
    assert!(!s.can_handle_key(Key::Left));
    assert!(s.can_handle_key(Key::Right));
    s.handle_key(Key::Right, &now(day(2026, 3, 15)));
    assert_eq!(ymd(s.selected_date), (MIN_YEAR, 2, 1));
    // December of the last year: no month after it
    s.selected_date = day(MAX_YEAR, 12, 1);
    assert!(!s.can_handle_key(Key::Right));
    assert!(s.can_handle_key(Key::Left));
    assert!(s.try_handle_key(Key::Right, &now(day(2026, 3, 15))).is_none());
    assert_eq!(ymd(s.selected_date), (MAX_YEAR, 12, 1));
    s.selected_date = Date { days: MAX_DAYS };
    s.active_tab = ActiveTab::Day;
    assert!(!s.can_handle_key(Key::Right));
    assert!(!s.can_apply_action(&Action::RefreshLogs));
    assert!(s.can_apply_action(&Action::Loading(true)));
    s.selected_date = day(2026, 3, 15);
    assert!(s.can_handle_key(Key::Right) && s.can_apply_action(&Action::RefreshLogs));
}

#[test]
fn log_window_spans_a_month_each_side() {
    let (from, to) = clockify_tui::state::log_window(day(2026, 1, 10));
    assert_eq!(ymd(from), (2025, 12, 10));
    assert_eq!(ymd(to), (2026, 2, 10));
}

#[test]
fn new_entry_then_enter_logs_the_filled_times() {
    let mut s = loaded_state();
    let n = now(day(2026, 3, 15));
    assert!(matches!(s.handle_key(Key::Char('n'), &n), Command::Nothing));
    match s.handle_key(Key::Enter, &n) {
        Command::CreateEntry { description, start_hour, start_minute, end_hour, end_minute, date, .. } => {
            assert_eq!(description, "");
            assert_eq!((start_hour, start_minute, end_hour, end_minute), (14, 5, 15, 5));
            assert_eq!(date, s.selected_date);
        }
        _ => panic!("expected a new entry"),
    }
    assert!(!s.show_input_modal);
    s.selected_workspace_id = None;
    s.handle_key(Key::Char('n'), &n);
    assert!(matches!(s.handle_key(Key::Enter, &n), Command::Nothing));
}
