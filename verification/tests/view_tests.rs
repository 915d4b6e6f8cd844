use chrono::{DateTime, Datelike, Local, NaiveDate, Timelike};
use clockify_tui::api::{
    create_entry_request, new_time_entry_url, projects_url, start_timer_request,
    stop_timer_request, stop_timer_url, time_entries_url, user_url, workspaces_url,
};
use clockify_tui::calendar::{
    grid_layout, dashboard_title, dashboard_totals, day_view_rows, day_view_title, format_duration_label,
    get_elapsed_time_string, month_cells, month_grid, month_view_title, quick_stats_minutes, quick_stats_text,
    week_columns, week_view_title,
};
use clockify_tui::config::{Config, ConfigError};
use clockify_tui::date::{Date, LocalStamp};
use clockify_tui::layout::{centered_rect, Area};
use ratatui::layout::{Constraint, Direction, Layout, Rect};
use clockify_tui::models::{Project, TimeEntry, TimeInterval, Workspace};
use clockify_tui::state::{Action, ActiveTab, AppState, Focus};
use clockify_tui::totals::{entry_clock, entry_clocks, minutes_between, EntryClock};
use clockify_tui::view::{
    footer_text, header_title, nav_items, project_filter_suffix, project_rows, sidebar_focus,
    timer_box,
};

fn day(y: i32, m: u32, d: u32) -> Date {
    Date { days: NaiveDate::from_ymd_opt(y, m, d).unwrap().num_days_from_ce() }
}

fn stamp(d: Date, hour: u32, minute: u32) -> LocalStamp {
    LocalStamp { day: d, hour, minute }
}

fn entry(desc: Option<&str>, project: Option<&str>, end: Option<&str>, dur: Option<&str>) -> TimeEntry {
    TimeEntry {
        id: "e".to_string(),
        description: desc.map(|d| d.to_string()),
        project_id: project.map(|p| p.to_string()),
        time_interval: TimeInterval {
            start: "2026-03-15T09:00:00Z".to_string(),
            end: end.map(|e| e.to_string()),
            duration: dur.map(|d| d.to_string()),
        },
    }
}

fn state_with(entries: Vec<TimeEntry>) -> AppState {
    let mut s = AppState::new(day(2026, 3, 18));
    s.apply_action(Action::SetWorkspaces(vec![Workspace { id: "w1".to_string(), name: "Main".to_string() }]));
    s.selected_workspace_id = Some("w1".to_string());
    s.apply_action(Action::SetProjects(vec![
        Project { id: "p1".to_string(), name: "Alpha".to_string(), client_id: None, color: "#000".to_string() },
        Project { id: "p2".to_string(), name: "A very long project name indeed".to_string(), client_id: None, color: "#111".to_string() },
    ]));
    s.time_entries = entries;
    s.loading = false;
    s
}

fn clocks_on(days: &[(Date, u32, u32)]) -> Vec<EntryClock> {
    days.iter()
        .map(|&(d, h, m)| EntryClock { start: Some(stamp(d, h, m)), end: Some(Some(stamp(d, h + 1, m))) })
        .collect()
}

#[test]
fn header_shows_workspace_and_timer() {
    let mut s = state_with(vec![entry(Some("Coding"), None, None, None)]);
    assert_eq!(header_title(&s), " Clockify TUI  |  Workspace: Main  |  Status: ● Tracking: Coding");
    s.time_entries = vec![entry(None, None, Some("2026-03-15T10:00:00Z"), None)];
    assert_eq!(header_title(&s), " Clockify TUI  |  Workspace: Main  |  Status: ○ Idle");
    s.selected_workspace_id = None;
    assert_eq!(header_title(&s), " Clockify TUI  |  Workspace: No Workspace selected  |  Status: ○ Idle");
    s.time_entries = vec![entry(None, None, None, None)];
    assert!(header_title(&s).ends_with("Tracking: No description"));
}

#[test]
fn footer_shows_error_status_and_loading() {
    let mut s = state_with(vec![]);
    s.status_message = None;
    assert!(footer_text(&s).starts_with("System Ready | Keys: [Tab] Focus Panel"));
    assert!(footer_text(&s).ends_with("[Esc/q] Quit "));
    s.status_message = Some("Saved".to_string());
    assert!(footer_text(&s).starts_with("Saved | Keys"));
    s.error = Some("bad".to_string());
    s.loading = true;
    let f = footer_text(&s);
    assert!(f.starts_with("Error: bad | Keys"));
    assert!(f.ends_with("Quit  [LOADING...] "));
}

#[test]
fn sidebar_boxes_and_rows() {
    let mut s = state_with(vec![]);
    let f = sidebar_focus(&s);
    assert!(f.views && !f.workspaces && !f.projects);
    s.sidebar_selection = 4;
    let f = sidebar_focus(&s);
    assert!(!f.views && f.workspaces && !f.projects);
    s.sidebar_selection = 6;
    assert!(sidebar_focus(&s).projects);
    s.focus = Focus::Calendar;
    let f = sidebar_focus(&s);
    assert!(!f.views && !f.workspaces && !f.projects);
    s.active_tab = ActiveTab::Month;
    let items = nav_items(&s);
    assert_eq!(items.len(), 4);
    assert_eq!(items[0].label, "  Day View");
    assert_eq!(items[2].label, "▶ Month View");
    assert!(items[2].selected && !items[2].hovered);
    let rows = project_rows(&s);
    assert_eq!(rows, vec!["[All Projects]", "Alpha", "A very long project name indeed"]);
}

#[test]
fn timer_box_running_and_idle() {
    let mut s = state_with(vec![entry(Some("A description longer than fits"), Some("p2"), None, None)]);
    let b = timer_box(&s, "00:12:00");
    assert!(b.running);
    assert_eq!(b.text, " ● RUNNING  00:12:00\n A description longer..\n [A very long project ..]");
    s.time_entries = vec![entry(None, Some("zz"), None, None)];
    assert_eq!(timer_box(&s, "x").text, " ● RUNNING  x\n (No description)\n [Unknown Project]");
    s.time_entries = vec![entry(None, None, None, None)];
    assert_eq!(timer_box(&s, "x").text, " ● RUNNING  x\n (No description)\n [No Project]");
    s.time_entries = vec![];
    let b = timer_box(&s, "x");
    assert!(!b.running);
    assert_eq!(b.text, " ○ IDLE\n No active timer\n Press [s] to start");
}

#[test]
fn titles_name_the_filter() {
    let mut s = state_with(vec![]);
    assert_eq!(project_filter_suffix(&s), "");
    assert_eq!(day_view_title(&s), " Daily Scheduler - Wednesday, Mar 18, 2026 ");
    assert_eq!(week_view_title(&s), " Weekly View - Week 12 (2026) ");
    assert_eq!(month_view_title(&s), " Calendar View - March 2026  ");
    assert_eq!(dashboard_title(&s), " Dashboard Stats ");
    s.selected_project_id = Some("p1".to_string());
    assert_eq!(project_filter_suffix(&s), " [Project: Alpha] ");
    assert_eq!(dashboard_title(&s), " Dashboard Stats [Project: Alpha]  ");
    s.selected_project_id = Some("nope".to_string());
    assert_eq!(project_filter_suffix(&s), " [Project: Unknown] ");
}

#[test]
fn quick_stats_prefix() {
    let mut s = state_with(vec![]);
    assert_eq!(quick_stats_text(&s), " Project:  All Projects\n Date:     2026-03-18\n Today:    ");
    s.selected_project_id = Some("p2".to_string());
    assert_eq!(quick_stats_text(&s), " Project:  A very long projec..\n Date:     2026-03-18\n Today:    ");
}

#[test]
fn duration_labels() {
    assert_eq!(format_duration_label("PT1H30M"), "1h 30m");
    assert_eq!(format_duration_label("PT2H"), "2h");
    assert_eq!(format_duration_label("PT45M"), "45m");
    assert_eq!(format_duration_label(""), "");
}

#[test]
fn minutes_per_day_range_and_filter() {
    let es = vec![
        entry(Some("a"), Some("p1"), Some("x"), Some("PT1H")),
        entry(Some("b"), Some("p2"), Some("x"), Some("PT30M")),
        entry(Some("c"), Some("p1"), Some("x"), None),
        entry(Some("d"), Some("p1"), Some("x"), Some("PT15M")),
    ];
    let cs = clocks_on(&[(day(2026, 3, 16), 9, 0), (day(2026, 3, 16), 11, 0), (day(2026, 3, 16), 12, 0), (day(2026, 3, 17), 9, 0)]);
    let d16 = day(2026, 3, 16).days;
    let d17 = day(2026, 3, 17).days;
    assert_eq!(minutes_between(&es, &cs, d16, d16, &None), Some(90));
    assert_eq!(minutes_between(&es, &cs, d16, d17, &None), Some(105));
    assert_eq!(minutes_between(&es, &cs, d16, d17, &Some("p1".to_string())), Some(75));
    assert_eq!(minutes_between(&es, &cs, d17 + 1, d17 + 5, &None), Some(0));
    // an unreadable start never counts
    let cs2 = vec![EntryClock { start: None, end: None }; 4];
    assert_eq!(minutes_between(&es, &cs2, d16, d17, &None), Some(0));
}

#[test]
fn minutes_overflow_is_reported() {
    let es = vec![
        entry(None, None, Some("x"), Some("PT307445734561825860H")),
        entry(None, None, Some("x"), Some("PT307445734561825860H")),
    ];
    let d = day(2026, 3, 16);
    let cs = clocks_on(&[(d, 9, 0), (d, 10, 0)]);
    assert_eq!(minutes_between(&es, &cs, d.days, d.days, &None), None);
}

#[test]
fn day_view_lists_the_selected_day() {
    let es = vec![
        entry(Some("a"), Some("p1"), Some("x"), Some("PT1H30M")),
        entry(Some("b"), None, None, None),
        entry(None, Some("p2"), Some("x"), Some("PT5M")),
    ];
    let s = state_with(es);
    let d = day(2026, 3, 18);
    let cs = vec![
        EntryClock { start: Some(stamp(d, 9, 5)), end: Some(Some(stamp(d, 10, 35))) },
        EntryClock { start: Some(stamp(d, 11, 0)), end: None },
        EntryClock { start: Some(stamp(day(2026, 3, 17), 8, 0)), end: Some(None) },
    ];
    let rows = day_view_rows(&s, &cs);
    assert_eq!(rows.len(), 2);
    assert_eq!(rows[0].project, "[Alpha] ");
    assert_eq!(rows[0].span, "09:05 - 10:35 ");
    assert_eq!(rows[0].duration, "(1h 30m) ");
    assert_eq!(rows[0].description, "a");
    assert_eq!(rows[1].project, "[No Project] ");
    assert_eq!(rows[1].span, "11:00 - Ongoing ");
    assert_eq!(rows[1].duration, "() ");
    let mut filtered = state_with(s.time_entries.clone());
    filtered.selected_project_id = Some("p1".to_string());
    assert_eq!(day_view_rows(&filtered, &cs).len(), 1);
}

#[test]
fn week_view_columns() {
    let es = vec![
        entry(Some("Monday task with long name"), None, Some("x"), Some("PT2H")),
        entry(None, None, Some("x"), Some("PT30M")),
    ];
    let mut s = state_with(es);
    s.focus = Focus::Calendar;
    let cs = clocks_on(&[(day(2026, 3, 16), 9, 0), (day(2026, 3, 18), 9, 0)]);
    let cols = week_columns(&s, &cs).unwrap();
    assert_eq!(cols.len(), 7);
    assert_eq!(cols[0].date, day(2026, 3, 16));
    assert_eq!(cols[0].minutes, 120);
    assert_eq!(cols[0].heading, "Mon\n16");
    assert_eq!(cols[0].summaries, vec!["• Monday tas.."]);
    assert_eq!(cols[2].minutes, 30);
    assert!(cols[2].selected);
    assert_eq!(cols[2].heading, "▶ Wed\n18");
    assert_eq!(cols[2].summaries, vec!["• Untracked"]);
    assert_eq!(cols[6].date, day(2026, 3, 22));
    assert_eq!(cols[6].minutes, 0);
    let week_total: u64 = cols.iter().map(|c| c.minutes).sum();
    assert_eq!(minutes_between(&s.time_entries, &cs, day(2026, 3, 16).days, day(2026, 3, 22).days, &None), Some(week_total));
}

#[test]
fn week_summaries_stop_at_six() {
    let es: Vec<TimeEntry> = (0..8).map(|_| entry(Some("t"), None, Some("x"), None)).collect();
    let s = state_with(es);
    let cs = clocks_on(&[(day(2026, 3, 18), 9, 0); 8]);
    let cols = week_columns(&s, &cs).unwrap();
    assert_eq!(cols[2].summaries.len(), 6);
}

#[test]
fn month_grid_layout() {
    // February 2026 starts on a Sunday and has 28 days
    let g = month_grid(day(2026, 2, 10)).unwrap();
    assert_eq!(g.len(), 35);
    assert!(g[..6].iter().all(|c| c.is_none()));
    assert_eq!(g[6], Some(day(2026, 2, 1)));
    assert_eq!(g[33], Some(day(2026, 2, 28)));
    assert_eq!(g[34], None);
    // June 2026 starts on a Monday and has 30 days
    let g = month_grid(day(2026, 6, 30)).unwrap();
    assert_eq!(g.len(), 35);
    assert_eq!(g[0], Some(day(2026, 6, 1)));
    assert_eq!(g[29], Some(day(2026, 6, 30)));
    // March 2026 starts on a Sunday and has 31 days: six weeks
    assert_eq!(month_grid(day(2026, 3, 1)).unwrap().len(), 42);
    // leap February
    assert_eq!(month_grid(day(2024, 2, 5)).unwrap().iter().filter(|c| c.is_some()).count(), 29);
    // the last month of the calendar has no next month to end it
    assert!(month_grid(day(clockify_tui::date::MAX_YEAR, 12, 5)).is_none());
    assert!(month_grid(day(clockify_tui::date::MAX_YEAR, 11, 5)).is_some());
}

#[test]
fn month_view_cells() {
    let es = vec![entry(None, None, Some("x"), Some("PT45M"))];
    let mut s = state_with(es);
    s.focus = Focus::Calendar;
    let cs = clocks_on(&[(day(2026, 3, 18), 9, 0)]);
    let cells = month_cells(&s, &cs, day(2026, 3, 20)).unwrap();
    assert_eq!(cells.len(), 42);
    assert!(cells[..6].iter().all(|c| c.is_none()));
    let c18 = cells[6 + 17].as_ref().unwrap();
    assert_eq!(c18.date, day(2026, 3, 18));
    assert_eq!(c18.minutes, 45);
    assert!(c18.selected && !c18.today);
    assert_eq!(c18.label, "▶ 18");
    let c20 = cells[6 + 19].as_ref().unwrap();
    assert!(c20.today && !c20.selected);
    assert_eq!(c20.label, "20");
    assert_eq!(c20.minutes, 0);
}

#[test]
fn dashboard_sums_today_week_month() {
    let es = vec![
        entry(None, Some("p1"), Some("x"), Some("PT1H")),
        entry(None, Some("p1"), Some("x"), Some("PT2H")),
        entry(None, Some("p2"), Some("x"), Some("PT4H")),
        entry(None, Some("p1"), Some("x"), Some("PT8H")),
    ];
    let mut s = state_with(es);
    // today is Wednesday 2026-03-18
    let cs = clocks_on(&[
        (day(2026, 3, 18), 9, 0),
        (day(2026, 3, 16), 9, 0),
        (day(2026, 3, 2), 9, 0),
        (day(2026, 3, 19), 9, 0),
    ]);
    let t = dashboard_totals(&s, &cs, day(2026, 3, 18)).unwrap();
    assert_eq!((t.today, t.week, t.month), (60, 180, 420));
    s.selected_project_id = Some("p1".to_string());
    let t = dashboard_totals(&s, &cs, day(2026, 3, 18)).unwrap();
    assert_eq!((t.today, t.week, t.month), (60, 180, 180));
}

#[test]
fn entry_clock_reads_local_time() {
    let e = entry(None, None, Some("not a time"), None);
    let c = entry_clock(&e);
    let local = DateTime::parse_from_rfc3339("2026-03-15T09:00:00Z").unwrap().with_timezone(&Local);
    let t = c.start.unwrap();
    assert_eq!(t.day.days, local.date_naive().num_days_from_ce());
    assert_eq!((t.hour, t.minute), (local.hour(), local.minute()));
    assert_eq!(c.end, Some(None));
    let running = entry(None, None, None, None);
    assert_eq!(entry_clock(&running).end, None);
    let mut broken = entry(None, None, None, None);
    broken.time_interval.start = "yesterday".to_string();
    assert_eq!(entry_clock(&broken).start, None);
    assert_eq!(entry_clocks(&vec![running, broken]).len(), 2);
}

#[test]
fn elapsed_clock_of_timestamps() {
    assert_eq!(get_elapsed_time_string("garbage"), "00:00:00");
    assert_eq!(get_elapsed_time_string("2999-01-01T00:00:00Z"), "00:00:00");
    let past = get_elapsed_time_string("2020-01-01T00:00:00Z");
    assert!(past.len() >= 8 && past != "00:00:00");
}

#[test]
fn endpoints() {
    assert_eq!(user_url(), "https://api.clockify.me/api/v1/user");
    assert_eq!(workspaces_url(), "https://api.clockify.me/api/v1/workspaces");
    assert_eq!(projects_url("w1"), "https://api.clockify.me/api/v1/workspaces/w1/projects?page-size=1000");
    assert_eq!(
        time_entries_url("w1", "u1", "2026-06-12T00:00:00Z", "2026-06-26T23:59:59Z"),
        "https://api.clockify.me/api/v1/workspaces/w1/user/u1/time-entries?start=2026-06-12T00:00:00Z&end=2026-06-26T23:59:59Z&page-size=1000"
    );
    assert_eq!(new_time_entry_url("w1"), "https://api.clockify.me/api/v1/workspaces/w1/time-entries");
    assert_eq!(stop_timer_url("w1", "u1"), "https://api.clockify.me/api/v1/workspaces/w1/user/u1/time-entries");
}

#[test]
fn request_bodies() {
    let r = start_timer_request("2026-01-01T00:00:00Z", Some("p1"), "Tracked");
    assert_eq!(r.start, "2026-01-01T00:00:00Z");
    assert_eq!(r.end, None);
    assert_eq!(r.project_id.as_deref(), Some("p1"));
    assert_eq!(r.description, "Tracked");
    let r = create_entry_request("a", "b", None, "d");
    assert_eq!(r.end.as_deref(), Some("b"));
    assert_eq!(r.project_id, None);
    assert_eq!(stop_timer_request("z").end, "z");
}

#[test]
fn config_api_key() {
    let mut c = Config::default();
    assert_eq!(c.api_key_for_run().unwrap_err(), ConfigError::MissingApiKey);
    c.active_workspace_id = Some("w".to_string());
    c.set_api_key("  secret-key \n");
    assert_eq!(c.api_key.as_deref(), Some("secret-key"));
    assert_eq!(c.active_workspace_id.as_deref(), Some("w"));
    assert_eq!(c.api_key_for_run().unwrap(), "secret-key");
    c.set_api_key("\u{3000}\u{a0}key with space\u{2009}\t");
    assert_eq!(c.api_key.as_deref(), Some("key with space"));
}

#[test]
fn entry_form_is_centred() {
    let screen = Rect { x: 0, y: 0, width: 120, height: 40 };
    let rows = Layout::default()
        .direction(Direction::Vertical)
        .constraints([Constraint::Percentage(27), Constraint::Percentage(45), Constraint::Percentage(27)])
        .split(screen);
    let expected = Layout::default()
        .direction(Direction::Horizontal)
        .constraints([Constraint::Percentage(25), Constraint::Percentage(50), Constraint::Percentage(25)])
        .split(rows[1])[1];
    let got = centered_rect(50, 45, Area { x: 0, y: 0, width: 120, height: 40 });
    assert_eq!((got.x, got.y, got.width, got.height), (expected.x, expected.y, expected.width, expected.height));
    assert!(got.width > 0 && got.width < 120 && got.x > 0);
}

#[test]
fn grid_layout_blanks_days_and_padding() {
    let first = day(2026, 4, 1);
    let g = grid_layout(first, 2, 30);
    assert_eq!(g.len(), 35);
    assert_eq!(g[0], None);
    assert_eq!(g[1], None);
    assert_eq!(g[2], Some(first));
    assert_eq!(g[31], Some(Date { days: first.days + 29 }));
    assert!(g[32..].iter().all(|c| c.is_none()));
    assert_eq!(grid_layout(first, 0, 28).len(), 28);
    assert_eq!(grid_layout(first, 6, 31).len(), 42);
}

#[test]
fn quick_stats_today_follows_project_filter() {
    let es = vec![
        entry(Some("a"), Some("p1"), Some("x"), Some("PT1H")),
        entry(Some("b"), Some("p2"), Some("x"), Some("PT30M")),
        entry(Some("c"), None, Some("x"), Some("PT15M")),
        entry(Some("d"), Some("p1"), Some("x"), Some("PT2H")),
    ];
    let today = day(2026, 3, 18);
    let cs = clocks_on(&[(today, 9, 0), (today, 11, 0), (today, 12, 0), (day(2026, 3, 17), 9, 0)]);
    let mut s = state_with(es);
    assert_eq!(quick_stats_minutes(&s, &cs, today), Some(105));
    s.selected_project_id = Some("p1".to_string());
    assert_eq!(quick_stats_minutes(&s, &cs, today), Some(60));
    s.selected_project_id = Some("p2".to_string());
    assert_eq!(quick_stats_minutes(&s, &cs, today), Some(30));
    assert_eq!(quick_stats_minutes(&s, &cs, day(2026, 3, 19)), Some(0));
}

#[test]
fn week_columns_run_monday_to_sunday() {
    for (y, m, d) in [(2026, 3, 16), (2026, 3, 22), (2024, 2, 29), (2000, 1, 1), (1, 1, 1)] {
        let mut s = state_with(vec![]);
        s.selected_date = day(y, m, d);
        let cols = week_columns(&s, &vec![]).unwrap();
        for (k, c) in cols.iter().enumerate() {
            let nd = NaiveDate::from_num_days_from_ce_opt(c.date.days).unwrap();
            assert_eq!(nd.weekday().num_days_from_monday() as usize, k);
        }
        assert_eq!(cols.iter().filter(|c| c.selected).count(), 1);
    }
}
