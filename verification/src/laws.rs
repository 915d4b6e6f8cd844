//! Properties of the client that hold across calls: keys that undo each
//! other, navigation that lands where it should, and totals that add up.
use crate::state::{
    action_done, key_done, main_key_done, modal_key_done, sidebar_applied, sidebar_total, timer_command_for,
    utf8_len, Action, ActiveTab, AppState, Command, Focus, Key,
    LocalNow,
};
use crate::text::{
    all_digits, clock_value, decimal, digit_char, digit_value, digits_value, is_ascii_digit,
    iso_duration_minutes, iso_scan, only_colon_at, pad2, parsed_or_zero, truncated, u32_text_value,
    unsigned_digits, clock_text, elapsed_text,
};
use crate::totals::{minutes_in, total_minutes, EntryClock};
use crate::models::TimeEntry;
use crate::date::{chrono_day, chrono_month};
use vstd::prelude::*;

verus! {

// ---------------------------------------------------------------------
// Keys
// ---------------------------------------------------------------------

/// Pressing Tab twice with the entry form closed gives back the state it
/// started from.
pub proof fn law_tab_twice_restores(
    o: AppState,
    m: AppState,
    f: AppState,
    now: LocalNow,
    c1: Command,
    c2: Command,
)
    requires
        !o.show_input_modal,
        main_key_done(o, m, Key::Tab, now, c1),
        main_key_done(m, f, Key::Tab, now, c2),
    ensures
        !m.show_input_modal,
        f == o,
{
}

/// In the entry form, Down then Up gives back the state it started from.
pub proof fn law_modal_down_then_up_restores(o: AppState, m: AppState, f: AppState, c1: Command, c2: Command)
    requires
        o.active_modal_field < 3,
        modal_key_done(o, m, Key::Down, c1),
        modal_key_done(m, f, Key::Up, c2),
    ensures
        f == o,
{
}

/// In the entry form, three Tabs cycle through the fields back to the start.
pub proof fn law_modal_three_tabs_restore(
    o: AppState,
    a: AppState,
    b: AppState,
    f: AppState,
    c1: Command,
    c2: Command,
    c3: Command,
)
    requires
        o.active_modal_field < 3,
        modal_key_done(o, a, Key::Tab, c1),
        modal_key_done(a, b, Key::Tab, c2),
        modal_key_done(b, f, Key::Tab, c3),
    ensures
        f == o,
{
}

/// With the calendar focused, Left then Right gives back the starting state,
/// and so does Up then Down.
pub proof fn law_calendar_moves_undo(
    o: AppState,
    m: AppState,
    f: AppState,
    m2: AppState,
    f2: AppState,
    now: LocalNow,
    c1: Command,
    c2: Command,
    c3: Command,
    c4: Command,
)
    requires
        !o.show_input_modal,
        o.focus == Focus::Calendar,
        o.selected_date.valid(),
        main_key_done(o, m, Key::Left, now, c1),
        main_key_done(m, f, Key::Right, now, c2),
        main_key_done(o, m2, Key::Up, now, c3),
        main_key_done(m2, f2, Key::Down, now, c4),
    ensures
        !m.show_input_modal && m.focus == Focus::Calendar,
        m.selected_date.days == o.selected_date.days - 1,
        f == o,
        f2 == o,
{
}

/// From the sidebar in the day and week views, Left then Right gives back
/// the starting state.
pub proof fn law_sidebar_day_week_moves_undo(
    o: AppState,
    m: AppState,
    f: AppState,
    now: LocalNow,
    c1: Command,
    c2: Command,
)
    requires
        !o.show_input_modal,
        o.focus == Focus::Sidebar,
        o.active_tab == ActiveTab::Day || o.active_tab == ActiveTab::Week,
        o.selected_date.valid(),
        main_key_done(o, m, Key::Left, now, c1),
        main_key_done(m, f, Key::Right, now, c2),
    ensures
        f == o,
{
}

/// In the sidebar, Down then Up brings the cursor back to its row, and both
/// keep it on a row that exists.
pub proof fn law_sidebar_down_then_up(
    o: AppState,
    m: AppState,
    f: AppState,
    now: LocalNow,
    c1: Command,
    c2: Command,
)
    requires
        !o.show_input_modal,
        o.focus == Focus::Sidebar,
        o.wf(),
        o.sidebar_selection < sidebar_total(o.workspaces@.len(), o.projects@.len()),
        main_key_done(o, m, Key::Down, now, c1),
        main_key_done(m, f, Key::Up, now, c2),
    ensures
        !m.show_input_modal && m.focus == Focus::Sidebar,
        m.sidebar_selection < sidebar_total(o.workspaces@.len(), o.projects@.len()),
        f.sidebar_selection == o.sidebar_selection,
{
    let total = sidebar_total(o.workspaces@.len(), o.projects@.len()) as int;
    let sel = o.sidebar_selection as int;
    if sel + 1 < total {
        assert((sel + 1) % total == sel + 1) by (nonlinear_arith)
            requires
                0 <= sel + 1 < total,
        ;
    } else {
        assert((sel + 1) % total == 0) by (nonlinear_arith)
            requires
                sel + 1 == total,
                total > 0,
        ;
    }
    let down = ((o.sidebar_selection as int + 1) % total) as usize;
    assert(m.workspaces == o.workspaces && m.projects == o.projects);
    assert(m.sidebar_selection == down);
    let up = (if down > 0 { down - 1 } else { total - 1 }) as usize;
    assert(f.sidebar_selection == up);
    assert(up == o.sidebar_selection);
}

// ---------------------------------------------------------------------
// What single keys do
// ---------------------------------------------------------------------

/// With the entry form closed, the arrows move the selected date by the
/// view's step and ask for a refresh, leaving everything else as it was:
/// Left and Right move one day with the calendar focused and, from the
/// sidebar, one day in the day and dashboard views and seven in the week
/// view; in the month view they land on the first day of the previous or
/// next month.  Up and Down with the calendar focused move seven days in the
/// week and month grids and one day otherwise.
pub proof fn law_arrow_steps(o: AppState, f: AppState, now: LocalNow, key: Key, c: Command)
    requires
        !o.show_input_modal,
        o.selected_date.valid(),
        key_done(o, f, key, now, c),
    ensures
        key == Key::Left && (o.focus == Focus::Calendar || o.active_tab == ActiveTab::Day
            || o.active_tab == ActiveTab::Dashboard) ==> f.selected_date.days == o.selected_date.days
            - 1,
        key == Key::Right && (o.focus == Focus::Calendar || o.active_tab == ActiveTab::Day
            || o.active_tab == ActiveTab::Dashboard) ==> f.selected_date.days == o.selected_date.days
            + 1,
        key == Key::Left && o.focus == Focus::Sidebar && o.active_tab == ActiveTab::Week
            ==> f.selected_date.days == o.selected_date.days - 7,
        key == Key::Right && o.focus == Focus::Sidebar && o.active_tab == ActiveTab::Week
            ==> f.selected_date.days == o.selected_date.days + 7,
        key == Key::Left && o.focus == Focus::Sidebar && o.active_tab == ActiveTab::Month
            ==> chrono_day(f.selected_date.days as int) == 1 && chrono_month(
            f.selected_date.days as int,
        ) == (if chrono_month(o.selected_date.days as int) == 1 {
            12
        } else {
            chrono_month(o.selected_date.days as int) - 1
        }),
        key == Key::Right && o.focus == Focus::Sidebar && o.active_tab == ActiveTab::Month
            ==> chrono_day(f.selected_date.days as int) == 1 && chrono_month(
            f.selected_date.days as int,
        ) == (if chrono_month(o.selected_date.days as int) == 12 {
            1
        } else {
            chrono_month(o.selected_date.days as int) + 1
        }),
        key == Key::Up && o.focus == Focus::Calendar ==> f.selected_date.days == o.selected_date.days
            - (if o.active_tab == ActiveTab::Week || o.active_tab == ActiveTab::Month {
            7int
        } else {
            1int
        }),
        key == Key::Down && o.focus == Focus::Calendar ==> f.selected_date.days
            == o.selected_date.days + (if o.active_tab == ActiveTab::Week || o.active_tab
            == ActiveTab::Month {
            7int
        } else {
            1int
        }),
        (key == Key::Left || key == Key::Right || ((key == Key::Up || key == Key::Down) && o.focus
            == Focus::Calendar)) ==> c is RefreshLogs && (f == AppState {
            selected_date: f.selected_date,
            ..o
        }),
{
}

/// The timer key with a workspace selected stops the timer when any listed
/// entry, wherever it stands in the list, has no end; the stop is sent for
/// the selected workspace and the loaded user.  The state is unchanged.
pub proof fn law_timer_key_stops_a_running_entry(
    o: AppState,
    f: AppState,
    now: LocalNow,
    c: Command,
    i: int,
)
    requires
        !o.show_input_modal,
        0 <= i < o.time_entries@.len(),
        o.time_entries@[i].time_interval.end is None,
        key_done(o, f, Key::Char('s'), now, c),
    ensures
        f == o,
        o.selected_workspace_id is None ==> c is Nothing,
        (o.selected_workspace_id matches Some(ws) ==> (c matches Command::StopTimer {
            workspace_id,
            user_id,
        } && workspace_id == ws && (o.user matches Some(u) ==> user_id@ == u.id@))),
{
    law_timer_command_stops_a_running_entry(o, c, i);
}

/// `AppState::timer_command` stops the timer when any listed entry, wherever
/// it stands, has no end (with a workspace selected).
pub proof fn law_timer_command_stops_a_running_entry(o: AppState, c: Command, i: int)
    requires
        0 <= i < o.time_entries@.len(),
        o.time_entries@[i].time_interval.end is None,
        timer_command_for(o, c),
    ensures
        o.selected_workspace_id is None ==> c is Nothing,
        (o.selected_workspace_id matches Some(ws) ==> (c matches Command::StopTimer {
            workspace_id,
            user_id,
        } && workspace_id == ws && (o.user matches Some(u) ==> user_id@ == u.id@))),
{
    assert(o.time_entries@[i].is_running());
}

/// `AppState::timer_command` starts a timer on the selected project when
/// every listed entry has an end (with a workspace selected).
pub proof fn law_timer_command_starts_when_none_runs(o: AppState, c: Command)
    requires
        forall|i: int| 0 <= i < o.time_entries@.len() ==> (#[trigger] o.time_entries@[i]).time_interval.end is Some,
        timer_command_for(o, c),
    ensures
        o.selected_workspace_id is None ==> c is Nothing,
        (o.selected_workspace_id matches Some(ws) ==> (c matches Command::StartTimer {
            workspace_id,
            project_id,
            description,
        } && workspace_id == ws && project_id == o.selected_project_id)),
{
}

/// In the entry form, Backspace removes the last character of the field
/// being edited (description, start time or end time, by the active field)
/// and of no other; an empty field stays empty.  Nothing else changes.
pub proof fn law_form_backspace(o: AppState, f: AppState, now: LocalNow, c: Command)
    requires
        o.show_input_modal,
        key_done(o, f, Key::Backspace, now, c),
    ensures
        c is Nothing,
        f.show_input_modal && f.active_modal_field == o.active_modal_field,
        f.selected_date == o.selected_date,
        o.active_modal_field == 0 ==> f.modal_start_time == o.modal_start_time && f.modal_end_time
            == o.modal_end_time && f.modal_description@ == (if o.modal_description@.len() == 0 {
            o.modal_description@
        } else {
            o.modal_description@.subrange(0, o.modal_description@.len() - 1)
        }),
        o.active_modal_field == 1 ==> f.modal_description == o.modal_description && f.modal_end_time
            == o.modal_end_time && f.modal_start_time@ == (if o.modal_start_time@.len() == 0 {
            o.modal_start_time@
        } else {
            o.modal_start_time@.subrange(0, o.modal_start_time@.len() - 1)
        }),
        o.active_modal_field != 0 && o.active_modal_field != 1 ==> f.modal_description
            == o.modal_description && f.modal_start_time == o.modal_start_time && f.modal_end_time@
            == (if o.modal_end_time@.len() == 0 {
            o.modal_end_time@
        } else {
            o.modal_end_time@.subrange(0, o.modal_end_time@.len() - 1)
        }),
{
}

/// In the entry form, a typed character is appended to the field being
/// edited and to no other: always to the description, and to a time field
/// only while it holds fewer than five bytes.  Nothing else changes.
pub proof fn law_form_typing(o: AppState, f: AppState, now: LocalNow, ch: char, c: Command)
    requires
        o.show_input_modal,
        utf8_len(o.modal_start_time@) <= usize::MAX,
        utf8_len(o.modal_end_time@) <= usize::MAX,
        key_done(o, f, Key::Char(ch), now, c),
    ensures
        c is Nothing,
        f.show_input_modal && f.active_modal_field == o.active_modal_field,
        o.active_modal_field == 0 ==> f.modal_start_time == o.modal_start_time && f.modal_end_time
            == o.modal_end_time && f.modal_description@ == o.modal_description@ + seq![ch],
        o.active_modal_field == 1 ==> f.modal_description == o.modal_description && f.modal_end_time
            == o.modal_end_time && f.modal_start_time@ == (if utf8_len(o.modal_start_time@) < 5 {
            o.modal_start_time@ + seq![ch]
        } else {
            o.modal_start_time@
        }),
        o.active_modal_field != 0 && o.active_modal_field != 1 ==> f.modal_description
            == o.modal_description && f.modal_start_time == o.modal_start_time && f.modal_end_time@
            == (if utf8_len(o.modal_end_time@) < 5 {
            o.modal_end_time@ + seq![ch]
        } else {
            o.modal_end_time@
        }),
{
    assert(o.modal_description@.push(ch) =~= o.modal_description@ + seq![ch]);
    assert(o.modal_start_time@.push(ch) =~= o.modal_start_time@ + seq![ch]);
    assert(o.modal_end_time@.push(ch) =~= o.modal_end_time@ + seq![ch]);
}

/// Applying a sidebar row shows the view named on it: row 0 the day view,
/// row 1 the week view, row 2 the month view and row 3 the dashboard, and
/// asks for nothing.  A workspace row selects that workspace, asking for its
/// data when it was not the selected one; the "[All Projects]" row clears the
/// project filter and a project row filters by that project.
pub proof fn law_sidebar_rows(o: AppState, f: AppState, c: Command)
    requires
        sidebar_applied(o, f, c),
    ensures
        o.sidebar_selection == 0 ==> f.active_tab == ActiveTab::Day,
        o.sidebar_selection == 1 ==> f.active_tab == ActiveTab::Week,
        o.sidebar_selection == 2 ==> f.active_tab == ActiveTab::Month,
        o.sidebar_selection == 3 ==> f.active_tab == ActiveTab::Dashboard,
        o.sidebar_selection < 4 ==> f.sidebar_index == o.sidebar_selection && f.selected_date
            == o.selected_date && c is Nothing,
        o.sidebar_selection >= 4 ==> f.active_tab == o.active_tab,
        ({
            let k = o.sidebar_selection - 4;
            0 <= k < o.workspaces@.len() ==> (f.selected_workspace_id matches Some(w) && w@
                == o.workspaces@[k].id@ && (c is FetchWorkspace <==> !(o.selected_workspace_id
                matches Some(cur) && cur@ == o.workspaces@[k].id@)))
        }),
        ({
            let k = o.sidebar_selection - 4 - o.workspaces@.len();
            &&& k == 0 ==> f.selected_project_id is None
            &&& 1 <= k <= o.projects@.len() ==> f.selected_project_id == Some(o.projects@[k - 1].id)
        }),
{
}

/// With the entry form closed: Esc and `q` quit without touching the state,
/// Tab hands the arrows to the other panel, `t` selects today and asks for a
/// refresh, and a letter without a meaning changes nothing.  In the sidebar,
/// Down moves the cursor to the next row, wrapping from the last to the
/// first (from a row that exists), and Up to the previous row, wrapping from
/// the first to the last.
pub proof fn law_main_keys(o: AppState, f: AppState, now: LocalNow, key: Key, c: Command)
    requires
        !o.show_input_modal,
        o.wf(),
        key_done(o, f, key, now, c),
    ensures
        (key == Key::Esc || key == Key::Char('q')) ==> c is Quit && f == o,
        key == Key::Tab ==> c is Nothing && f.focus != o.focus && (f == AppState {
            focus: f.focus,
            ..o
        }),
        key == Key::Char('t') ==> c is RefreshLogs && f.selected_date == now.today && f.focus
            == o.focus && f.active_tab == o.active_tab,
        (key matches Key::Char(ch) && ch != 'q' && ch != 'n' && ch != 't' && ch != 's') ==> c is Nothing
            && f == o,
        key == Key::Down && o.focus == Focus::Sidebar && o.sidebar_selection < o.workspaces@.len()
            + o.projects@.len() + 5 ==> f.sidebar_selection == (if o.sidebar_selection
            + 1 < o.workspaces@.len() + o.projects@.len() + 5 {
            o.sidebar_selection + 1
        } else {
            0int
        }),
        key == Key::Up && o.focus == Focus::Sidebar ==> f.sidebar_selection == (if o.sidebar_selection
            > 0 {
            o.sidebar_selection - 1
        } else {
            o.workspaces@.len() + o.projects@.len() + 4int
        }),
{
    if key == Key::Down && o.focus == Focus::Sidebar {
        let total: int = o.workspaces@.len() + o.projects@.len() + 5int;
        let sel = o.sidebar_selection as int;
        if sel + 1 < total {
            assert((sel + 1) % total == sel + 1) by (nonlinear_arith)
                requires
                    0 <= sel + 1 < total,
            ;
        } else if sel + 1 == total {
            assert((sel + 1) % total == 0) by (nonlinear_arith)
                requires
                    sel + 1 == total,
                    total > 0,
            ;
        }
    }
}

/// In the entry form: Esc closes it without logging anything, Tab and Down
/// move to the next of the three fields and Up to the previous one, wrapping
/// around; the texts are kept.
pub proof fn law_form_keys(o: AppState, f: AppState, now: LocalNow, key: Key, c: Command)
    requires
        o.show_input_modal,
        o.active_modal_field < 3,
        key_done(o, f, key, now, c),
    ensures
        key == Key::Esc ==> c is Nothing && !f.show_input_modal && (f == AppState {
            show_input_modal: false,
            ..o
        }),
        (key == Key::Tab || key == Key::Down) ==> c is Nothing && f.active_modal_field == (if o.active_modal_field
            == 2 {
            0
        } else {
            o.active_modal_field + 1
        }) && f.modal_description == o.modal_description && f.modal_start_time == o.modal_start_time
            && f.modal_end_time == o.modal_end_time && f.show_input_modal,
        key == Key::Up ==> c is Nothing && f.active_modal_field == (if o.active_modal_field == 0 {
            2
        } else {
            o.active_modal_field - 1
        }) && f.modal_description == o.modal_description && f.modal_start_time == o.modal_start_time
            && f.modal_end_time == o.modal_end_time && f.show_input_modal,
        key == Key::Enter ==> !f.show_input_modal,
{
}

/// Background results: the profile picks the user's default workspace only
/// when none is selected; a new entry list replaces the old one and ends the
/// loading; an error is shown and ends the loading; a refresh with a
/// workspace selected asks for the loaded user's entries from 31 days before
/// to 31 days after the selected date, and without one asks for nothing.
pub proof fn law_background_results(o: AppState, f: AppState, a: Action, c: Command)
    requires
        action_done(o, f, a, c),
    ensures
        (a matches Action::SetUser(u) ==> f.user == Some(u) && f.selected_workspace_id == (if o.selected_workspace_id
            is Some {
            o.selected_workspace_id
        } else {
            Some(u.default_workspace)
        })),
        (a matches Action::SetTimeEntries(t) ==> f.time_entries == t && !f.loading
            && f.selected_date == o.selected_date),
        (a matches Action::SetError(e) ==> f.error == Some(e) && !f.loading),
        (a is RefreshLogs && o.selected_workspace_id is None) ==> c is Nothing && f == o,
        a is RefreshLogs ==> (o.selected_workspace_id matches Some(ws) ==> f == o && (c matches Command::FetchLogs {
            workspace_id,
            user_id,
            from,
            to,
        } && workspace_id == ws && from.days == o.selected_date.days - 31 && to.days
            == o.selected_date.days + 31 && (o.user matches Some(u) ==> user_id@ == u.id@)
            && (o.user is None ==> user_id@.len() == 0))),
{
}

// ---------------------------------------------------------------------
// Totals
// ---------------------------------------------------------------------

proof fn lemma_minutes_split_prefix(
    es: Seq<TimeEntry>,
    cs: Seq<EntryClock>,
    lo: int,
    mid: int,
    hi: int,
    filter: Option<String>,
    n: nat,
)
    requires
        lo <= mid < hi,
        n <= es.len(),
        n <= cs.len(),
    ensures
        minutes_in(es, cs, lo, mid, filter, n) + minutes_in(es, cs, mid + 1, hi, filter, n)
            == minutes_in(es, cs, lo, hi, filter, n),
    decreases n,
{
    if n > 0 {
        lemma_minutes_split_prefix(es, cs, lo, mid, hi, filter, (n - 1) as nat);
    }
}

/// Minutes over consecutive day ranges add up: the total over `lo..=hi` is
/// the total over `lo..=mid` plus the total over the days after `mid`.
pub proof fn law_minutes_split(
    es: Seq<TimeEntry>,
    cs: Seq<EntryClock>,
    lo: int,
    mid: int,
    hi: int,
    filter: Option<String>,
)
    requires
        lo <= mid < hi,
        cs.len() == es.len(),
    ensures
        total_minutes(es, cs, lo, mid, filter) + total_minutes(es, cs, mid + 1, hi, filter)
            == total_minutes(es, cs, lo, hi, filter),
{
    lemma_minutes_split_prefix(es, cs, lo, mid, hi, filter, es.len());
}

proof fn lemma_minutes_wider_prefix(
    es: Seq<TimeEntry>,
    cs: Seq<EntryClock>,
    lo1: int,
    hi1: int,
    lo2: int,
    hi2: int,
    filter: Option<String>,
    n: nat,
)
    requires
        lo2 <= lo1,
        hi1 <= hi2,
    ensures
        minutes_in(es, cs, lo1, hi1, filter, n) <= minutes_in(es, cs, lo2, hi2, filter, n),
    decreases n,
{
    if n > 0 {
        lemma_minutes_wider_prefix(es, cs, lo1, hi1, lo2, hi2, filter, (n - 1) as nat);
    }
}

/// A wider range of days never totals fewer minutes.
pub proof fn law_minutes_wider_range(
    es: Seq<TimeEntry>,
    cs: Seq<EntryClock>,
    lo1: int,
    hi1: int,
    lo2: int,
    hi2: int,
    filter: Option<String>,
)
    requires
        lo2 <= lo1,
        hi1 <= hi2,
    ensures
        total_minutes(es, cs, lo1, hi1, filter) <= total_minutes(es, cs, lo2, hi2, filter),
{
    lemma_minutes_wider_prefix(es, cs, lo1, hi1, lo2, hi2, filter, es.len());
}

proof fn lemma_minutes_filter_prefix(
    es: Seq<TimeEntry>,
    cs: Seq<EntryClock>,
    lo: int,
    hi: int,
    filter: Option<String>,
    n: nat,
)
    ensures
        minutes_in(es, cs, lo, hi, filter, n) <= minutes_in(es, cs, lo, hi, None, n),
    decreases n,
{
    if n > 0 {
        lemma_minutes_filter_prefix(es, cs, lo, hi, filter, (n - 1) as nat);
    }
}

/// Filtering by a project never totals more minutes than all projects.
pub proof fn law_project_filter_narrows(
    es: Seq<TimeEntry>,
    cs: Seq<EntryClock>,
    lo: int,
    hi: int,
    filter: Option<String>,
)
    ensures
        total_minutes(es, cs, lo, hi, filter) <= total_minutes(es, cs, lo, hi, None),
{
    lemma_minutes_filter_prefix(es, cs, lo, hi, filter, es.len());
}

// ---------------------------------------------------------------------
// Text
// ---------------------------------------------------------------------

/// A truncated text fits its width.
pub proof fn law_truncate_fits(s: Seq<char>, max_chars: nat)
    requires
        max_chars >= 2,
    ensures
        truncated(s, max_chars).len() <= max_chars,
{
}

/// Truncating twice is truncating once.
pub proof fn law_truncate_idempotent(s: Seq<char>, max_chars: nat)
    requires
        max_chars >= 2,
    ensures
        truncated(truncated(s, max_chars), max_chars) == truncated(s, max_chars),
{
}

proof fn lemma_digit_char(d: nat)
    requires
        d < 10,
    ensures
        is_ascii_digit(digit_char(d)),
        digit_value(digit_char(d)) == d,
        digit_char(d) != ':',
{
}

proof fn lemma_decimal_digits(n: nat)
    ensures
        decimal(n).len() >= 1,
        all_digits(decimal(n)),
        digits_value(decimal(n)) == n,
    decreases n,
{
    if n < 10 {
        lemma_digit_char(n);
        assert(decimal(n).drop_last() =~= Seq::<char>::empty());
        assert(decimal(n).last() == digit_char(n));
        assert(digits_value(Seq::<char>::empty()) == 0);
    } else {
        lemma_decimal_digits(n / 10);
        lemma_digit_char(n % 10);
        let d = decimal(n);
        assert(d.drop_last() =~= decimal(n / 10));
        assert(d.last() == digit_char(n % 10));
        assert(digits_value(d) == digits_value(decimal(n / 10)) * 10 + digit_value(d.last()));
        assert((n / 10) * 10 + n % 10 == n);
        assert forall|i: int| 0 <= i < d.len() implies is_ascii_digit(#[trigger] d[i]) by {
            if i < d.len() - 1 {
                assert(d[i] == decimal(n / 10)[i]);
            }
        }
    }
}

proof fn lemma_scan_digits(ds: Seq<char>, rest: Seq<char>, h: nat, m: nat, pending: Seq<char>)
    requires
        all_digits(ds),
    ensures
        iso_scan(ds + rest, h, m, pending) == iso_scan(rest, h, m, pending + ds),
    decreases ds.len(),
{
    if ds.len() == 0 {
        assert(ds + rest =~= rest);
        assert(pending + ds =~= pending);
    } else {
        let t = ds.drop_first();
        assert(all_digits(t)) by {
            assert forall|i: int| 0 <= i < t.len() implies is_ascii_digit(#[trigger] t[i]) by {
                assert(t[i] == ds[i + 1]);
            }
        }
        assert(is_ascii_digit(ds[0]));
        assert((ds + rest)[0] == ds[0]);
        assert((ds + rest).drop_first() =~= t + rest);
        lemma_scan_digits(t, rest, h, m, pending.push(ds[0]));
        assert(pending.push(ds[0]) + t =~= pending + ds);
    }
}

/// A duration written as `PT<h>H<m>M` reads back as `h * 60 + m` minutes.
pub proof fn law_duration_read_back(h: nat, m: nat)
    requires
        h <= u64::MAX,
        m <= u64::MAX,
    ensures
        iso_duration_minutes(seq!['P', 'T'] + decimal(h) + seq!['H'] + decimal(m) + seq!['M'])
            == h * 60 + m,
{
    lemma_decimal_digits(h);
    lemma_decimal_digits(m);
    let a = decimal(h);
    let b = decimal(m);
    let s = seq!['P', 'T'] + a + seq!['H'] + b + seq!['M'];
    let e = Seq::<char>::empty();
    let s1 = s.drop_first();
    let s2 = s1.drop_first();
    let r1 = seq!['H'] + b + seq!['M'];
    let r2 = b + seq!['M'];
    assert(s[0] == 'P');
    assert(s1[0] == 'T');
    assert(s2 =~= a + r1);
    assert(iso_scan(s, 0, 0, e) == iso_scan(s1, 0, 0, e));
    assert(iso_scan(s1, 0, 0, e) == iso_scan(s2, 0, 0, e));
    lemma_scan_digits(a, r1, 0, 0, e);
    assert(e + a =~= a);
    assert(r1[0] == 'H');
    assert(r1.drop_first() =~= r2);
    assert(iso_scan(r1, 0, 0, a) == iso_scan(r2, h, 0, e));
    lemma_scan_digits(b, seq!['M'], h, 0, e);
    assert(e + b =~= b);
    assert(seq!['M'].drop_first() =~= e);
    assert(iso_scan(seq!['M'], h, 0, b) == iso_scan(e, h, m, e));
}

proof fn lemma_scan_field(ds: Seq<char>, unit: char, rest: Seq<char>, h: nat, m: nat)
    requires
        all_digits(ds),
        unit == 'H' || unit == 'M',
    ensures
        iso_scan(ds + (seq![unit] + rest), h, m, seq![]) == (if unit == 'H' {
            iso_scan(rest, parsed_or_zero(ds), m, seq![])
        } else {
            iso_scan(rest, h, parsed_or_zero(ds), seq![])
        }),
{
    let e = Seq::<char>::empty();
    lemma_scan_digits(ds, seq![unit] + rest, h, m, e);
    assert(e + ds =~= ds);
    assert((seq![unit] + rest)[0] == unit);
    assert((seq![unit] + rest).drop_first() =~= rest);
}

proof fn lemma_scan_seconds(xs: Seq<char>, h: nat, m: nat)
    requires
        all_digits(xs),
    ensures
        iso_scan(xs + seq!['S'], h, m, seq![]) == (h, m),
{
    let e = Seq::<char>::empty();
    lemma_scan_digits(xs, seq!['S'], h, m, e);
    assert(seq!['S'].drop_first() =~= e);
    assert(!is_ascii_digit('S'));
    assert(iso_scan(seq!['S'], h, m, e + xs) == iso_scan(e, h, m, e + xs));
}

proof fn lemma_scan_pt(rest: Seq<char>)
    ensures
        iso_scan(seq!['P', 'T'] + rest, 0, 0, seq![]) == iso_scan(rest, 0, 0, seq![]),
{
    let s = seq!['P', 'T'] + rest;
    assert(s[0] == 'P');
    assert(s.drop_first()[0] == 'T');
    assert(s.drop_first().drop_first() =~= rest);
    assert(!is_ascii_digit('P') && !is_ascii_digit('T'));
    assert(iso_scan(s, 0, 0, seq![]) == iso_scan(s.drop_first(), 0, 0, seq![]));
    assert(iso_scan(s.drop_first(), 0, 0, seq![]) == iso_scan(rest, 0, 0, seq![]));
}

/// A seconds part at the end of a duration does not change the minutes it
/// is read as: `PT<h>H<m>M<x>S`, `PT<m>M<x>S` and `PT<h>H<x>S` read as
/// `PT<h>H<m>M`, `PT<m>M` and `PT<h>H`, for any runs of digits.
pub proof fn law_duration_seconds_ignored(h: Seq<char>, m: Seq<char>, x: Seq<char>)
    requires
        all_digits(h),
        all_digits(m),
        all_digits(x),
    ensures
        iso_duration_minutes(seq!['P', 'T'] + h + seq!['H'] + m + seq!['M'] + x + seq!['S'])
            == iso_duration_minutes(seq!['P', 'T'] + h + seq!['H'] + m + seq!['M']),
        iso_duration_minutes(seq!['P', 'T'] + m + seq!['M'] + x + seq!['S'])
            == iso_duration_minutes(seq!['P', 'T'] + m + seq!['M']),
        iso_duration_minutes(seq!['P', 'T'] + h + seq!['H'] + x + seq!['S'])
            == iso_duration_minutes(seq!['P', 'T'] + h + seq!['H']),
{
    let e = Seq::<char>::empty();
    let xs = x + seq!['S'];
    let ph = parsed_or_zero(h);
    let pm = parsed_or_zero(m);
    lemma_scan_seconds(x, ph, pm);
    lemma_scan_seconds(x, 0, pm);
    lemma_scan_seconds(x, ph, 0);
    // PT<h>H<m>M<x>S and PT<h>H<m>M
    assert(seq!['P', 'T'] + h + seq!['H'] + m + seq!['M'] + x + seq!['S'] =~= seq!['P', 'T'] + (h + (
    seq!['H'] + (m + (seq!['M'] + xs)))));
    assert(seq!['P', 'T'] + h + seq!['H'] + m + seq!['M'] =~= seq!['P', 'T'] + (h + (seq!['H'] + (m
        + (seq!['M'] + e)))));
    lemma_scan_pt(h + (seq!['H'] + (m + (seq!['M'] + xs))));
    lemma_scan_pt(h + (seq!['H'] + (m + (seq!['M'] + e))));
    lemma_scan_field(h, 'H', m + (seq!['M'] + xs), 0, 0);
    lemma_scan_field(h, 'H', m + (seq!['M'] + e), 0, 0);
    lemma_scan_field(m, 'M', xs, ph, 0);
    lemma_scan_field(m, 'M', e, ph, 0);
    // PT<m>M<x>S and PT<m>M
    assert(seq!['P', 'T'] + m + seq!['M'] + x + seq!['S'] =~= seq!['P', 'T'] + (m + (seq!['M']
        + xs)));
    assert(seq!['P', 'T'] + m + seq!['M'] =~= seq!['P', 'T'] + (m + (seq!['M'] + e)));
    lemma_scan_pt(m + (seq!['M'] + xs));
    lemma_scan_pt(m + (seq!['M'] + e));
    lemma_scan_field(m, 'M', xs, 0, 0);
    lemma_scan_field(m, 'M', e, 0, 0);
    // PT<h>H<x>S and PT<h>H
    assert(seq!['P', 'T'] + h + seq!['H'] + x + seq!['S'] =~= seq!['P', 'T'] + (h + (seq!['H']
        + xs)));
    assert(seq!['P', 'T'] + h + seq!['H'] =~= seq!['P', 'T'] + (h + (seq!['H'] + e)));
    lemma_scan_pt(h + (seq!['H'] + xs));
    lemma_scan_pt(h + (seq!['H'] + e));
    lemma_scan_field(h, 'H', xs, 0, 0);
    lemma_scan_field(h, 'H', e, 0, 0);
}

proof fn lemma_pad2_digits(n: nat)
    requires
        n < 100,
    ensures
        pad2(n).len() == 2,
        all_digits(pad2(n)),
        digits_value(pad2(n)) == n,
{
    lemma_decimal_digits(n);
    if n < 10 {
        let p = pad2(n);
        assert(decimal(n) =~= seq![digit_char(n)]);
        lemma_digit_char(n);
        lemma_digit_char(0);
        assert(p =~= seq!['0', digit_char(n)]);
        assert(p.drop_last() =~= seq!['0']);
        assert(p.last() == digit_char(n));
        assert(seq!['0'].drop_last() =~= Seq::<char>::empty());
        assert(seq!['0'].last() == '0');
        assert(digits_value(Seq::<char>::empty()) == 0);
        assert(digit_value('0') == 0);
        assert(digits_value(seq!['0']) == 0);
        assert(digits_value(p) == digits_value(seq!['0']) * 10 + digit_value(digit_char(n)));
    } else {
        lemma_decimal_digits(n / 10);
        assert(decimal(n / 10) =~= seq![digit_char(n / 10)]);
    }
}

proof fn lemma_u32_text_of_pad2(n: nat)
    requires
        n < 100,
    ensures
        u32_text_value(pad2(n)) == Some(n),
{
    lemma_pad2_digits(n);
    let p = pad2(n);
    assert(p[0] != '+') by {
        assert(is_ascii_digit(p[0]));
    }
    assert(unsigned_digits(p) == p);
}

proof fn lemma_pad2_any(n: nat)
    ensures
        pad2(n).len() >= 2,
        all_digits(pad2(n)),
        digits_value(pad2(n)) == n,
{
    if n < 100 {
        lemma_pad2_digits(n);
    } else {
        lemma_decimal_digits(n);
        lemma_decimal_digits(n / 10);
        assert(decimal(n).len() == decimal(n / 10).len() + 1);
    }
}

/// The running-timer clock face for `n` seconds reads back as `n`: it is
/// hours, two-digit minutes below sixty and two-digit seconds below sixty,
/// separated by colons, with hours * 3600 + minutes * 60 + seconds equal to
/// `n`.  A negative reading shows `00:00:00`.
pub proof fn law_elapsed_face_reads_back(n: i64)
    ensures
        ({
            let t = elapsed_text(Some(n));
            let v = if n >= 0 { n as int } else { 0int };
            let a = t.subrange(0, t.len() - 6);
            let b = t.subrange(t.len() - 5, t.len() - 3);
            let c = t.subrange(t.len() - 2, t.len() as int);
            &&& t.len() >= 8
            &&& t[t.len() - 6] == ':' && t[t.len() - 3] == ':'
            &&& all_digits(a) && all_digits(b) && all_digits(c)
            &&& digits_value(b) < 60 && digits_value(c) < 60
            &&& digits_value(a) * 3600 + digits_value(b) * 60 + digits_value(c) == v
        }),
{
    let v: nat = if n >= 0 { n as nat } else { 0 };
    let h = v / 3600;
    let mi = (v / 60) % 60;
    let se = v % 60;
    lemma_pad2_any(h);
    lemma_pad2_digits(mi);
    lemma_pad2_digits(se);
    let t = elapsed_text(Some(n));
    assert(t == clock_text(v));
    let a = pad2(h);
    let b = pad2(mi);
    let c = pad2(se);
    assert(t =~= a + seq![':'] + b + seq![':'] + c);
    assert(t.subrange(0, t.len() - 6) =~= a);
    assert(t.subrange(t.len() - 5, t.len() - 3) =~= b);
    assert(t.subrange(t.len() - 2, t.len() as int) =~= c);
    assert(h * 3600 + mi * 60 + se == v) by (nonlinear_arith)
        requires
            h == v / 3600,
            mi == (v / 60) % 60,
            se == v % 60,
    ;
}

/// The `HH:MM` texts the entry form fills in are accepted as the time they
/// show.
pub proof fn law_clock_text_accepted(h: nat, m: nat)
    requires
        h < 24,
        m < 60,
    ensures
        clock_value(pad2(h) + seq![':'] + pad2(m)) == Some((h, m)),
{
    lemma_pad2_digits(h);
    lemma_pad2_digits(m);
    lemma_u32_text_of_pad2(h);
    lemma_u32_text_of_pad2(m);
    let s = pad2(h) + seq![':'] + pad2(m);
    assert(only_colon_at(s, 2)) by {
        assert forall|j: int| 0 <= j < s.len() && j != 2 implies s[j] != ':' by {
            if j < 2 {
                assert(is_ascii_digit(pad2(h)[j]));
            } else {
                assert(s[j] == pad2(m)[j - 3]);
                assert(is_ascii_digit(pad2(m)[j - 3]));
            }
        }
    }
    assert forall|i: int| only_colon_at(s, i) implies i == 2 by {}
    assert(s.take(2) =~= pad2(h));
    assert(s.skip(3) =~= pad2(m));
}

/// Pressing `n` with the entry form closed and then Enter logs an entry on
/// the selected day and project, with an empty description, from the clock
/// time the form was filled with to the one an hour later, when a workspace
/// is selected; without a workspace nothing is logged.  Either way the form
/// is closed again and the rest of the state is as it was.
pub proof fn law_new_entry_then_enter(
    o: AppState,
    m: AppState,
    f: AppState,
    now: LocalNow,
    later: LocalNow,
    c1: Command,
    c2: Command,
    h1: nat,
    m1: nat,
    h2: nat,
    m2: nat,
)
    requires
        !o.show_input_modal,
        h1 < 24 && m1 < 60 && h2 < 24 && m2 < 60,
        now.time_now@ == pad2(h1) + seq![':'] + pad2(m1),
        now.time_in_an_hour@ == pad2(h2) + seq![':'] + pad2(m2),
        key_done(o, m, Key::Char('n'), now, c1),
        key_done(m, f, Key::Enter, later, c2),
    ensures
        c1 is Nothing,
        (f == AppState {
            show_input_modal: false,
            active_modal_field: 0,
            modal_description: f.modal_description,
            modal_start_time: now.time_now,
            modal_end_time: now.time_in_an_hour,
            ..o
        }),
        f.modal_description@.len() == 0,
        o.selected_workspace_id is None ==> c2 is Nothing,
        (o.selected_workspace_id matches Some(ws) ==> c2 matches Command::CreateEntry {
            workspace_id,
            project_id,
            description,
            date,
            start_hour,
            start_minute,
            end_hour,
            end_minute,
        } && workspace_id == ws && project_id == o.selected_project_id && description@.len() == 0
            && date == o.selected_date && start_hour == h1 && start_minute == m1 && end_hour == h2
            && end_minute == m2),
{
    law_clock_text_accepted(h1, m1);
    law_clock_text_accepted(h2, m2);
}

} // verus!
