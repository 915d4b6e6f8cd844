//! The four main views: the day's entries, the week's columns, the month
//! grid and the dashboard totals, with their titles.
use crate::date::{
    chrono_day, chrono_format, chrono_iso_week, chrono_rfc3339_valid, weekday_number, lemma_week_from_monday,
    chrono_with_day, day_of, first_of_next_month, format_date, next_month_exists, iso_week_of, next_month_start,
    seconds_since, weekday_of, with_day, Date, LocalStamp, MAX_DAYS, MIN_DAYS,
};
use crate::models::TimeEntry;
use crate::state::{AppState, Focus};
use crate::text::{
    append_str, chars_of, clock_text, decimal, elapsed_text, format_elapsed, owned, pad2,
    push_char, push_decimal, push_pad2, trimmed, trim_copy, truncate_str, truncated,
};
use crate::totals::{counted_in, matches_project, minutes_between, total_minutes, EntryClock};
use crate::view::{filter_suffix, opt_view, project_filter_suffix, project_name, text_or};
use vstd::prelude::*;

verus! {

// ---------------------------------------------------------------------
// Titles
// ---------------------------------------------------------------------

/// Title of the day view.
pub fn day_view_title(s: &AppState) -> (r: String)
    requires
        s.selected_date.valid(),
    ensures
        r@ == " Daily Scheduler - "@ + chrono_format(s.selected_date.days as int, "%A, %b %d, %Y"@)
            + filter_suffix(*s) + " "@,
{
    let mut out = owned(" Daily Scheduler - ");
    let d = format_date(s.selected_date, "%A, %b %d, %Y");
    append_str(&mut out, d.as_str());
    let suffix = project_filter_suffix(s);
    append_str(&mut out, suffix.as_str());
    append_str(&mut out, " ");
    out
}

/// Title of the week view: ISO week number and year.
pub fn week_view_title(s: &AppState) -> (r: String)
    requires
        s.selected_date.valid(),
    ensures
        r@ == " Weekly View - Week "@ + decimal(chrono_iso_week(s.selected_date.days as int) as nat)
            + " ("@ + chrono_format(s.selected_date.days as int, "%Y"@) + ")"@ + filter_suffix(*s)
            + " "@,
{
    let mut out = owned(" Weekly View - Week ");
    let w = iso_week_of(s.selected_date);
    push_decimal(&mut out, w as u64);
    append_str(&mut out, " (");
    let y = format_date(s.selected_date, "%Y");
    append_str(&mut out, y.as_str());
    append_str(&mut out, ")");
    let suffix = project_filter_suffix(s);
    append_str(&mut out, suffix.as_str());
    append_str(&mut out, " ");
    out
}

/// Title of the month view.
pub fn month_view_title(s: &AppState) -> (r: String)
    requires
        s.selected_date.valid(),
    ensures
        r@ == " Calendar View - "@ + chrono_format(s.selected_date.days as int, "%B %Y"@) + " "@
            + filter_suffix(*s) + " "@,
{
    let mut out = owned(" Calendar View - ");
    let m = format_date(s.selected_date, "%B %Y");
    append_str(&mut out, m.as_str());
    append_str(&mut out, " ");
    let suffix = project_filter_suffix(s);
    append_str(&mut out, suffix.as_str());
    append_str(&mut out, " ");
    out
}

/// Title of the dashboard.
pub fn dashboard_title(s: &AppState) -> (r: String)
    ensures
        r@ == " Dashboard Stats"@ + filter_suffix(*s) + " "@,
{
    let mut out = owned(" Dashboard Stats");
    let suffix = project_filter_suffix(s);
    append_str(&mut out, suffix.as_str());
    append_str(&mut out, " ");
    out
}

// ---------------------------------------------------------------------
// Day view
// ---------------------------------------------------------------------

/// Local clock time as `HH:MM`.
pub open spec fn hhmm(t: LocalStamp) -> Seq<char> {
    pad2(t.hour as nat) + seq![':'] + pad2(t.minute as nat)
}

/// Start of an entry as shown: its local time, or `??:??` when unreadable.
pub open spec fn start_text(c: EntryClock) -> Seq<char> {
    match c.start {
        Some(t) => hhmm(t),
        None => "??:??"@,
    }
}

/// End of an entry as shown: `Ongoing` for a running timer, `??:??` when
/// unreadable.
pub open spec fn end_text(c: EntryClock) -> Seq<char> {
    match c.end {
        None => "Ongoing"@,
        Some(None) => "??:??"@,
        Some(Some(t)) => hhmm(t),
    }
}

/// The text with every `PT` removed, left to right (`str::replace("PT", "")`).
pub open spec fn without_pt(s: Seq<char>) -> Seq<char>
    decreases s.len(),
{
    if s.len() == 0 {
        s
    } else if s.len() >= 2 && s[0] == 'P' && s[1] == 'T' {
        without_pt(s.skip(2))
    } else {
        seq![s[0]] + without_pt(s.drop_first())
    }
}

/// The text with `H` written as `h ` and `M` as `m`.
pub open spec fn hm_letters(s: Seq<char>) -> Seq<char>
    decreases s.len(),
{
    if s.len() == 0 {
        s
    } else {
        (if s[0] == 'H' {
            seq!['h', ' ']
        } else if s[0] == 'M' {
            seq!['m']
        } else {
            seq![s[0]]
        }) + hm_letters(s.drop_first())
    }
}

/// A duration as the day view shows it: `PT1H30M` becomes `1h 30m`.
pub open spec fn duration_label(s: Seq<char>) -> Seq<char> {
    trimmed(hm_letters(without_pt(s)))
}

proof fn lemma_hm_letters_cons(c: char, rest: Seq<char>)
    ensures
        hm_letters(seq![c] + rest) == (if c == 'H' {
            seq!['h', ' ']
        } else if c == 'M' {
            seq!['m']
        } else {
            seq![c]
        }) + hm_letters(rest),
{
    assert((seq![c] + rest).drop_first() =~= rest);
}

/// The duration as the day view shows it.
pub fn format_duration_label(s: &str) -> (r: String)
    ensures
        r@ == duration_label(s@),
{
    let cs = chars_of(s);
    let ghost full = s@;
    let mut out = String::new();
    let mut i: usize = 0;
    assert(full.skip(0) =~= full);
    while i < cs.len()
        invariant
            cs@ == full,
            0 <= i <= cs@.len(),
            hm_letters(without_pt(full)) == out@ + hm_letters(without_pt(full.skip(i as int))),
        decreases cs.len() - i,
    {
        let ghost rest = full.skip(i as int);
        if i + 1 < cs.len() && cs[i] == 'P' && cs[i + 1] == 'T' {
            assert(rest[0] == 'P' && rest[1] == 'T');
            assert(rest.skip(2) =~= full.skip(i + 2));
            i = i + 2;
        } else {
            let c = cs[i];
            assert(rest[0] == c);
            assert(rest.drop_first() =~= full.skip(i + 1));
            proof {
                lemma_hm_letters_cons(c, without_pt(full.skip(i + 1)));
            }
            if c == 'H' {
                push_char(&mut out, 'h');
                push_char(&mut out, ' ');
            } else if c == 'M' {
                push_char(&mut out, 'm');
            } else {
                push_char(&mut out, c);
            }
            i = i + 1;
        }
    }
    assert(full.skip(cs@.len() as int) =~= Seq::<char>::empty());
    assert(out@ =~= hm_letters(without_pt(full)));
    trim_copy(out.as_str())
}

/// Indices of the first `n` entries that the day view lists for `day`.
pub open spec fn day_indices(
    es: Seq<TimeEntry>,
    cs: Seq<EntryClock>,
    day: int,
    filter: Option<String>,
    n: nat,
) -> Seq<int>
    decreases n,
{
    if n == 0 {
        seq![]
    } else {
        let prev = day_indices(es, cs, day, filter, (n - 1) as nat);
        if counted_in(es[n - 1], cs[n - 1], day, day, filter) {
            prev.push(n - 1)
        } else {
            prev
        }
    }
}

/// One line of the day view.
pub struct DayRow {
    /// `[project] `
    pub project: String,
    /// `HH:MM - HH:MM `
    pub span: String,
    /// `(1h 30m) `
    pub duration: String,
    pub description: String,
}

/// Name shown for an entry's project.
pub open spec fn entry_project_label(s: AppState, e: TimeEntry) -> Seq<char> {
    match e.project_id {
        Some(p) => text_or(project_name(s.projects@, p@), "Unknown Project"@),
        None => "No Project"@,
    }
}

/// The day-view line for entry `e` read as `c`.
pub open spec fn row_fits(r: DayRow, s: AppState, e: TimeEntry, c: EntryClock) -> bool {
    &&& r.project@ == "["@ + entry_project_label(s, e) + "] "@
    &&& r.span@ == start_text(c) + " - "@ + end_text(c) + " "@
    &&& r.duration@ == "("@ + duration_label(text_or(opt_view(e.time_interval.duration), Seq::empty()))
        + ") "@
    &&& r.description@ == text_or(opt_view(e.description), "(No description)"@)
}

fn push_hhmm(out: &mut String, t: &LocalStamp)
    ensures
        final(out)@ == old(out)@ + hhmm(*t),
{
    push_pad2(out, t.hour as u64);
    push_char(out, ':');
    push_pad2(out, t.minute as u64);
    assert(final(out)@ =~= old(out)@ + hhmm(*t));
}

fn day_row(s: &AppState, e: &TimeEntry, c: &EntryClock) -> (r: DayRow)
    ensures
        row_fits(r, *s, *e, *c),
{
    let mut project = owned("[");
    let name = match &e.project_id {
        Some(p) => match crate::view::find_project(&s.projects, p) {
            Some(i) => s.projects[i].name.clone(),
            None => owned("Unknown Project"),
        },
        None => owned("No Project"),
    };
    append_str(&mut project, name.as_str());
    append_str(&mut project, "] ");
    let mut span = String::new();
    match &c.start {
        Some(t) => push_hhmm(&mut span, t),
        None => append_str(&mut span, "??:??"),
    }
    append_str(&mut span, " - ");
    match &c.end {
        None => append_str(&mut span, "Ongoing"),
        Some(None) => append_str(&mut span, "??:??"),
        Some(Some(t)) => push_hhmm(&mut span, t),
    }
    append_str(&mut span, " ");
    let mut duration = owned("(");
    let label = match &e.time_interval.duration {
        Some(d) => format_duration_label(d.as_str()),
        None => {
            proof {
                reveal_strlit("");
                assert(""@ =~= Seq::<char>::empty());
            }
            format_duration_label("")
        },
    };
    append_str(&mut duration, label.as_str());
    append_str(&mut duration, ") ");
    let description = match &e.description {
        Some(d) => d.clone(),
        None => owned("(No description)"),
    };
    proof {
        reveal_strlit("");
    }
    assert(span@ =~= start_text(*c) + " - "@ + end_text(*c) + " "@);
    assert(project@ =~= "["@ + entry_project_label(*s, *e) + "] "@);
    assert(duration@ =~= "("@ + duration_label(text_or(opt_view(e.time_interval.duration), Seq::empty()))
        + ") "@);
    DayRow { project, span, duration, description }
}

/// Whether entry `i` counts on the local day `day` under the filter.
fn counted_on(e: &TimeEntry, c: &EntryClock, day: i32, filter: &Option<String>) -> (b: bool)
    ensures
        b == counted_in(*e, *c, day as int, day as int, *filter),
{
    match &c.start {
        Some(t) => t.day.days == day && matches_project(e, filter),
        None => false,
    }
}

/// The day view's lines: every entry that starts on the selected day and
/// passes the project filter, in list order.
pub fn day_view_rows(s: &AppState, clocks: &Vec<EntryClock>) -> (rows: Vec<DayRow>)
    requires
        clocks@.len() == s.time_entries@.len(),
    ensures
        ({
            let idx = day_indices(
                s.time_entries@,
                clocks@,
                s.selected_date.days as int,
                s.selected_project_id,
                s.time_entries@.len(),
            );
            &&& rows@.len() == idx.len()
            &&& forall|k: int|
                0 <= k < idx.len() ==> row_fits(
                    #[trigger] rows@[k],
                    *s,
                    s.time_entries@[idx[k]],
                    clocks@[idx[k]],
                )
        }),
{
    let day = s.selected_date.days;
    let mut rows: Vec<DayRow> = Vec::new();
    let mut i: usize = 0;
    while i < s.time_entries.len()
        invariant
            clocks@.len() == s.time_entries@.len(),
            day == s.selected_date.days,
            0 <= i <= s.time_entries@.len(),
            rows@.len() == day_indices(s.time_entries@, clocks@, day as int, s.selected_project_id, i as nat).len(),
            forall|k: int|
                0 <= k < rows@.len() ==> 0 <= #[trigger] day_indices(s.time_entries@, clocks@, day as int, s.selected_project_id, i as nat)[k] < i,
            forall|k: int|
                0 <= k < rows@.len() ==> row_fits(
                    #[trigger] rows@[k],
                    *s,
                    s.time_entries@[day_indices(s.time_entries@, clocks@, day as int, s.selected_project_id, i as nat)[k]],
                    clocks@[day_indices(s.time_entries@, clocks@, day as int, s.selected_project_id, i as nat)[k]],
                ),
        decreases s.time_entries.len() - i,
    {
        let ghost idx0 = day_indices(
            s.time_entries@,
            clocks@,
            day as int,
            s.selected_project_id,
            i as nat,
        );
        let ghost rows0 = rows@;
        if counted_on(&s.time_entries[i], &clocks[i], day, &s.selected_project_id) {
            let row = day_row(s, &s.time_entries[i], &clocks[i]);
            rows.push(row);
            proof {
                let idx1 = idx0.push(i as int);
                assert forall|k: int| 0 <= k < idx1.len() implies 0 <= idx1[k] < i + 1 && row_fits(
                    #[trigger] rows@[k],
                    *s,
                    s.time_entries@[idx1[k]],
                    clocks@[idx1[k]],
                ) by {
                    if k < idx0.len() {
                        assert(rows@[k] == rows0[k]);
                        assert(idx1[k] == idx0[k]);
                    }
                }
            }
        }
        assert(day_indices(s.time_entries@, clocks@, day as int, s.selected_project_id, (i + 1) as nat)
            == if counted_in(s.time_entries@[i as int], clocks@[i as int], day as int, day as int, s.selected_project_id) {
                idx0.push(i as int)
            } else {
                idx0
            });
        i = i + 1;
    }
    rows
}

// ---------------------------------------------------------------------
// Week view
// ---------------------------------------------------------------------

/// A summary line of the week view.
pub open spec fn summary_line(e: TimeEntry) -> Seq<char> {
    "• "@ + truncated(text_or(opt_view(e.description), "Untracked"@), 12)
}

/// Up to six summary lines of the entries listed on `day`.
fn day_summaries(s: &AppState, clocks: &Vec<EntryClock>, day: i32) -> (r: Vec<String>)
    requires
        clocks@.len() == s.time_entries@.len(),
    ensures
        ({
            let idx = day_indices(
                s.time_entries@,
                clocks@,
                day as int,
                s.selected_project_id,
                s.time_entries@.len(),
            );
            &&& r@.len() == (if idx.len() < 6 { idx.len() } else { 6 })
            &&& forall|k: int|
                0 <= k < r@.len() ==> (#[trigger] r@[k])@ == summary_line(s.time_entries@[idx[k]])
        }),
{
    let mut out: Vec<String> = Vec::new();
    let mut n: usize = 0;
    let mut i: usize = 0;
    while i < s.time_entries.len()
        invariant
            clocks@.len() == s.time_entries@.len(),
            0 <= i <= s.time_entries@.len(),
            ({
                let idx = day_indices(
                    s.time_entries@,
                    clocks@,
                    day as int,
                    s.selected_project_id,
                    i as nat,
                );
                &&& n == idx.len()
                &&& n <= i
                &&& out@.len() == (if idx.len() < 6 { idx.len() } else { 6 })
                &&& forall|k: int|
                    0 <= k < out@.len() ==> (#[trigger] out@[k])@ == summary_line(
                        s.time_entries@[idx[k]],
                    )
                &&& forall|k: int| 0 <= k < idx.len() ==> 0 <= #[trigger] idx[k] < i
            }),
        decreases s.time_entries.len() - i,
    {
        let e = &s.time_entries[i];
        if counted_on(e, &clocks[i], day, &s.selected_project_id) {
            if n < 6 {
                let d = match &e.description {
                    Some(d) => d.clone(),
                    None => owned("Untracked"),
                };
                let t = truncate_str(d.as_str(), 12);
                let mut line = owned("• ");
                append_str(&mut line, t.as_str());
                out.push(line);
            }
            n = n + 1;
        }
        i = i + 1;
    }
    out
}

/// One day column of the week view.
pub struct WeekColumn {
    pub date: Date,
    /// Minutes logged on the day under the project filter.
    pub minutes: u64,
    /// Weekday and day of month, marked with `▶ ` when selected and focused.
    pub heading: String,
    pub summaries: Vec<String>,
    pub selected: bool,
}

/// First day (Monday) of the selected date's week.
pub open spec fn week_start(s: AppState) -> int {
    s.selected_date.days - weekday_number(s.selected_date.days as int)
}

/// Heading of a calendar cell: the marker when it is the selected day and
/// the calendar has focus.
pub open spec fn cursor_mark(s: AppState, selected: bool) -> Seq<char> {
    if selected && s.focus == Focus::Calendar {
        "▶ "@
    } else {
        Seq::<char>::empty()
    }
}

/// The week column for day `day`.
pub open spec fn column_fits(c: WeekColumn, s: AppState, clocks: Seq<EntryClock>, day: int) -> bool {
    let idx = day_indices(
        s.time_entries@,
        clocks,
        day,
        s.selected_project_id,
        s.time_entries@.len(),
    );
    &&& c.date.days == day
    &&& c.minutes == total_minutes(s.time_entries@, clocks, day, day, s.selected_project_id)
    &&& c.selected == (day == s.selected_date.days)
    &&& c.heading@ == cursor_mark(s, c.selected) + chrono_format(day, "%a"@) + "\n"@ + chrono_format(
        day,
        "%d"@,
    )
    &&& c.summaries@.len() == (if idx.len() < 6 { idx.len() } else { 6 })
    &&& forall|k: int|
        0 <= k < c.summaries@.len() ==> (#[trigger] c.summaries@[k])@ == summary_line(
            s.time_entries@[idx[k]],
        )
}

/// The selected date's week lies inside the representable range.
pub open spec fn week_in_range(s: AppState) -> bool {
    MIN_DAYS <= week_start(s) && week_start(s) + 6 <= MAX_DAYS
}

/// The seven columns (Monday to Sunday) of the selected date's week, or
/// `None` where the week leaves the representable range or a day's total
/// does not fit in 64 bits.
pub fn week_columns(s: &AppState, clocks: &Vec<EntryClock>) -> (r: Option<Vec<WeekColumn>>)
    requires
        s.selected_date.valid(),
        clocks@.len() == s.time_entries@.len(),
    ensures
        !week_in_range(*s) ==> r is None,
        week_in_range(*s) && (forall|k: int|
            0 <= k < 7 ==> total_minutes(
                s.time_entries@,
                clocks@,
                #[trigger] (week_start(*s) + k),
                week_start(*s) + k,
                s.selected_project_id,
            ) <= u64::MAX) ==> r is Some,
        r matches Some(v) ==> v@.len() == 7 && forall|k: int|
            0 <= k < 7 ==> column_fits(#[trigger] v@[k], *s, clocks@, week_start(*s) + k),
        r matches Some(v) ==> forall|k: int|
            0 <= k < 7 ==> weekday_number((#[trigger] v@[k]).date.days as int) == k,
{
    proof {
        assert forall|k: int| 0 <= k < 7 implies weekday_number(#[trigger] (week_start(*s) + k)) == k by {
            lemma_week_from_monday(s.selected_date.days as int, k);
        }
    }
    let wd = weekday_of(s.selected_date);
    if s.selected_date.days < MIN_DAYS + wd as i32 || s.selected_date.days - wd as i32 > MAX_DAYS - 6 {
        return None;
    }
    let start = s.selected_date.add_days(-(wd as i32));
    let mut out: Vec<WeekColumn> = Vec::new();
    let mut idx: usize = 0;
    while idx < 7
        invariant
            clocks@.len() == s.time_entries@.len(),
            start.days == week_start(*s),
            week_in_range(*s),
            start.valid(),
            wd < 7,
            start.days == s.selected_date.days - wd,
            0 <= idx <= 7,
            out@.len() == idx,
            forall|k: int| 0 <= k < idx ==> column_fits(#[trigger] out@[k], *s, clocks@, start.days + k),
            forall|k: int|
                0 <= k < idx ==> total_minutes(
                    s.time_entries@,
                    clocks@,
                    #[trigger] (start.days + k),
                    start.days + k,
                    s.selected_project_id,
                ) <= u64::MAX,
        decreases 7 - idx,
    {
        let cur = start.add_days(idx as i32);
        let minutes = match minutes_between(
            &s.time_entries,
            clocks,
            cur.days,
            cur.days,
            &s.selected_project_id,
        ) {
            Some(m) => m,
            None => {
                return None;
            },
        };
        let selected = cur.days == s.selected_date.days;
        let mut heading = if selected && s.focus == Focus::Calendar {
            owned("▶ ")
        } else {
            String::new()
        };
        let a = format_date(cur, "%a");
        append_str(&mut heading, a.as_str());
        append_str(&mut heading, "\n");
        let d = format_date(cur, "%d");
        append_str(&mut heading, d.as_str());
        let summaries = day_summaries(s, clocks, cur.days);
        out.push(WeekColumn { date: cur, minutes, heading, summaries, selected });
        idx = idx + 1;
    }
    Some(out)
}

// ---------------------------------------------------------------------
// Month view
// ---------------------------------------------------------------------

/// First day of the date's month (`with_day(1)`).
pub open spec fn month_first(days: int) -> int {
    match chrono_with_day(days, 1) {
        Some(x) => x,
        None => days,
    }
}

/// Number of days of the date's month: the day of month of the day before
/// the next month starts.
pub open spec fn month_length(days: int) -> int {
    match next_month_start(days) {
        Some(n) => chrono_day(n - 1),
        None => 0,
    }
}

/// Blank cells before the first day: its weekday counted from Monday.
pub open spec fn lead_blanks(days: int) -> int {
    weekday_number(month_first(days))
}

/// A calendar grid: `lead` blanks, the `length` days from `first` in order,
/// then blanks up to a whole number of weeks.
pub open spec fn layout_slot(first: int, lead: int, length: int, i: int) -> Option<int> {
    if i < lead {
        None
    } else if i < lead + length {
        Some(first + i - lead)
    } else {
        None
    }
}

/// Cells of such a grid: the blanks and days rounded up to whole weeks.
pub open spec fn layout_len(lead: int, length: int) -> int {
    ((lead + length + 6) / 7) * 7
}

/// The month grid: blanks for the weekdays before the first, the days of the
/// month in order, then blanks up to a whole number of weeks.
pub open spec fn grid_slot(days: int, i: int) -> Option<int> {
    layout_slot(month_first(days), lead_blanks(days), month_length(days), i)
}

/// Cells in the month grid.
pub open spec fn grid_len(days: int) -> int {
    layout_len(lead_blanks(days), month_length(days))
}

/// Lays out `length` days from `first` after `lead` blank cells, padded with
/// blanks to whole weeks.
pub fn grid_layout(first: Date, lead: u32, length: u32) -> (g: Vec<Option<Date>>)
    requires
        lead < 7,
        length <= 31,
        first.valid(),
        first.days + 30 <= MAX_DAYS,
    ensures
        g@.len() == layout_len(lead as int, length as int),
        forall|i: int|
            0 <= i < g@.len() ==> match layout_slot(first.days as int, lead as int, length as int, i) {
                Some(x) => (#[trigger] g@[i]) matches Some(y) && y.days == x && y.valid(),
                None => g@[i] is None,
            },
{
    let mut grid: Vec<Option<Date>> = Vec::new();
    let mut i: u32 = 0;
    while i < lead
        invariant
            0 <= i <= lead,
            lead < 7,
            grid@.len() == i,
            forall|k: int| 0 <= k < i ==> (#[trigger] grid@[k]) is None,
        decreases lead - i,
    {
        grid.push(None);
        i = i + 1;
    }
    let mut day: u32 = 1;
    while day <= length
        invariant
            1 <= day <= length + 1,
            length <= 31,
            lead < 7,
            first.valid(),
            first.days + 30 <= MAX_DAYS,
            grid@.len() == lead + day - 1,
            forall|k: int| 0 <= k < lead ==> (#[trigger] grid@[k]) is None,
            forall|k: int|
                lead <= k < grid@.len() ==> ((#[trigger] grid@[k]) matches Some(y) && y.days
                    == first.days + k - lead && y.valid()),
        decreases length + 1 - day,
    {
        grid.push(Some(first.add_days((day - 1) as i32)));
        day = day + 1;
    }
    let ghost filled = grid@.len();
    while grid.len() % 7 != 0
        invariant
            filled == lead + length,
            lead < 7,
            length <= 31,
            filled <= grid@.len(),
            grid@.len() <= 38 + 7,
            forall|k: int| 0 <= k < lead ==> (#[trigger] grid@[k]) is None,
            forall|k: int|
                lead <= k < filled ==> ((#[trigger] grid@[k]) matches Some(y) && y.days
                    == first.days + k - lead && y.valid()),
            forall|k: int| filled <= k < grid@.len() ==> (#[trigger] grid@[k]) is None,
            grid@.len() == filled || (filled % 7 != 0 && grid@.len() <= filled + 7 - filled % 7),
        decreases filled + 7 - grid@.len(),
    {
        grid.push(None);
    }
    let ghost n = grid@.len();
    assert(n == ((filled + 6) / 7) * 7) by (nonlinear_arith)
        requires
            n % 7 == 0,
            n == filled || (filled % 7 != 0 && n <= filled + 7 - filled % 7),
            filled <= n,
    ;
    grid
}

/// The selected date's month can be laid out: the next month has a
/// representable first day, and the month's first day lies a month or more
/// before the end of the range.
pub open spec fn month_in_range(days: int) -> bool {
    next_month_start(days) is Some && month_first(days) + 30 <= MAX_DAYS
}

/// The month grid of the date's month, row by row from Monday, or `None`
/// where the month cannot be laid out.
pub fn month_grid(d: Date) -> (g: Option<Vec<Option<Date>>>)
    requires
        d.valid(),
    ensures
        !month_in_range(d.days as int) ==> g is None,
        month_in_range(d.days as int) ==> g is Some,
        g matches Some(g) ==> g@.len() == grid_len(d.days as int) && forall|i: int|
            0 <= i < g@.len() ==> match grid_slot(d.days as int, i) {
                Some(x) => (#[trigger] g@[i]) matches Some(y) && y.days == x && y.valid(),
                None => g@[i] is None,
            },
{
    let start = with_day(d, 1).unwrap();
    let first_weekday = weekday_of(start);
    if !next_month_exists(d) || start.days > MAX_DAYS - 30 {
        return None;
    }
    let next = first_of_next_month(d);
    let end = next.add_days(-1);
    let total_days = day_of(end);
    Some(grid_layout(start, first_weekday, total_days))
}

/// One day cell of the month grid.
pub struct MonthCell {
    pub date: Date,
    /// Minutes logged on the day under the project filter.
    pub minutes: u64,
    /// Day of month, marked with `▶ ` when selected and focused.
    pub label: String,
    pub today: bool,
    pub selected: bool,
}

/// The month-grid cell for day `day`.
pub open spec fn cell_fits(c: MonthCell, s: AppState, clocks: Seq<EntryClock>, today: Date, day: int) -> bool {
    &&& c.date.days == day
    &&& c.minutes == total_minutes(s.time_entries@, clocks, day, day, s.selected_project_id)
    &&& c.today == (day == today.days)
    &&& c.selected == (day == s.selected_date.days)
    &&& c.label@ == cursor_mark(s, c.selected) + decimal(chrono_day(day) as nat)
}

/// The cells of the month grid for the selected date's month (`None` for a
/// blank), or `None` where the month cannot be laid out or a day's total
/// does not fit in 64 bits.
pub fn month_cells(s: &AppState, clocks: &Vec<EntryClock>, today: Date) -> (r: Option<Vec<Option<MonthCell>>>)
    requires
        s.selected_date.valid(),
        clocks@.len() == s.time_entries@.len(),
    ensures
        !month_in_range(s.selected_date.days as int) ==> r is None,
        month_in_range(s.selected_date.days as int) && (forall|i: int|
            0 <= i < grid_len(s.selected_date.days as int) ==> (#[trigger] grid_slot(
                s.selected_date.days as int,
                i,
            ) matches Some(x) ==> total_minutes(s.time_entries@, clocks@, x, x, s.selected_project_id)
                <= u64::MAX)) ==> r is Some,
        r matches Some(v) ==> v@.len() == grid_len(s.selected_date.days as int) && forall|i: int|
            0 <= i < v@.len() ==> match grid_slot(s.selected_date.days as int, i) {
                Some(x) => (#[trigger] v@[i]) matches Some(c) && cell_fits(c, *s, clocks@, today, x),
                None => v@[i] is None,
            },
{
    let grid = match month_grid(s.selected_date) {
        Some(g) => g,
        None => {
            return None;
        },
    };
    let mut out: Vec<Option<MonthCell>> = Vec::new();
    let mut i: usize = 0;
    while i < grid.len()
        invariant
            clocks@.len() == s.time_entries@.len(),
            grid@.len() == grid_len(s.selected_date.days as int),
            forall|k: int|
                0 <= k < grid@.len() ==> match grid_slot(s.selected_date.days as int, k) {
                    Some(x) => (#[trigger] grid@[k]) matches Some(y) && y.days == x && y.valid(),
                    None => grid@[k] is None,
                },
            0 <= i <= grid@.len(),
            out@.len() == i,
            forall|k: int|
                0 <= k < i ==> match grid_slot(s.selected_date.days as int, k) {
                    Some(x) => (#[trigger] out@[k]) matches Some(c) && cell_fits(c, *s, clocks@, today, x),
                    None => out@[k] is None,
                },
        decreases grid.len() - i,
    {
        assert(match grid_slot(s.selected_date.days as int, i as int) {
            Some(x) => grid@[i as int] matches Some(y) && y.days == x && y.valid(),
            None => grid@[i as int] is None,
        });
        match grid[i] {
            None => {
                out.push(None);
            },
            Some(d) => {
                let minutes = match minutes_between(
                    &s.time_entries,
                    clocks,
                    d.days,
                    d.days,
                    &s.selected_project_id,
                ) {
                    Some(m) => m,
                    None => {
                        return None;
                    },
                };
                let selected = d.days == s.selected_date.days;
                let mut label = if selected && s.focus == Focus::Calendar {
                    owned("▶ ")
                } else {
                    String::new()
                };
                let dd = day_of(d);
                push_decimal(&mut label, dd as u64);
                out.push(
                    Some(MonthCell { date: d, minutes, label, today: d.days == today.days, selected }),
                );
            },
        }
        i = i + 1;
    }
    Some(out)
}

/// The running timer's clock: time since `start_str` as `HH:MM:SS`, or
/// `00:00:00` when the timestamp does not parse or lies in the future.
pub fn get_elapsed_time_string(start_str: &str) -> (r: String)
    ensures
        !chrono_rfc3339_valid(start_str@) ==> r@ == clock_text(0),
        chrono_rfc3339_valid(start_str@) ==> exists|secs: i64| r@ == elapsed_text(Some(secs)),
{
    let secs = seconds_since(start_str);
    format_elapsed(secs)
}

// ---------------------------------------------------------------------
// Dashboard and quick stats
// ---------------------------------------------------------------------

/// Minutes logged today, this week (Monday to today) and this month (the
/// first to today).
pub struct DashboardTotals {
    pub today: u64,
    pub week: u64,
    pub month: u64,
}

/// The dashboard's totals under the project filter, or `None` where today's
/// week starts before the representable range or a total does not fit in
/// 64 bits.
pub fn dashboard_totals(s: &AppState, clocks: &Vec<EntryClock>, today: Date) -> (r: Option<DashboardTotals>)
    requires
        today.valid(),
        clocks@.len() == s.time_entries@.len(),
    ensures
        ({
            let t = today.days as int;
            let f = s.selected_project_id;
            let es = s.time_entries@;
            let wk = t - weekday_number(t);
            let mo = month_first(t);
            &&& wk < MIN_DAYS ==> r is None
            &&& (wk >= MIN_DAYS && total_minutes(es, clocks@, t, t, f) <= u64::MAX && total_minutes(es, clocks@, wk, t, f)
                <= u64::MAX && total_minutes(es, clocks@, mo, t, f) <= u64::MAX) ==> r is Some
            &&& r matches Some(d) ==> d.today == total_minutes(es, clocks@, t, t, f) && d.week
                == total_minutes(es, clocks@, wk, t, f) && d.month == total_minutes(
                es,
                clocks@,
                mo,
                t,
                f,
            )
            &&& r matches Some(d) ==> d.today <= d.week && d.today <= d.month
        }),
{
    let wd = weekday_of(today);
    if today.days < MIN_DAYS + wd as i32 {
        return None;
    }
    let start_of_week = today.add_days(-(wd as i32));
    let start_of_month = with_day(today, 1).unwrap();
    let f = &s.selected_project_id;
    let day = minutes_between(&s.time_entries, clocks, today.days, today.days, f);
    let week = minutes_between(&s.time_entries, clocks, start_of_week.days, today.days, f);
    let month = minutes_between(&s.time_entries, clocks, start_of_month.days, today.days, f);
    proof {
        let t = today.days as int;
        crate::laws::law_minutes_wider_range(s.time_entries@, clocks@, t, t, start_of_week.days as int, t, *f);
        crate::laws::law_minutes_wider_range(s.time_entries@, clocks@, t, t, start_of_month.days as int, t, *f);
    }
    match (day, week, month) {
        (Some(d), Some(w), Some(m)) => Some(DashboardTotals { today: d, week: w, month: m }),
        _ => None,
    }
}

/// The quick-stats box before its hour figure: the filter's project name
/// (cut to 20 characters) and the selected date.
pub open spec fn quick_stats_prefix(s: AppState) -> Seq<char> {
    let name = match s.selected_project_id {
        Some(p) => text_or(project_name(s.projects@, p@), "Unknown Project"@),
        None => "All Projects"@,
    };
    " Project:  "@ + truncated(name, 20) + "\n Date:     "@ + chrono_format(
        s.selected_date.days as int,
        "%Y-%m-%d"@,
    ) + "\n Today:    "@
}

/// Minutes the quick-stats box reports for `today`: those logged on that
/// local day by the entries passing the selected project filter (all
/// entries when no project is selected), or `None` where the sum does not
/// fit in 64 bits.
pub fn quick_stats_minutes(s: &AppState, clocks: &Vec<EntryClock>, today: Date) -> (r: Option<u64>)
    requires
        clocks@.len() == s.time_entries@.len(),
    ensures
        ({
            let t = total_minutes(
                s.time_entries@,
                clocks@,
                today.days as int,
                today.days as int,
                s.selected_project_id,
            );
            &&& t <= u64::MAX ==> r == Some(t as u64)
            &&& t > u64::MAX ==> r is None
        }),
{
    minutes_between(&s.time_entries, clocks, today.days, today.days, &s.selected_project_id)
}

/// The quick-stats box text up to the hours logged today, which the caller
/// appends (see `quick_stats_minutes`).
pub fn quick_stats_text(s: &AppState) -> (r: String)
    requires
        s.selected_date.valid(),
    ensures
        r@ == quick_stats_prefix(*s),
{
    let name = match &s.selected_project_id {
        Some(p) => match crate::view::find_project(&s.projects, p) {
            Some(i) => s.projects[i].name.clone(),
            None => owned("Unknown Project"),
        },
        None => owned("All Projects"),
    };
    proof {
        reveal_strlit("All Projects");
        reveal_strlit("Unknown Project");
    }
    let t = truncate_str(name.as_str(), 20);
    let mut out = owned(" Project:  ");
    append_str(&mut out, t.as_str());
    append_str(&mut out, "\n Date:     ");
    let d = format_date(s.selected_date, "%Y-%m-%d");
    append_str(&mut out, d.as_str());
    append_str(&mut out, "\n Today:    ");
    out
}

} // verus!
