//! Local reading of entry timestamps and the minutes logged per day range.
use crate::date::{chrono_rfc3339_valid, local_stamp, LocalStamp};
use crate::models::TimeEntry;
use crate::text::{checked_iso_duration, iso_duration_minutes};
use vstd::prelude::*;

verus! {

/// Start and end of an entry read in the local time zone: `None` where the
/// timestamp does not parse; `end` is `None` for a running timer.
#[derive(Clone, Copy, Debug, PartialEq, Eq, Structural)]
pub struct EntryClock {
    pub start: Option<LocalStamp>,
    pub end: Option<Option<LocalStamp>>,
}

/// `c` is a reading of `e`'s timestamps: each exists exactly when its text
/// parses, and a running entry has no end.
pub open spec fn clock_fits(e: TimeEntry, c: EntryClock) -> bool {
    &&& (c.start is Some) == chrono_rfc3339_valid(e.time_interval.start@)
    &&& (c.start matches Some(t) ==> t.valid())
    &&& match e.time_interval.end {
        None => c.end is None,
        Some(s) => c.end matches Some(x) && (x is Some) == chrono_rfc3339_valid(s@) && (x matches Some(
            t,
        ) ==> t.valid()),
    }
}

/// Reads an entry's start and end in the local time zone.
pub fn entry_clock(e: &TimeEntry) -> (c: EntryClock)
    ensures
        clock_fits(*e, c),
{
    let start = local_stamp(e.time_interval.start.as_str());
    let end = match &e.time_interval.end {
        None => None,
        Some(s) => Some(local_stamp(s.as_str())),
    };
    EntryClock { start, end }
}

/// Reads every entry's timestamps, in order.
pub fn entry_clocks(entries: &Vec<TimeEntry>) -> (cs: Vec<EntryClock>)
    ensures
        cs@.len() == entries@.len(),
        forall|i: int| 0 <= i < entries@.len() ==> clock_fits(entries@[i], #[trigger] cs@[i]),
{
    let mut cs: Vec<EntryClock> = Vec::new();
    let mut i: usize = 0;
    while i < entries.len()
        invariant
            0 <= i <= entries@.len(),
            cs@.len() == i,
            forall|j: int| 0 <= j < i ==> clock_fits(entries@[j], #[trigger] cs@[j]),
        decreases entries.len() - i,
    {
        cs.push(entry_clock(&entries[i]));
        i = i + 1;
    }
    cs
}

/// Minutes an entry adds to a total: its duration, or nothing without one.
pub open spec fn entry_minutes(e: TimeEntry) -> nat {
    match e.time_interval.duration {
        Some(d) => iso_duration_minutes(d@),
        None => 0,
    }
}

/// The entry counts towards a total over the local days `lo..=hi`: its start
/// parses, falls on one of those days, and the entry passes the project
/// filter.
pub open spec fn counted_in(e: TimeEntry, c: EntryClock, lo: int, hi: int, filter: Option<String>) -> bool {
    &&& c.start matches Some(t) && lo <= t.day.days && t.day.days <= hi
    &&& e.matches_project(filter)
}

/// Minutes of the first `n` entries that count over `lo..=hi`.
pub open spec fn minutes_in(
    es: Seq<TimeEntry>,
    cs: Seq<EntryClock>,
    lo: int,
    hi: int,
    filter: Option<String>,
    n: nat,
) -> nat
    decreases n,
{
    if n == 0 {
        0
    } else {
        minutes_in(es, cs, lo, hi, filter, (n - 1) as nat) + if counted_in(
            es[n - 1],
            cs[n - 1],
            lo,
            hi,
            filter,
        ) {
            entry_minutes(es[n - 1])
        } else {
            0
        }
    }
}

/// Minutes of all entries that count over `lo..=hi`.
pub open spec fn total_minutes(
    es: Seq<TimeEntry>,
    cs: Seq<EntryClock>,
    lo: int,
    hi: int,
    filter: Option<String>,
) -> nat {
    minutes_in(es, cs, lo, hi, filter, es.len())
}

proof fn lemma_minutes_monotone(
    es: Seq<TimeEntry>,
    cs: Seq<EntryClock>,
    lo: int,
    hi: int,
    filter: Option<String>,
    i: nat,
    n: nat,
)
    requires
        i <= n,
    ensures
        minutes_in(es, cs, lo, hi, filter, i) <= minutes_in(es, cs, lo, hi, filter, n),
    decreases n,
{
    if i < n {
        lemma_minutes_monotone(es, cs, lo, hi, filter, i, (n - 1) as nat);
    }
}

/// The entry passes the project filter.
pub fn matches_project(e: &TimeEntry, filter: &Option<String>) -> (b: bool)
    ensures
        b == e.matches_project(*filter),
{
    match filter {
        None => true,
        Some(p) => match &e.project_id {
            Some(q) => *q == *p,
            None => false,
        },
    }
}

/// Minutes logged on the local days `lo..=hi` by entries passing the project
/// filter, or `None` where the sum does not fit in 64 bits.
pub fn minutes_between(
    entries: &Vec<TimeEntry>,
    clocks: &Vec<EntryClock>,
    lo: i32,
    hi: i32,
    filter: &Option<String>,
) -> (r: Option<u64>)
    requires
        clocks@.len() == entries@.len(),
    ensures
        total_minutes(entries@, clocks@, lo as int, hi as int, *filter) <= u64::MAX ==> r == Some(
            total_minutes(entries@, clocks@, lo as int, hi as int, *filter) as u64,
        ),
        total_minutes(entries@, clocks@, lo as int, hi as int, *filter) > u64::MAX ==> r is None,
{
    let ghost es = entries@;
    let ghost cs = clocks@;
    let mut acc: u64 = 0;
    let mut i: usize = 0;
    while i < entries.len()
        invariant
            es == entries@,
            cs == clocks@,
            clocks@.len() == entries@.len(),
            0 <= i <= entries@.len(),
            acc == minutes_in(es, cs, lo as int, hi as int, *filter, i as nat),
        decreases entries.len() - i,
    {
        let e = &entries[i];
        let counted = match &clocks[i].start {
            Some(t) => lo <= t.day.days && t.day.days <= hi && matches_project(e, filter),
            None => false,
        };
        if counted {
            let m = match &e.time_interval.duration {
                Some(d) => checked_iso_duration(d.as_str()),
                None => Some(0),
            };
            let next = match m {
                Some(m) => acc.checked_add(m),
                None => None,
            };
            match next {
                Some(v) => {
                    acc = v;
                },
                None => {
                    proof {
                        lemma_minutes_monotone(
                            es,
                            cs,
                            lo as int,
                            hi as int,
                            *filter,
                            (i + 1) as nat,
                            es.len(),
                        );
                    }
                    return None;
                },
            }
        }
        i = i + 1;
    }
    Some(acc)
}

} // verus!
