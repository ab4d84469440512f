use chrono::{Datelike, Timelike};
use icalendar::{Component, EventLike};
use vstd::prelude::*;

use crate::date::{days_in_month, CalDate, Date, TimeOfDay};

verus! {

#[verifier::external_type_specification]
#[verifier::external_body]
pub struct ExEvent(icalendar::Event);

#[verifier::external_type_specification]
#[verifier::external_body]
pub struct ExDatePerhapsTime(icalendar::DatePerhapsTime);

#[verifier::external_type_specification]
#[verifier::external_body]
pub struct ExCalendar(icalendar::Calendar);

#[verifier::external_type_specification]
#[verifier::external_body]
pub struct ExCalendarComponent(icalendar::CalendarComponent);

/// The name that every produced calendar carries.
pub const CALENDAR_NAME: &'static str = "notion2ics";

/// A record that qualified for the calendar: its page id, display title,
/// normalised date, page URL and labelled display pairs.
#[derive(Debug, Clone, PartialEq)]
pub struct DateEntry {
    pub id: String,
    pub title: String,
    pub date: Date,
    pub url: String,
    pub additional: Vec<(String, String)>,
}

/// One end of an event: a whole day, or a date with a time of day.
#[derive(Debug, Clone, Copy, PartialEq, Eq)]
pub enum Bound {
    Day(CalDate),
    At(CalDate, TimeOfDay),
}

/// Everything an event is made of, before it is handed to the calendar.
#[derive(Debug, Clone, PartialEq)]
pub struct EventParts {
    pub uid: String,
    pub summary: String,
    pub description: String,
    pub starts: Bound,
    pub ends: Option<Bound>,
}

impl Bound {
    pub open spec fn wf(self) -> bool {
        match self {
            Bound::Day(d) => d.valid(),
            Bound::At(d, t) => d.valid() && t.valid(),
        }
    }
}

pub open spec fn pairs_view(v: Seq<(String, String)>) -> Seq<(Seq<char>, Seq<char>)> {
    Seq::new(v.len(), |i: int| (v[i].0@, v[i].1@))
}

/// The default length of an event that has a start time and no end: one hour.
pub const DEFAULT_DURATION_SECS: i64 = 3600;

/// What chrono's `NaiveDateTime::checked_add_signed` gives for a number of seconds later.
pub uninterp spec fn seconds_later(d: CalDate, t: TimeOfDay, secs: int) -> Option<
    (CalDate, TimeOfDay),
>;

/// The day after a date.
pub open spec fn next_day(d: CalDate) -> CalDate {
    if (d.day as int) < days_in_month(d.year as int, d.month as int) {
        CalDate { day: (d.day + 1) as u32, ..d }
    } else if d.month < 12 {
        CalDate { month: (d.month + 1) as u32, day: 1, ..d }
    } else {
        CalDate { year: (d.year + 1) as i32, month: 1, day: 1 }
    }
}

/// A date and time moved on by less than a day's seconds, outside a leap second.
pub open spec fn later_by(d: CalDate, t: TimeOfDay, secs: int) -> (CalDate, TimeOfDay) {
    let total = t.hour * 3600 + t.minute * 60 + t.second + secs;
    let tod = TimeOfDay {
        hour: (total % 86400 / 3600) as u32,
        minute: (total % 3600 / 60) as u32,
        second: (total % 60) as u32,
        nanosecond: t.nanosecond,
    };
    if total < 86400 {
        (d, tod)
    } else {
        (next_day(d), tod)
    }
}

/// Relies on chrono's `NaiveDateTime::checked_add_signed` with `TimeDelta::seconds`:
/// outside a leap second the time of day moves on by the seconds, into the next day
/// past midnight, and the result is `None` exactly where that day is past chrono's range.
#[verifier::external_body]
fn add_seconds(d: CalDate, t: TimeOfDay, secs: i64) -> (r: Option<(CalDate, TimeOfDay)>)
    requires
        d.valid(),
        t.valid(),
        0 <= secs < 86400,
    ensures
        r == seconds_later(d, t, secs as int),
        r matches Some(p) ==> p.0.valid() && p.1.valid(),
        t.nanosecond < 1_000_000_000 ==> r == (if later_by(d, t, secs as int).0.valid() {
            Some(later_by(d, t, secs as int))
        } else {
            None
        }),
{
    let date = chrono::NaiveDate::from_ymd_opt(d.year, d.month, d.day).unwrap();
    let start = date.and_hms_nano_opt(t.hour, t.minute, t.second, t.nanosecond).unwrap();
    match start.checked_add_signed(chrono::TimeDelta::seconds(secs)) {
        Some(e) => Some((CalDate { year: e.year(), month: e.month(), day: e.day() }, TimeOfDay { hour: e.hour(), minute: e.minute(), second: e.second(), nanosecond: e.nanosecond() })),
        None => None,
    }
}

/// The lines `label: value`, one for each pair.
pub open spec fn pair_lines(pairs: Seq<(Seq<char>, Seq<char>)>) -> Seq<char>
    decreases pairs.len(),
{
    if pairs.len() == 0 {
        Seq::empty()
    } else {
        pair_lines(pairs.drop_last()) + pairs.last().0 + seq![':', ' '] + pairs.last().1 + seq!['\n']
    }
}

/// The pair lines, a separator line `---` and the URL.
pub open spec fn description_spec(pairs: Seq<(Seq<char>, Seq<char>)>, url: Seq<char>) -> Seq<char> {
    pair_lines(pairs) + seq!['-', '-', '-', '\n'] + url
}

pub open spec fn start_bound(d: Date) -> Bound {
    match d.start_time {
        Some(t) => Bound::At(d.start_date, t),
        None => Bound::Day(d.start_date),
    }
}

/// The end of an event: the end value where there is one; else one hour after a
/// timed start (none where that is past the representable dates); else none, for
/// a whole-day event.
pub open spec fn end_bound(d: Date) -> Option<Bound> {
    match d.end_date {
        Some(ed) => match d.end_time {
            Some(t) => Some(Bound::At(ed, t)),
            None => Some(Bound::Day(ed)),
        },
        None => match d.start_time {
            Some(t) => match seconds_later(d.start_date, t, DEFAULT_DURATION_SECS as int) {
                Some(p) => Some(Bound::At(p.0, p.1)),
                None => None,
            },
            None => None,
        },
    }
}

impl DateEntry {
    pub open spec fn wf(self) -> bool {
        self.date.wf()
    }

    /// The parts of this entry's event: the page id as identifier, the title
    /// as summary, the pairs and the URL as description, and its bounds.
    pub fn event_parts(&self) -> (r: EventParts)
        requires
            self.wf(),
        ensures
            r.uid@ == self.id@,
            r.summary@ == self.title@,
            r.description@ == description_spec(pairs_view(self.additional@), self.url@),
            r.starts == start_bound(self.date),
            r.ends == end_bound(self.date),
            r.starts.wf(),
            r.ends matches Some(b) ==> b.wf(),
            self.date.end_date is None && self.date.start_time is None ==> r.ends is None,
            self.date.end_date is None ==> (self.date.start_time matches Some(t) ==> (
            t.nanosecond < 1_000_000_000 ==> r.ends == (if later_by(
                self.date.start_date,
                t,
                DEFAULT_DURATION_SECS as int,
            ).0.valid() {
                Some(
                    Bound::At(
                        later_by(self.date.start_date, t, DEFAULT_DURATION_SECS as int).0,
                        later_by(self.date.start_date, t, DEFAULT_DURATION_SECS as int).1,
                    ),
                )
            } else {
                None
            }))),
    {
        let d = self.date;
        let starts = match d.start_time {
            Some(t) => Bound::At(d.start_date, t),
            None => Bound::Day(d.start_date),
        };
        let ends = match d.end_date {
            Some(ed) => match d.end_time {
                Some(t) => Some(Bound::At(ed, t)),
                None => Some(Bound::Day(ed)),
            },
            None => match d.start_time {
                Some(t) => match add_seconds(d.start_date, t, DEFAULT_DURATION_SECS) {
                    Some(p) => Some(Bound::At(p.0, p.1)),
                    None => None,
                },
                None => None,
            },
        };
        EventParts {
            uid: self.id.clone(),
            summary: self.title.clone(),
            description: self.description(),
            starts,
            ends,
        }
    }

    fn description(&self) -> (r: String)
        ensures
            r@ == description_spec(pairs_view(self.additional@), self.url@),
    {
        let ghost pairs = pairs_view(self.additional@);
        let mut r = String::new();
        let mut i: usize = 0;
        while i < self.additional.len()
            invariant
                i <= self.additional@.len(),
                pairs == pairs_view(self.additional@),
                r@ == pair_lines(pairs.take(i as int)),
            decreases self.additional@.len() - i,
        {
            assert(pairs.take(i as int + 1).drop_last() =~= pairs.take(i as int));
            r.append(self.additional[i].0.as_str());
            r.append(": ");
            r.append(self.additional[i].1.as_str());
            r.append("\n");
            proof {
                reveal_strlit(": ");
                reveal_strlit("\n");
                assert(r@ =~= pair_lines(pairs.take(i as int + 1)));
            }
            i = i + 1;
        }
        assert(pairs.take(pairs.len() as int) =~= pairs);
        r.append("---\n");
        r.append(self.url.as_str());
        proof {
            reveal_strlit("---\n");
            assert(r@ =~= description_spec(pairs, self.url@));
        }
        r
    }

    /// This entry as an iCalendar event: `UID`, `SUMMARY` and `DESCRIPTION` from
    /// its parts, `DTSTART` from its start, and `DTEND` exactly where it has an end,
    /// each time to the whole second.
    pub fn as_event(&self) -> (r: icalendar::Event)
        requires
            self.wf(),
        ensures
            event_holds(event_props(r), event_bounds(r), *self),
    {
        proof {
            reveal_strlit("UID");
            reveal_strlit("SUMMARY");
            reveal_strlit("DESCRIPTION");
            reveal_strlit("DTSTART");
            reveal_strlit("DTEND");
            assert("UID"@.len() == 3 && "SUMMARY"@.len() == 7 && "DESCRIPTION"@.len() == 11);
            assert("DTSTART"@.len() == 7 && "DTEND"@.len() == 5);
        }
        let parts = self.event_parts();
        let mut event = new_event();
        assert(!event_bounds(event).contains_key("DTEND"@));
        set_uid(&mut event, parts.uid.as_str());
        set_summary(&mut event, parts.summary.as_str());
        set_description(&mut event, parts.description.as_str());
        set_starts(&mut event, parts.starts);
        assert(!event_bounds(event).contains_key("DTEND"@));
        match parts.ends {
            Some(b) => set_ends(&mut event, b),
            None => {},
        }
        event
    }
}

/// A bound as icalendar writes it: times to the whole second, a leap second kept
/// as such.
pub open spec fn whole_seconds(b: Bound) -> Bound {
    match b {
        Bound::Day(d) => Bound::Day(d),
        Bound::At(d, t) => Bound::At(
            d,
            TimeOfDay {
                nanosecond: if t.nanosecond >= 1_000_000_000 {
                    1_000_000_000
                } else {
                    0
                },
                ..t
            },
        ),
    }
}

/// The text properties of an event, by name, as icalendar's `Event` keeps them.
pub uninterp spec fn event_props(e: icalendar::Event) -> Map<Seq<char>, Seq<char>>;

/// The date properties (`DTSTART`, `DTEND`) of an event, by name, as the bounds
/// that their text denotes.
pub uninterp spec fn event_bounds(e: icalendar::Event) -> Map<Seq<char>, Bound>;

/// The text properties of the events of a calendar, in order.
pub uninterp spec fn calendar_events(c: icalendar::Calendar) -> Seq<Map<Seq<char>, Seq<char>>>;

/// The date properties of the events of a calendar, in order.
pub uninterp spec fn calendar_event_bounds(c: icalendar::Calendar) -> Seq<Map<Seq<char>, Bound>>;

/// The `NAME` of a calendar.
pub uninterp spec fn calendar_name(c: icalendar::Calendar) -> Seq<char>;

/// The properties of an event are those of the entry's event parts.
pub open spec fn event_holds(
    props: Map<Seq<char>, Seq<char>>,
    bounds: Map<Seq<char>, Bound>,
    e: DateEntry,
) -> bool {
    &&& props.contains_key("UID"@) && props["UID"@] == e.id@
    &&& props.contains_key("SUMMARY"@) && props["SUMMARY"@] == e.title@
    &&& props.contains_key("DESCRIPTION"@)
    &&& props["DESCRIPTION"@] == description_spec(pairs_view(e.additional@), e.url@)
    &&& bounds.contains_key("DTSTART"@) && bounds["DTSTART"@] == whole_seconds(start_bound(e.date))
    &&& (bounds.contains_key("DTEND"@) <==> end_bound(e.date) is Some)
    &&& (end_bound(e.date) matches Some(b) ==> bounds["DTEND"@] == whole_seconds(b))
}

/// `line` followed by CRLF stands in `text` at `i`, at the start of a line.
pub open spec fn line_at(text: Seq<char>, i: int, line: Seq<char>) -> bool {
    &&& 0 <= i && i + line.len() + 2 <= text.len()
    &&& text.subrange(i, i + line.len() + 2) == line + seq!['\r', '\n']
    &&& (i == 0 || text.subrange(i - 2, i) == seq!['\r', '\n'])
}

/// How many lines that equal `line` start before position `n` of `text`.
pub open spec fn line_count(text: Seq<char>, line: Seq<char>, n: nat) -> nat
    decreases n,
{
    if n == 0 {
        0
    } else {
        line_count(text, line, (n - 1) as nat) + if line_at(text, n - 1, line) {
            1nat
        } else {
            0nat
        }
    }
}

/// Relies on icalendar's `Event::new`: an event with no properties.
#[verifier::external_body]
fn new_event() -> (r: icalendar::Event)
    ensures
        forall|k: Seq<char>| !event_props(r).contains_key(k),
        forall|k: Seq<char>| !event_bounds(r).contains_key(k),
{
    icalendar::Event::new()
}

/// Relies on icalendar's `Component::uid`: sets the property `UID`.
#[verifier::external_body]
fn set_uid(event: &mut icalendar::Event, uid: &str)
    ensures
        event_props(*final(event)) == event_props(*old(event)).insert("UID"@, uid@),
        event_bounds(*final(event)) == event_bounds(*old(event)),
{
    event.uid(uid);
}

/// Relies on icalendar's `Component::summary`: sets the property `SUMMARY`.
#[verifier::external_body]
fn set_summary(event: &mut icalendar::Event, summary: &str)
    ensures
        event_props(*final(event)) == event_props(*old(event)).insert("SUMMARY"@, summary@),
        event_bounds(*final(event)) == event_bounds(*old(event)),
{
    event.summary(summary);
}

/// Relies on icalendar's `Component::description`: sets the property `DESCRIPTION`.
#[verifier::external_body]
fn set_description(event: &mut icalendar::Event, description: &str)
    ensures
        event_props(*final(event)) == event_props(*old(event)).insert(
            "DESCRIPTION"@,
            description@,
        ),
        event_bounds(*final(event)) == event_bounds(*old(event)),
{
    event.description(description);
}

/// Relies on icalendar's `EventLike::starts`, with chrono's `NaiveDate::from_ymd_opt` and
/// `and_hms_nano_opt`, which accept every valid date and time: sets the property `DTSTART`,
/// which holds the time to the whole second.
#[verifier::external_body]
fn set_starts(event: &mut icalendar::Event, b: Bound)
    requires
        b.wf(),
    ensures
        event_props(*final(event)) == event_props(*old(event)),
        event_bounds(*final(event)) == event_bounds(*old(event)).insert(
            "DTSTART"@,
            whole_seconds(b),
        ),
{
    match b {
        Bound::Day(d) => event.starts(chrono::NaiveDate::from_ymd_opt(d.year, d.month, d.day).unwrap()),
        Bound::At(d, t) => event.starts(chrono::NaiveDate::from_ymd_opt(d.year, d.month, d.day).unwrap().and_hms_nano_opt(t.hour, t.minute, t.second, t.nanosecond).unwrap()),
    };
}

/// Relies on icalendar's `EventLike::ends`, with chrono's `NaiveDate::from_ymd_opt` and
/// `and_hms_nano_opt`, which accept every valid date and time: sets the property `DTEND`,
/// which holds the time to the whole second.
#[verifier::external_body]
fn set_ends(event: &mut icalendar::Event, b: Bound)
    requires
        b.wf(),
    ensures
        event_props(*final(event)) == event_props(*old(event)),
        event_bounds(*final(event)) == event_bounds(*old(event)).insert(
            "DTEND"@,
            whole_seconds(b),
        ),
{
    match b {
        Bound::Day(d) => event.ends(chrono::NaiveDate::from_ymd_opt(d.year, d.month, d.day).unwrap()),
        Bound::At(d, t) => event.ends(chrono::NaiveDate::from_ymd_opt(d.year, d.month, d.day).unwrap().and_hms_nano_opt(t.hour, t.minute, t.second, t.nanosecond).unwrap()),
    };
}

/// Relies on icalendar's `Calendar::new` and `Calendar::name`: a calendar with that
/// name and no events.
#[verifier::external_body]
fn new_calendar(name: &str) -> (r: icalendar::Calendar)
    ensures
        calendar_events(r).len() == 0,
        calendar_event_bounds(r).len() == 0,
        calendar_name(r) == name@,
{
    icalendar::Calendar::new().name(name).done()
}

/// Relies on icalendar's `Calendar::push`: appends the event after the others.
#[verifier::external_body]
fn push_event(calendar: &mut icalendar::Calendar, event: icalendar::Event)
    ensures
        calendar_events(*final(calendar)) == calendar_events(*old(calendar)).push(event_props(event)),
        calendar_event_bounds(*final(calendar)) == calendar_event_bounds(*old(calendar)).push(
            event_bounds(event),
        ),
        calendar_name(*final(calendar)) == calendar_name(*old(calendar)),
{
    calendar.push(event);
}

/// Relies on icalendar's `Display` of `Calendar`: the text opens and closes the
/// `VCALENDAR` and writes a `BEGIN:VEVENT` line for each event. Property values are
/// written unescaped where they hold a carriage return, so more such lines may stand.
#[verifier::external_body]
fn calendar_text(calendar: &icalendar::Calendar) -> (r: String)
    ensures
        r@.len() >= 17 && r@.subrange(0, 17) == "BEGIN:VCALENDAR\r\n"@,
        line_count(r@, "BEGIN:VEVENT"@, r@.len()) >= calendar_events(*calendar).len(),
        line_count(r@, "END:VCALENDAR"@, r@.len()) >= 1,
{
    calendar.to_string()
}

/// A calendar named `notion2ics` holding one event per entry, in order;
/// entries with equal ids are all kept.
pub fn create_calendar(entries: &Vec<DateEntry>) -> (r: icalendar::Calendar)
    requires
        forall|i: int| 0 <= i < entries@.len() ==> (#[trigger] entries@[i]).wf(),
    ensures
        calendar_name(r) == CALENDAR_NAME@,
        calendar_events(r).len() == entries@.len(),
        calendar_event_bounds(r).len() == entries@.len(),
        forall|k: int|
            0 <= k < entries@.len() ==> event_holds(
                #[trigger] calendar_events(r)[k],
                calendar_event_bounds(r)[k],
                entries@[k],
            ),
{
    let mut calendar = new_calendar(CALENDAR_NAME);
    let mut i: usize = 0;
    while i < entries.len()
        invariant
            i <= entries@.len(),
            forall|i: int| 0 <= i < entries@.len() ==> (#[trigger] entries@[i]).wf(),
            calendar_name(calendar) == CALENDAR_NAME@,
            calendar_events(calendar).len() == i,
            calendar_event_bounds(calendar).len() == i,
            forall|k: int|
                0 <= k < i ==> event_holds(
                    #[trigger] calendar_events(calendar)[k],
                    calendar_event_bounds(calendar)[k],
                    entries@[k],
                ),
        decreases entries@.len() - i,
    {
        let event = entries[i].as_event();
        push_event(&mut calendar, event);
        i = i + 1;
    }
    calendar
}

/// The iCalendar text of the calendar of the entries: it opens the calendar and
/// holds a `BEGIN:VEVENT` line for each entry. Each event also carries a `DTSTAMP`
/// that icalendar takes from the clock.
pub fn render_calendar(entries: &Vec<DateEntry>) -> (r: String)
    requires
        forall|i: int| 0 <= i < entries@.len() ==> (#[trigger] entries@[i]).wf(),
    ensures
        r@.len() >= 17 && r@.subrange(0, 17) == "BEGIN:VCALENDAR\r\n"@,
        line_count(r@, "BEGIN:VEVENT"@, r@.len()) >= entries@.len(),
        line_count(r@, "END:VCALENDAR"@, r@.len()) >= 1,
{
    calendar_text(&create_calendar(entries))
}

} // verus!
