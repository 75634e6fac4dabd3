//! The Logs page: what happened this session, filtered and clamped.
use crate::text::{decimal, join, joined, numbered, push_char, push_decimal, texts};
use crate::theme::Palette;
use vstd::prelude::*;

verus! {

/// How bad a line is.
#[derive(Clone, Copy, PartialEq, Eq, Debug, Structural)]
pub enum LogLevel {
    Info,
    Warning,
    Error,
}

/// Which lines the page lists.
#[derive(Clone, Copy, PartialEq, Eq, Debug, Structural)]
pub enum LogFilter {
    All,
    Warnings,
    Errors,
}

impl LogFilter {
    pub open spec fn id_spec(self) -> Seq<char> {
        match self {
            LogFilter::All => "log-filter-all"@,
            LogFilter::Warnings => "log-filter-warnings"@,
            LogFilter::Errors => "log-filter-errors"@,
        }
    }

    /// The identifier the filter's button is addressed by.
    pub fn id(self) -> (r: &'static str)
        ensures
            r@ == self.id_spec(),
    {
        match self {
            LogFilter::All => "log-filter-all",
            LogFilter::Warnings => "log-filter-warnings",
            LogFilter::Errors => "log-filter-errors",
        }
    }
}

/// Whether a filter's button is the lit one: the filter in force is the
/// primary button, the others are outlined.
pub fn log_filter_chip(candidate: LogFilter, filter: LogFilter) -> (active: bool)
    ensures
        active == (candidate == filter),
{
    candidate == filter
}

/// How many characters of a long message are shown before it is clamped.
pub const CLAMP: u64 = 150;

/// The colour a level is written in.
pub fn log_level_color(level: LogLevel, p: Palette) -> (c: u32)
    ensures
        c == level_colour(level, p),
{
    match level {
        LogLevel::Info => p.muted,
        LogLevel::Warning => p.warning,
        LogLevel::Error => p.danger_strong,
    }
}

/// How long ago something happened, in the unit the list reads it in.
#[derive(Clone, Copy, PartialEq, Eq, Debug, Structural)]
pub enum Age {
    JustNow,
    Seconds(u128),
    Minutes(u128),
    Hours(u128),
}

/// Nanoseconds in a second.
pub const NANOS: u128 = 1_000_000_000;

/// The age of a line written `seconds` ago: "just now" for up to a second,
/// then whole seconds below a minute, whole minutes below an hour, and whole
/// hours after that.
pub open spec fn age_of(seconds: u128) -> Age {
    if seconds <= 1 {
        Age::JustNow
    } else if seconds < 60 {
        Age::Seconds(seconds)
    } else if seconds < 3600 {
        Age::Minutes((seconds / 60) as u128)
    } else {
        Age::Hours((seconds / 3600) as u128)
    }
}

/// Whole seconds from `at_ns` to `now_ns` (nanoseconds since the Unix
/// epoch), the way `Duration::as_secs` floors them; a time in the future is no
/// time ago at all.
pub open spec fn seconds_between(now_ns: u128, at_ns: u128) -> u128 {
    if at_ns <= now_ns {
        (((now_ns - at_ns) as u128) / NANOS) as u128
    } else {
        0
    }
}

/// Whole seconds from `at_ns` to `now_ns`.
pub fn whole_seconds(now_ns: u128, at_ns: u128) -> (r: u128)
    ensures
        r == seconds_between(now_ns, at_ns),
{
    if at_ns <= now_ns { (now_ns - at_ns) / NANOS } else { 0 }
}

/// How long ago a line written at `at_ns` was, at `now_ns`.
pub fn age(now_ns: u128, at_ns: u128) -> (a: Age)
    ensures
        a == age_of(seconds_between(now_ns, at_ns)),
{
    let seconds = whole_seconds(now_ns, at_ns);
    if seconds <= 1 {
        Age::JustNow
    } else if seconds < 60 {
        Age::Seconds(seconds)
    } else if seconds < 3600 {
        Age::Minutes(seconds / 60)
    } else {
        Age::Hours(seconds / 3600)
    }
}

/// An age as the list writes it: the words for "just now", or a number and
/// its unit's letter.
pub open spec fn age_text(a: Age, just_now: Seq<char>) -> Seq<char> {
    match a {
        Age::JustNow => just_now,
        Age::Seconds(n) => decimal(n as nat).push('s'),
        Age::Minutes(n) => decimal(n as nat).push('m'),
        Age::Hours(n) => decimal(n as nat).push('h'),
    }
}

/// How long ago a line was written, freshly computed on each render.
pub fn format_age(now_ns: u128, at_ns: u128, just_now: &str) -> (s: String)
    ensures
        s@ == age_text(age_of(seconds_between(now_ns, at_ns)), just_now@),
{
    let a = age(now_ns, at_ns);
    let (n, unit) = match a {
        Age::JustNow => return String::from_str(just_now),
        Age::Seconds(n) => (n, 's'),
        Age::Minutes(n) => (n, 'm'),
        Age::Hours(n) => (n, 'h'),
    };
    let mut s = String::new();
    push_decimal(&mut s, n);
    push_char(&mut s, unit);
    assert(s@ =~= decimal(n as nat).push(unit));
    s
}

/// One line of the activity log: when, how bad, whose, and what.
pub struct LogEntry {
    /// The profile or part of the program the line is about.
    pub who: String,
    pub level: LogLevel,
    pub message: String,
    /// When it was written, in nanoseconds since the Unix epoch.
    pub at_ns: u128,
}

/// The control under a clamped line.
#[derive(Clone, Copy, PartialEq, Eq, Debug, Structural)]
pub enum Toggle {
    /// Shows the line in full; announced with how many characters it hides.
    Expand { hidden: u64 },
    /// Clamps it again.
    Collapse,
}

/// The button that opens or closes a long line.
pub struct ToggleButton {
    pub id: String,
    pub toggle: Toggle,
}

/// What a line is announced as: who, how bad and the whole message, never
/// clamped, so every character reaches a reader who cannot see the row.
pub struct LineAnnouncement {
    pub who: String,
    pub level: LogLevel,
    pub message: String,
}

/// The time cell: the age in the list, and the exact instant one hover away.
pub struct TimeCell {
    pub id: String,
    pub age: Age,
    pub instant_ns: u128,
    pub colour: u32,
}

/// The level cell, in the level's colour.
pub struct LevelCell {
    pub id: String,
    pub level: LogLevel,
    pub colour: u32,
}

/// The "who" cell, truncated, with the whole name on its tooltip.
pub struct WhoCell {
    pub id: String,
    pub who: String,
    pub tooltip: String,
    pub colour: u32,
}

/// One line of the log as the list draws it.
pub struct LogLine {
    pub id: String,
    pub aria: LineAnnouncement,
    pub time: TimeCell,
    pub level: LevelCell,
    pub who: WhoCell,
    pub message_id: String,
    /// The message as shown: whole, or its first `CLAMP` characters and an
    /// ellipsis.
    pub shown: String,
    pub clamped: bool,
    /// The control that opens or closes the line, for a line longer than
    /// `CLAMP`.
    pub toggle: Option<ToggleButton>,
}

/// What a message of that text shows, clamped or opened.
pub open spec fn shown_text(message: Seq<char>, expanded: bool) -> Seq<char> {
    if message.len() > CLAMP && !expanded {
        message.take(CLAMP as int).push('…')
    } else {
        message
    }
}

/// The colour a level is written in.
pub open spec fn level_colour(level: LogLevel, p: Palette) -> u32 {
    match level {
        LogLevel::Info => p.muted,
        LogLevel::Warning => p.warning,
        LogLevel::Error => p.danger_strong,
    }
}

/// Everything a drawn line holds, for the entry it stands for.
pub open spec fn log_line_of(l: LogLine, e: LogEntry, index: u64, expanded: bool, now_ns: u128, p: Palette) -> bool {
    let n = decimal(index as nat);
    &&& l.id@ == "log-"@ + n
    &&& l.aria.who@ == e.who@
    &&& l.aria.level == e.level
    &&& l.aria.message@ == e.message@
    &&& l.time.id@ == "log-time-"@ + n
    &&& l.time.age == age_of(seconds_between(now_ns, e.at_ns))
    &&& l.time.instant_ns == e.at_ns
    &&& l.time.colour == p.dim
    &&& l.level.id@ == "log-level-"@ + n
    &&& l.level.level == e.level
    &&& l.level.colour == level_colour(e.level, p)
    &&& l.who.id@ == "log-who-"@ + n
    &&& l.who.who@ == e.who@
    &&& l.who.tooltip@ == e.who@
    &&& l.who.colour == p.muted
    &&& l.message_id@ == "log-message-"@ + n
    &&& l.clamped == (e.message@.len() > CLAMP && !expanded)
    &&& l.shown@ == shown_text(e.message@, expanded)
    &&& match l.toggle {
        Some(b) => e.message@.len() > CLAMP && b.id@ == "log-toggle-"@ + n && b.toggle == (if expanded {
            Toggle::Collapse
        } else {
            Toggle::Expand { hidden: (e.message@.len() - CLAMP) as u64 }
        }),
        None => e.message@.len() <= CLAMP,
    }
}

/// One line: when, how bad, whose, and what. Every character of the message
/// is reachable: the line is announced whole; a line that fits is drawn as it
/// is; a longer one is clamped unless it was opened, and carries the control
/// that opens or closes it.
pub fn log_row(entry: &LogEntry, index: u64, expanded: bool, now_ns: u128, p: Palette) -> (l: LogLine)
    ensures
        log_line_of(l, *entry, index, expanded, now_ns, p),
{
    let message = entry.message.as_str();
    let length = message.unicode_len() as u64;
    let clamped = length > CLAMP && !expanded;
    let shown = if clamped {
        let mut text = String::from_str(message.substring_char(0, CLAMP as usize));
        push_char(&mut text, '…');
        assert(text@ =~= message@.take(CLAMP as int).push('…'));
        text
    } else {
        String::from_str(message)
    };
    let toggle = if length > CLAMP {
        Some(ToggleButton {
            id: numbered("log-toggle-", index),
            toggle: if expanded { Toggle::Collapse } else { Toggle::Expand { hidden: length - CLAMP } },
        })
    } else {
        None
    };
    LogLine {
        id: numbered("log-", index),
        aria: LineAnnouncement { who: entry.who.clone(), level: entry.level, message: entry.message.clone() },
        time: TimeCell {
            id: numbered("log-time-", index),
            age: age(now_ns, entry.at_ns),
            instant_ns: entry.at_ns,
            colour: p.dim,
        },
        level: LevelCell { id: numbered("log-level-", index), level: entry.level, colour: log_level_color(entry.level, p) },
        who: WhoCell {
            id: numbered("log-who-", index),
            who: entry.who.clone(),
            tooltip: entry.who.clone(),
            colour: p.muted,
        },
        message_id: numbered("log-message-", index),
        shown,
        clamped,
        toggle,
    }
}

/// Whether an instant is among the opened ones.
pub fn is_opened(opened: &Vec<u128>, at_ns: u128) -> (b: bool)
    ensures
        b == opened@.contains(at_ns),
{
    let mut i: usize = 0;
    while i < opened.len()
        invariant
            i <= opened@.len(),
            forall|k: int| 0 <= k < i ==> opened@[k] != at_ns,
        decreases opened@.len() - i,
    {
        if opened[i] == at_ns {
            assert(opened@[i as int] == at_ns);
            return true;
        }
        i = i + 1;
    }
    false
}

/// The page's list: one line per entry, newest first as given. A line is
/// opened exactly when the instant it was written at is among `opened`: the
/// lines are kept open by when they were written rather than by place, so a
/// new line arriving at the top cannot open someone else's.
pub fn logs_list(rows: &Vec<LogEntry>, opened: &Vec<u128>, now_ns: u128, p: Palette) -> (lines: Vec<LogLine>)
    ensures
        lines@.len() == rows@.len(),
        forall|i: int|
            0 <= i < rows@.len() ==> log_line_of(
                #[trigger] lines@[i],
                rows@[i],
                i as u64,
                opened@.contains(rows@[i].at_ns),
                now_ns,
                p,
            ),
{
    let mut lines: Vec<LogLine> = Vec::new();
    let mut i: usize = 0;
    while i < rows.len()
        invariant
            i <= rows@.len(),
            lines@.len() == i,
            forall|j: int|
                0 <= j < i ==> log_line_of(
                    #[trigger] lines@[j],
                    rows@[j],
                    j as u64,
                    opened@.contains(rows@[j].at_ns),
                    now_ns,
                    p,
                ),
        decreases rows@.len() - i,
    {
        let open = is_opened(opened, rows[i].at_ns);
        lines.push(log_row(&rows[i], i as u64, open, now_ns, p));
        i = i + 1;
    }
    lines
}

/// One line of the details panel's own log view.
pub struct PanelLogLine {
    pub index: u64,
    pub level: LogLevel,
    pub level_colour: u32,
    pub age: Age,
    pub age_colour: u32,
    pub message: String,
    pub message_colour: u32,
}

/// The details panel's log view, `panel-log-body`.
pub struct PanelLog {
    pub id: &'static str,
    /// An empty tail is one dim sentence; otherwise a muted heading with the
    /// count, over the lines (`panel-log`, index).
    pub empty: bool,
    pub count: u64,
    pub note_colour: u32,
    pub lines: Vec<PanelLogLine>,
}

/// The tail of one profile's activity log: one line per entry, in the order
/// given, each with its level, its age and its whole message.
pub fn panel_log(rows: &Vec<LogEntry>, now_ns: u128, p: Palette) -> (r: PanelLog)
    ensures
        r.id@ == "panel-log-body"@,
        r.empty == (rows@.len() == 0),
        r.count == rows@.len(),
        r.note_colour == (if rows@.len() == 0 { p.dim } else { p.muted }),
        r.lines@.len() == rows@.len(),
        forall|i: int| #![trigger r.lines@[i]] 0 <= i < rows@.len() ==> {
            &&& r.lines@[i].index == i
            &&& r.lines@[i].level == rows@[i].level
            &&& r.lines@[i].level_colour == level_colour(rows@[i].level, p)
            &&& r.lines@[i].age == age_of(seconds_between(now_ns, rows@[i].at_ns))
            &&& r.lines@[i].age_colour == p.dim
            &&& r.lines@[i].message@ == rows@[i].message@
            &&& r.lines@[i].message_colour == p.text_soft
        },
{
    let mut lines: Vec<PanelLogLine> = Vec::new();
    let mut i: usize = 0;
    while i < rows.len()
        invariant
            i <= rows@.len(),
            lines@.len() == i,
            forall|j: int| #![trigger lines@[j]] 0 <= j < i ==> {
                &&& lines@[j].index == j
                &&& lines@[j].level == rows@[j].level
                &&& lines@[j].level_colour == level_colour(rows@[j].level, p)
                &&& lines@[j].age == age_of(seconds_between(now_ns, rows@[j].at_ns))
                &&& lines@[j].age_colour == p.dim
                &&& lines@[j].message@ == rows@[j].message@
                &&& lines@[j].message_colour == p.text_soft
            },
        decreases rows@.len() - i,
    {
        let e = &rows[i];
        lines.push(PanelLogLine {
            index: i as u64,
            level: e.level,
            level_colour: log_level_color(e.level, p),
            age: age(now_ns, e.at_ns),
            age_colour: p.dim,
            message: e.message.clone(),
            message_colour: p.text_soft,
        });
        i = i + 1;
    }
    let empty = rows.len() == 0;
    PanelLog {
        id: "panel-log-body",
        empty,
        count: rows.len() as u64,
        note_colour: if empty { p.dim } else { p.muted },
        lines,
    }
}

/// Every character of a message is reachable: an opened line is the whole
/// message, and a clamped one shows the message's first `CLAMP` characters
/// and one mark, so the hidden rest is exactly what opening adds.
pub proof fn lemma_every_character_reachable(message: Seq<char>)
    ensures
        shown_text(message, true) == message,
        message.len() <= CLAMP ==> shown_text(message, false) == message,
        message.len() > CLAMP ==> {
            &&& shown_text(message, false).len() == CLAMP + 1
            &&& shown_text(message, false).take(CLAMP as int) == message.take(CLAMP as int)
            &&& shown_text(message, false).last() == '…'
        },
{
    if message.len() > CLAMP {
        assert(shown_text(message, false).take(CLAMP as int) =~= message.take(CLAMP as int));
    }
}

/// The order of the units an age is read in.
pub open spec fn age_rank(a: Age) -> int {
    match a {
        Age::JustNow => 0,
        Age::Seconds(_) => 1,
        Age::Minutes(_) => 2,
        Age::Hours(_) => 3,
    }
}

/// An older line never reads younger: the unit only grows with the age, and
/// within a unit so does the number.
pub proof fn lemma_ages_grow(a: u128, b: u128)
    requires
        a <= b,
    ensures
        age_rank(age_of(a)) <= age_rank(age_of(b)),
        age_rank(age_of(a)) == age_rank(age_of(b)) ==> match (age_of(a), age_of(b)) {
            (Age::Seconds(x), Age::Seconds(y)) => x <= y,
            (Age::Minutes(x), Age::Minutes(y)) => x <= y,
            (Age::Hours(x), Age::Hours(y)) => x <= y,
            _ => true,
        },
{
    assert(a / 60 <= b / 60) by (nonlinear_arith)
        requires
            a <= b,
    ;
    assert(a / 3600 <= b / 3600) by (nonlinear_arith)
        requires
            a <= b,
    ;
}

/// What an empty page says: nothing happened, or the filter is hiding the
/// lines there are.
#[derive(Clone, Copy, PartialEq, Eq, Debug, Structural)]
pub enum EmptyLog {
    Nothing,
    NoneOfKind { total: u64 },
}

/// The page's empty message, when the filtered list is empty.
pub fn empty_log(shown: u64, total: u64) -> (r: Option<EmptyLog>)
    ensures
        shown > 0 ==> r is None,
        (shown == 0 && total == 0) ==> r == Some(EmptyLog::Nothing),
        (shown == 0 && total > 0) ==> r == Some(EmptyLog::NoneOfKind { total }),
{
    if shown > 0 {
        None
    } else if total == 0 {
        Some(EmptyLog::Nothing)
    } else {
        Some(EmptyLog::NoneOfKind { total })
    }
}

/// The line under the page's title: where the log is written, or why it
/// cannot be - the one line on the page in the failure colour.
pub enum FileStatus {
    WrittenTo(String),
    NotWritten(String),
}

pub fn file_status(status: &Result<String, String>, p: Palette) -> (r: (FileStatus, u32))
    ensures
        match (status, r.0) {
            (Ok(path), FileStatus::WrittenTo(shown)) => shown@ == path@ && r.1 == p.muted,
            (Err(error), FileStatus::NotWritten(shown)) => shown@ == error@ && r.1 == p.danger,
            _ => false,
        },
{
    match status {
        Ok(path) => (FileStatus::WrittenTo(path.clone()), p.muted),
        Err(error) => (FileStatus::NotWritten(error.clone()), p.danger),
    }
}

/// What copying the page puts on the clipboard: the lines one per row, and
/// nothing when that text would be empty.
pub fn log_clipboard(lines: &Vec<String>) -> (r: Option<String>)
    ensures
        joined(texts(lines@), "\n"@).len() == 0 ==> r is None,
        joined(texts(lines@), "\n"@).len() > 0 ==> (r matches Some(s) && s@ == joined(texts(lines@), "\n"@)),
{
    let text = join(lines, "\n");
    if text.as_str().unicode_len() == 0 {
        None
    } else {
        Some(text)
    }
}

} // verus!
