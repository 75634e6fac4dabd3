//! The Profiles page: the list, its rows, and what each row offers.
use crate::components::{is_badge, status_badge, Badge, Glyph, Tone};
use crate::details::{can_verify, verification_badge, Verification};
use crate::text::{blank, clone_text, decimal, is_blank, numbered, trim, trimmed};
use crate::theme::Palette;
use vstd::prelude::*;

verus! {

/// What a profile's browser is doing.
#[derive(Clone, Copy, PartialEq, Eq, Debug, Structural)]
pub enum RuntimeState {
    Stopped,
    Starting,
    Running,
    Stopping,
    Failed,
    Crashed,
}

/// One profile as the list shows it: what it is, what runs it, where its
/// traffic goes, and what its browser is doing right now.
pub struct ProfileRow {
    pub id: u64,
    pub name: String,
    /// The fingerprint it claims: its seed, brand, platform, language and
    /// time zone, as the profile stores them.
    pub seed: u64,
    pub brand: String,
    pub platform: String,
    pub language: String,
    pub timezone: String,
    /// Where its browser data lives.
    pub data_dir: String,
    pub core_name: String,
    /// The proxy its traffic leaves through; `None` is a direct connection.
    pub proxy_name: Option<String>,
    pub state: RuntimeState,
    /// The state's own word, in the language in force.
    pub state_label: String,
    /// What the runtime said about the state, if anything.
    pub state_message: Option<String>,
    pub cdp_port: Option<u16>,
    pub browser_pid: Option<u32>,
    pub xray_pid: Option<u32>,
    pub socks_port: Option<u16>,
    /// When the browser was started, in nanoseconds since the Unix epoch.
    pub started_at_ns: Option<u128>,
    /// How many runtime notifications were dropped for this profile.
    pub dropped_events: u64,
    pub last_warning: Option<String>,
    pub last_error: Option<String>,
    /// Whether the runtime would accept a start, a stop and a restart now.
    pub can_start: bool,
    pub can_stop: bool,
    pub can_restart: bool,
}

/// The tone a state is shown in. It is the state's, never the
/// fingerprint's: a green row is a running browser, and nothing else.
pub open spec fn state_tone_of(state: RuntimeState) -> Tone {
    match state {
        RuntimeState::Running => Tone::Success,
        RuntimeState::Starting | RuntimeState::Stopping => Tone::Warning,
        RuntimeState::Stopped => Tone::Neutral,
        RuntimeState::Failed | RuntimeState::Crashed => Tone::Danger,
    }
}

/// The tone a state is shown in.
pub fn state_tone(state: RuntimeState) -> (t: Tone)
    ensures
        t == state_tone_of(state),
{
    match state {
        RuntimeState::Running => Tone::Success,
        RuntimeState::Starting | RuntimeState::Stopping => Tone::Warning,
        RuntimeState::Stopped => Tone::Neutral,
        RuntimeState::Failed | RuntimeState::Crashed => Tone::Danger,
    }
}

/// The profile's state as the row shows it: `state-{id}`, in the state's
/// tone, named and announced by the state's own word.
pub fn state_badge(row: &ProfileRow, p: Palette) -> (b: Badge)
    ensures
        is_badge(b, "state-"@ + decimal(row.id as nat), state_tone_of(row.state), row.state_label@,
            row.state_label@, p),
{
    let tone = state_tone(row.state);
    status_badge(numbered("state-", row.id), tone, row.state_label.clone(), row.state_label.clone(), p)
}

/// Which of the two commands a row's button sends.
#[derive(Clone, Copy, PartialEq, Eq, Debug, Structural)]
pub enum Command {
    Start,
    Stop,
}

/// The word on a row's button: it follows the state rather than the command.
#[derive(Clone, Copy, PartialEq, Eq, Debug, Structural)]
pub enum ActionLabel {
    /// A start waiting on its proxy is called off.
    CancelStart,
    /// A stop already under way.
    Stopping,
    Stop,
    /// A start that failed is retried.
    Retry,
    Start,
}

/// The one action a row offers.
#[derive(Clone, Copy, PartialEq, Eq, Debug, Structural)]
pub struct RowAction {
    pub command: Command,
    pub label: ActionLabel,
    pub enabled: bool,
}

/// The one action a row offers, as the state decides it.
pub open spec fn row_action_of(
    state: RuntimeState,
    can_start: bool,
    can_stop: bool,
) -> RowAction {
    if can_stop {
        RowAction {
            command: Command::Stop,
            label: if state == RuntimeState::Starting {
                ActionLabel::CancelStart
            } else if state == RuntimeState::Stopping {
                ActionLabel::Stopping
            } else {
                ActionLabel::Stop
            },
            enabled: state != RuntimeState::Stopping,
        }
    } else {
        RowAction {
            command: Command::Start,
            label: if state == RuntimeState::Failed || state == RuntimeState::Crashed {
                ActionLabel::Retry
            } else {
                ActionLabel::Start
            },
            enabled: can_start,
        }
    }
}

/// The one action a row offers; everything else is behind its menu.
///
/// A row that can be stopped offers the stop - called "cancel start" while
/// it starts, and shown but not pressable while it is already stopping; any
/// other row offers the start, called "retry" after a failure or a crash,
/// pressable when the runtime would accept one.
pub fn row_actions(row: &ProfileRow) -> (a: RowAction)
    ensures
        a == row_action_of(row.state, row.can_start, row.can_stop),
        a.command == (if row.can_stop { Command::Stop } else { Command::Start }),
        !row.can_stop ==> (a.label == ActionLabel::Retry <==> (row.state == RuntimeState::Failed || row.state
            == RuntimeState::Crashed)),
        !row.can_stop ==> (a.label == ActionLabel::Retry || a.label == ActionLabel::Start),
        !row.can_stop ==> a.enabled == row.can_start,
        row.can_stop ==> (a.label == ActionLabel::CancelStart <==> row.state == RuntimeState::Starting),
        row.can_stop ==> (a.label == ActionLabel::Stopping <==> row.state == RuntimeState::Stopping),
        row.can_stop ==> (a.label == ActionLabel::CancelStart || a.label == ActionLabel::Stopping || a.label
            == ActionLabel::Stop),
        row.can_stop ==> (a.enabled <==> row.state != RuntimeState::Stopping),
{
    if row.can_stop {
        let label = if row.state == RuntimeState::Starting {
            ActionLabel::CancelStart
        } else if row.state == RuntimeState::Stopping {
            ActionLabel::Stopping
        } else {
            ActionLabel::Stop
        };
        RowAction { command: Command::Stop, label, enabled: row.state != RuntimeState::Stopping }
    } else {
        let failed = row.state == RuntimeState::Failed || row.state == RuntimeState::Crashed;
        RowAction {
            command: Command::Start,
            label: if failed { ActionLabel::Retry } else { ActionLabel::Start },
            enabled: row.can_start,
        }
    }
}

/// Which menu items of a row can be used.
#[derive(Clone, Copy, PartialEq, Eq, Debug, Structural)]
pub struct RowMenu {
    pub verify: bool,
    pub restart: bool,
}

/// The row's menu: edit, duplicate, open the data directory and delete are
/// always offered; verifying and restarting only where they would be accepted.
pub fn row_menu(row: &ProfileRow, verification: Option<&Verification>) -> (m: RowMenu)
    ensures
        m.verify == crate::details::verifiable(*row, crate::details::reading(verification)),
        m.verify <==> (row.cdp_port is Some && row.state == RuntimeState::Running && !(verification matches Some(
            Verification::Running,
        ))),
        m.restart == row.can_restart,
{
    RowMenu { verify: can_verify(Some(row), verification), restart: row.can_restart }
}

/// Whether a row's trouble is a failure or a warning.
#[derive(Clone, Copy, PartialEq, Eq, Debug, Structural)]
pub enum SignalKind {
    Error,
    Warning,
}

/// The one summary line a row gets when something is wrong.
pub struct Signal {
    pub id: String,
    pub kind: SignalKind,
    pub message: String,
    pub colour: u32,
}

/// The line a row gets for its trouble: the error in the danger colour if
/// there is one, otherwise the warning in the warning colour, and no line when
/// there is neither; its id is `warning-{id}` either way.
pub open spec fn signal_of(s: Option<Signal>, row: ProfileRow, p: Palette) -> bool {
    match (row.last_error, row.last_warning) {
        (Some(e), _) => s matches Some(s) && s.id@ == "warning-"@ + decimal(row.id as nat) && s.kind
            == SignalKind::Error && s.message@ == e@ && s.colour == p.danger_strong,
        (None, Some(w)) => s matches Some(s) && s.id@ == "warning-"@ + decimal(row.id as nat) && s.kind
            == SignalKind::Warning && s.message@ == w@ && s.colour == p.warning,
        (None, None) => s is None,
    }
}

/// The one line a row gets when something is wrong: the error if there is
/// one, otherwise the warning, and nothing when there is neither.
pub fn signal_line(row: &ProfileRow, p: Palette) -> (s: Option<Signal>)
    ensures
        signal_of(s, *row, p),
{
    match &row.last_error {
        Some(error) => Some(Signal {
            id: numbered("warning-", row.id),
            kind: SignalKind::Error,
            message: error.clone(),
            colour: p.danger_strong,
        }),
        None => match &row.last_warning {
            Some(warning) => Some(Signal {
                id: numbered("warning-", row.id),
                kind: SignalKind::Warning,
                message: warning.clone(),
                colour: p.warning,
            }),
            None => None,
        },
    }
}

/// Where a row's traffic goes: the proxy's name, or the word for a direct
/// connection, said rather than left blank.
pub struct Route {
    pub id: String,
    /// `None` means the row says "direct".
    pub proxy: Option<String>,
    pub colour: u32,
}

pub fn route_cell(row: &ProfileRow, p: Palette) -> (r: Route)
    ensures
        r.id@ == "route-"@ + decimal(row.id as nat),
        r.proxy == row.proxy_name,
        r.colour == (if row.proxy_name is Some { p.text_soft } else { p.muted }),
{
    Route {
        id: numbered("route-", row.id),
        proxy: clone_text(&row.proxy_name),
        colour: if row.proxy_name.is_some() { p.text_soft } else { p.muted },
    }
}

/// The line under a row's name in the single-column list: the core, and the
/// proxy when there is one.
pub enum RouteLabel {
    Proxy { core: String, proxy: String },
    Direct { core: String },
}

pub fn route_label(row: &ProfileRow) -> (l: RouteLabel)
    ensures
        match (l, row.proxy_name) {
            (RouteLabel::Proxy { core, proxy }, Some(name)) => core@ == row.core_name@ && proxy@ == name@,
            (RouteLabel::Direct { core }, None) => core@ == row.core_name@,
            _ => false,
        },
{
    match &row.proxy_name {
        Some(proxy) => RouteLabel::Proxy { core: row.core_name.clone(), proxy: proxy.clone() },
        None => RouteLabel::Direct { core: row.core_name.clone() },
    }
}

/// A green row is a running browser and nothing else; a row that can be
/// stopped offers the stop and nothing else, and that stop is greyed out
/// exactly while the browser is already stopping; a row that cannot be
/// stopped offers a start, greyed out when the runtime would refuse it.
pub proof fn lemma_row_reads_its_state(state: RuntimeState, can_start: bool, can_stop: bool)
    ensures
        state_tone_of(state) == Tone::Success <==> state == RuntimeState::Running,
        state_tone_of(state) == Tone::Danger <==> (state == RuntimeState::Failed || state
            == RuntimeState::Crashed),
        state_tone_of(state) == Tone::Warning <==> (state == RuntimeState::Starting || state
            == RuntimeState::Stopping),
        state_tone_of(state) == Tone::Neutral <==> state == RuntimeState::Stopped,
        state_tone_of(state) != Tone::Info,
        row_action_of(state, can_start, can_stop).command == Command::Stop <==> can_stop,
        (row_action_of(state, can_start, can_stop).command == Command::Stop && !row_action_of(
            state,
            can_start,
            can_stop,
        ).enabled) <==> (can_stop && state == RuntimeState::Stopping),
        row_action_of(state, can_start, can_stop).command == Command::Start ==> row_action_of(
            state,
            can_start,
            can_stop,
        ).enabled == can_start,
        row_action_of(state, can_start, can_stop).label == ActionLabel::Retry ==> (state
            == RuntimeState::Failed || state == RuntimeState::Crashed),
{
}

/// The word on a row's one button, over every state: a row that cannot be
/// stopped is offered a retry exactly after a failure or a crash and a start
/// otherwise, pressable when the runtime would accept a start; a row that can
/// be stopped offers a "cancel start" exactly while it starts, a greyed-out
/// "stopping" exactly while it stops, and a plain stop otherwise.
pub proof fn lemma_row_action_words(state: RuntimeState, can_start: bool, can_stop: bool)
    ensures
        !can_stop ==> row_action_of(state, can_start, can_stop) == (RowAction {
            command: Command::Start,
            label: if state == RuntimeState::Failed || state == RuntimeState::Crashed {
                ActionLabel::Retry
            } else {
                ActionLabel::Start
            },
            enabled: can_start,
        }),
        !can_stop ==> (row_action_of(state, can_start, can_stop).label == ActionLabel::Retry <==> (state
            == RuntimeState::Failed || state == RuntimeState::Crashed)),
        can_stop ==> (row_action_of(state, can_start, can_stop).label == ActionLabel::CancelStart <==> state
            == RuntimeState::Starting),
        can_stop ==> (row_action_of(state, can_start, can_stop).label == ActionLabel::Stopping <==> state
            == RuntimeState::Stopping),
        can_stop ==> (row_action_of(state, can_start, can_stop).label == ActionLabel::Stop <==> (state
            != RuntimeState::Starting && state != RuntimeState::Stopping)),
        can_stop ==> (row_action_of(state, can_start, can_stop).enabled <==> state != RuntimeState::Stopping),
{
}

/// What the line under the Profiles title says.
#[derive(PartialEq, Eq, Debug)]
pub enum Subtitle {
    /// "Showing `visible` of `total` profiles."
    Showing { visible: u64, total: u64 },
    /// What a profile is.
    Intro,
}

/// What that line is announced as.
#[derive(PartialEq, Eq, Debug)]
pub enum Announcement {
    /// The count, the total and the trimmed filter term.
    ShowingFiltered { visible: u64, total: u64, term: String },
    /// How many profiles there are.
    Total { total: u64 },
}

/// Whether the header is reporting a narrowed list: there are profiles and
/// the filter holds more than white space.
pub open spec fn is_filtering(total: u64, filter: Seq<char>) -> bool {
    total > 0 && !is_blank(filter)
}

/// The Profiles header's summary: while a filter narrows the list the count
/// is the sentence, because it is how a reader learns the list is not the
/// whole list; without one the header explains what a profile is. The
/// announcement spells out both either way.
pub fn profiles_summary(total: u64, visible: u64, filter: &str) -> (r: (Subtitle, Announcement))
    ensures
        is_filtering(total, filter@) ==> r.0 == (Subtitle::Showing { visible, total }) && match r.1 {
            Announcement::ShowingFiltered { visible: v, total: t, term } => v == visible && t == total
                && term@ == trimmed(filter@),
            _ => false,
        },
        !is_filtering(total, filter@) ==> (r.0 == Subtitle::Intro && r.1 == (Announcement::Total { total })),
{
    if total > 0 && !blank(filter) {
        let term = trim(filter);
        (Subtitle::Showing { visible, total }, Announcement::ShowingFiltered { visible, total, term })
    } else {
        (Subtitle::Intro, Announcement::Total { total })
    }
}

/// Which kind of empty the list is in, when it is empty.
#[derive(PartialEq, Eq, Debug)]
pub enum EmptyHint {
    /// A filter is hiding every profile there is; the way out clears it.
    NoMatch { term: String, total: u64 },
    /// There are no profiles; the way out makes one.
    NoProfiles,
    /// There is nothing to launch a profile with; the way out is the Cores page.
    NoCore,
}

/// Three kinds of empty look the same in a list and mean different things;
/// each says which it is and carries the one action that changes it.
pub fn empty_hint(total: u64, visible: u64, has_core: bool, filter: &str) -> (h: Option<EmptyHint>)
    ensures
        h is None <==> (total > 0 && visible > 0),
        (total > 0 && visible == 0) ==> (h matches Some(EmptyHint::NoMatch { term, total: t })
            && term@ == trimmed(filter@) && t == total),
        (total == 0 && has_core) ==> h == Some(EmptyHint::NoProfiles),
        (total == 0 && !has_core) ==> h == Some(EmptyHint::NoCore),
{
    let filtering = total > 0 && visible == 0;
    if total > 0 && !filtering {
        return None;
    }
    if filtering {
        Some(EmptyHint::NoMatch { term: trim(filter), total })
    } else if has_core {
        Some(EmptyHint::NoProfiles)
    } else {
        Some(EmptyHint::NoCore)
    }
}

/// The mark each kind of empty is drawn with.
pub fn empty_hint_glyph(hint: &EmptyHint) -> (g: Glyph)
    ensures
        g == match hint {
            EmptyHint::NoMatch { .. } => Glyph::EmptySearch,
            EmptyHint::NoProfiles => Glyph::EmptyProfiles,
            EmptyHint::NoCore => Glyph::EmptyCores,
        },
{
    match hint {
        EmptyHint::NoMatch { .. } => Glyph::EmptySearch,
        EmptyHint::NoProfiles => Glyph::EmptyProfiles,
        EmptyHint::NoCore => Glyph::EmptyCores,
    }
}

/// How a selected row and the others are painted.
#[derive(Clone, Copy, PartialEq, Eq, Debug)]
pub struct RowPaint {
    pub border: u32,
    pub background: u32,
    /// Whether hovering lightens the row.
    pub hover: bool,
}

pub fn row_paint(selected: bool, p: Palette) -> (r: RowPaint)
    ensures
        r == (if selected {
            RowPaint { border: p.accent, background: p.selected, hover: false }
        } else {
            RowPaint { border: p.border, background: p.panel, hover: true }
        }),
{
    if selected {
        RowPaint { border: p.accent, background: p.selected, hover: false }
    } else {
        RowPaint { border: p.border, background: p.panel, hover: true }
    }
}

} // verus!

verus! {

/// One row of the Profiles list as it is painted.
pub struct RowView {
    pub id: String,
    pub paint: RowPaint,
    pub name: String,
    pub core: String,
    pub route: Route,
    pub badge: Badge,
    /// The fingerprint reading's badge, when the profile has one, so the
    /// reader need not open a profile to know whether its fingerprint held.
    pub verification: Option<Badge>,
    pub signal: Option<Signal>,
    pub action: RowAction,
    /// `stop-{id}` or `start-{id}`, after the command the button sends.
    pub action_id: String,
    /// The profile the action is announced for, beside the action's word.
    pub action_for: String,
    /// `more-{id}`: the row's menu button.
    pub menu_id: String,
    pub menu: RowMenu,
}

/// A profile's fingerprint reading, with its word in the language in force,
/// filed under the profile's id.
pub struct ProfileReading {
    pub id: u64,
    pub verification: Verification,
    pub label: String,
}

/// Whether `j` is the first entry filed under `id`.
pub open spec fn is_first_for(readings: Seq<ProfileReading>, id: u64, j: int) -> bool {
    &&& 0 <= j < readings.len()
    &&& readings[j].id == id
    &&& forall|k: int| 0 <= k < j ==> #[trigger] readings[k].id != id
}

/// The reading filed under a profile's id: the first entry with that id, or
/// none when the profile was never read.
pub open spec fn reading_for(readings: Seq<ProfileReading>, id: u64) -> Option<ProfileReading> {
    if exists|j: int| is_first_for(readings, id, j) {
        Some(readings[choose|j: int| is_first_for(readings, id, j)])
    } else {
        None
    }
}

proof fn lemma_first_is_chosen(readings: Seq<ProfileReading>, id: u64, j: int)
    requires
        is_first_for(readings, id, j),
    ensures
        reading_for(readings, id) == Some(readings[j]),
{
    let c = choose|c: int| is_first_for(readings, id, c);
    assert(is_first_for(readings, id, c));
    if c < j {
        assert(readings[c].id != id);
    }
    if j < c {
        assert(readings[j].id != id);
    }
}

/// Where the reading filed under `id` is.
fn find_reading(readings: &Vec<ProfileReading>, id: u64) -> (r: Option<usize>)
    ensures
        match r {
            Some(j) => j < readings@.len() && reading_for(readings@, id) == Some(readings@[j as int]),
            None => reading_for(readings@, id) is None,
        },
{
    let mut i: usize = 0;
    while i < readings.len()
        invariant
            i <= readings@.len(),
            forall|k: int| 0 <= k < i ==> #[trigger] readings@[k].id != id,
        decreases readings@.len() - i,
    {
        if readings[i].id == id {
            proof {
                assert(is_first_for(readings@, id, i as int));
                lemma_first_is_chosen(readings@, id, i as int);
            }
            return Some(i);
        }
        i = i + 1;
    }
    assert(!exists|j: int| is_first_for(readings@, id, j)) by {
        assert forall|j: int| !is_first_for(readings@, id, j) by {
            if 0 <= j < readings@.len() {
                assert(readings@[j].id != id);
            }
        }
    }
    None
}

/// What a row of the list holds, for the profile it stands for.
pub open spec fn row_view_of(
    v: RowView,
    row: ProfileRow,
    selected: Option<u64>,
    r: Option<ProfileReading>,
    p: Palette,
) -> bool {
    &&& v.id@ == "profile-"@ + decimal(row.id as nat)
    &&& v.paint == (if selected == Some(row.id) {
        RowPaint { border: p.accent, background: p.selected, hover: false }
    } else {
        RowPaint { border: p.border, background: p.panel, hover: true }
    })
    &&& v.name@ == row.name@
    &&& v.core@ == row.core_name@
    &&& v.route.id@ == "route-"@ + decimal(row.id as nat)
    &&& v.route.proxy == row.proxy_name
    &&& v.route.colour == (if row.proxy_name is Some { p.text_soft } else { p.muted })
    &&& is_badge(v.badge, "state-"@ + decimal(row.id as nat), state_tone_of(row.state), row.state_label@,
        row.state_label@, p)
    &&& match r {
        Some(e) => v.verification matches Some(b) && is_badge(b, "verification-"@ + e.label@,
            crate::details::verification_tone_of(&e.verification), e.label@, e.label@, p),
        None => v.verification is None,
    }
    &&& signal_of(v.signal, row, p)
    &&& v.action == row_action_of(row.state, row.can_start, row.can_stop)
    &&& v.action_id@ == (if row.can_stop { "stop-"@ } else { "start-"@ }) + decimal(row.id as nat)
    &&& v.action_for@ == row.name@
    &&& v.menu_id@ == "more-"@ + decimal(row.id as nat)
    &&& v.menu.verify == crate::details::verifiable(
        row,
        r matches Some(e) && e.verification matches Verification::Running,
    )
    &&& v.menu.restart == row.can_restart
}

/// The list: one row per profile, in the order given, the chosen one lit.
/// Each row's fingerprint reading is the one filed under its profile's id; a
/// profile with none filed was never read.
pub fn profile_list(
    rows: &Vec<ProfileRow>,
    selected: Option<u64>,
    readings: &Vec<ProfileReading>,
    p: Palette,
) -> (views: Vec<RowView>)
    ensures
        views@.len() == rows@.len(),
        forall|i: int|
            0 <= i < rows@.len() ==> row_view_of(
                #[trigger] views@[i],
                rows@[i],
                selected,
                reading_for(readings@, rows@[i].id),
                p,
            ),
        forall|i: int|
            0 <= i < rows@.len() ==> ((#[trigger] views@[i]).menu.verify <==> (rows@[i].cdp_port is Some
                && rows@[i].state == RuntimeState::Running && !(reading_for(readings@, rows@[i].id) matches Some(
                e) && e.verification matches Verification::Running))),
        forall|i: int|
            0 <= i < rows@.len() ==> ((#[trigger] views@[i]).action.label == ActionLabel::Retry <==> (
            !rows@[i].can_stop && (rows@[i].state == RuntimeState::Failed || rows@[i].state
                == RuntimeState::Crashed))),
{
    let mut views: Vec<RowView> = Vec::new();
    let mut i: usize = 0;
    while i < rows.len()
        invariant
            i <= rows@.len(),
            views@.len() == i,
            forall|j: int|
                0 <= j < i ==> row_view_of(
                    #[trigger] views@[j],
                    rows@[j],
                    selected,
                    reading_for(readings@, rows@[j].id),
                    p,
                ),
        decreases rows@.len() - i,
    {
        let row = &rows[i];
        let is_selected = match selected {
            Some(id) => id == row.id,
            None => false,
        };
        let (found, label): (Option<&Verification>, &str) = match find_reading(readings, row.id) {
            Some(j) => (Some(&readings[j].verification), readings[j].label.as_str()),
            None => (None, ""),
        };
        let view = RowView {
            id: numbered("profile-", row.id),
            paint: row_paint(is_selected, p),
            name: row.name.clone(),
            core: row.core_name.clone(),
            route: route_cell(row, p),
            badge: state_badge(row, p),
            verification: verification_badge(found, label, p),
            signal: signal_line(row, p),
            action: row_actions(row),
            action_id: numbered(if row.can_stop { "stop-" } else { "start-" }, row.id),
            action_for: row.name.clone(),
            menu_id: numbered("more-", row.id),
            menu: row_menu(row, found),
        };
        views.push(view);
        i = i + 1;
    }
    views
}

} // verus!

verus! {

/// The Profiles page's layout below its header.
pub struct ProfilesPage {
    /// The column headings, over a list that shows something.
    pub list_header: bool,
    /// Which kind of empty the list is in, if it is.
    pub hint: Option<EmptyHint>,
    /// A profile needs a core to launch, so "new profile" waits for one.
    pub new_profile_enabled: bool,
    /// Where the details panel goes, while it is open.
    pub panel: Option<crate::window::PanelPlacement>,
}

/// Whether the page draws column headings: over a list that shows something.
pub open spec fn shows_list(visible: u64) -> bool {
    visible > 0
}

/// Whether the page draws an empty hint: unless there are profiles and some
/// of them are listed.
pub open spec fn shows_hint(total: u64, visible: u64) -> bool {
    !(total > 0 && visible > 0)
}

/// A filter only narrows what is listed, so an empty list is never a bare
/// blank and a list with rows never carries a hint: exactly one of the two
/// is on the page.
pub proof fn lemma_list_or_hint(total: u64, visible: u64)
    requires
        visible <= total,
    ensures
        shows_list(visible) != shows_hint(total, visible),
{
}

/// The page: headings over a list that shows something, the empty hint for a
/// list that does not, and the details panel only while it is being read.
pub fn profiles_page(
    total: u64,
    visible: u64,
    has_core: bool,
    filter: &str,
    details_open: bool,
    docked: bool,
) -> (r: ProfilesPage)
    ensures
        r.list_header == shows_list(visible),
        r.hint is Some == shows_hint(total, visible),
        (total > 0 && visible == 0) ==> (r.hint matches Some(EmptyHint::NoMatch { term, total: t })
            && term@ == trimmed(filter@) && t == total),
        (total == 0 && has_core) ==> r.hint == Some(EmptyHint::NoProfiles),
        (total == 0 && !has_core) ==> r.hint == Some(EmptyHint::NoCore),
        r.new_profile_enabled == has_core,
        r.panel == (if details_open {
            Some(if docked {
                crate::window::PanelPlacement::Beside { width: crate::window::PANEL_WIDTH }
            } else {
                crate::window::PanelPlacement::Covering
            })
        } else {
            None
        }),
{
    ProfilesPage {
        list_header: visible > 0,
        hint: empty_hint(total, visible, has_core, filter),
        new_profile_enabled: has_core,
        panel: if details_open { Some(crate::window::panel_placement(docked)) } else { None },
    }
}

} // verus!
