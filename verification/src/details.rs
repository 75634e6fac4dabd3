//! The details panel: the selected profile, what is running, and what was
//! read back from it.
use crate::components::{is_badge, status_badge, Badge, Tone};
use crate::profiles::{ProfileRow, RuntimeState};
use crate::logs::{seconds_between, whole_seconds};
use crate::text::{decimal, join, joined, numbered, push_decimal, texts};
use crate::theme::Palette;
use vstd::prelude::*;

verus! {

/// One claim the browser did not reproduce.
pub struct Discrepancy {
    pub claim: String,
    pub expected: String,
    pub observed: String,
}

/// What a fingerprint reading found.
pub struct Report {
    /// The address the browser's own traffic left from, when it was read.
    pub exit_ip: Option<String>,
    /// The line the report has about its exit address, if any.
    pub exit_label: Option<String>,
    /// The claims that were not reproduced; empty when all were.
    pub disagreements: Vec<Discrepancy>,
}

/// A fingerprint reading of one profile.
pub enum Verification {
    /// A reading is in flight.
    Running,
    /// Every claim was reproduced.
    Confirmed(Report),
    /// Some claims were not.
    Disagreements(Report),
    /// The browser could not be read, and why.
    Unreadable(String),
}

/// Whether a reading is in flight.
pub open spec fn reading(v: Option<&Verification>) -> bool {
    v matches Some(Verification::Running)
}

/// Whether a profile can be verified: a fingerprint can only be read out of
/// a live browser that publishes its debug port and is not already being read.
pub open spec fn verifiable(row: ProfileRow, reading_now: bool) -> bool {
    row.cdp_port is Some && row.state == RuntimeState::Running && !reading_now
}

/// Whether the selected profile can be verified right now.
pub fn can_verify(selected: Option<&ProfileRow>, verification: Option<&Verification>) -> (b: bool)
    ensures
        b == (selected matches Some(row) && verifiable(*row, reading(verification))),
        b <==> (selected matches Some(row) && row.cdp_port is Some && row.state == RuntimeState::Running
            && !(verification matches Some(Verification::Running))),
{
    match selected {
        None => false,
        Some(row) => {
            let running = match verification {
                Some(Verification::Running) => true,
                _ => false,
            };
            row.cdp_port.is_some() && row.state == RuntimeState::Running && !running
        },
    }
}

/// The first line of the verification block.
#[derive(PartialEq, Eq, Debug)]
pub enum Headline {
    /// No reading was ever asked for.
    Unverified,
    /// A reading is in flight.
    Reading,
    /// The browser could not be read, and why.
    Unreadable(String),
    /// Every claim was reproduced.
    Confirmed,
    /// This many claims were not.
    NotReproduced(u64),
}

/// The address line of a reading.
pub struct ExitLine {
    pub label: String,
    pub colour: u32,
}

/// The verification block as the panel paints it.
pub struct Block {
    pub headline: Headline,
    pub colour: u32,
    /// The exit address line, when the report has one.
    pub exit: Option<ExitLine>,
    /// The claim lines that follow, one per discrepancy in the report's
    /// order.
    pub claims: Vec<ClaimLine>,
}

/// One claim the browser did not reproduce, as the panel lists it: the
/// claim, what was expected and what was observed, in the warning colour.
pub struct ClaimLine {
    /// The line's place in the list (`disagreement`, index).
    pub index: u64,
    pub claim: String,
    pub expected: String,
    pub observed: String,
    pub colour: u32,
}

/// The listed claims are the report's discrepancies, all of them, in order.
pub open spec fn lists_claims(lines: Seq<ClaimLine>, found: Seq<Discrepancy>, p: Palette) -> bool {
    &&& lines.len() == found.len()
    &&& forall|i: int| #![trigger lines[i]] 0 <= i < found.len() ==> {
        &&& lines[i].index == i
        &&& lines[i].claim@ == found[i].claim@
        &&& lines[i].expected@ == found[i].expected@
        &&& lines[i].observed@ == found[i].observed@
        &&& lines[i].colour == p.warning
    }
}

/// One line per discrepancy, none dropped, none reordered.
pub fn claim_lines(found: &Vec<Discrepancy>, p: Palette) -> (lines: Vec<ClaimLine>)
    ensures
        lists_claims(lines@, found@, p),
{
    let mut lines: Vec<ClaimLine> = Vec::new();
    let mut i: usize = 0;
    while i < found.len()
        invariant
            i <= found@.len(),
            lines@.len() == i,
            forall|j: int| #![trigger lines@[j]] 0 <= j < i ==> {
                &&& lines@[j].index == j
                &&& lines@[j].claim@ == found@[j].claim@
                &&& lines@[j].expected@ == found@[j].expected@
                &&& lines@[j].observed@ == found@[j].observed@
                &&& lines@[j].colour == p.warning
            },
        decreases found@.len() - i,
    {
        let d = &found[i];
        lines.push(ClaimLine {
            index: i as u64,
            claim: d.claim.clone(),
            expected: d.expected.clone(),
            observed: d.observed.clone(),
            colour: p.warning,
        });
        i = i + 1;
    }
    lines
}

/// How the block reads for a finished reading.
pub open spec fn finished_block(b: Block, r: Report, p: Palette) -> bool {
    &&& lists_claims(b.claims@, r.disagreements@, p)
    &&& if r.disagreements@.len() == 0 {
        b.headline == Headline::Confirmed && b.colour == p.success_strong
    } else {
        b.headline == Headline::NotReproduced(r.disagreements@.len() as u64) && b.colour == p.warning
    }
    &&& match r.exit_label {
        Some(label) => match b.exit {
            Some(line) => line.label@ == label@ && line.colour == (if r.exit_ip is Some {
                p.info
            } else {
                p.dim
            }),
            None => false,
        },
        None => b.exit is None,
    }
}

/// A finished reading leads with "confirmed" in the strong success colour
/// exactly when no claim failed, and otherwise with the number of claims that
/// failed, in the warning colour, followed by exactly that many claim lines.
pub proof fn lemma_finished_block_counts(b: Block, r: Report, p: Palette)
    requires
        finished_block(b, r, p),
    ensures
        b.headline == Headline::Confirmed <==> r.disagreements@.len() == 0,
        r.disagreements@.len() == 0 ==> b.colour == p.success_strong,
        r.disagreements@.len() > 0 ==> (b.headline == Headline::NotReproduced(r.disagreements@.len() as u64)
            && b.colour == p.warning),
        b.claims@.len() == r.disagreements@.len(),
        forall|i: int| 0 <= i < b.claims@.len() ==> (#[trigger] b.claims@[i]).claim@ == r.disagreements@[i].claim@,
        (r.exit_label is Some) == (b.exit is Some),
{
}

/// The verification result for one profile, or a hint that it has not run.
///
/// A reading in flight and a failed reading say so; a finished reading leads
/// with "confirmed" or with the number of claims not reproduced, then the
/// address the traffic left from when the report names one (in the info
/// colour when the address was read, dim otherwise), then one line for every
/// claim that was not reproduced, in the report's order, none dropped.
pub fn verification_block(verification: Option<&Verification>, p: Palette) -> (b: Block)
    ensures
        verification is None ==> (b.headline == Headline::Unverified && b.colour == p.dim
            && b.exit is None && b.claims@.len() == 0),
        verification matches Some(Verification::Running) ==> (b.headline == Headline::Reading
            && b.colour == p.muted && b.exit is None && b.claims@.len() == 0),
        verification matches Some(Verification::Unreadable(reason)) ==> (b.headline
            == Headline::Unreadable(*reason) && b.colour == p.danger_strong && b.exit is None
            && b.claims@.len() == 0),
        match verification {
            Some(Verification::Confirmed(r)) => finished_block(b, *r, p),
            Some(Verification::Disagreements(r)) => finished_block(b, *r, p),
            _ => true,
        },
{
    match verification {
        None => Block { headline: Headline::Unverified, colour: p.dim, exit: None, claims: Vec::new() },
        Some(Verification::Running) => Block {
            headline: Headline::Reading,
            colour: p.muted,
            exit: None,
            claims: Vec::new(),
        },
        Some(Verification::Unreadable(reason)) => Block {
            headline: Headline::Unreadable(reason.clone()),
            colour: p.danger_strong,
            exit: None,
            claims: Vec::new(),
        },
        Some(Verification::Confirmed(report)) | Some(Verification::Disagreements(report)) => {
            let count = report.disagreements.len() as u64;
            let (headline, colour) = if count == 0 {
                (Headline::Confirmed, p.success_strong)
            } else {
                (Headline::NotReproduced(count), p.warning)
            };
            let exit = match &report.exit_label {
                Some(label) => Some(ExitLine {
                    label: label.clone(),
                    colour: if report.exit_ip.is_some() { p.info } else { p.dim },
                }),
                None => None,
            };
            Block { headline, colour, exit, claims: claim_lines(&report.disagreements, p) }
        },
    }
}

/// The tone of a reading's badge: a check in progress is information, not a
/// warning; only a confirmed reading is a success.
pub open spec fn verification_tone_of(v: &Verification) -> Tone {
    match v {
        Verification::Confirmed(_) => Tone::Success,
        Verification::Running => Tone::Info,
        Verification::Disagreements(_) => Tone::Warning,
        Verification::Unreadable(_) => Tone::Danger,
    }
}

/// Only a reading in flight blocks another: a confirmed reading, one that
/// found disagreements and one that could not be made all leave a running
/// browser with a debug port open to a new reading, and only the reading in
/// flight is waited for - a finished one is never replaced by a late answer.
pub proof fn lemma_only_a_reading_in_flight_blocks(row: ProfileRow, v: Option<&Verification>)
    ensures
        reading(v) <==> v matches Some(Verification::Running),
        !(v matches Some(Verification::Running)) ==> (verifiable(row, reading(v)) <==> (row.cdp_port is Some
            && row.state == RuntimeState::Running)),
        (v matches Some(Verification::Running)) ==> !verifiable(row, reading(v)),
{
}

/// How each reading is painted: green only for a confirmed reading, the
/// danger tone exactly for a reading that could not be made, the warning
/// tone exactly for one that found disagreements, and information for a
/// reading in flight.
pub proof fn lemma_reading_tones(v: Verification)
    ensures
        verification_tone_of(&v) == Tone::Success <==> v matches Verification::Confirmed(_),
        verification_tone_of(&v) == Tone::Danger <==> v matches Verification::Unreadable(_),
        verification_tone_of(&v) == Tone::Warning <==> v matches Verification::Disagreements(_),
        verification_tone_of(&v) == Tone::Info <==> v matches Verification::Running,
{
}

/// A compact marker for the row, named by the reading's own word, so the
/// reader need not open a profile to know whether its fingerprint held.
pub fn verification_badge(verification: Option<&Verification>, label: &str, p: Palette) -> (b: Option<Badge>)
    ensures
        b is None <==> verification is None,
        verification matches Some(v) ==> (b matches Some(b) && is_badge(b, "verification-"@ + label@,
            verification_tone_of(v), label@, label@, p)),
        b matches Some(b) ==> (b.tone == Tone::Danger <==> verification matches Some(Verification::Unreadable(_))),
        b matches Some(b) ==> (b.tone == Tone::Success <==> verification matches Some(Verification::Confirmed(_))),
        b matches Some(b) ==> (b.tone == Tone::Warning <==> verification matches Some(
            Verification::Disagreements(_),
        )),
        b matches Some(b) ==> (b.tone == Tone::Info <==> verification matches Some(Verification::Running)),
{
    let v = match verification {
        Some(v) => v,
        None => return None,
    };
    let tone = match v {
        Verification::Confirmed(_) => Tone::Success,
        Verification::Running => Tone::Info,
        Verification::Disagreements(_) => Tone::Warning,
        Verification::Unreadable(_) => Tone::Danger,
    };
    let mut id = String::from_str("verification-");
    id.append(label);
    Some(status_badge(id, tone, String::from_str(label), String::from_str(label), p))
}

/// A value the runtime may not have: its number, or a dash.
pub fn optional(value: Option<u64>) -> (s: String)
    ensures
        s@ == match value {
            Some(n) => decimal(n as nat),
            None => "—"@,
        },
{
    match value {
        Some(n) => {
            let mut s = String::new();
            push_decimal(&mut s, n as u128);
            assert(s@ =~= decimal(n as nat));
            s
        },
        None => String::from_str("—"),
    }
}

/// Whole seconds since a browser started, when it has a start time that is
/// not in the future.
pub fn elapsed(now_ns: u128, started_ns: Option<u128>) -> (r: Option<u128>)
    ensures
        r == match started_ns {
            Some(s) => if s <= now_ns { Some(seconds_between(now_ns, s)) } else { None },
            None => None,
        },
{
    match started_ns {
        Some(s) => if s <= now_ns { Some(whole_seconds(now_ns, s)) } else { None },
        None => None,
    }
}

/// A reading is only recorded while the profile still waits for it: a
/// profile stopped or restarted while the reading ran describes a browser
/// that is gone.
pub fn accept_reading(current: Option<&Verification>) -> (b: bool)
    ensures
        b == reading(current),
        b <==> current matches Some(Verification::Running),
{
    match current {
        Some(Verification::Running) => true,
        _ => false,
    }
}

/// A reading can only be asked of a running browser with a debug port, and
/// never twice at once; of the badges, only a confirmed reading is green.
pub proof fn lemma_readings(row: ProfileRow, v: Verification)
    ensures
        verifiable(row, true) == false,
        verifiable(row, false) ==> row.state == RuntimeState::Running && row.cdp_port is Some,
        verification_tone_of(&v) == Tone::Success <==> v matches Verification::Confirmed(_),
        reading(Some(&v)) ==> !verifiable(row, reading(Some(&v))),
{
}

/// The runtime half of the panel: the numbers the runtime has, each a dash
/// when it has none, how long the browser has been up, and how many
/// notifications were dropped.
pub struct RuntimeValues {
    /// The state's own word, first in the block.
    pub state: String,
    pub browser_pid: String,
    pub xray_pid: String,
    pub cdp_port: String,
    pub socks_port: String,
    /// Whole seconds since the start; `None` reads as a dash.
    pub started: Option<u128>,
    pub dropped_events: String,
    /// The last warning and the last error, each on a line of its own in its
    /// own colour.
    pub warning: Option<(String, u32)>,
    pub error: Option<(String, u32)>,
}

pub open spec fn dash_or(value: Option<u64>) -> Seq<char> {
    match value {
        Some(n) => decimal(n as nat),
        None => "—"@,
    }
}

pub fn runtime_values(row: &ProfileRow, now_ns: u128, p: Palette) -> (r: RuntimeValues)
    ensures
        r.state@ == row.state_label@,
        r.browser_pid@ == dash_or(match row.browser_pid { Some(n) => Some(n as u64), None => None }),
        r.xray_pid@ == dash_or(match row.xray_pid { Some(n) => Some(n as u64), None => None }),
        r.cdp_port@ == dash_or(match row.cdp_port { Some(n) => Some(n as u64), None => None }),
        r.socks_port@ == dash_or(match row.socks_port { Some(n) => Some(n as u64), None => None }),
        r.started == match row.started_at_ns {
            Some(s) => if s <= now_ns { Some(seconds_between(now_ns, s)) } else { None },
            None => None,
        },
        r.dropped_events@ == decimal(row.dropped_events as nat),
        match (row.last_warning, r.warning) {
            (Some(w), Some((shown, colour))) => shown@ == w@ && colour == p.warning,
            (None, None) => true,
            _ => false,
        },
        match (row.last_error, r.error) {
            (Some(e), Some((shown, colour))) => shown@ == e@ && colour == p.danger_strong,
            (None, None) => true,
            _ => false,
        },
{
    let browser_pid = match row.browser_pid { Some(n) => Some(n as u64), None => None };
    let xray_pid = match row.xray_pid { Some(n) => Some(n as u64), None => None };
    let cdp_port = match row.cdp_port { Some(n) => Some(n as u64), None => None };
    let socks_port = match row.socks_port { Some(n) => Some(n as u64), None => None };
    let mut dropped = String::new();
    push_decimal(&mut dropped, row.dropped_events as u128);
    assert(dropped@ =~= decimal(row.dropped_events as nat));
    RuntimeValues {
        state: row.state_label.clone(),
        browser_pid: optional(browser_pid),
        xray_pid: optional(xray_pid),
        cdp_port: optional(cdp_port),
        socks_port: optional(socks_port),
        started: elapsed(now_ns, row.started_at_ns),
        dropped_events: dropped,
        warning: match &row.last_warning { Some(w) => Some((w.clone(), p.warning)), None => None },
        error: match &row.last_error { Some(e) => Some((e.clone(), p.danger_strong)), None => None },
    }
}

/// The configuration half of the panel: what was set up for the profile.
pub struct ConfigurationValues {
    pub profile_id: String,
    pub seed: String,
    pub brand: String,
    pub platform: String,
    pub language: String,
    pub timezone: String,
    pub core: String,
    /// `None` reads as the word for a direct connection.
    pub proxy: Option<String>,
    pub data_dir: String,
    /// The button beside the path that opens it.
    pub open_dir_id: String,
}

pub fn configuration_values(row: &ProfileRow) -> (r: ConfigurationValues)
    ensures
        r.profile_id@ == decimal(row.id as nat),
        r.seed@ == decimal(row.seed as nat),
        r.brand@ == row.brand@,
        r.platform@ == row.platform@,
        r.language@ == row.language@,
        r.timezone@ == row.timezone@,
        r.core@ == row.core_name@,
        r.proxy == row.proxy_name,
        r.data_dir@ == row.data_dir@,
        r.open_dir_id@ == "open-dir-"@ + decimal(row.id as nat),
{
    let mut profile_id = String::new();
    push_decimal(&mut profile_id, row.id as u128);
    assert(profile_id@ =~= decimal(row.id as nat));
    let mut seed = String::new();
    push_decimal(&mut seed, row.seed as u128);
    assert(seed@ =~= decimal(row.seed as nat));
    ConfigurationValues {
        profile_id,
        seed,
        brand: row.brand.clone(),
        platform: row.platform.clone(),
        language: row.language.clone(),
        timezone: row.timezone.clone(),
        core: row.core_name.clone(),
        proxy: crate::text::clone_text(&row.proxy_name),
        data_dir: row.data_dir.clone(),
        open_dir_id: numbered("open-dir-", row.id),
    }
}

/// The line under the panel's title: the state, with what the runtime said
/// about it when it said anything.
pub enum StateLine {
    WithMessage { state: String, message: String },
    State(String),
}

/// The state line for the chosen profile: the state's word, with the
/// runtime's message when there is one; none without a chosen profile.
pub open spec fn subtitle_of(selected: Option<&ProfileRow>, r: Option<StateLine>) -> bool {
    match (selected, r) {
        (None, None) => true,
        (Some(row), Some(StateLine::WithMessage { state, message })) => match row.state_message {
            Some(m) => state@ == row.state_label@ && message@ == m@,
            None => false,
        },
        (Some(row), Some(StateLine::State(state))) => row.state_message is None && state@ == row.state_label@,
        _ => false,
    }
}

/// The panel's state line never drops what the runtime said: with a
/// message, the line carries the state's word and the message; without one,
/// the word alone; and no line without a chosen profile.
pub proof fn lemma_state_line_keeps_the_message(row: ProfileRow, r: Option<StateLine>)
    requires
        subtitle_of(Some(&row), r),
    ensures
        r is Some,
        row.state_message matches Some(m) ==> (r matches Some(StateLine::WithMessage { state, message })
            && state@ == row.state_label@ && message@ == m@),
        row.state_message is None ==> (r matches Some(StateLine::State(state)) && state@ == row.state_label@),
{
}

pub fn details_subtitle(selected: Option<&ProfileRow>) -> (r: Option<StateLine>)
    ensures
        subtitle_of(selected, r),
        selected is None <==> r is None,
        selected matches Some(row) ==> match row.state_message {
            Some(m) => r matches Some(StateLine::WithMessage { state, message }) && state@ == row.state_label@
                && message@ == m@,
            None => r matches Some(StateLine::State(state)) && state@ == row.state_label@,
        },
{
    match selected {
        None => None,
        Some(row) => match &row.state_message {
            Some(message) => Some(StateLine::WithMessage { state: row.state_label.clone(), message: message.clone() }),
            None => Some(StateLine::State(row.state_label.clone())),
        },
    }
}

/// The three views of one profile.
#[derive(Clone, Copy, PartialEq, Eq, Debug, Structural)]
pub enum DetailsTab {
    Details,
    Args,
    Log,
}

impl DetailsTab {
    /// The tabs in the order they are shown.
    pub fn all() -> (r: [DetailsTab; 3])
        ensures
            r@ == seq![DetailsTab::Details, DetailsTab::Args, DetailsTab::Log],
    {
        [DetailsTab::Details, DetailsTab::Args, DetailsTab::Log]
    }

    pub open spec fn id_spec(self) -> Seq<char> {
        match self {
            DetailsTab::Details => "details-tab-details"@,
            DetailsTab::Args => "details-tab-args"@,
            DetailsTab::Log => "details-tab-log"@,
        }
    }

    /// The identifier the tab is addressed by.
    pub fn id(self) -> (r: &'static str)
        ensures
            r@ == self.id_spec(),
    {
        match self {
            DetailsTab::Details => "details-tab-details",
            DetailsTab::Args => "details-tab-args",
            DetailsTab::Log => "details-tab-log",
        }
    }
}

/// How one tab button is drawn.
#[derive(Clone, Copy, PartialEq, Eq, Debug, Structural)]
pub struct TabButton {
    /// The chosen tab is filled with the quiet fill; the others are ghosts.
    pub active: bool,
    /// No profile, no views of one.
    pub enabled: bool,
}

pub fn details_tab(candidate: DetailsTab, tab: DetailsTab, selected: bool) -> (r: TabButton)
    ensures
        r.active == (candidate == tab),
        r.enabled == selected,
{
    TabButton { active: candidate == tab, enabled: selected }
}

/// What the panel's body holds.
#[derive(Clone, Copy, PartialEq, Eq, Debug, Structural)]
pub enum PanelBody {
    /// No profile is chosen.
    Empty,
    Details,
    Args,
    Log,
}

pub fn panel_body(selected: bool, tab: DetailsTab) -> (r: PanelBody)
    ensures
        !selected ==> r == PanelBody::Empty,
        selected ==> r == match tab {
            DetailsTab::Details => PanelBody::Details,
            DetailsTab::Args => PanelBody::Args,
            DetailsTab::Log => PanelBody::Log,
        },
{
    if !selected {
        PanelBody::Empty
    } else {
        match tab {
            DetailsTab::Details => PanelBody::Details,
            DetailsTab::Args => PanelBody::Args,
            DetailsTab::Log => PanelBody::Log,
        }
    }
}

/// The heading of the launch line's view.
#[derive(Clone, Copy, PartialEq, Eq, Debug, Structural)]
pub enum ArgsHeading {
    /// Nothing was launched yet.
    NoLaunch,
    /// This many arguments were passed.
    Count(u64),
}

/// The launch line's heading, and whether its copy button is live.
pub fn args_heading(args: &Vec<String>) -> (r: (ArgsHeading, bool))
    ensures
        args@.len() == 0 ==> r == (ArgsHeading::NoLaunch, false),
        args@.len() > 0 ==> r == (ArgsHeading::Count(args@.len() as u64), true),
{
    if args.len() == 0 {
        (ArgsHeading::NoLaunch, false)
    } else {
        (ArgsHeading::Count(args.len() as u64), true)
    }
}

/// What copying the launch line puts on the clipboard: one argument per line,
/// and nothing at all when nothing was launched.
pub fn args_clipboard(args: &Vec<String>) -> (r: Option<String>)
    ensures
        args@.len() == 0 ==> r is None,
        args@.len() > 0 ==> (r matches Some(s) && s@ == joined(texts(args@), "\n"@)),
{
    if args.len() == 0 {
        None
    } else {
        Some(join(args, "\n"))
    }
}


} // verus!

verus! {

/// What the panel is titled: which profile's details, or the panel's own name
/// when none is chosen.
pub enum PanelTitle {
    Name(String),
    RuntimeDetails,
}

/// The control that puts the panel away: an icon beside the list, a "back"
/// button when the panel covers it.
#[derive(Clone, Copy, PartialEq, Eq, Debug, Structural)]
pub enum CloseControl {
    IconOnly,
    Back,
}

/// The button that asks for a reading, beside the profile's name.
pub struct VerifyButton {
    pub id: String,
    pub icon_only: bool,
    pub enabled: bool,
}

/// The details panel as it is laid out.
pub struct PanelView {
    pub placement: crate::window::PanelPlacement,
    pub background: u32,
    pub border: u32,
    pub title: PanelTitle,
    pub subtitle: Option<StateLine>,
    pub verify: Option<VerifyButton>,
    pub close: CloseControl,
    pub tabs: Vec<TabButton>,
    pub body: PanelBody,
}

/// The panel: the profile it describes, its state repeated under the name
/// (covering the list, the panel hides the row the badge is read from), the
/// button that asks for a reading, the three views with the one in force, and
/// the way out - all of it for the chosen profile, or the panel's empty
/// sentence when none is chosen.
pub fn details_panel(
    selected: Option<&ProfileRow>,
    verification: Option<&Verification>,
    tab: DetailsTab,
    docked: bool,
    p: Palette,
) -> (v: PanelView)
    ensures
        v.placement == (if docked {
            crate::window::PanelPlacement::Beside { width: crate::window::PANEL_WIDTH }
        } else {
            crate::window::PanelPlacement::Covering
        }),
        v.background == p.panel,
        v.border == p.border,
        match (selected, v.title) {
            (Some(row), PanelTitle::Name(name)) => name@ == row.name@,
            (None, PanelTitle::RuntimeDetails) => true,
            _ => false,
        },
        subtitle_of(selected, v.subtitle),
        match (selected, v.verify) {
            (Some(row), Some(b)) => b.id@ == "verify-"@ + decimal(row.id as nat) && b.icon_only == docked
                && b.enabled == verifiable(*row, reading(verification)),
            (None, None) => true,
            _ => false,
        },
        v.close == (if docked { CloseControl::IconOnly } else { CloseControl::Back }),
        v.tabs@.len() == 3,
        v.tabs@[0] == (TabButton { active: tab == DetailsTab::Details, enabled: selected is Some }),
        v.tabs@[1] == (TabButton { active: tab == DetailsTab::Args, enabled: selected is Some }),
        v.tabs@[2] == (TabButton { active: tab == DetailsTab::Log, enabled: selected is Some }),
        v.body == (if selected is None {
            PanelBody::Empty
        } else {
            match tab {
                DetailsTab::Details => PanelBody::Details,
                DetailsTab::Args => PanelBody::Args,
                DetailsTab::Log => PanelBody::Log,
            }
        }),
{
    let chosen = selected.is_some();
    let title = match selected {
        Some(row) => PanelTitle::Name(row.name.clone()),
        None => PanelTitle::RuntimeDetails,
    };
    let verify = match selected {
        Some(row) => Some(VerifyButton {
            id: numbered("verify-", row.id),
            icon_only: docked,
            enabled: can_verify(Some(row), verification),
        }),
        None => None,
    };
    let mut tabs: Vec<TabButton> = Vec::new();
    tabs.push(details_tab(DetailsTab::Details, tab, chosen));
    tabs.push(details_tab(DetailsTab::Args, tab, chosen));
    tabs.push(details_tab(DetailsTab::Log, tab, chosen));
    PanelView {
        placement: crate::window::panel_placement(docked),
        background: p.panel,
        border: p.border,
        title,
        subtitle: details_subtitle(selected),
        verify,
        close: if docked { CloseControl::IconOnly } else { CloseControl::Back },
        tabs,
        body: panel_body(chosen, tab),
    }
}

} // verus!
