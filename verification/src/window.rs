//! The window itself: its navigation, its heartbeat, its banner, and where
//! the details panel sits.
use crate::components::{Glyph, Weight};
use crate::logs::LogFilter;
use crate::theme::Palette;
use vstd::prelude::*;

verus! {

/// How often the window reconciles everything, in ticks, for any notification
/// that was dropped.
pub const RECONCILE_EVERY: u64 = 5;

/// The window width in pixels at which the details panel can sit beside the
/// list: the sidebar, the page's padding on both sides, the panel, the gap
/// between the two columns and the list (200 + 48 + 380 + 16 + 720).
pub const DETAILS_DOCK_MIN: u32 = 1364;

/// The width the details panel takes when it sits beside the list.
pub const PANEL_WIDTH: u32 = 380;

/// The window's pages.
#[derive(Clone, Copy, PartialEq, Eq, Debug, Structural)]
pub enum Page {
    Profiles,
    Proxies,
    Cores,
    Log,
    Settings,
}

impl Page {
    pub open spec fn id_spec(self) -> Seq<char> {
        match self {
            Page::Profiles => "Profiles"@,
            Page::Proxies => "Proxies"@,
            Page::Cores => "Cores"@,
            Page::Log => "Log"@,
            Page::Settings => "Settings"@,
        }
    }

    /// The identifier a page's navigation item is addressed by.
    pub fn id(self) -> (r: &'static str)
        ensures
            r@ == self.id_spec(),
    {
        match self {
            Page::Profiles => "Profiles",
            Page::Proxies => "Proxies",
            Page::Cores => "Cores",
            Page::Log => "Log",
            Page::Settings => "Settings",
        }
    }
}

/// The pages under the brand, in the order the sidebar lists them. Settings
/// is not one of them: it is pinned to the foot of the sidebar.
pub fn work_pages() -> (r: [Page; 4])
    ensures
        r@ == seq![Page::Profiles, Page::Proxies, Page::Cores, Page::Log],
{
    [Page::Profiles, Page::Proxies, Page::Cores, Page::Log]
}

/// What a page looks like in the navigation.
pub fn nav_glyph(page: Page) -> (g: Glyph)
    ensures
        g == match page {
            Page::Profiles => Glyph::NavProfiles,
            Page::Proxies => Glyph::NavProxies,
            Page::Cores => Glyph::NavCores,
            Page::Log => Glyph::NavLog,
            Page::Settings => Glyph::NavSettings,
        },
{
    match page {
        Page::Profiles => Glyph::NavProfiles,
        Page::Proxies => Glyph::NavProxies,
        Page::Cores => Glyph::NavCores,
        Page::Log => Glyph::NavLog,
        Page::Settings => Glyph::NavSettings,
    }
}

/// One page in the navigation.
pub struct NavItem {
    pub id: String,
    pub glyph: Glyph,
    pub active: bool,
    /// A page that is not ready is labelled "soon" and cannot be chosen.
    pub soon: bool,
    pub clickable: bool,
    /// The text colour; `None` keeps the sidebar's own.
    pub colour: Option<u32>,
    pub background: Option<u32>,
    /// The chosen page's name is in the medium weight.
    pub weight: Weight,
    /// Whether hovering lightens the item.
    pub hover: bool,
}

/// One page in the navigation: an icon, the name, and the state of the
/// choice. The icon follows the label's colour.
pub fn nav_item(candidate: Page, page: Page, ready: bool, p: Palette) -> (n: NavItem)
    ensures
        n.id@ == "nav-"@ + candidate.id_spec(),
        n.glyph == match candidate {
            Page::Profiles => Glyph::NavProfiles,
            Page::Proxies => Glyph::NavProxies,
            Page::Cores => Glyph::NavCores,
            Page::Log => Glyph::NavLog,
            Page::Settings => Glyph::NavSettings,
        },
        n.active == (candidate == page),
        n.soon == !ready,
        n.clickable == ready,
        n.colour == (if !ready {
            Some(p.dim)
        } else if candidate == page {
            Some(p.accent)
        } else {
            Some(p.secondary)
        }),
        n.background == (if candidate == page { Some(p.selected) } else { None }),
        n.weight == (if candidate == page { Weight::Medium } else { Weight::Regular }),
        n.hover == (candidate != page && ready),
{
    let active = candidate == page;
    let mut id = String::from_str("nav-");
    id.append(candidate.id());
    NavItem {
        id,
        glyph: nav_glyph(candidate),
        active,
        soon: !ready,
        clickable: ready,
        colour: if !ready {
            Some(p.dim)
        } else if active {
            Some(p.accent)
        } else {
            Some(p.secondary)
        },
        background: if active { Some(p.selected) } else { None },
        weight: if active { Weight::Medium } else { Weight::Regular },
        hover: !active && ready,
    }
}

/// What happened since the last tick.
#[derive(Clone, Copy, PartialEq, Eq, Debug, Structural)]
pub struct Tick {
    /// The tick's number, counted from one.
    pub ticks: u64,
    pub notified: bool,
    pub verified: bool,
    pub tested: bool,
    pub opened: bool,
    pub copied: bool,
}

/// Whether a tick refreshes the snapshot: when anything arrived, and on
/// every `RECONCILE_EVERY`th tick regardless.
pub open spec fn refreshes(t: Tick) -> bool {
    t.notified || t.ticks % RECONCILE_EVERY == 0 || t.verified || t.tested || t.opened || t.copied
}

pub fn should_refresh(t: Tick) -> (b: bool)
    ensures
        b == refreshes(t),
{
    let reconcile = t.ticks % RECONCILE_EVERY == 0;
    t.notified || reconcile || t.verified || t.tested || t.opened || t.copied
}

/// Whatever is dropped, the window reconciles at least once in every
/// `RECONCILE_EVERY` consecutive ticks.
pub proof fn lemma_reconciles_regularly(first: u64, events: Tick)
    requires
        first <= u64::MAX - RECONCILE_EVERY,
    ensures
        exists|k: u64| #![trigger refreshes(Tick { ticks: (first + k) as u64, ..events })]
            k < RECONCILE_EVERY && refreshes(Tick { ticks: (first + k) as u64, ..events }),
{
    let r: u64 = first % 5;
    let k: u64 = if r == 0 { 0 } else { (5 - r) as u64 };
    assert(((first + k) as u64) % 5 == 0);
    assert(refreshes(Tick { ticks: (first + k) as u64, ..events }));
}

/// The banner's colours: a problem in the danger colours, a note on the
/// panel's.
pub fn notice_colours(error: bool, p: Palette) -> (r: (u32, u32))
    ensures
        r == (if error { (p.danger_bg, p.danger) } else { (p.panel, p.secondary) }),
{
    if error { (p.danger_bg, p.danger) } else { (p.panel, p.secondary) }
}

/// What the filter field's latest text changes: nothing when it is what the
/// list is already narrowed by.
pub fn filter_update(typed: String, current: &str) -> (r: Option<String>)
    ensures
        typed@ == current@ ==> r is None,
        typed@ != current@ ==> r == Some(typed),
{
    let now = String::from_str(current);
    if typed == now {
        None
    } else {
        Some(typed)
    }
}

/// Where the details panel goes.
#[derive(Clone, Copy, PartialEq, Eq, Debug, Structural)]
pub enum PanelPlacement {
    /// A column of its own beside the list, with its own edge.
    Beside { width: u32 },
    /// Over the list, the whole column wide, with the way back.
    Covering,
}

pub fn panel_placement(docked: bool) -> (r: PanelPlacement)
    ensures
        r == (if docked { PanelPlacement::Beside { width: PANEL_WIDTH } } else { PanelPlacement::Covering }),
{
    if docked { PanelPlacement::Beside { width: PANEL_WIDTH } } else { PanelPlacement::Covering }
}

/// A failed proxy test's way to the rest: the Log page, filtered to the
/// errors - set rather than assumed, so a filter left on another kind cannot
/// hide the line.
pub fn proxy_diagnostics() -> (r: (LogFilter, Page))
    ensures
        r == (LogFilter::Errors, Page::Log),
{
    (LogFilter::Errors, Page::Log)
}

/// What the banner says once the desktop answered an open request.
pub enum Opened {
    /// The path was opened; an acknowledgement.
    Opened(String),
    /// The desktop refused, in its own words; a problem.
    Refused(String),
}

pub fn open_result(path: String, result: Result<(), String>) -> (r: (Opened, bool))
    ensures
        match (result, r.0) {
            (Ok(()), Opened::Opened(shown)) => shown@ == path@ && !r.1,
            (Err(reason), Opened::Refused(shown)) => shown@ == reason@ && r.1,
            _ => false,
        },
{
    match result {
        Ok(()) => (Opened::Opened(path), false),
        Err(reason) => (Opened::Refused(reason), true),
    }
}

/// What starting or restarting a profile does once the state answered.
#[derive(PartialEq, Eq, Debug)]
pub enum OpeningStep {
    /// Refused: the reason goes to the banner.
    Refuse(String),
    /// The profile's proxy is asked first, on a worker.
    CheckProxy,
    /// The command went through; nothing more to do.
    Done,
}

/// `gate` is what the state answered: whether the profile's proxy must be
/// asked first, or why the opening is refused.
pub fn opening_step(gate: Result<bool, String>) -> (r: OpeningStep)
    ensures
        match gate {
            Err(e) => r == OpeningStep::Refuse(e),
            Ok(true) => r == OpeningStep::CheckProxy,
            Ok(false) => r == OpeningStep::Done,
        },
{
    match gate {
        Err(error) => OpeningStep::Refuse(error),
        Ok(true) => OpeningStep::CheckProxy,
        Ok(false) => OpeningStep::Done,
    }
}

/// Which core a new profile's form is opened with: the first one offered.
/// Without one there is nothing to launch a profile with, and the form does
/// not open.
pub fn new_profile_core(cores: &Vec<u64>) -> (r: Option<u64>)
    ensures
        cores@.len() == 0 ==> r is None,
        cores@.len() > 0 ==> r == Some(cores@[0]),
{
    if cores.len() == 0 {
        None
    } else {
        Some(cores[0])
    }
}

} // verus!

verus! {

/// What a list page draws around its rows.
#[derive(Clone, Copy, PartialEq, Eq, Debug, Structural)]
pub struct ListChrome {
    /// The column headings, over a list with rows.
    pub header: bool,
    /// The empty state and its one action, for a list with none.
    pub empty_state: bool,
}

/// The headings go over a list that has rows; a list with none shows its
/// empty state instead - never both, never neither.
pub fn list_chrome(rows: u64) -> (c: ListChrome)
    ensures
        c.header == (rows > 0),
        c.empty_state == (rows == 0),
{
    ListChrome { header: rows > 0, empty_state: rows == 0 }
}

} // verus!

verus! {

/// What a page's body is, under its header and the banner.
#[derive(Clone, Copy, PartialEq, Eq, Debug, Structural)]
pub enum Body {
    ProfileList,
    ProxyList,
    CoreList,
    LogList,
    SettingsRows,
}

/// The frame a page is drawn in: its own header, the banner under the
/// header while there is a notice, then its own body; only the Profiles page
/// can have the details panel beside its list.
#[derive(Clone, Copy, PartialEq, Eq, Debug, Structural)]
pub struct PageFrame {
    pub header: Page,
    pub banner: bool,
    pub body: Body,
    pub details_panel: bool,
}

pub open spec fn body_of(page: Page) -> Body {
    match page {
        Page::Profiles => Body::ProfileList,
        Page::Proxies => Body::ProxyList,
        Page::Cores => Body::CoreList,
        Page::Log => Body::LogList,
        Page::Settings => Body::SettingsRows,
    }
}

/// The page in force decides the header and the body, and nothing else does.
pub fn page_frame(page: Page, has_notice: bool) -> (f: PageFrame)
    ensures
        f == (PageFrame {
            header: page,
            banner: has_notice,
            body: body_of(page),
            details_panel: page == Page::Profiles,
        }),
{
    let body = match page {
        Page::Profiles => Body::ProfileList,
        Page::Proxies => Body::ProxyList,
        Page::Cores => Body::CoreList,
        Page::Log => Body::LogList,
        Page::Settings => Body::SettingsRows,
    };
    PageFrame { header: page, banner: has_notice, body, details_panel: page == Page::Profiles }
}

/// The items of the menu at the foot of the sidebar.
#[derive(Clone, Copy, PartialEq, Eq, Debug, Structural)]
pub enum FooterItem {
    About,
    CloseWindow,
    StopAllAndQuit,
}

/// The menu's items in order; a separator sets "about" apart from the two
/// ways out under it.
pub fn footer_items() -> (r: [FooterItem; 3])
    ensures
        r@ == seq![FooterItem::About, FooterItem::CloseWindow, FooterItem::StopAllAndQuit],
{
    [FooterItem::About, FooterItem::CloseWindow, FooterItem::StopAllAndQuit]
}

/// What choosing an item of the sidebar's menu does.
#[derive(Clone, Copy, PartialEq, Eq, Debug, Structural)]
pub enum FooterAction {
    /// Show a page.
    Show(Page),
    /// Close the window the way the saved answer says, or ask.
    Close(crate::exit::CloseStep),
    /// Carry out an answer that quits.
    Leave(crate::exit::Leaving),
}

/// "About" shows the Settings page; "close window" goes through the saved
/// answer to the close question, exactly as the window's close button does;
/// "stop all and quit" carries out the answer that stops everything.
pub fn footer_action(item: FooterItem, mode: crate::exit::ExitMode) -> (a: FooterAction)
    ensures
        a == match item {
            FooterItem::About => FooterAction::Show(Page::Settings),
            FooterItem::CloseWindow => FooterAction::Close(crate::exit::step_for(mode)),
            FooterItem::StopAllAndQuit => FooterAction::Leave(crate::exit::leaving_for(crate::exit::Exit::ExitAll)),
        },
{
    match item {
        FooterItem::About => FooterAction::Show(Page::Settings),
        FooterItem::CloseWindow => FooterAction::Close(crate::exit::decide_exit(mode)),
        FooterItem::StopAllAndQuit => FooterAction::Leave(crate::exit::leave(crate::exit::Exit::ExitAll)),
    }
}

/// What the row menu's "open data directory" does.
#[derive(PartialEq, Eq, Debug)]
pub enum DataDirStep {
    /// The desktop is asked to open this directory, on a worker; the click
    /// itself shows nothing, and the answer comes back through `open_result`.
    Open(String),
    /// The profile no longer exists: an error notice naming it, and the
    /// desktop is not asked.
    Gone { id: u64 },
}

/// `dir` is the profile's data directory, or `None` when no profile has
/// that id any more.
pub fn open_data_dir(id: u64, dir: Option<String>) -> (r: DataDirStep)
    ensures
        match dir {
            Some(d) => r == DataDirStep::Open(d),
            None => r == (DataDirStep::Gone { id }),
        },
{
    match dir {
        Some(d) => DataDirStep::Open(d),
        None => DataDirStep::Gone { id },
    }
}

} // verus!
