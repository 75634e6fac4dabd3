//! The pieces every page is built from, and the measurements they share.
//!
//! One page header, one card, one chip, one status badge and one empty state,
//! each described as the values a page paints: the texts it carries and the
//! palette roles it is coloured with.
use crate::theme::Palette;
use vstd::prelude::*;

verus! {

/// The sidebar's width in pixels, excluding its right border.
pub const SIDEBAR: u32 = 200;

/// The padding around a page's content.
pub const PAGE_PADDING: u32 = 24;

/// Below this viewport width, resource metadata moves below the name.
pub const RESOURCE_TABLE_MIN: u32 = 1364;

/// A page title's size.
pub const TITLE: u32 = 22;

/// A card or group heading's size.
pub const SECTION: u32 = 15;

/// The height of a control the window draws itself: a chip, a row, a tab.
pub const CONTROL: u32 = 34;

/// The radius of a control.
pub const RADIUS_CONTROL: u32 = 6;

/// The radius of a list, a card or a panel.
pub const RADIUS_SURFACE: u32 = 8;

/// The height of a list row on the pages that show a table.
pub const ROW_HEIGHT: u32 = 64;

/// The height of a status badge.
pub const BADGE_HEIGHT: u32 = 22;

/// A font weight the window uses.
#[derive(Clone, Copy, PartialEq, Eq, Debug, Structural)]
pub enum Weight {
    Regular,
    Medium,
    Semibold,
}

/// A page's heading: what the page is, what it is showing, and the one thing
/// to do next.
///
/// The summary carries an accessible name of its own because it is a status
/// line: a screen reader should hear the count, not the sentence holding it.
pub struct PageHeader<A> {
    pub id: String,
    pub title: String,
    pub summary: String,
    pub aria: String,
    pub action: Option<A>,
}

/// A page header as it is painted.
pub struct HeaderView<A> {
    pub title: String,
    pub title_size: u32,
    pub title_weight: Weight,
    pub title_colour: u32,
    pub summary_id: String,
    pub summary: String,
    pub summary_aria: String,
    pub summary_colour: u32,
    pub action: Option<A>,
}

impl<A> PageHeader<A> {
    /// A header with a title and nothing under it yet.
    pub fn new(title: String) -> (r: Self)
        ensures
            r.id@ == "page-summary"@,
            r.title@ == title@,
            r.aria@ == title@,
            r.summary@ == Seq::<char>::empty(),
            r.action is None,
    {
        let aria = title.clone();
        PageHeader {
            id: String::from_str("page-summary"),
            aria,
            summary: String::new(),
            title,
            action: None,
        }
    }

    /// The line under the title, and what it says when it is read aloud.
    pub fn summary(self, id: &str, text: String, aria: String) -> (r: Self)
        ensures
            r.id@ == id@,
            r.summary@ == text@,
            r.aria@ == aria@,
            r.title@ == self.title@,
            r.action == self.action,
    {
        PageHeader { id: String::from_str(id), summary: text, aria, title: self.title, action: self.action }
    }

    /// The page's one primary action, on the right.
    pub fn action(self, action: A) -> (r: Self)
        ensures
            r.action == Some(action),
            r.id@ == self.id@,
            r.title@ == self.title@,
            r.summary@ == self.summary@,
            r.aria@ == self.aria@,
    {
        PageHeader { action: Some(action), id: self.id, title: self.title, summary: self.summary, aria: self.aria }
    }

    /// The title in the page's title size, the summary in the muted colour
    /// under it, and the action beside them.
    pub fn render(self, p: Palette) -> (r: HeaderView<A>)
        ensures
            r.title@ == self.title@,
            r.title_size == TITLE,
            r.title_weight == Weight::Semibold,
            r.title_colour == p.text,
            r.summary_id@ == self.id@,
            r.summary@ == self.summary@,
            r.summary_aria@ == self.aria@,
            r.summary_colour == p.muted,
            r.action == self.action,
    {
        HeaderView {
            title: self.title,
            title_size: TITLE,
            title_weight: Weight::Semibold,
            title_colour: p.text,
            summary_id: self.id,
            summary: self.summary,
            summary_aria: self.aria,
            summary_colour: p.muted,
            action: self.action,
        }
    }
}

/// A surface a group of controls or values sits on.
#[derive(Clone, Copy, PartialEq, Eq, Debug)]
pub struct Surface {
    /// Space between the controls stacked on it.
    pub gap: u32,
    pub padding_x: u32,
    pub padding_y: u32,
    pub border_width: u32,
    pub radius: u32,
    pub border: u32,
    pub background: u32,
}

/// A card: one step rounder than a control, with the subtle border.
pub fn card(p: Palette) -> (r: Surface)
    ensures
        r.gap == 12,
        r.padding_x == 16,
        r.padding_y == 16,
        r.border_width == 1,
        r.radius == RADIUS_SURFACE,
        r.border == p.border,
        r.background == p.panel,
{
    Surface { gap: 12, padding_x: 16, padding_y: 16, border_width: 1, radius: RADIUS_SURFACE, border: p.border, background: p.panel }
}

/// One line of small text in one colour.
pub struct Line {
    pub text: String,
    pub colour: u32,
}

/// A card's heading: the group's mark in the muted colour, the title in the
/// section size, and the sentence that explains it.
pub struct Heading<I> {
    pub icon: I,
    pub icon_colour: u32,
    pub title: String,
    pub title_size: u32,
    pub title_colour: u32,
    pub body: String,
    pub body_colour: u32,
}

pub fn card_heading<I>(icon: I, title: &str, body: &str, p: Palette) -> (h: Heading<I>)
    ensures
        h.icon == icon,
        h.icon_colour == p.muted,
        h.title@ == title@,
        h.title_size == SECTION,
        h.title_colour == p.text,
        h.body@ == body@,
        h.body_colour == p.muted,
{
    Heading {
        icon,
        icon_colour: p.muted,
        title: String::from_str(title),
        title_size: SECTION,
        title_colour: p.text,
        body: String::from_str(body),
        body_colour: p.muted,
    }
}

/// An icon-only button, with the name it is announced by.
pub struct IconButton<I> {
    pub id: String,
    pub icon: I,
    pub tooltip: String,
    pub aria: String,
}

/// An icon-only button: its hover text and its accessible name are the same
/// label, which is not optional - a drawing alone is no name.
pub fn icon_button<I>(id: String, icon: I, label: String) -> (b: IconButton<I>)
    ensures
        b.id@ == id@,
        b.icon == icon,
        b.tooltip@ == label@,
        b.aria@ == label@,
{
    let tooltip = label.clone();
    IconButton { id, icon, tooltip, aria: label }
}

/// The dim line under a card's controls: what would happen, or what did.
pub fn card_note(text: String, p: Palette) -> (r: Line)
    ensures
        r.text@ == text@,
        r.colour == p.muted,
{
    Line { text, colour: p.muted }
}

/// The label over a row of controls inside a card.
pub fn card_row(label: &str, p: Palette) -> (r: Line)
    ensures
        r.text@ == label@,
        r.colour == p.muted,
{
    Line { text: String::from_str(label), colour: p.muted }
}

/// The colours a chosen chip is lit with.
#[derive(Clone, Copy, PartialEq, Eq, Debug)]
pub struct ChipFill {
    pub background: u32,
    pub border: u32,
    pub text: u32,
}

/// One chip of a small set of choices.
pub struct Chip {
    pub id: String,
    pub label: String,
    /// Announced as pressed.
    pub toggled: bool,
    /// Kept in its chosen colours while hovered or pressed.
    pub selected: bool,
    /// Drawn as an outlined button.
    pub outline: bool,
    pub height: u32,
    pub radius: u32,
    /// The lit colours, for the chosen chip only; the others keep the
    /// outlined button's own.
    pub fill: Option<ChipFill>,
    /// The chosen chip's label is in the medium weight.
    pub weight: Option<Weight>,
}

/// One chip of a small set of choices: the chosen one filled and lit, the
/// others outlined and quiet, all of them always on screen.
pub fn chip(id: String, label: &str, active: bool, p: Palette) -> (r: Chip)
    ensures
        r.id@ == id@,
        r.label@ == label@,
        r.toggled == active,
        r.selected == active,
        r.outline,
        r.height == CONTROL,
        r.radius == RADIUS_CONTROL,
        r.weight == (if active { Some(Weight::Medium) } else { None }),
        r.fill == (if active {
            Some(ChipFill { background: p.selected, border: p.accent, text: p.accent })
        } else {
            None
        }),
{
    let fill = if active {
        Some(ChipFill { background: p.selected, border: p.accent, text: p.accent })
    } else {
        None
    };
    Chip {
        id,
        label: String::from_str(label),
        toggled: active,
        selected: active,
        outline: true,
        height: CONTROL,
        radius: RADIUS_CONTROL,
        fill,
        weight: if active { Some(Weight::Medium) } else { None },
    }
}

/// How a status reads: the five tints the window uses, and nothing else.
#[derive(Clone, Copy, PartialEq, Eq, Debug, Structural)]
pub enum Tone {
    /// Neither good nor bad: stopped, unset, not used.
    Neutral,
    /// Running, or a check that passed.
    Success,
    /// Waiting, or something that needs attention.
    Warning,
    /// Failed, crashed, or refused.
    Danger,
    /// Information the reader did not ask for.
    Info,
}

/// The background and the text colour of a tone.
pub open spec fn tone_colours(tone: Tone, p: Palette) -> (u32, u32) {
    match tone {
        Tone::Neutral => (p.hover, p.secondary),
        Tone::Success => (p.success_bg, p.success_strong),
        Tone::Warning => (p.warning_bg, p.warning),
        Tone::Danger => (p.danger_bg_soft, p.danger_strong),
        Tone::Info => (p.selected, p.accent),
    }
}

/// A status, as a pill.
pub struct Badge {
    pub id: String,
    /// Announced as a status.
    pub role_status: bool,
    /// A pill: fully rounded ends.
    pub rounded_full: bool,
    /// The label's weight.
    pub weight: Weight,
    pub tone: Tone,
    pub label: String,
    pub aria: String,
    pub height: u32,
    pub background: u32,
    pub foreground: u32,
}

/// What a status badge is: its id, its tone, its word and what it is
/// announced as, a pill of the badge height in the medium weight, announced as
/// a status, in the tone's tints.
pub open spec fn is_badge(b: Badge, id: Seq<char>, tone: Tone, label: Seq<char>, aria: Seq<char>, p: Palette) -> bool {
    &&& b.id@ == id
    &&& b.tone == tone
    &&& b.label@ == label
    &&& b.aria@ == aria
    &&& b.height == BADGE_HEIGHT
    &&& b.role_status
    &&& b.rounded_full
    &&& b.weight == Weight::Medium
    &&& (b.background, b.foreground) == tone_colours(tone, p)
}

/// A status, as a pill: the tone's tints, and always the state's own word,
/// which is what a reader who cannot tell the greens from the reds goes by.
pub fn status_badge(id: String, tone: Tone, label: String, aria: String, p: Palette) -> (r: Badge)
    ensures
        is_badge(r, id@, tone, label@, aria@, p),
{
    let (background, foreground) = match tone {
        Tone::Neutral => (p.hover, p.secondary),
        Tone::Success => (p.success_bg, p.success_strong),
        Tone::Warning => (p.warning_bg, p.warning),
        Tone::Danger => (p.danger_bg_soft, p.danger_strong),
        Tone::Info => (p.selected, p.accent),
    };
    Badge {
        id,
        role_status: true,
        rounded_full: true,
        weight: Weight::Medium,
        tone,
        label,
        aria,
        height: BADGE_HEIGHT,
        background,
        foreground,
    }
}

/// The marks the window draws, named for what they mean here.
#[derive(Clone, Copy, PartialEq, Eq, Debug, Structural)]
pub enum Glyph {
    NavProfiles,
    NavProxies,
    NavCores,
    NavLog,
    NavSettings,
    EmptyProfiles,
    EmptyProxies,
    EmptyCores,
    EmptySearch,
}

/// A page with nothing on it, and the one way out.
pub struct EmptyState<A> {
    pub id: String,
    pub icon: Glyph,
    pub title: String,
    pub description: String,
    pub action: Option<A>,
}

/// An empty state as it is painted: the mark, the two texts, and the name it
/// is announced by.
pub struct EmptyView<A> {
    pub id: String,
    pub icon: Glyph,
    pub aria: String,
    pub title: String,
    pub description: String,
    pub radius: u32,
    pub border: u32,
    pub background: u32,
    pub action: Option<A>,
}

impl<A> EmptyState<A> {
    pub fn new(id: &str, icon: Glyph, title: String, description: String) -> (r: Self)
        ensures
            r.id@ == id@,
            r.icon == icon,
            r.title@ == title@,
            r.description@ == description@,
            r.action is None,
    {
        EmptyState { id: String::from_str(id), icon, title, description, action: None }
    }

    pub fn action(self, action: A) -> (r: Self)
        ensures
            r.action == Some(action),
            r.id@ == self.id@,
            r.icon == self.icon,
            r.title@ == self.title@,
            r.description@ == self.description@,
    {
        EmptyState { action: Some(action), id: self.id, icon: self.icon, title: self.title, description: self.description }
    }

    /// Announced as the title and the description with a space between them.
    pub fn render(self, p: Palette) -> (r: EmptyView<A>)
        ensures
            r.id@ == self.id@,
            r.icon == self.icon,
            r.aria@ == self.title@ + " "@ + self.description@,
            r.title@ == self.title@,
            r.description@ == self.description@,
            r.radius == RADIUS_SURFACE,
            r.border == p.border,
            r.background == p.panel,
            r.action == self.action,
    {
        let mut aria = self.title.clone();
        aria.append(" ");
        aria.append(self.description.as_str());
        EmptyView {
            id: self.id,
            icon: self.icon,
            aria,
            title: self.title,
            description: self.description,
            radius: RADIUS_SURFACE,
            border: p.border,
            background: p.panel,
            action: self.action,
        }
    }
}

} // verus!
