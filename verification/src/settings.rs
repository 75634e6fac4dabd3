//! The Settings page: the settings rows, the standing choices, and the
//! configuration backup cards.
use crate::theme::Palette;
use vstd::prelude::*;

verus! {

/// The settings the page lists.
#[derive(Clone, Copy, PartialEq, Eq, Debug, Structural)]
pub enum SettingKey {
    DataDir,
    ChromiumBin,
    ChromiumMajor,
    ConfigFile,
    RuntimeDir,
    XrayExecutable,
    EchoUrl,
}

impl SettingKey {
    pub open spec fn id_spec(self) -> Seq<char> {
        match self {
            SettingKey::DataDir => "data-dir"@,
            SettingKey::ChromiumBin => "chromium-bin"@,
            SettingKey::ChromiumMajor => "chromium-major"@,
            SettingKey::ConfigFile => "config-file"@,
            SettingKey::RuntimeDir => "runtime-dir"@,
            SettingKey::XrayExecutable => "xray-executable"@,
            SettingKey::EchoUrl => "echo-url"@,
        }
    }

    /// The identifier a setting's row is addressed by.
    pub fn id(self) -> (r: &'static str)
        ensures
            r@ == self.id_spec(),
    {
        match self {
            SettingKey::DataDir => "data-dir",
            SettingKey::ChromiumBin => "chromium-bin",
            SettingKey::ChromiumMajor => "chromium-major",
            SettingKey::ConfigFile => "config-file",
            SettingKey::RuntimeDir => "runtime-dir",
            SettingKey::XrayExecutable => "xray-executable",
            SettingKey::EchoUrl => "echo-url",
        }
    }

    /// Whether the window may change the setting: the engine's path and the
    /// address a reading is echoed from. The rest are shown, not edited -
    /// they are decided by the environment or by where the installation is.
    pub open spec fn editable_spec(self) -> bool {
        self == SettingKey::XrayExecutable || self == SettingKey::EchoUrl
    }

    pub fn editable(self) -> (b: bool)
        ensures
            b == self.editable_spec(),
    {
        match self {
            SettingKey::XrayExecutable | SettingKey::EchoUrl => true,
            _ => false,
        }
    }
}

/// Where a setting's value came from.
#[derive(Clone, Copy, PartialEq, Eq, Debug, Structural)]
pub enum Source {
    Default,
    File,
    Environment,
}

/// Whether a setting's edit dialog carries a help line under its field:
/// only the engine's path has one.
pub fn key_help(key: SettingKey) -> (b: bool)
    ensures
        b == (key == SettingKey::XrayExecutable),
{
    match key {
        SettingKey::XrayExecutable => true,
        _ => false,
    }
}

/// One setting as the page lists it: where its value came from, the value in
/// force, when a change to it takes effect, the line naming a value the
/// environment overrides, and the note the setting carries, if any.
pub struct SettingRow {
    pub key: SettingKey,
    pub source: Source,
    pub value: String,
    /// When a change takes effect, in the language in force.
    pub effect: String,
    pub shadowed: Option<String>,
    pub note: Option<String>,
}

/// One setting's row as the page paints it.
pub struct SettingRowView {
    pub id: String,
    /// A value the environment overrides is marked in the warning colour.
    pub source_colour: u32,
    /// The value in force, in the soft text colour.
    pub value: crate::components::Line,
    /// The overridden value's line, in the warning colour.
    pub shadowed: Option<crate::components::Line>,
    /// When a change takes effect, muted, beside the "change" button.
    pub effect: crate::components::Line,
    /// The setting's note, muted.
    pub note: Option<crate::components::Line>,
    /// The "change" button, for an editable setting only.
    pub edit_button: Option<String>,
}

/// An optional line of text in one colour.
pub open spec fn line_of(l: Option<crate::components::Line>, text: Option<String>, colour: u32) -> bool {
    match text {
        Some(t) => l matches Some(l) && l.text@ == t@ && l.colour == colour,
        None => l is None,
    }
}

/// What a setting's row holds: `setting-{id}`, the source in the warning
/// colour when the environment decided it, the value, when a change takes
/// effect, the override and the note, and `edit-setting-{id}` for a setting the window may change.
pub open spec fn setting_row_of(v: SettingRowView, row: SettingRow, p: Palette) -> bool {
    &&& v.id@ == "setting-"@ + row.key.id_spec()
    &&& v.source_colour == (if row.source == Source::Environment { p.warning } else { p.muted })
    &&& v.value.text@ == row.value@
    &&& v.value.colour == p.text_soft
    &&& line_of(v.shadowed, row.shadowed, p.warning)
    &&& v.effect.text@ == row.effect@
    &&& v.effect.colour == p.muted
    &&& line_of(v.note, row.note, p.muted)
    &&& if row.key.editable_spec() {
        v.edit_button matches Some(b) && b@ == "edit-setting-"@ + row.key.id_spec()
    } else {
        v.edit_button is None
    }
}

fn optional_line(text: &Option<String>, colour: u32) -> (l: Option<crate::components::Line>)
    ensures
        line_of(l, *text, colour),
{
    match text {
        Some(t) => Some(crate::components::Line { text: t.clone(), colour }),
        None => None,
    }
}

pub fn setting_row(row: &SettingRow, p: Palette) -> (r: SettingRowView)
    ensures
        setting_row_of(r, *row, p),
{
    let key = row.key;
    let mut id = String::from_str("setting-");
    id.append(key.id());
    let edit_button = if key.editable() {
        let mut b = String::from_str("edit-setting-");
        b.append(key.id());
        Some(b)
    } else {
        None
    };
    SettingRowView {
        id,
        source_colour: if row.source == Source::Environment { p.warning } else { p.muted },
        value: crate::components::Line { text: row.value.clone(), colour: p.text_soft },
        shadowed: optional_line(&row.shadowed, p.warning),
        effect: crate::components::Line { text: row.effect.clone(), colour: p.muted },
        note: optional_line(&row.note, p.muted),
        edit_button,
    }
}

/// The languages the window speaks.
#[derive(Clone, Copy, PartialEq, Eq, Debug, Structural)]
pub enum Lang {
    En,
    Zh,
}

impl Lang {
    pub fn all() -> (r: [Lang; 2])
        ensures
            r@ == seq![Lang::En, Lang::Zh],
    {
        [Lang::En, Lang::Zh]
    }

    pub open spec fn code_spec(self) -> Seq<char> {
        match self {
            Lang::En => "en"@,
            Lang::Zh => "zh"@,
        }
    }

    /// The identifier a language is stored and addressed by.
    pub fn code(self) -> (r: &'static str)
        ensures
            r@ == self.code_spec(),
    {
        match self {
            Lang::En => "en",
            Lang::Zh => "zh",
        }
    }

    pub open spec fn label_spec(self) -> Seq<char> {
        match self {
            Lang::En => "English"@,
            Lang::Zh => "简体中文"@,
        }
    }

    /// Each language labelled in itself, so someone who cannot read the one
    /// in force can still find the way out of it.
    pub fn label(self) -> (r: &'static str)
        ensures
            r@ == self.label_spec(),
    {
        match self {
            Lang::En => "English",
            Lang::Zh => "简体中文",
        }
    }
}

/// An identifier made of a prefix and a code (`format!("{prefix}{code}")`).
pub fn prefixed(prefix: &str, code: &str) -> (r: String)
    ensures
        r@ == prefix@ + code@,
{
    let mut r = String::from_str(prefix);
    r.append(code);
    r
}

/// A settings chip as it is painted.
pub struct SettingsChip {
    pub id: String,
    pub label: String,
    pub border: u32,
    pub text: u32,
    /// The fill of the chosen chip; the others are not filled.
    pub fill: Option<u32>,
    pub medium_weight: bool,
}

/// One chip of a standing choice: the chosen one filled, the others not, and
/// all of them always on screen.
pub fn chip(id: String, label: &str, active: bool, p: Palette) -> (c: SettingsChip)
    ensures
        c.id@ == id@,
        c.label@ == label@,
        c.border == (if active { p.dim } else { p.border }),
        c.text == (if active { p.text } else { p.muted }),
        c.fill == (if active { Some(p.border) } else { None }),
        c.medium_weight == active,
{
    SettingsChip {
        id,
        label: String::from_str(label),
        border: if active { p.dim } else { p.border },
        text: if active { p.text } else { p.muted },
        fill: if active { Some(p.border) } else { None },
        medium_weight: active,
    }
}

/// The frame the Settings cards share: a bordered column on the page's own
/// background.
pub fn settings_card(p: Palette) -> (b: u32)
    ensures
        b == p.border,
{
    p.border
}

/// A settings card's title and the sentence under it, the sentence muted.
pub fn settings_card_heading(title: &str, body: &str, p: Palette) -> (r: (String, crate::components::Line))
    ensures
        r.0@ == title@,
        r.1.text@ == body@,
        r.1.colour == p.muted,
{
    (String::from_str(title), crate::components::Line { text: String::from_str(body), colour: p.muted })
}

/// The label over a row of chips inside a settings card.
pub fn settings_card_row(label: &str, p: Palette) -> (r: crate::components::Line)
    ensures
        r.text@ == label@,
        r.colour == p.muted,
{
    crate::components::Line { text: String::from_str(label), colour: p.muted }
}

/// One of the exit dialog's answers: a row of a given height, so the three
/// look like three of the same thing, addressed as `exit-choice-{code}`,
/// holding the answer's word and, under it, what the answer does.
pub struct ExitChoice {
    pub answer: crate::exit::Exit,
    pub id: String,
    pub height: u32,
    pub border: u32,
    pub label: String,
    pub note: crate::components::Line,
}

pub fn exit_choice(exit: crate::exit::Exit, label: String, note: String, p: Palette) -> (c: ExitChoice)
    ensures
        c.answer == exit,
        c.id@ == "exit-choice-"@ + exit.code_spec(),
        c.height == 84,
        c.border == p.dim,
        c.label@ == label@,
        c.note.text@ == note@,
        c.note.colour == p.muted,
{
    ExitChoice {
        answer: exit,
        id: prefixed("exit-choice-", exit.code()),
        height: 84,
        border: p.dim,
        label,
        note: crate::components::Line { text: note, colour: p.muted },
    }
}

/// The dim line under a card's controls.
pub fn card_note(text: String, p: Palette) -> (r: crate::components::Line)
    ensures
        r.text@ == text@,
        r.colour == p.dim,
{
    crate::components::Line { text, colour: p.dim }
}

/// The muted sentence beside a checkbox, saying what the box does.
pub fn card_hint(text: &str, p: Palette) -> (r: crate::components::Line)
    ensures
        r.text@ == text@,
        r.colour == p.muted,
{
    crate::components::Line { text: String::from_str(text), colour: p.muted }
}

/// How a restore is allowed to run.
#[derive(Clone, Copy, PartialEq, Eq, Debug, Structural)]
pub enum RestoreMode {
    /// Only into an installation with nothing to lose.
    OnlyWhenEmpty,
    /// Replacing what is there, after the reader agreed to it.
    Replace,
}

/// What pressing Restore does.
#[derive(PartialEq, Eq, Debug)]
pub enum RestoreStep {
    /// The path field is empty: refused where it is, in the banner.
    NeedsPath,
    /// Start the restore on a worker.
    Start(RestoreMode),
    /// Ask before replacing a populated installation.
    Confirm,
    /// Whether the installation is empty could not be told.
    Refuse(String),
}

pub open spec fn restore_step_for(has_source: bool, empty: Result<bool, String>) -> RestoreStep {
    if !has_source {
        RestoreStep::NeedsPath
    } else {
        match empty {
            Ok(true) => RestoreStep::Start(RestoreMode::OnlyWhenEmpty),
            Ok(false) => RestoreStep::Confirm,
            Err(e) => RestoreStep::Refuse(e),
        }
    }
}

/// The path is checked first, so an empty field is refused rather than
/// opening a confirmation for a restore that could not run; an empty
/// installation is restored at once, and a populated one is asked about.
pub fn restore_step(has_source: bool, empty: Result<bool, String>) -> (r: RestoreStep)
    ensures
        r == restore_step_for(has_source, empty),
{
    if !has_source {
        return RestoreStep::NeedsPath;
    }
    match empty {
        Ok(true) => RestoreStep::Start(RestoreMode::OnlyWhenEmpty),
        Ok(false) => RestoreStep::Confirm,
        Err(error) => RestoreStep::Refuse(error),
    }
}

/// What the confirmation's "replace" starts.
pub fn confirmed_restore() -> (m: RestoreMode)
    ensures
        m == RestoreMode::Replace,
{
    RestoreMode::Replace
}

/// A configuration is never replaced by pressing Restore alone: the button
/// starts a restore only into an empty installation, and a populated one is
/// asked about first.
pub proof fn lemma_restore_never_replaces_unasked(has_source: bool, empty: Result<bool, String>)
    ensures
        restore_step_for(has_source, empty) != RestoreStep::Start(RestoreMode::Replace),
        restore_step_for(has_source, empty) == RestoreStep::Start(RestoreMode::OnlyWhenEmpty) <==> (has_source
            && empty == Ok::<bool, String>(true)),
        restore_step_for(has_source, empty) == RestoreStep::Confirm <==> (has_source && empty
            == Ok::<bool, String>(false)),
{
}

/// Whether choosing an appearance repaints the window: only once the choice
/// is stored, so the window never shows a mode the next start would not.
pub fn repaint_after_theme(stored: bool) -> (b: bool)
    ensures
        b == stored,
{
    stored
}

/// Whether choosing a language restarts the tray icon, whose menu speaks the
/// language too: only when there is one.
pub fn restart_tray_after_language(has_tray: bool) -> (b: bool)
    ensures
        b == has_tray,
{
    has_tray
}

} // verus!

verus! {

/// The settings page's rows, one per setting, in the order given.
pub fn settings_rows(rows: &Vec<SettingRow>, p: Palette) -> (views: Vec<SettingRowView>)
    ensures
        views@.len() == rows@.len(),
        forall|i: int| 0 <= i < rows@.len() ==> setting_row_of(#[trigger] views@[i], rows@[i], p),
{
    let mut views: Vec<SettingRowView> = Vec::new();
    let mut i: usize = 0;
    while i < rows.len()
        invariant
            i <= rows@.len(),
            views@.len() == i,
            forall|j: int| 0 <= j < i ==> setting_row_of(#[trigger] views@[j], rows@[j], p),
        decreases rows@.len() - i,
    {
        views.push(setting_row(&rows[i], p));
        i = i + 1;
    }
    views
}

} // verus!

verus! {

/// The cards under the settings rows.
#[derive(Clone, Copy, PartialEq, Eq, Debug, Structural)]
pub enum SettingsCard {
    Appearance,
    ExitMode,
    Export,
    Import,
    Restore,
    BrowserData,
    Diagnostics,
}

impl SettingsCard {
    /// The cards in the page's order: the two standing choices first, then
    /// the configuration file's three verbs, then the browser data, and last
    /// the report written when something above is not doing what it should.
    pub fn all() -> (r: [SettingsCard; 7])
        ensures
            r@ == seq![
                SettingsCard::Appearance,
                SettingsCard::ExitMode,
                SettingsCard::Export,
                SettingsCard::Import,
                SettingsCard::Restore,
                SettingsCard::BrowserData,
                SettingsCard::Diagnostics,
            ],
    {
        [
            SettingsCard::Appearance,
            SettingsCard::ExitMode,
            SettingsCard::Export,
            SettingsCard::Import,
            SettingsCard::Restore,
            SettingsCard::BrowserData,
            SettingsCard::Diagnostics,
        ]
    }

    pub open spec fn id_spec(self) -> Seq<char> {
        match self {
            SettingsCard::Appearance => "appearance"@,
            SettingsCard::ExitMode => "exit-mode"@,
            SettingsCard::Export => "export-configuration"@,
            SettingsCard::Import => "import-configuration"@,
            SettingsCard::Restore => "restore-configuration"@,
            SettingsCard::BrowserData => "browser-data"@,
            SettingsCard::Diagnostics => "diagnostics"@,
        }
    }

    /// The identifier a card is addressed by.
    pub fn id(self) -> (r: &'static str)
        ensures
            r@ == self.id_spec(),
    {
        match self {
            SettingsCard::Appearance => "appearance",
            SettingsCard::ExitMode => "exit-mode",
            SettingsCard::Export => "export-configuration",
            SettingsCard::Import => "import-configuration",
            SettingsCard::Restore => "restore-configuration",
            SettingsCard::BrowserData => "browser-data",
            SettingsCard::Diagnostics => "diagnostics",
        }
    }

    /// The path field a card's verb reads or writes, where it has one. The
    /// diagnostics report goes to a place the program already knows, so its
    /// card has none.
    pub open spec fn path_field_spec(self) -> Option<Seq<char>> {
        match self {
            SettingsCard::Export => Some("export-path"@),
            SettingsCard::Import => Some("import-path"@),
            SettingsCard::Restore => Some("restore-path"@),
            SettingsCard::BrowserData => Some("browser-data-path"@),
            _ => None,
        }
    }

    /// A card's buttons, in order, each with whether it is drawn outlined.
    /// The browser data has two, out and back in, the way back quieter.
    pub open spec fn buttons_spec(self) -> Seq<(Seq<char>, bool)> {
        match self {
            SettingsCard::Export => seq![("export-run"@, false)],
            SettingsCard::Import => seq![("import-run"@, false)],
            SettingsCard::Restore => seq![("restore-run"@, false)],
            SettingsCard::BrowserData => seq![("browser-data-out"@, false), ("browser-data-in"@, true)],
            SettingsCard::Diagnostics => seq![("diagnostics-run"@, false)],
            _ => Seq::empty(),
        }
    }
}

/// One button of a card.
pub struct CardButton {
    pub id: &'static str,
    pub outline: bool,
}

/// A settings card's frame and controls.
pub struct CardView {
    pub id: &'static str,
    pub border: u32,
    pub path_field: Option<&'static str>,
    pub buttons: Vec<CardButton>,
    /// The colour of the dim line under the controls.
    pub note_colour: u32,
}

/// What a card holds: its id, the shared border, its path field and its
/// buttons in order, and the dim note under them.
pub open spec fn card_view_of(v: CardView, card: SettingsCard, p: Palette) -> bool {
    &&& v.id@ == card.id_spec()
    &&& v.border == p.border
    &&& match (v.path_field, card.path_field_spec()) {
        (Some(f), Some(g)) => f@ == g,
        (None, None) => true,
        _ => false,
    }
    &&& v.buttons@.len() == card.buttons_spec().len()
    &&& forall|i: int| #![trigger v.buttons@[i]] 0 <= i < v.buttons@.len() ==> {
        &&& v.buttons@[i].id@ == card.buttons_spec()[i].0
        &&& v.buttons@[i].outline == card.buttons_spec()[i].1
    }
    &&& v.note_colour == p.dim
}

/// A settings card: its frame, its path field, and its buttons.
pub fn settings_card_view(card: SettingsCard, p: Palette) -> (v: CardView)
    ensures
        card_view_of(v, card, p),
{
    let (path_field, buttons): (Option<&'static str>, Vec<CardButton>) = match card {
        SettingsCard::Export => (Some("export-path"), vec![CardButton { id: "export-run", outline: false }]),
        SettingsCard::Import => (Some("import-path"), vec![CardButton { id: "import-run", outline: false }]),
        SettingsCard::Restore => (Some("restore-path"), vec![CardButton { id: "restore-run", outline: false }]),
        SettingsCard::BrowserData => (
            Some("browser-data-path"),
            vec![
                CardButton { id: "browser-data-out", outline: false },
                CardButton { id: "browser-data-in", outline: true },
            ],
        ),
        SettingsCard::Diagnostics => (None, vec![CardButton { id: "diagnostics-run", outline: false }]),
        _ => (None, Vec::new()),
    };
    CardView { id: card.id(), border: settings_card(p), path_field, buttons, note_colour: p.dim }
}

/// The export card's own lines: the file an empty field would write, the
/// box that puts credentials into the file, what the box does, and the one
/// warning on the page - that the file is about to hold passwords in clear.
pub struct ExportCard {
    pub card: CardView,
    /// The file an empty path field writes, named on the dim note.
    pub destination: String,
    pub credentials_box: &'static str,
    pub credentials_checked: bool,
    pub hint_colour: u32,
    pub warning_colour: u32,
}

pub fn export_card(destination: String, include_credentials: bool, p: Palette) -> (c: ExportCard)
    ensures
        card_view_of(c.card, SettingsCard::Export, p),
        c.destination@ == destination@,
        c.credentials_box@ == "export-credentials"@,
        c.credentials_checked == include_credentials,
        c.hint_colour == p.muted,
        c.warning_colour == p.warning,
{
    ExportCard {
        card: settings_card_view(SettingsCard::Export, p),
        destination,
        credentials_box: "export-credentials",
        credentials_checked: include_credentials,
        hint_colour: p.muted,
        warning_colour: p.warning,
    }
}

/// The diagnostics card: one button, and the note naming the exact file the
/// report is written to.
pub struct DiagnosticsCard {
    pub card: CardView,
    pub destination: String,
}

pub fn diagnostics_card(destination: String, p: Palette) -> (c: DiagnosticsCard)
    ensures
        card_view_of(c.card, SettingsCard::Diagnostics, p),
        c.destination@ == destination@,
{
    DiagnosticsCard { card: settings_card_view(SettingsCard::Diagnostics, p), destination }
}

} // verus!
