//! What closing the window does: the standing choice, the question asked
//! when there is none, and what each answer carries out.
use vstd::prelude::*;

verus! {

/// The three answers to "what should closing the window do".
#[derive(Clone, Copy, PartialEq, Eq, Debug, Structural)]
pub enum Exit {
    /// The window goes away and the program keeps running behind a tray icon.
    Background,
    /// The program quits and leaves the browsers running.
    KeepRunning,
    /// The program quits and stops every browser.
    ExitAll,
}

/// The standing choice: one of the answers, or asking every time.
#[derive(Clone, Copy, PartialEq, Eq, Debug, Structural)]
pub enum ExitMode {
    Ask,
    Background,
    KeepRunning,
    ExitAll,
}

/// The mode that always gives one answer.
pub open spec fn mode_of(exit: Exit) -> ExitMode {
    match exit {
        Exit::Background => ExitMode::Background,
        Exit::KeepRunning => ExitMode::KeepRunning,
        Exit::ExitAll => ExitMode::ExitAll,
    }
}

/// The answer a mode gives without asking; `None` for asking.
pub open spec fn choice_of(mode: ExitMode) -> Option<Exit> {
    match mode {
        ExitMode::Ask => None,
        ExitMode::Background => Some(Exit::Background),
        ExitMode::KeepRunning => Some(Exit::KeepRunning),
        ExitMode::ExitAll => Some(Exit::ExitAll),
    }
}

/// Whether an answer keeps the program running: only the background is not a
/// close at all.
pub open spec fn stays_running_spec(exit: Exit) -> bool {
    exit == Exit::Background
}

impl Exit {
    /// The answers in the order the dialog lists them.
    pub fn all() -> (r: [Exit; 3])
        ensures
            r@ == seq![Exit::Background, Exit::KeepRunning, Exit::ExitAll],
    {
        [Exit::Background, Exit::KeepRunning, Exit::ExitAll]
    }

    pub open spec fn code_spec(self) -> Seq<char> {
        match self {
            Exit::Background => "background"@,
            Exit::KeepRunning => "keep-running"@,
            Exit::ExitAll => "exit-all"@,
        }
    }

    /// The identifier an answer is addressed by.
    pub fn code(self) -> (r: &'static str)
        ensures
            r@ == self.code_spec(),
    {
        match self {
            Exit::Background => "background",
            Exit::KeepRunning => "keep-running",
            Exit::ExitAll => "exit-all",
        }
    }

    /// Whether the answer leaves the program running with no window.
    pub fn stays_running(self) -> (b: bool)
        ensures
            b == stays_running_spec(self),
    {
        match self {
            Exit::Background => true,
            _ => false,
        }
    }

    /// The mode that gives this answer every time.
    pub fn mode(self) -> (m: ExitMode)
        ensures
            m == mode_of(self),
    {
        match self {
            Exit::Background => ExitMode::Background,
            Exit::KeepRunning => ExitMode::KeepRunning,
            Exit::ExitAll => ExitMode::ExitAll,
        }
    }
}

impl ExitMode {
    /// The modes in the order the settings card lists them.
    pub fn all() -> (r: [ExitMode; 4])
        ensures
            r@ == seq![ExitMode::Ask, ExitMode::Background, ExitMode::KeepRunning, ExitMode::ExitAll],
    {
        [ExitMode::Ask, ExitMode::Background, ExitMode::KeepRunning, ExitMode::ExitAll]
    }

    /// A fresh installation asks rather than deciding.
    pub fn initial() -> (m: ExitMode)
        ensures
            m == ExitMode::Ask,
    {
        ExitMode::Ask
    }

    pub open spec fn code_spec(self) -> Seq<char> {
        match self {
            ExitMode::Ask => "ask"@,
            ExitMode::Background => "background"@,
            ExitMode::KeepRunning => "keep-running"@,
            ExitMode::ExitAll => "exit-all"@,
        }
    }

    /// The identifier a mode is stored and addressed by.
    pub fn code(self) -> (r: &'static str)
        ensures
            r@ == self.code_spec(),
    {
        match self {
            ExitMode::Ask => "ask",
            ExitMode::Background => "background",
            ExitMode::KeepRunning => "keep-running",
            ExitMode::ExitAll => "exit-all",
        }
    }

    /// The answer this mode gives without asking.
    pub fn choice(self) -> (c: Option<Exit>)
        ensures
            c == choice_of(self),
    {
        match self {
            ExitMode::Ask => None,
            ExitMode::Background => Some(Exit::Background),
            ExitMode::KeepRunning => Some(Exit::KeepRunning),
            ExitMode::ExitAll => Some(Exit::ExitAll),
        }
    }
}

/// What the window does when it is asked to close or to quit.
#[derive(Clone, Copy, PartialEq, Eq, Debug, Structural)]
pub enum CloseStep {
    /// Put the window away and keep running.
    EnterBackground,
    /// Carry out one of the answers that quit.
    Leave(Exit),
    /// Ask the question.
    OpenDialog,
}

/// The one place the answer is read: a remembered answer is carried out, and
/// "ask" is asked.
pub open spec fn step_for(mode: ExitMode) -> CloseStep {
    match choice_of(mode) {
        Some(exit) => if stays_running_spec(exit) {
            CloseStep::EnterBackground
        } else {
            CloseStep::Leave(exit)
        },
        None => CloseStep::OpenDialog,
    }
}

/// Whether the window's close button is allowed to close the window: only
/// an answer that quits closes it. "Ask" has not been answered yet, and the
/// background is not a close at all.
pub open spec fn close_allowed(mode: ExitMode) -> bool {
    step_for(mode) matches CloseStep::Leave(_)
}

/// The brand menu's "close window": the remembered answer, or the question.
pub fn decide_exit(mode: ExitMode) -> (s: CloseStep)
    ensures
        s == step_for(mode),
{
    match mode.choice() {
        Some(exit) => if exit.stays_running() {
            CloseStep::EnterBackground
        } else {
            CloseStep::Leave(exit)
        },
        None => CloseStep::OpenDialog,
    }
}

/// The window's close button, as a question that can be refused: the step to
/// take, and whether the window may close.
pub fn on_close_requested(mode: ExitMode) -> (r: (CloseStep, bool))
    ensures
        r.0 == step_for(mode),
        r.1 == close_allowed(mode),
{
    match mode.choice() {
        Some(exit) => if exit.stays_running() {
            (CloseStep::EnterBackground, false)
        } else {
            (CloseStep::Leave(exit), true)
        },
        None => (CloseStep::OpenDialog, false),
    }
}

/// What carrying out an answer does, in order: the open dialog is closed,
/// then the runtime is told to let go of the browsers when they are to be
/// left running, then the program quits - or the window goes to the
/// background instead.
#[derive(Clone, Copy, PartialEq, Eq, Debug, Structural)]
pub struct Leaving {
    pub close_dialog: bool,
    pub enter_background: bool,
    pub release_runtime: bool,
    pub quit: bool,
}

pub open spec fn leaving_for(exit: Exit) -> Leaving {
    match exit {
        Exit::Background => Leaving { close_dialog: true, enter_background: true, release_runtime: false, quit: false },
        Exit::KeepRunning => Leaving { close_dialog: true, enter_background: false, release_runtime: true, quit: true },
        Exit::ExitAll => Leaving { close_dialog: true, enter_background: false, release_runtime: false, quit: true },
    }
}

/// Carries out one of the three answers. "Keep running" tells the runtime
/// before it quits; "stop everything" needs to say nothing, because stopping
/// the children is what the program does at exit anyway.
pub fn leave(exit: Exit) -> (l: Leaving)
    ensures
        l == leaving_for(exit),
{
    match exit {
        Exit::Background => Leaving { close_dialog: true, enter_background: true, release_runtime: false, quit: false },
        Exit::KeepRunning => Leaving { close_dialog: true, enter_background: false, release_runtime: true, quit: true },
        Exit::ExitAll => Leaving { close_dialog: true, enter_background: false, release_runtime: false, quit: true },
    }
}

/// The first step of going to the background.
#[derive(Clone, Copy, PartialEq, Eq, Debug, Structural)]
pub enum BackgroundStep {
    /// The tray icon is already there: hide the window.
    Hide,
    /// Start the tray icon first.
    StartTray,
}

/// Going to the background needs a tray icon, which is the only way back to a
/// window that is not on screen; it is created on the first request.
pub fn enter_background(has_tray: bool) -> (s: BackgroundStep)
    ensures
        s == (if has_tray { BackgroundStep::Hide } else { BackgroundStep::StartTray }),
{
    if has_tray { BackgroundStep::Hide } else { BackgroundStep::StartTray }
}

/// What follows an attempt to start the tray icon.
#[derive(PartialEq, Eq, Debug)]
pub enum TrayStarted {
    /// Keep the icon and hide the window.
    KeepAndHide,
    /// No icon: the window stays, and the banner says why.
    StayWithNotice(String),
}

/// A desktop that refuses the icon is a desktop where hiding the window
/// would lose it, so the window stays and the reason is shown in it.
pub fn tray_started(outcome: Result<(), String>) -> (r: TrayStarted)
    ensures
        match (outcome, r) {
            (Ok(()), TrayStarted::KeepAndHide) => true,
            (Err(e), TrayStarted::StayWithNotice(m)) => m@ == e@,
            _ => false,
        },
{
    match outcome {
        Ok(()) => TrayStarted::KeepAndHide,
        Err(error) => TrayStarted::StayWithNotice(error),
    }
}

/// What the tray icon can ask for.
#[derive(Clone, Copy, PartialEq, Eq, Debug, Structural)]
pub enum TrayEvent {
    Show,
    Quit,
}

/// What a tray request does: bring the window back, or stop everything.
#[derive(Clone, Copy, PartialEq, Eq, Debug, Structural)]
pub enum TrayAction {
    ShowWindow,
    Leave(Exit),
}

pub fn handle_tray(event: TrayEvent) -> (a: TrayAction)
    ensures
        a == (match event {
            TrayEvent::Show => TrayAction::ShowWindow,
            TrayEvent::Quit => TrayAction::Leave(Exit::ExitAll),
        }),
{
    match event {
        TrayEvent::Show => TrayAction::ShowWindow,
        TrayEvent::Quit => TrayAction::Leave(Exit::ExitAll),
    }
}

/// The sentence over the dialog's answers.
#[derive(Clone, Copy, PartialEq, Eq, Debug, Structural)]
pub enum DialogBody {
    /// Browsers are running, so the answers differ in what they do to them.
    Running,
    /// Nothing is running.
    Idle,
}

pub fn exit_dialog_body(running: u64) -> (b: DialogBody)
    ensures
        b == (if running > 0 { DialogBody::Running } else { DialogBody::Idle }),
{
    if running > 0 { DialogBody::Running } else { DialogBody::Idle }
}

/// What an answer in the dialog does: the mode to store first, when the
/// "remember" box is ticked, and the answer carried out either way.
#[derive(Clone, Copy, PartialEq, Eq, Debug, Structural)]
pub struct Answer {
    pub store: Option<ExitMode>,
    pub leave: Exit,
}

pub open spec fn answer_for(exit: Exit, remember: bool) -> Answer {
    Answer { store: if remember { Some(mode_of(exit)) } else { None }, leave: exit }
}

/// The stored choice is written before it is acted on; without the box
/// ticked nothing is remembered, and the answer is still carried out.
pub fn answer(exit: Exit, remember: bool) -> (a: Answer)
    ensures
        a == answer_for(exit, remember),
        a.leave == exit,
        remember ==> (a.store matches Some(m) && choice_of(m) == Some(exit)),
        !remember ==> a.store is None,
{
    Answer { store: if remember { Some(exit.mode()) } else { None }, leave: exit }
}

/// The mode in force after an answer: the stored one, or the one before.
pub open spec fn mode_after(before: ExitMode, a: Answer) -> ExitMode {
    match a.store {
        Some(m) => m,
        None => before,
    }
}

/// Every answer is the choice of exactly one mode, and "ask" is the one mode
/// that chooses nothing.
pub proof fn lemma_modes_name_answers(exit: Exit, mode: ExitMode)
    ensures
        choice_of(mode_of(exit)) == Some(exit),
        choice_of(mode) is None <==> mode == ExitMode::Ask,
        choice_of(mode) matches Some(e) ==> mode_of(e) == mode,
{
}

/// The close button and the menu's "close window" take the same step for
/// every mode, and the close button lets the window close exactly when that
/// step quits the program - never while the question is unanswered and
/// never for the background.
pub proof fn lemma_close_and_quit_agree(mode: ExitMode)
    ensures
        close_allowed(mode) <==> (mode == ExitMode::KeepRunning || mode == ExitMode::ExitAll),
        step_for(mode) == CloseStep::OpenDialog <==> mode == ExitMode::Ask,
        step_for(mode) == CloseStep::EnterBackground <==> mode == ExitMode::Background,
        step_for(mode) matches CloseStep::Leave(e) ==> leaving_for(e).quit,
{
}

/// An answer given with "remember" ticked is carried out without asking the
/// next time: the stored mode leads to the same answer. Without the box the
/// mode in force does not change.
pub proof fn lemma_remembered_answer_is_carried_out(before: ExitMode, exit: Exit, remember: bool)
    ensures
        remember ==> step_for(mode_after(before, answer_for(exit, remember))) == (if stays_running_spec(
            exit,
        ) {
            CloseStep::EnterBackground
        } else {
            CloseStep::Leave(exit)
        }),
        !remember ==> mode_after(before, answer_for(exit, remember)) == before,
{
}

/// The answer carried out is always the one chosen in the dialog, ticked or
/// not; the box only decides whether it is also stored, and what is stored
/// is the mode that gives that same answer without asking.
pub proof fn lemma_answer_is_the_choice(exit: Exit, remember: bool)
    ensures
        answer_for(exit, remember).leave == exit,
        answer_for(exit, remember).store is Some <==> remember,
        remember ==> answer_for(exit, remember).store == Some(
            match exit {
                Exit::Background => ExitMode::Background,
                Exit::KeepRunning => ExitMode::KeepRunning,
                Exit::ExitAll => ExitMode::ExitAll,
            },
        ),
        answer_for(exit, true).leave == answer_for(exit, false).leave,
{
}

/// Leaving with the browsers running is the one answer that tells the
/// runtime; the background never quits, and both other answers do.
pub proof fn lemma_leaving(exit: Exit)
    ensures
        leaving_for(exit).release_runtime <==> exit == Exit::KeepRunning,
        leaving_for(exit).quit <==> !stays_running_spec(exit),
        leaving_for(exit).enter_background <==> stays_running_spec(exit),
        leaving_for(exit).close_dialog,
{
}

} // verus!

verus! {

/// The exit question as it is shown.
pub struct ExitDialog {
    pub body: DialogBody,
    /// The three answers, in the order they are listed.
    pub choices: [Exit; 3],
    /// Whether the "remember" box starts ticked: as the window last left it.
    pub remember: bool,
}

/// The question itself: the sentence that fits how many browsers the decision
/// is about, the three answers, and whether to stop asking.
pub fn open_exit_dialog(running: u64, remember: bool) -> (d: ExitDialog)
    ensures
        d.body == (if running > 0 { DialogBody::Running } else { DialogBody::Idle }),
        d.choices@ == seq![Exit::Background, Exit::KeepRunning, Exit::ExitAll],
        d.remember == remember,
{
    ExitDialog { body: exit_dialog_body(running), choices: Exit::all(), remember }
}

} // verus!
