//! The launcher's state, the messages that change it, and what each message leaves to do.
use vstd::prelude::*;

use crate::config::{Config, ConfigView};
use crate::input::{Key, Modifiers};
use crate::model::{StateView, initial, text_view};
use crate::service::{ServiceKind, Status};
use crate::terminal::{GridSnapshot, GridView};
use crate::text::texts;

verus! {

/// The pages of the launcher.
#[derive(Debug, Clone, Copy, PartialEq, Eq, Structural)]
pub enum NavTab {
    Home,
    Settings,
    Terminal,
}

/// Something that the keyboard did.
#[derive(Debug)]
pub enum KeyEvent {
    Pressed { key: Key, text: Option<String>, modifiers: Modifiers },
    Other,
}

/// Everything that can happen to the launcher. `H` is what a page holds to reach a terminal.
#[derive(Debug)]
pub enum Message<H> {
    NavSelected(NavTab),
    ServiceSelected(ServiceKind),
    StartService(ServiceKind),
    StopService(ServiceKind),
    RestartService(ServiceKind),
    /// The pause of a restart is over.
    SetDesired(ServiceKind, bool),
    ServiceStarted(ServiceKind, u32),
    ServiceStopped(ServiceKind),
    ServiceStartFailed(ServiceKind, String),
    ProcessKilled(ServiceKind),
    /// A program has written to its terminal.
    TerminalData(ServiceKind),
    /// A program's terminal can be reached.
    ServiceTerminalReady(ServiceKind, H),
    ClientLaunched(Result<(), String>),
    StartAll,
    StopAll,
    MysqlReady,
    MysqlReadyFailed(String),
    SaveConfig,
    /// The answer to an attempt to save the draft.
    ConfigSaved(Result<(), String>),
    ResetConfigDraft,
    PathEdited(ServiceKind, String),
    BrowsePath(ServiceKind),
    PathBrowsed(ServiceKind, Option<String>),
    CloseRequested(u64),
    ConfirmClose(bool),
    ClearTerminal(ServiceKind),
    TermKeyEvent(KeyEvent),
    /// The wheel has turned by whole lines, towards earlier ones if positive.
    TermScroll(i32),
    TermPageScroll(i32),
    /// How many rows and columns fit into the window now.
    WindowResized(i64, i64),
    /// The window has kept its size for a moment.
    TermResizeTick,
    /// Which terminals took the rows and columns that they were told.
    ResizeSent(u16, u16, Vec<(ServiceKind, bool)>),
}

/// What a message leaves to do outside the launcher's state.
#[derive(Debug)]
pub enum Effect {
    /// Start the game client at the path, and report with `ClientLaunched`.
    LaunchClient(String),
    /// End the process and all that it has started, and report with `ProcessKilled`.
    KillTree(ServiceKind, u32),
    /// Pause for a moment, and report with `SetDesired`.
    DelayRestart(ServiceKind),
    /// Wait for MySQL, and report with `MysqlReady` or `MysqlReadyFailed`.
    WaitMysqlReady,
    /// Let the user pick a file, and report with `PathBrowsed`.
    BrowsePath(ServiceKind),
    /// Save the paths, and report with `ConfigSaved` before anything else happens.
    SaveConfig(Config),
    /// Close the window, or any window if none is named.
    CloseWindow(Option<u64>),
    /// Send the bytes to the program, and report with `TerminalData`.
    SendInput(ServiceKind, Vec<u8>),
    /// Go on with `TermPageScroll`.
    PageScroll(i32),
    /// Pause for a moment, and report with `TermResizeTick`.
    ScheduleResizeTick,
    /// Tell the terminals their rows and columns, and report with `ResizeSent` before anything
    /// else happens.
    TryResize(Vec<ServiceKind>, u16, u16),
    /// Forget the part of a line that the wheel has turned by.
    ResetWheel,
}

/// What an [`Effect`] holds.
pub enum EffectView {
    LaunchClient(Seq<char>),
    KillTree(ServiceKind, u32),
    DelayRestart(ServiceKind),
    WaitMysqlReady,
    BrowsePath(ServiceKind),
    SaveConfig(ConfigView),
    CloseWindow(Option<u64>),
    SendInput(ServiceKind, Seq<u8>),
    PageScroll(i32),
    ScheduleResizeTick,
    TryResize(Seq<ServiceKind>, u16, u16),
    ResetWheel,
}

impl View for Effect {
    type V = EffectView;

    open spec fn view(&self) -> EffectView {
        match self {
            Effect::LaunchClient(path) => EffectView::LaunchClient(path@),
            Effect::KillTree(kind, pid) => EffectView::KillTree(*kind, *pid),
            Effect::DelayRestart(kind) => EffectView::DelayRestart(*kind),
            Effect::WaitMysqlReady => EffectView::WaitMysqlReady,
            Effect::BrowsePath(kind) => EffectView::BrowsePath(*kind),
            Effect::SaveConfig(config) => EffectView::SaveConfig(config@),
            Effect::CloseWindow(window) => EffectView::CloseWindow(*window),
            Effect::SendInput(kind, bytes) => EffectView::SendInput(*kind, bytes@),
            Effect::PageScroll(n) => EffectView::PageScroll(*n),
            Effect::ScheduleResizeTick => EffectView::ScheduleResizeTick,
            Effect::TryResize(kinds, rows, cols) => EffectView::TryResize(kinds@, *rows, *cols),
            Effect::ResetWheel => EffectView::ResetWheel,
        }
    }
}

/// The effects of a list.
pub open spec fn effect_views(effects: Seq<Effect>) -> Seq<EffectView> {
    effects.map_values(|effect: Effect| effect@)
}

/// All that the launcher knows. Each table has a slot for each program.
pub struct State<H> {
    pub config: Config,
    pub config_draft: Config,
    pub config_message: Option<String>,
    pub active_nav: NavTab,
    pub active_terminal: ServiceKind,
    pub status: [Status; 4],
    /// Whether the program is wanted to run.
    pub desired: [bool; 4],
    pub pids: [Option<u32>; 4],
    /// The program is to start again once it has ended.
    pub restart_pending: [bool; 4],
    /// The program is starting again, and its page is to say so.
    pub restart_marker: [bool; 4],
    pub terminals: [Option<H>; 4],
    /// What each page shows.
    pub grids: [Option<GridSnapshot>; 4],
    /// How many lines above the live screen each page stands.
    pub scroll_offset: [usize; 4],
    /// How many lines had scrolled off when a page was last refreshed.
    pub prev_scrollback_total: [usize; 4],
    /// Error notices, the oldest first.
    pub errors: [Vec<String>; 4],
    /// The size that each terminal was last given.
    pub applied_grid: [(u16, u16); 4],
    /// A size that the terminals are yet to be given.
    pub pending_resize: Option<(u16, u16)>,
    /// Everything is being started.
    pub sequence_active: bool,
    pub sequence_message: String,
    /// The user is asked whether to close.
    pub close_pending: bool,
    /// The window is to close once every process has ended.
    pub close_after_stop: bool,
    pub close_window: Option<u64>,
}

/// What an optional snapshot holds.
pub open spec fn grid_view(grid: Option<GridSnapshot>) -> Option<GridView> {
    match grid {
        Some(grid) => Some(grid@),
        None => None,
    }
}

impl<H> View for State<H> {
    type V = StateView<H>;

    open spec fn view(&self) -> StateView<H> {
        StateView {
            config: self.config@,
            config_draft: self.config_draft@,
            config_message: text_view(self.config_message),
            active_nav: self.active_nav,
            active_terminal: self.active_terminal,
            status: self.status@,
            desired: self.desired@,
            pids: self.pids@,
            restart_pending: self.restart_pending@,
            restart_marker: self.restart_marker@,
            terminals: self.terminals@,
            grids: self.grids@.map_values(|grid: Option<GridSnapshot>| grid_view(grid)),
            scroll_offset: self.scroll_offset@,
            prev_scrollback_total: self.prev_scrollback_total@,
            errors: self.errors@.map_values(|notices: Vec<String>| texts(notices@)),
            applied_grid: self.applied_grid@,
            pending_resize: self.pending_resize,
            sequence_active: self.sequence_active,
            sequence_message: self.sequence_message@,
            close_pending: self.close_pending,
            close_after_stop: self.close_after_stop,
            close_window: self.close_window,
        }
    }
}

impl<H> State<H> {
    /// The launcher before anything has happened.
    pub fn new(config: Config) -> (result: State<H>)
        ensures
            result@ == initial::<H>(config@),
    {
        let state = State {
            config: config.clone(),
            config_draft: config,
            config_message: None,
            active_nav: NavTab::Home,
            active_terminal: ServiceKind::Mysql,
            status: [Status::Stopped, Status::Stopped, Status::Stopped, Status::Stopped],
            desired: [false, false, false, false],
            pids: [None, None, None, None],
            restart_pending: [false, false, false, false],
            restart_marker: [false, false, false, false],
            terminals: [None, None, None, None],
            grids: [None, None, None, None],
            scroll_offset: [0, 0, 0, 0],
            prev_scrollback_total: [0, 0, 0, 0],
            errors: [Vec::new(), Vec::new(), Vec::new(), Vec::new()],
            applied_grid: [(0, 0), (0, 0), (0, 0), (0, 0)],
            pending_resize: None,
            sequence_active: false,
            sequence_message: String::new(),
            close_pending: false,
            close_after_stop: false,
            close_window: None,
        };
        proof {
            let start = initial::<H>(config@);
            assert forall|i: int| 0 <= i < 4 implies #[trigger] state@.errors[i] == start.errors[i] by {
                assert(texts(state.errors@[i]@) =~= Seq::empty());
            }
            assert(state@ =~= start);
        }
        state
    }
}

/// The effects of a list are read one by one, in order, and so is an optional snapshot.
pub proof fn effects_are_read_in_order(effects: Seq<Effect>, i: int, grid: GridSnapshot)
    ensures
        effect_views(effects).len() == effects.len(),
        0 <= i < effects.len() ==> effect_views(effects)[i] == effects[i]@,
        grid_view(Some(grid)) == Some(grid@),
        grid_view(None) is None,
{
}

} // verus!
