//! What the launcher's state is and how each message changes it.
use vstd::prelude::*;

use crate::app::{EffectView, KeyEvent, Message, NavTab};
use crate::config::ConfigView;
use crate::emulator::{application_keys, history, screen_size, scrolled};
use crate::input::{KeyView, Modifiers, Named, key_sequence};
use crate::process::{RecipeView, grid_size};
use crate::service::{ServiceKind, Status};
use crate::terminal::{GridView, TermHandle, cleared, fed, restart_marker, snapshot};
use crate::text::{decimal_digits, joined};

verus! {

/// How many error notices are kept for each program.
pub const MAX_ERRORS: usize = 20;

/// What a [`State`] holds. Each table has a slot for each program.
#[verifier::ext_equal]
pub struct StateView<H> {
    pub config: ConfigView,
    pub config_draft: ConfigView,
    pub config_message: Option<Seq<char>>,
    pub active_nav: NavTab,
    pub active_terminal: ServiceKind,
    pub status: Seq<Status>,
    pub desired: Seq<bool>,
    pub pids: Seq<Option<u32>>,
    pub restart_pending: Seq<bool>,
    pub restart_marker: Seq<bool>,
    pub terminals: Seq<Option<H>>,
    pub grids: Seq<Option<GridView>>,
    pub scroll_offset: Seq<usize>,
    pub prev_scrollback_total: Seq<usize>,
    pub errors: Seq<Seq<Seq<char>>>,
    pub applied_grid: Seq<(u16, u16)>,
    pub pending_resize: Option<(u16, u16)>,
    pub sequence_active: bool,
    pub sequence_message: Seq<char>,
    pub close_pending: bool,
    pub close_after_stop: bool,
    pub close_window: Option<u64>,
}

/// What comes of a message that concerns no screen: the state after it, and what is left to do.
pub struct Outcome<H> {
    pub state: StateView<H>,
    pub effects: Seq<EffectView>,
}

/// What comes of a message: the state after it, what is left to do, and the screen of the
/// terminal that it concerns.
pub struct Step<H> {
    pub state: StateView<H>,
    pub effects: Seq<EffectView>,
    pub screen: Option<TermHandle>,
}

impl<H> Outcome<H> {
    /// The outcome together with the screen that is left.
    pub open spec fn with_screen(self, screen: Option<TermHandle>) -> Step<H> {
        Step { state: self.state, effects: self.effects, screen }
    }
}

impl<H> StateView<H> {
    /// Every table has its four slots.
    pub open spec fn shaped(self) -> bool {
        &&& self.status.len() == 4
        &&& self.desired.len() == 4
        &&& self.pids.len() == 4
        &&& self.restart_pending.len() == 4
        &&& self.restart_marker.len() == 4
        &&& self.terminals.len() == 4
        &&& self.grids.len() == 4
        &&& self.scroll_offset.len() == 4
        &&& self.prev_scrollback_total.len() == 4
        &&& self.errors.len() == 4
        &&& self.applied_grid.len() == 4
    }

    pub open spec fn with_status(self, kind: ServiceKind, status: Status) -> Self {
        StateView { status: self.status.update(kind.slot(), status), ..self }
    }

    pub open spec fn with_desired(self, kind: ServiceKind, desired: bool) -> Self {
        StateView { desired: self.desired.update(kind.slot(), desired), ..self }
    }

    pub open spec fn with_pid(self, kind: ServiceKind, pid: Option<u32>) -> Self {
        StateView { pids: self.pids.update(kind.slot(), pid), ..self }
    }

    pub open spec fn with_restart(self, kind: ServiceKind, pending: bool, marker: bool) -> Self {
        StateView {
            restart_pending: self.restart_pending.update(kind.slot(), pending),
            restart_marker: self.restart_marker.update(kind.slot(), marker),
            ..self
        }
    }

    pub open spec fn with_terminal(self, kind: ServiceKind, terminal: Option<H>) -> Self {
        StateView { terminals: self.terminals.update(kind.slot(), terminal), ..self }
    }

    pub open spec fn with_grid(self, kind: ServiceKind, grid: Option<GridView>) -> Self {
        StateView { grids: self.grids.update(kind.slot(), grid), ..self }
    }

    pub open spec fn with_offset(self, kind: ServiceKind, offset: usize) -> Self {
        StateView { scroll_offset: self.scroll_offset.update(kind.slot(), offset), ..self }
    }

    pub open spec fn with_total(self, kind: ServiceKind, total: usize) -> Self {
        StateView {
            prev_scrollback_total: self.prev_scrollback_total.update(kind.slot(), total),
            ..self
        }
    }

    pub open spec fn with_errors(self, kind: ServiceKind, errors: Seq<Seq<char>>) -> Self {
        StateView { errors: self.errors.update(kind.slot(), errors), ..self }
    }

    pub open spec fn with_applied(self, kind: ServiceKind, size: (u16, u16)) -> Self {
        StateView { applied_grid: self.applied_grid.update(kind.slot(), size), ..self }
    }

    /// Whether the program is wanted to run.
    pub open spec fn wants(self, kind: ServiceKind) -> bool {
        self.desired[kind.slot()]
    }

    /// Whether the program has a terminal.
    pub open spec fn attached(self, kind: ServiceKind) -> bool {
        self.terminals[kind.slot()] is Some
    }

    /// Whether the terminal page is in front and takes keys and scrolling.
    pub open spec fn terminal_in_front(self) -> bool {
        !self.close_pending && self.active_nav == NavTab::Terminal
    }

    /// Whether keys go to the program of the front terminal.
    pub open spec fn takes_keys(self) -> bool {
        &&& self.terminal_in_front()
        &&& self.status[self.active_terminal.slot()] == Status::Running
        &&& self.attached(self.active_terminal)
    }

    /// A list of notices with another one at its end, without the oldest ones beyond the limit.
    pub open spec fn noticed(self, kind: ServiceKind, notice: Seq<char>) -> Self {
        let notices = self.errors[kind.slot()].push(notice);
        self.with_errors(
            kind,
            if notices.len() > MAX_ERRORS {
                notices.skip(notices.len() - MAX_ERRORS)
            } else {
                notices
            },
        )
    }
}

/// The launcher before anything has happened: every program is stopped and the home page shows.
pub open spec fn initial<H>(config: ConfigView) -> StateView<H> {
    StateView {
        config,
        config_draft: config,
        config_message: None,
        active_nav: NavTab::Home,
        active_terminal: ServiceKind::Mysql,
        status: Seq::new(4, |i: int| Status::Stopped),
        desired: Seq::new(4, |i: int| false),
        pids: Seq::new(4, |i: int| None),
        restart_pending: Seq::new(4, |i: int| false),
        restart_marker: Seq::new(4, |i: int| false),
        terminals: Seq::new(4, |i: int| None),
        grids: Seq::new(4, |i: int| None),
        scroll_offset: Seq::new(4, |i: int| 0),
        prev_scrollback_total: Seq::new(4, |i: int| 0),
        errors: Seq::new(4, |i: int| Seq::empty()),
        applied_grid: Seq::new(4, |i: int| (0, 0)),
        pending_resize: None,
        sequence_active: false,
        sequence_message: Seq::empty(),
        close_pending: false,
        close_after_stop: false,
        close_window: None,
    }
}

/// Nothing is left to do.
pub open spec fn settled<H>(state: StateView<H>) -> Outcome<H> {
    Outcome { state, effects: Seq::empty() }
}

/// One thing is left to do.
pub open spec fn followed_by<H>(state: StateView<H>, effect: EffectView) -> Outcome<H> {
    Outcome { state, effects: seq![effect] }
}

// Terminal pages.

/// The smaller of two numbers.
pub open spec fn min(a: int, b: int) -> int {
    if a <= b {
        a
    } else {
        b
    }
}

/// The viewing position after output has come in: a live view stays live, and a view of earlier
/// lines moves up by as many lines as have scrolled off since, so that it shows the same lines.
pub open spec fn anchored(offset: int, total: int, prev_total: int) -> int {
    if offset == 0 {
        0
    } else if total > prev_total {
        min(offset + (total - prev_total), total)
    } else {
        min(offset, total)
    }
}

/// Whether a snapshot still shows what it should.
pub open spec fn up_to_date(grid: Option<GridView>, version: u64, offset: int) -> bool {
    grid is Some && grid->0.version == version && grid->0.offset == offset
}

/// The viewing position that a refresh settles on.
pub open spec fn refreshed_offset<H>(s: StateView<H>, kind: ServiceKind, screen: TermHandle) -> int {
    anchored(
        s.scroll_offset[kind.slot()] as int,
        history(screen.emulator),
        s.prev_scrollback_total[kind.slot()] as int,
    )
}

/// The state after the page of `kind` is refreshed: a new snapshot, unless the one at hand still
/// shows what it should.
pub open spec fn refreshed<H>(s: StateView<H>, kind: ServiceKind, screen: TermHandle) -> StateView<
    H,
> {
    let offset = refreshed_offset(s, kind, screen);
    let moved = s.with_offset(kind, offset as usize).with_total(
        kind,
        history(screen.emulator) as usize,
    );
    if up_to_date(s.grids[kind.slot()], screen.version, offset) {
        moved
    } else {
        moved.with_grid(kind, Some(snapshot(screen, offset)))
    }
}

/// The terminal after its page is refreshed: viewed live if a snapshot was taken, and left on its
/// oldest line if not.
pub open spec fn refreshed_screen<H>(
    s: StateView<H>,
    kind: ServiceKind,
    screen: TermHandle,
) -> TermHandle {
    let offset = refreshed_offset(s, kind, screen);
    TermHandle {
        emulator: scrolled(
            screen.emulator,
            if up_to_date(s.grids[kind.slot()], screen.version, offset) {
                usize::MAX
            } else {
                0
            },
        ),
        ..screen
    }
}

/// Refreshes the page of `kind`, which does nothing for a program without a terminal.
#[verifier::opaque]
pub open spec fn refresh_page<H>(
    s: StateView<H>,
    kind: ServiceKind,
    screen: Option<TermHandle>,
) -> (StateView<H>, Option<TermHandle>) {
    if s.attached(kind) {
        (
            refreshed(s, kind, screen->0),
            Some(refreshed_screen(s, kind, screen->0)),
        )
    } else {
        (s, screen)
    }
}

/// The viewing position after scrolling by `delta` lines, towards earlier lines if positive.
pub open spec fn scrolled_offset(offset: int, delta: int, total: int) -> int {
    if delta >= 0 {
        min(offset + delta, total)
    } else if offset + delta >= 0 {
        offset + delta
    } else {
        0
    }
}

/// Moves the view of the page of `kind`, which does nothing for a program without a terminal.
#[verifier::opaque]
pub open spec fn scroll_page<H>(
    s: StateView<H>,
    kind: ServiceKind,
    delta: int,
    screen: Option<TermHandle>,
) -> Step<H> {
    if s.attached(kind) {
        let moved = s.with_offset(
            kind,
            scrolled_offset(
                s.scroll_offset[kind.slot()] as int,
                delta,
                history(screen->0.emulator),
            ) as usize,
        );
        settled(refreshed(moved, kind, screen->0)).with_screen(
            Some(refreshed_screen(moved, kind, screen->0)),
        )
    } else {
        settled(s).with_screen(screen)
    }
}

/// Lines that paging moves by: half a screen, and one line at least.
pub open spec fn page_lines(rows: u16) -> int {
    if rows / 2 >= 1 {
        rows as int / 2
    } else {
        1
    }
}

/// The direction in which a key pages through earlier lines instead of going to the program.
pub open spec fn paging(key: KeyView, modifiers: Modifiers) -> int {
    if modifiers.shift && key == KeyView::Named(Named::PageUp) {
        1
    } else if modifiers.shift && key == KeyView::Named(Named::PageDown) {
        -1
    } else {
        0
    }
}

pub open spec fn text_view(text: Option<String>) -> Option<Seq<char>> {
    match text {
        Some(s) => Some(s@),
        None => None,
    }
}

/// A key press on the terminal page. What goes to the program brings the view back to the live
/// screen.
#[verifier::opaque]
pub open spec fn press_key<H>(s: StateView<H>, event: KeyEvent, screen: Option<TermHandle>)
    -> Outcome<H> {
    match event {
        KeyEvent::Pressed { key, text, modifiers } => if !s.takes_keys() {
            settled(s)
        } else if paging(key@, modifiers) != 0 {
            followed_by(
                s,
                EffectView::PageScroll(
                    (page_lines(screen_size(screen->0.emulator).0) * paging(key@, modifiers)) as i32,
                ),
            )
        } else {
            match key_sequence(
                key@,
                text_view(text),
                modifiers,
                application_keys(screen->0.emulator),
            ) {
                Some(bytes) => followed_by(
                    s.with_offset(s.active_terminal, 0),
                    EffectView::SendInput(s.active_terminal, bytes),
                ),
                None => settled(s),
            }
        },
        KeyEvent::Other => settled(s),
    }
}

/// A terminal is ready. Unless its service is no longer wanted, the terminal is taken in, with a
/// line that says so where the service was restarted.
#[verifier::opaque]
pub open spec fn attach<H>(
    s: StateView<H>,
    kind: ServiceKind,
    terminal: H,
    screen: Option<TermHandle>,
) -> Step<H> {
    if !s.wants(kind) {
        settled(s).with_screen(screen)
    } else {
        let restarted = s.restart_marker[kind.slot()];
        settled(
            StateView {
                restart_marker: s.restart_marker.update(kind.slot(), false),
                ..s
            }.with_applied(kind, screen_size(screen->0.emulator)).with_terminal(
                kind,
                Some(terminal),
            ).with_grid(kind, None).with_offset(kind, 0).with_total(kind, 0).with_errors(
                kind,
                Seq::empty(),
            ),
        ).with_screen(
            if restarted {
                Some(fed(screen->0, restart_marker()))
            } else {
                screen
            },
        )
    }
}

/// Empties a terminal and forgets what its page showed.
#[verifier::opaque]
pub open spec fn clear_page<H>(
    s: StateView<H>,
    kind: ServiceKind,
    screen: Option<TermHandle>,
) -> Step<H> {
    settled(s.with_grid(kind, None).with_offset(kind, 0).with_total(kind, 0)).with_screen(
        if s.attached(kind) {
            Some(cleared(screen->0))
        } else {
            screen
        },
    )
}

/// Whether a service has a terminal that is yet to be given the size.
pub open spec fn owed_size<H>(s: StateView<H>, kind: ServiceKind, size: (u16, u16)) -> bool {
    s.attached(kind) && s.applied_grid[kind.slot()] != size
}

/// The services out of the list whose terminals are yet to be given the size.
pub open spec fn owing<H>(s: StateView<H>, kinds: Seq<ServiceKind>, size: (u16, u16)) -> Seq<
    ServiceKind,
> {
    kinds.filter(|kind: ServiceKind| owed_size(s, kind, size))
}

/// The window has settled on a size: services without a terminal have it at once, and the others
/// are to be told.
#[verifier::opaque]
pub open spec fn resize_tick<H>(s: StateView<H>) -> Outcome<H> {
    match s.pending_resize {
        None => settled(s),
        Some(size) => {
            let targets = owing(s, ServiceKind::SERVICES@, size);
            Outcome {
                state: StateView {
                    pending_resize: None,
                    applied_grid: Seq::new(
                        4,
                        |i: int|
                            if i < 3 && s.terminals[i] is None {
                                size
                            } else {
                                s.applied_grid[i]
                            },
                    ),
                    ..s
                },
                effects: if targets.len() > 0 {
                    seq![EffectView::TryResize(targets, size.0, size.1)]
                } else {
                    Seq::empty()
                },
            }
        },
    }
}

/// The terminals have been told of a size. Those that took it have it. If one did not, the size
/// is tried again later.
#[verifier::opaque]
pub open spec fn resize_sent<H>(
    s: StateView<H>,
    size: (u16, u16),
    outcomes: Seq<(ServiceKind, bool)>,
) -> Outcome<H> {
    let refused = exists|j: int| 0 <= j < outcomes.len() && !(#[trigger] outcomes[j]).1;
    Outcome {
        state: StateView {
            applied_grid: Seq::new(
                4,
                |i: int|
                    if exists|j: int|
                        0 <= j < outcomes.len() && (#[trigger] outcomes[j]).0.slot() == i
                            && outcomes[j].1 {
                        size
                    } else {
                        s.applied_grid[i]
                    },
            ),
            pending_resize: if refused {
                Some(size)
            } else {
                s.pending_resize
            },
            ..s
        },
        effects: if refused {
            seq![EffectView::ScheduleResizeTick]
        } else {
            Seq::empty()
        },
    }
}

// Starting and stopping.

#[verifier::opaque]
pub open spec fn start_service<H>(s: StateView<H>, kind: ServiceKind) -> Outcome<H> {
    let path = s.config.path(kind);
    if path.len() == 0 {
        settled(
            StateView {
                config_message: Some(kind.label_text() + " 路径为空,请先配置。"@),
                ..s
            },
        )
    } else if kind == ServiceKind::Client {
        followed_by(
            StateView { sequence_message: "正在启动客户端…"@, ..s },
            EffectView::LaunchClient(path),
        )
    } else {
        settled(
            StateView { config_message: None, ..s }.with_desired(kind, true).with_status(
                kind,
                Status::Starting,
            ),
        )
    }
}

/// The status of a service that is told to stop: its process, if it has one, is yet to end.
pub open spec fn halted(pid: Option<u32>) -> Status {
    if pid is Some {
        Status::Stopping
    } else {
        Status::Stopped
    }
}

/// The process to end when a service is told to stop.
pub open spec fn kill(kind: ServiceKind, pid: Option<u32>) -> Seq<EffectView> {
    match pid {
        Some(pid) => seq![EffectView::KillTree(kind, pid)],
        None => Seq::empty(),
    }
}

#[verifier::opaque]
pub open spec fn stop_service<H>(s: StateView<H>, kind: ServiceKind) -> Outcome<H> {
    if !kind.is_service() {
        settled(s)
    } else {
        let told = s.with_restart(kind, false, false).with_desired(kind, false);
        let pid = s.pids[kind.slot()];
        if s.status[kind.slot()] == Status::Waiting {
            settled(told.with_status(kind, Status::Stopped))
        } else {
            Outcome {
                state: told.with_status(kind, halted(pid)),
                effects: kill(kind, pid),
            }
        }
    }
}

#[verifier::opaque]
pub open spec fn restart_service<H>(s: StateView<H>, kind: ServiceKind) -> Outcome<H> {
    if !kind.is_service() {
        settled(s)
    } else {
        followed_by(
            s.with_restart(kind, true, s.restart_marker[kind.slot()]).with_desired(
                kind,
                false,
            ).with_status(kind, Status::Stopping),
            match s.pids[kind.slot()] {
                Some(pid) => EffectView::KillTree(kind, pid),
                None => EffectView::DelayRestart(kind),
            },
        )
    }
}

/// The pause of a restart is over. A restart that was called off in the meantime stays off.
#[verifier::opaque]
pub open spec fn resume_restart<H>(s: StateView<H>, kind: ServiceKind) -> StateView<H> {
    if s.restart_pending[kind.slot()] {
        s.with_restart(kind, false, true).with_desired(kind, true).with_status(
            kind,
            Status::Starting,
        )
    } else {
        s
    }
}

/// A process has started. One that is no longer wanted is ignored.
#[verifier::opaque]
pub open spec fn note_started<H>(s: StateView<H>, kind: ServiceKind, pid: u32) -> StateView<H> {
    if s.wants(kind) {
        s.with_pid(kind, Some(pid)).with_status(kind, Status::Running)
    } else {
        s
    }
}

/// No program has a process.
pub open spec fn no_process<H>(s: StateView<H>) -> bool {
    forall|i: int| 0 <= i < s.pids.len() ==> #[trigger] s.pids[i] is None
}

/// Closes the window once every process has ended, if that is being waited for.
pub open spec fn close_when_stopped<H>(s: StateView<H>) -> Outcome<H> {
    if s.close_after_stop && no_process(s) {
        followed_by(
            StateView { close_after_stop: false, close_window: None, ..s },
            EffectView::CloseWindow(s.close_window),
        )
    } else {
        settled(s)
    }
}

/// A process has ended: its last screen is kept on the page, and its terminal is let go. The
/// viewing position stays.
pub open spec fn detach<H>(s: StateView<H>, kind: ServiceKind, screen: Option<TermHandle>) -> (
    StateView<H>,
    Option<TermHandle>,
) {
    let live = s.with_pid(kind, None).with_offset(kind, 0);
    let (shown, left) = refresh_page(live, kind, screen);
    (shown.with_offset(kind, s.scroll_offset[kind.slot()]).with_terminal(kind, None), left)
}

/// The output of a service has ended.
#[verifier::opaque]
pub open spec fn note_stopped<H>(
    s: StateView<H>,
    kind: ServiceKind,
    screen: Option<TermHandle>,
) -> Step<H> {
    let (gone, left) = detach(s, kind, screen);
    if s.restart_pending[kind.slot()] {
        followed_by(gone, EffectView::DelayRestart(kind)).with_screen(left)
    } else {
        close_when_stopped(
            gone.with_desired(kind, false).with_status(kind, Status::Stopped),
        ).with_screen(left)
    }
}

/// A process that was told to end has ended. One whose service was started anew is ignored.
#[verifier::opaque]
pub open spec fn note_killed<H>(
    s: StateView<H>,
    kind: ServiceKind,
    screen: Option<TermHandle>,
) -> Step<H> {
    if s.wants(kind) {
        settled(s).with_screen(screen)
    } else {
        let (gone, left) = detach(s, kind, screen);
        if s.restart_pending[kind.slot()] {
            followed_by(gone, EffectView::DelayRestart(kind)).with_screen(left)
        } else {
            close_when_stopped(gone.with_status(kind, Status::Stopped)).with_screen(left)
        }
    }
}

#[verifier::opaque]
pub open spec fn note_failed<H>(s: StateView<H>, kind: ServiceKind, reason: Seq<char>) -> StateView<
    H,
> {
    s.with_desired(kind, false).with_pid(kind, None).with_terminal(kind, None).with_restart(
        kind,
        false,
        false,
    ).with_status(kind, Status::Error).noticed(kind, "[启动失败] "@ + reason)
}

#[verifier::opaque]
pub open spec fn note_client<H>(s: StateView<H>, outcome: Result<(), String>) -> StateView<H> {
    StateView {
        sequence_message: match outcome {
            Ok(_) => "客户端已启动"@,
            Err(reason) => "客户端启动失败: "@ + reason@,
        },
        ..s
    }
}

// Starting and stopping everything.

/// A service that has nothing to do waits for MySQL.
pub open spec fn queued<H>(s: StateView<H>, kind: ServiceKind) -> StateView<H> {
    let status = s.status[kind.slot()];
    if status == Status::Stopped || status == Status::Error {
        s.with_status(kind, Status::Waiting)
    } else {
        s
    }
}

#[verifier::opaque]
pub open spec fn start_all<H>(s: StateView<H>) -> Outcome<H> {
    match s.config.first_unset(ServiceKind::SERVICES@) {
        Some(kind) => settled(
            StateView {
                sequence_active: false,
                sequence_message: "一键启动需要先配置 "@ + kind.label_text(),
                ..s
            },
        ),
        None => {
            let begun = if s.status[ServiceKind::Mysql.slot()] != Status::Running && !s.wants(
                ServiceKind::Mysql,
            ) {
                s.with_desired(ServiceKind::Mysql, true).with_status(
                    ServiceKind::Mysql,
                    Status::Starting,
                )
            } else {
                s
            };
            followed_by(
                queued(
                    queued(
                        StateView {
                            sequence_active: true,
                            sequence_message: "正在启动 MySQL…"@,
                            ..begun
                        },
                        ServiceKind::Auth,
                    ),
                    ServiceKind::World,
                ),
                EffectView::WaitMysqlReady,
            )
        },
    }
}

/// A service that waits for MySQL starts.
pub open spec fn released<H>(s: StateView<H>, kind: ServiceKind) -> StateView<H> {
    if s.status[kind.slot()] == Status::Waiting {
        s.with_desired(kind, true).with_status(kind, Status::Starting)
    } else {
        s
    }
}

/// A service that waits for MySQL gives up.
pub open spec fn dismissed<H>(s: StateView<H>, kind: ServiceKind) -> StateView<H> {
    if s.status[kind.slot()] == Status::Waiting {
        s.with_status(kind, Status::Stopped)
    } else {
        s
    }
}

#[verifier::opaque]
pub open spec fn mysql_ready<H>(s: StateView<H>) -> StateView<H> {
    if !s.sequence_active {
        s
    } else if s.status[ServiceKind::Mysql.slot()] == Status::Running || s.wants(
        ServiceKind::Mysql,
    ) {
        StateView {
            sequence_active: false,
            sequence_message: "MySQL 就绪,已启动 Auth/World"@,
            ..released(released(s, ServiceKind::Auth), ServiceKind::World)
        }
    } else {
        StateView {
            sequence_active: false,
            sequence_message: "MySQL 未在运行,已中止一键启动"@,
            ..s
        }
    }
}

#[verifier::opaque]
pub open spec fn mysql_failed<H>(s: StateView<H>, reason: Seq<char>) -> StateView<H> {
    let failed = StateView {
        sequence_active: false,
        sequence_message: reason,
        ..s
    }.with_desired(ServiceKind::Mysql, false).with_pid(ServiceKind::Mysql, None).with_status(
        ServiceKind::Mysql,
        Status::Error,
    ).noticed(ServiceKind::Mysql, "[一键启动] "@ + reason);
    dismissed(dismissed(failed, ServiceKind::Auth), ServiceKind::World)
}

/// Whether a service has neither a process nor one on its way.
pub open spec fn idle(status: Status) -> bool {
    status == Status::Waiting || status == Status::Stopped || status == Status::Error
}

/// A service told to stop together with all others.
pub open spec fn stopped_with_all<H>(s: StateView<H>, kind: ServiceKind) -> StateView<H> {
    s.with_desired(kind, false).with_status(
        kind,
        if idle(s.status[kind.slot()]) {
            Status::Stopped
        } else {
            halted(s.pids[kind.slot()])
        },
    )
}

/// The process to end when a service is told to stop together with all others.
pub open spec fn kill_with_all<H>(s: StateView<H>, kind: ServiceKind) -> Seq<EffectView> {
    if idle(s.status[kind.slot()]) {
        Seq::empty()
    } else {
        kill(kind, s.pids[kind.slot()])
    }
}

/// The state after everything is told to stop.
#[verifier::opaque]
pub open spec fn all_stopped<H>(s: StateView<H>) -> StateView<H> {
    stopped_with_all(
        stopped_with_all(
            stopped_with_all(
                StateView {
                    sequence_active: false,
                    sequence_message: Seq::empty(),
                    restart_pending: Seq::new(4, |i: int| false),
                    restart_marker: Seq::new(4, |i: int| false),
                    ..s
                },
                ServiceKind::Mysql,
            ),
            ServiceKind::Auth,
        ),
        ServiceKind::World,
    )
}

/// The processes to end when everything is told to stop.
#[verifier::opaque]
pub open spec fn all_kills<H>(s: StateView<H>) -> Seq<EffectView> {
    kill_with_all(s, ServiceKind::Mysql) + kill_with_all(s, ServiceKind::Auth) + kill_with_all(
        s,
        ServiceKind::World,
    )
}

// Settings.

/// Whether a service runs, is about to, or is on its way out.
pub open spec fn engaged<H>(s: StateView<H>, kind: ServiceKind) -> bool {
    let status = s.status[kind.slot()];
    ||| s.wants(kind)
    ||| s.pids[kind.slot()] is Some
    ||| status == Status::Starting
    ||| status == Status::Running
    ||| status == Status::Stopping
    ||| status == Status::Waiting
}

/// Whether a service runs from a path that the draft replaces.
pub open spec fn outdated<H>(s: StateView<H>, kind: ServiceKind) -> bool {
    s.config.path(kind) != s.config_draft.path(kind) && engaged(s, kind)
}

/// A service that runs from a path that the draft replaces is told to stop.
pub open spec fn evicted<H>(s: StateView<H>, kind: ServiceKind) -> StateView<H> {
    if outdated(s, kind) {
        s.with_restart(kind, false, false).with_desired(kind, false).with_status(
            kind,
            halted(s.pids[kind.slot()]),
        )
    } else {
        s
    }
}

/// The process to end when a service runs from a path that the draft replaces.
pub open spec fn evicted_kill<H>(s: StateView<H>, kind: ServiceKind) -> Seq<EffectView> {
    if outdated(s, kind) {
        kill(kind, s.pids[kind.slot()])
    } else {
        Seq::empty()
    }
}

/// The name of a service that runs from a path that the draft replaces.
pub open spec fn evicted_name<H>(s: StateView<H>, kind: ServiceKind) -> Seq<Seq<char>> {
    if outdated(s, kind) {
        seq![kind.label_text()]
    } else {
        Seq::empty()
    }
}

/// What the settings page says after the paths were saved.
pub open spec fn saved_message(config: ConfigView, stopped: Seq<Seq<char>>) -> Seq<char> {
    let saved = "已保存配置(已设置 "@ + decimal_digits(config.count_set(ServiceKind::ALL@)) + "/4)"@;
    if stopped.len() > 0 {
        saved + "; "@ + joined(stopped, "/"@)
            + " 路径已变更, 已先停止旧进程, 请重新启动"@
    } else {
        saved
    }
}

/// The draft was saved, or not. A saved draft takes effect once the services that run from
/// replaced paths are told to stop.
#[verifier::opaque]
pub open spec fn config_saved<H>(s: StateView<H>, outcome: Result<(), String>) -> Outcome<
    H,
> {
    match outcome {
        Err(reason) => settled(StateView { config_message: Some(reason@), ..s }),
        Ok(_) => Outcome {
            state: StateView {
                config: s.config_draft,
                config_message: Some(
                    saved_message(
                        s.config_draft,
                        evicted_name(s, ServiceKind::Mysql) + evicted_name(s, ServiceKind::Auth)
                            + evicted_name(s, ServiceKind::World),
                    ),
                ),
                ..evicted(evicted(evicted(s, ServiceKind::Mysql), ServiceKind::Auth), ServiceKind::World)
            },
            effects: evicted_kill(s, ServiceKind::Mysql) + evicted_kill(s, ServiceKind::Auth)
                + evicted_kill(s, ServiceKind::World),
        },
    }
}

/// The draft with another path.
#[verifier::opaque]
pub open spec fn edit_path<H>(s: StateView<H>, kind: ServiceKind, path: Seq<char>) -> StateView<H> {
    StateView { config_draft: s.config_draft.with_path(kind, path), config_message: None, ..s }
}

// Closing the window.

/// Whether a service has a process, or one on its way in or out.
pub open spec fn occupied<H>(s: StateView<H>, kind: ServiceKind) -> bool {
    s.status[kind.slot()].operational() || s.pids[kind.slot()] is Some
}

#[verifier::opaque]
pub open spec fn request_close<H>(s: StateView<H>, window: u64) -> Outcome<H> {
    let asked = StateView { close_window: Some(window), ..s };
    if occupied(s, ServiceKind::Mysql) || occupied(s, ServiceKind::Auth) || occupied(
        s,
        ServiceKind::World,
    ) {
        settled(StateView { close_pending: true, ..asked })
    } else {
        followed_by(asked, EffectView::CloseWindow(Some(window)))
    }
}

#[verifier::opaque]
pub open spec fn confirm_close<H>(s: StateView<H>, yes: bool) -> Outcome<H> {
    if yes {
        let told = all_stopped(StateView { close_pending: false, close_after_stop: true, ..s });
        let closed = close_when_stopped(told);
        Outcome { state: closed.state, effects: all_kills(s) + closed.effects }
    } else {
        settled(
            StateView { close_pending: false, close_window: None, close_after_stop: false, ..s },
        )
    }
}

/// The program whose screen a message reads or writes, if the message concerns one.
pub open spec fn screen_needed<H>(s: StateView<H>, message: Message<H>) -> Option<ServiceKind> {
    match message {
        Message::NavSelected(tab) => if tab == NavTab::Terminal && s.attached(s.active_terminal) {
            Some(s.active_terminal)
        } else {
            None
        },
        Message::ServiceSelected(kind) => if kind.is_service() && s.attached(kind) {
            Some(kind)
        } else {
            None
        },
        Message::ServiceStopped(kind) => if s.attached(kind) {
            Some(kind)
        } else {
            None
        },
        Message::ProcessKilled(kind) => if !s.wants(kind) && s.attached(kind) {
            Some(kind)
        } else {
            None
        },
        Message::ServiceTerminalReady(kind, _) => if s.wants(kind) {
            Some(kind)
        } else {
            None
        },
        Message::TerminalData(kind) => if s.active_nav == NavTab::Terminal && s.active_terminal
            == kind && s.attached(kind) {
            Some(kind)
        } else {
            None
        },
        Message::TermKeyEvent(_) => if s.takes_keys() {
            Some(s.active_terminal)
        } else {
            None
        },
        Message::TermScroll(n) => if s.terminal_in_front() && n != 0 && s.attached(
            s.active_terminal,
        ) {
            Some(s.active_terminal)
        } else {
            None
        },
        Message::TermPageScroll(n) => if s.terminal_in_front() && n != 0 && s.attached(
            s.active_terminal,
        ) {
            Some(s.active_terminal)
        } else {
            None
        },
        Message::ClearTerminal(kind) => if s.attached(kind) {
            Some(kind)
        } else {
            None
        },
        _ => None,
    }
}

/// What comes of a message. `screen` is the screen of the program that the message concerns.
#[verifier::opaque]
pub open spec fn step<H>(s: StateView<H>, message: Message<H>, screen: Option<TermHandle>) -> Step<H> {
    match message {
        Message::NavSelected(tab) => {
            let chosen = StateView { active_nav: tab, ..s };
            let (state, left) = if tab == NavTab::Terminal {
                refresh_page(chosen, s.active_terminal, screen)
            } else {
                (chosen, screen)
            };
            followed_by(state, EffectView::ResetWheel).with_screen(left)
        },
        Message::ServiceSelected(kind) => if kind.is_service() {
            let (state, left) = refresh_page(
                StateView { active_terminal: kind, ..s },
                kind,
                screen,
            );
            followed_by(state, EffectView::ResetWheel).with_screen(left)
        } else {
            settled(s).with_screen(screen)
        },
        Message::StartService(kind) => start_service(s, kind).with_screen(screen),
        Message::StopService(kind) => stop_service(s, kind).with_screen(screen),
        Message::RestartService(kind) => restart_service(s, kind).with_screen(screen),
        Message::SetDesired(kind, desired) => settled(
            if desired {
                resume_restart(s, kind)
            } else {
                s
            },
        ).with_screen(screen),
        Message::ServiceStarted(kind, pid) => settled(note_started(s, kind, pid)).with_screen(
            screen,
        ),
        Message::ServiceStopped(kind) => note_stopped(s, kind, screen),
        Message::ServiceStartFailed(kind, reason) => settled(
            note_failed(s, kind, reason@),
        ).with_screen(screen),
        Message::ProcessKilled(kind) => note_killed(s, kind, screen),
        Message::TerminalData(kind) => if s.active_nav == NavTab::Terminal && s.active_terminal
            == kind {
            let (state, left) = refresh_page(s, kind, screen);
            settled(state).with_screen(left)
        } else {
            settled(s).with_screen(screen)
        },
        Message::ServiceTerminalReady(kind, terminal) => attach(s, kind, terminal, screen),
        Message::ClientLaunched(outcome) => settled(note_client(s, outcome)).with_screen(screen),
        Message::StartAll => start_all(s).with_screen(screen),
        Message::StopAll => Step { state: all_stopped(s), effects: all_kills(s), screen },
        Message::MysqlReady => settled(mysql_ready(s)).with_screen(screen),
        Message::MysqlReadyFailed(reason) => settled(mysql_failed(s, reason@)).with_screen(screen),
        Message::SaveConfig => followed_by(
            StateView { config_message: None, ..s },
            EffectView::SaveConfig(s.config_draft),
        ).with_screen(screen),
        Message::ConfigSaved(outcome) => config_saved(s, outcome).with_screen(screen),
        Message::ResetConfigDraft => settled(
            StateView {
                config_draft: s.config,
                config_message: Some("已还原未保存的修改"@),
                ..s
            },
        ).with_screen(screen),
        Message::PathEdited(kind, path) => settled(edit_path(s, kind, path@)).with_screen(screen),
        Message::BrowsePath(kind) => followed_by(s, EffectView::BrowsePath(kind)).with_screen(
            screen,
        ),
        Message::PathBrowsed(kind, picked) => settled(
            match picked {
                Some(path) => edit_path(s, kind, path@),
                None => s,
            },
        ).with_screen(screen),
        Message::CloseRequested(window) => request_close(s, window).with_screen(screen),
        Message::ConfirmClose(yes) => confirm_close(s, yes).with_screen(screen),
        Message::ClearTerminal(kind) => clear_page(s, kind, screen),
        Message::TermKeyEvent(event) => press_key(s, event, screen).with_screen(screen),
        Message::TermScroll(n) => if !s.terminal_in_front() {
            followed_by(s, EffectView::ResetWheel).with_screen(screen)
        } else if n == 0 {
            settled(s).with_screen(screen)
        } else {
            scroll_page(s, s.active_terminal, n as int, screen)
        },
        Message::TermPageScroll(n) => if !s.terminal_in_front() || n == 0 {
            settled(s).with_screen(screen)
        } else {
            scroll_page(s, s.active_terminal, n as int, screen)
        },
        Message::WindowResized(fit_rows, fit_cols) => followed_by(
            StateView {
                pending_resize: Some(grid_size(fit_rows as int, fit_cols as int)),
                ..s
            },
            EffectView::ScheduleResizeTick,
        ).with_screen(screen),
        Message::TermResizeTick => resize_tick(s).with_screen(screen),
        Message::ResizeSent(rows, cols, outcomes) => resize_sent(
            s,
            (rows, cols),
            outcomes@,
        ).with_screen(screen),
    }
}

/// The service of `kind` is to run: it is wanted and has a path.
pub open spec fn subscribed<H>(s: StateView<H>, kind: ServiceKind) -> Seq<RecipeView> {
    if s.wants(kind) && s.config.has_path(kind) {
        seq![RecipeView { kind, path: s.config.path(kind) }]
    } else {
        Seq::empty()
    }
}

/// The services that are to run, in order.
pub open spec fn subscriptions<H>(s: StateView<H>) -> Seq<RecipeView> {
    subscribed(s, ServiceKind::Mysql) + subscribed(s, ServiceKind::Auth) + subscribed(
        s,
        ServiceKind::World,
    )
}

/// An optional text is read as it is, and none as none.
pub proof fn optional_texts_are_read_as_they_are(text: String)
    ensures
        text_view(Some(text)) == Some(text@),
        text_view(None) is None,
{
}

} // verus!
