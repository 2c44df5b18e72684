//! How the launcher takes each message.
use vstd::prelude::*;

use crate::app::{Effect, EffectView, KeyEvent, Message, NavTab, State, effect_views};
use crate::emulator::{history, renewed, sturdy};
use crate::input::{Key, Modifiers, Named, encode_key};
use crate::model::{
    MAX_ERRORS, StateView, Step, all_kills, all_stopped, attach, clear_page, close_when_stopped,
    config_saved, confirm_close, detach, dismissed, edit_path, engaged, evicted, evicted_kill,
    evicted_name, kill_with_all, mysql_failed, mysql_ready, no_process, note_client, note_failed,
    note_killed, note_started, note_stopped, occupied, owed_size, owing, page_lines, paging,
    press_key, queued, refresh_page, refreshed, refreshed_offset, refreshed_screen, released,
    request_close, resize_sent, resize_tick, restart_service, resume_restart, saved_message,
    screen_needed, scroll_page, scrolled_offset, start_all, start_service, step, stop_service,
    stopped_with_all, subscribed, subscriptions, up_to_date,
};
use crate::process::{RecipeView, ServiceRecipe, grid_size_for_window};
use crate::service::{ServiceKind, Status};
use crate::terminal::{TermHandle, snapshot_grid, snapshot_ignores_the_view};
use crate::text::{decimal, join, texts};

verus! {

fn nothing() -> (result: Vec<Effect>)
    ensures
        effect_views(result@) == Seq::<EffectView>::empty(),
{
    let effects: Vec<Effect> = Vec::new();
    assert(effect_views(effects@) =~= Seq::<EffectView>::empty());
    effects
}

fn only(effect: Effect) -> (result: Vec<Effect>)
    ensures
        effect_views(result@) == seq![effect@],
{
    let mut effects: Vec<Effect> = Vec::new();
    effects.push(effect);
    assert(effect_views(effects@) =~= seq![effect@]);
    effects
}

/// The effects of both lists.
fn both(first: Vec<Effect>, second: Vec<Effect>) -> (result: Vec<Effect>)
    ensures
        effect_views(result@) == effect_views(first@) + effect_views(second@),
{
    let mut effects = first;
    let mut rest = second;
    effects.append(&mut rest);
    assert(effect_views(effects@) =~= effect_views(first@) + effect_views(second@));
    effects
}

fn sentence(first: &str, second: &str) -> (result: String)
    ensures
        result@ == first@ + second@,
{
    let mut s = first.to_string();
    s.append(second);
    s
}

/// Whether the program is one of the services, and not the game client.
fn is_backend(kind: ServiceKind) -> (result: bool)
    ensures
        result == kind.is_service(),
{
    matches!(kind, ServiceKind::Mysql | ServiceKind::Auth | ServiceKind::World)
}

impl<H> State<H> {
    /// Adds an error notice, and drops the oldest ones beyond the limit.
    fn push_error(&mut self, kind: ServiceKind, notice: String)
        ensures
            final(self)@ == old(self)@.noticed(kind, notice@),
    {
        let idx: usize = kind.index();
        self.errors[idx].push(notice);
        let ghost notices = self.errors@[idx as int]@;
        let len: usize = self.errors[idx].len();
        if len > MAX_ERRORS {
            let rest = self.errors[idx].split_off(len - MAX_ERRORS);
            assert(texts(rest@) =~= texts(notices).skip(len - MAX_ERRORS));
            self.errors[idx] = rest;
        }
        assert(texts(notices) =~= old(self)@.errors[idx as int].push(notice@));
        assert(self@.errors =~= old(self)@.noticed(kind, notice@).errors);
    }
}

/// Refreshes what the page of `kind` shows of its terminal.
fn refresh_attached<H>(state: &mut State<H>, kind: ServiceKind, screen: &mut TermHandle)
    ensures
        final(state)@ == refreshed(old(state)@, kind, *old(screen)),
        *final(screen) == refreshed_screen(old(state)@, kind, *old(screen)),
{
    let idx: usize = kind.index();
    let total: usize = screen.scrollback_total();
    if state.scroll_offset[idx] > 0 {
        let delta: usize = total.saturating_sub(state.prev_scrollback_total[idx]);
        let moved: usize = state.scroll_offset[idx].saturating_add(delta);
        state.scroll_offset[idx] = if moved < total {
            moved
        } else {
            total
        };
    }
    state.prev_scrollback_total[idx] = total;
    let offset: usize = state.scroll_offset[idx];
    assert(offset == refreshed_offset(old(state)@, kind, *old(screen)));
    let current = match &state.grids[idx] {
        Some(grid) => grid.version == screen.version && grid.offset == offset,
        None => false,
    };
    let ghost moved = state@;
    assert(current == up_to_date(old(state)@.grids[idx as int], old(screen).version, offset as int));
    if !current {
        proof {
            snapshot_ignores_the_view(*screen, *old(screen), offset as int);
        }
        let snap = snapshot_grid(screen, offset);
        state.scroll_offset[idx] = snap.offset;
        state.grids[idx] = Some(snap);
        assert(state@.grids =~= moved.grids.update(idx as int, Some(snap@)));
        assert(state@.scroll_offset =~= moved.scroll_offset);
    }
    assert(state@ =~= refreshed(old(state)@, kind, *old(screen)));
}

/// Moves the view of the page of `kind` by `delta` lines, towards earlier lines if positive.
fn scroll_attached<H>(state: &mut State<H>, kind: ServiceKind, delta: i32, screen: &mut TermHandle)
    requires
        old(state)@.attached(kind),
    ensures
        final(state)@ == scroll_page(old(state)@, kind, delta as int, Some(*old(screen))).state,
        Some(*final(screen)) == scroll_page(
            old(state)@,
            kind,
            delta as int,
            Some(*old(screen)),
        ).screen,
{
    proof {
        reveal(scroll_page);
    }
    let idx: usize = kind.index();
    let total: usize = screen.scrollback_total();
    let offset: usize = state.scroll_offset[idx];
    state.scroll_offset[idx] = if delta >= 0 {
        let moved: usize = offset.saturating_add(delta as usize);
        if moved < total {
            moved
        } else {
            total
        }
    } else {
        offset.saturating_sub((-(delta as i64)) as usize)
    };
    assert(state.scroll_offset@[idx as int] == scrolled_offset(
        offset as int,
        delta as int,
        history(old(screen).emulator),
    ));
    proof {
        let want = refreshed_offset(state@, kind, *screen);
        snapshot_ignores_the_view(*screen, *old(screen), want);
    }
    refresh_attached(state, kind, screen);
}

/// What comes of a message that leaves every screen alone.
spec fn leads_to<H>(
    before: StateView<H>,
    message: Message<H>,
    after: StateView<H>,
    effects: Seq<EffectView>,
) -> bool {
    forall|screen: Option<TermHandle>| #[trigger]
        step(before, message, screen) == (Step { state: after, effects, screen })
}

/// What comes of a message, apart from the screen that it is taken with.
pub open spec fn follows<H>(
    before: StateView<H>,
    message: Message<H>,
    screen: Option<TermHandle>,
    after: StateView<H>,
    effects: Seq<EffectView>,
) -> bool {
    let outcome = step(before, message, screen);
    outcome.state == after && outcome.effects == effects
}

/// The screen before a call that is lent it.
pub open spec fn lent(screen: Option<&mut TermHandle>) -> Option<TermHandle> {
    match screen {
        Some(handle) => Some(*handle),
        None => None,
    }
}

/// What clearing a terminal leaves of it: an empty screen in the modes of the program, and no
/// scrolled-off line. Says nothing of other messages, nor of a service without a terminal.
pub open spec fn clears<H>(
    s: StateView<H>,
    message: Message<H>,
    before: TermHandle,
    after: TermHandle,
) -> bool {
    message matches Message::ClearTerminal(kind) ==> s.attached(kind) ==> after.wf() && renewed(
        before.emulator,
        after.emulator,
    )
}

/// Refreshes the page of `kind`, if it has a terminal.
pub fn refresh_grid<H>(state: &mut State<H>, kind: ServiceKind, screen: Option<&mut TermHandle>)
    requires
        old(state)@.attached(kind) ==> screen is Some,
    ensures
        final(state)@ == refresh_page(old(state)@, kind, lent(screen)).0,
        screen matches Some(handle) ==> Some(*final(handle)) == refresh_page(
            old(state)@,
            kind,
            lent(screen),
        ).1,
{
    proof {
        reveal(refresh_page);
    }
    if state.terminals[kind.index()].is_some() {
        if let Some(handle) = screen {
            refresh_attached(state, kind, handle);
        }
    }
}

fn start_one<H>(
    state: &mut State<H>,
    kind: ServiceKind,
) -> (result: Vec<Effect>)
    ensures
        leads_to(old(state)@, Message::StartService(kind), final(state)@, effect_views(result@)),
{
    proof {
        reveal(step);
        reveal(start_service);
    }
    let path = state.config.path_for(kind).to_string();
    if path.as_str().is_empty() {
        state.config_message = Some(sentence(kind.label(), " 路径为空,请先配置。"));
        return nothing();
    }
    match kind {
        ServiceKind::Client => {
            state.sequence_message = "正在启动客户端…".to_string();
            only(Effect::LaunchClient(path))
        },
        _ => {
            state.desired[kind.index()] = true;
            state.status[kind.index()] = Status::Starting;
            state.config_message = None;
            nothing()
        },
    }
}

fn stop_one<H>(
    state: &mut State<H>,
    kind: ServiceKind,
) -> (result: Vec<Effect>)
    ensures
        leads_to(old(state)@, Message::StopService(kind), final(state)@, effect_views(result@)),
{
    proof {
        reveal(step);
        reveal(stop_service);
    }
    if !is_backend(kind) {
        return nothing();
    }
    let idx: usize = kind.index();
    state.restart_pending[idx] = false;
    state.restart_marker[idx] = false;
    state.desired[idx] = false;
    if state.status[idx] == Status::Waiting {
        state.status[idx] = Status::Stopped;
        nothing()
    } else if let Some(pid) = state.pids[idx] {
        state.status[idx] = Status::Stopping;
        only(Effect::KillTree(kind, pid))
    } else {
        state.status[idx] = Status::Stopped;
        nothing()
    }
}

fn restart_one<H>(
    state: &mut State<H>,
    kind: ServiceKind,
) -> (result: Vec<Effect>)
    ensures
        leads_to(old(state)@, Message::RestartService(kind), final(state)@, effect_views(result@)),
{
    proof {
        reveal(step);
        reveal(restart_service);
    }
    if !is_backend(kind) {
        return nothing();
    }
    let idx: usize = kind.index();
    state.restart_pending[idx] = true;
    state.desired[idx] = false;
    state.status[idx] = Status::Stopping;
    assert(state@.restart_marker =~= old(state)@.restart_marker.update(
        idx as int,
        old(state)@.restart_marker[idx as int],
    ));
    match state.pids[idx] {
        Some(pid) => only(Effect::KillTree(kind, pid)),
        None => only(Effect::DelayRestart(kind)),
    }
}

fn resume<H>(state: &mut State<H>, kind: ServiceKind, desired: bool)
    ensures
        leads_to(old(state)@, Message::SetDesired(kind, desired), final(state)@, Seq::empty()),
{
    proof {
        reveal(step);
        reveal(resume_restart);
    }
    let idx: usize = kind.index();
    if desired && state.restart_pending[idx] {
        state.restart_pending[idx] = false;
        state.restart_marker[idx] = true;
        state.desired[idx] = true;
        state.status[idx] = Status::Starting;
    }
}

fn take_start<H>(state: &mut State<H>, kind: ServiceKind, pid: u32)
    ensures
        leads_to(old(state)@, Message::ServiceStarted(kind, pid), final(state)@, Seq::empty()),
{
    proof {
        reveal(step);
        reveal(note_started);
    }
    let idx: usize = kind.index();
    if state.desired[idx] {
        state.pids[idx] = Some(pid);
        state.status[idx] = Status::Running;
    }
}

fn take_failure<H>(state: &mut State<H>, kind: ServiceKind, reason: String)
    ensures
        leads_to(
            old(state)@,
            Message::ServiceStartFailed(kind, reason),
            final(state)@,
            Seq::empty(),
        ),
{
    proof {
        reveal(step);
        reveal(note_failed);
    }
    let idx: usize = kind.index();
    state.desired[idx] = false;
    state.pids[idx] = None;
    state.terminals[idx] = None;
    state.restart_pending[idx] = false;
    state.restart_marker[idx] = false;
    state.status[idx] = Status::Error;
    state.push_error(kind, sentence("[启动失败] ", reason.as_str()));
}

fn take_client<H>(state: &mut State<H>, outcome: Result<(), String>)
    ensures
        leads_to(old(state)@, Message::ClientLaunched(outcome), final(state)@, Seq::empty()),
{
    proof {
        reveal(step);
        reveal(note_client);
    }
    state.sequence_message = match outcome {
        Ok(_) => "客户端已启动".to_string(),
        Err(reason) => sentence("客户端启动失败: ", reason.as_str()),
    };
}

/// Closes the window once every process has ended, if that is being waited for.
fn maybe_close_after_stop<H>(
    state: &mut State<H>,
) -> (result: Vec<Effect>)
    ensures
        final(state)@ == close_when_stopped(old(state)@).state,
        effect_views(result@) == close_when_stopped(old(state)@).effects,
{
    let ended = state.pids[0].is_none() && state.pids[1].is_none() && state.pids[2].is_none()
        && state.pids[3].is_none();
    assert(ended == no_process(state@)) by {
        let pids = state@.pids;
        assert(pids.len() == 4);
        if ended {
            assert forall|i: int| 0 <= i < pids.len() implies #[trigger] pids[i] is None by {
                assert(i == 0 || i == 1 || i == 2 || i == 3);
            }
        }
    }
    if state.close_after_stop && ended {
        state.close_after_stop = false;
        let window = state.close_window;
        state.close_window = None;
        only(Effect::CloseWindow(window))
    } else {
        nothing()
    }
}

/// A process has ended: its last screen is kept on the page, and its terminal is let go. The
/// viewing position stays.
fn let_go<H>(state: &mut State<H>, kind: ServiceKind, screen: Option<&mut TermHandle>)
    requires
        old(state)@.attached(kind) ==> screen is Some,
    ensures
        final(state)@ == detach(old(state)@, kind, lent(screen)).0,
        screen matches Some(handle) ==> Some(*final(handle)) == detach(
            old(state)@,
            kind,
            lent(screen),
        ).1,
{
    let idx: usize = kind.index();
    let offset: usize = state.scroll_offset[idx];
    state.pids[idx] = None;
    state.scroll_offset[idx] = 0;
    assert(state@ =~= old(state)@.with_pid(kind, None).with_offset(kind, 0));
    refresh_grid(state, kind, screen);
    state.scroll_offset[idx] = offset;
    state.terminals[idx] = None;
}

fn take_stop<H>(
    state: &mut State<H>,
    kind: ServiceKind,
    screen: Option<&mut TermHandle>,
) -> (result: Vec<Effect>)
    requires
        old(state)@.attached(kind) ==> screen is Some,
    ensures
        follows(
            old(state)@,
            Message::ServiceStopped(kind),
            lent(screen),
            final(state)@,
            effect_views(result@),
        ),
        screen matches Some(handle) ==> Some(*final(handle)) == step(
            old(state)@,
            Message::ServiceStopped(kind),
            lent(screen),
        ).screen,
{
    proof {
        reveal(step);
        reveal(refresh_page);
        reveal(note_stopped);
    }
    let idx: usize = kind.index();
    let_go(state, kind, screen);
    if state.restart_pending[idx] {
        return only(Effect::DelayRestart(kind));
    }
    let ghost gone = state@;
    state.desired[idx] = false;
    state.status[idx] = Status::Stopped;
    assert(state@ =~= gone.with_desired(kind, false).with_status(kind, Status::Stopped));
    maybe_close_after_stop(state)
}

fn take_kill<H>(
    state: &mut State<H>,
    kind: ServiceKind,
    screen: Option<&mut TermHandle>,
) -> (result: Vec<Effect>)
    requires
        !old(state)@.wants(kind) && old(state)@.attached(kind) ==> screen is Some,
    ensures
        follows(
            old(state)@,
            Message::ProcessKilled(kind),
            lent(screen),
            final(state)@,
            effect_views(result@),
        ),
        screen matches Some(handle) ==> Some(*final(handle)) == step(
            old(state)@,
            Message::ProcessKilled(kind),
            lent(screen),
        ).screen,
{
    proof {
        reveal(step);
        reveal(refresh_page);
        reveal(note_killed);
    }
    let idx: usize = kind.index();
    if state.desired[idx] {
        return nothing();
    }
    let_go(state, kind, screen);
    if state.restart_pending[idx] {
        return only(Effect::DelayRestart(kind));
    }
    let ghost gone = state@;
    state.status[idx] = Status::Stopped;
    assert(state@ =~= gone.with_status(kind, Status::Stopped));
    maybe_close_after_stop(state)
}

fn take_key<H>(
    state: &mut State<H>,
    event: KeyEvent,
    screen: Option<&mut TermHandle>,
) -> (result: Vec<Effect>)
    requires
        old(state)@.takes_keys() ==> screen is Some,
    ensures
        follows(
            old(state)@,
            Message::TermKeyEvent(event),
            lent(screen),
            final(state)@,
            effect_views(result@),
        ),
        screen matches Some(handle) ==> Some(*final(handle)) == step(
            old(state)@,
            Message::TermKeyEvent(event),
            lent(screen),
        ).screen,
{
    proof {
        reveal(step);
        reveal(press_key);
    }
    if state.close_pending || state.active_nav != NavTab::Terminal {
        return nothing();
    }
    let kind = state.active_terminal;
    let idx: usize = kind.index();
    if state.status[idx] != Status::Running || state.terminals[idx].is_none() {
        return nothing();
    }
    match (event, screen) {
        (KeyEvent::Pressed { key, text, modifiers }, Some(handle)) => {
            let direction = page_direction(&key, modifiers);
            if direction != 0 {
                let (rows, _) = handle.size();
                let half: i32 = rows as i32 / 2;
                let lines: i32 = if half >= 1 {
                    half
                } else {
                    1
                };
                assert(lines == page_lines(rows));
                assert(lines * direction == -lines || lines * direction == lines) by (nonlinear_arith)
                    requires
                        direction == 1 || direction == -1,
                ;
                return only(Effect::PageScroll(lines * direction));
            }
            let app_cursor = handle.application_cursor();
            let given = match &text {
                Some(s) => Some(s.as_str()),
                None => None,
            };
            match encode_key(&key, given, modifiers, app_cursor) {
                Some(bytes) => {
                    state.scroll_offset[idx] = 0;
                    only(Effect::SendInput(kind, bytes))
                },
                None => nothing(),
            }
        },
        _ => nothing(),
    }
}

/// The direction in which a key pages through earlier lines, or 0 if it does not.
fn page_direction(key: &Key, modifiers: Modifiers) -> (result: i32)
    ensures
        result == paging(key@, modifiers),
{
    match key {
        Key::Named(named) if modifiers.shift && *named == Named::PageUp => 1,
        Key::Named(named) if modifiers.shift && *named == Named::PageDown => -1,
        _ => 0,
    }
}

fn take_terminal<H>(
    state: &mut State<H>,
    kind: ServiceKind,
    terminal: H,
    screen: Option<&mut TermHandle>,
)
    requires
        old(state)@.wants(kind) ==> screen is Some,
        old(state)@.wants(kind) && old(state)@.restart_marker[kind.slot()] ==> sturdy(
            lent(screen)->0.emulator,
        ),
    ensures
        follows(
            old(state)@,
            Message::ServiceTerminalReady(kind, terminal),
            lent(screen),
            final(state)@,
            Seq::empty(),
        ),
        screen matches Some(handle) ==> Some(*final(handle)) == step(
            old(state)@,
            Message::ServiceTerminalReady(kind, terminal),
            lent(screen),
        ).screen,
{
    proof {
        reveal(step);
        reveal(attach);
    }
    let idx: usize = kind.index();
    if !state.desired[idx] {
        return ;
    }
    if let Some(handle) = screen {
        let size = handle.size();
        if state.restart_marker[idx] {
            state.restart_marker[idx] = false;
            handle.mark_restarted();
        }
        state.applied_grid[idx] = size;
        state.terminals[idx] = Some(terminal);
        state.grids[idx] = None;
        state.scroll_offset[idx] = 0;
        state.prev_scrollback_total[idx] = 0;
        state.errors[idx] = Vec::new();
        proof {
            let target = attach(old(state)@, kind, terminal, lent(screen)).state;
            assert(texts(state.errors@[idx as int]@) =~= Seq::empty());
            assert(state@.restart_marker =~= target.restart_marker);
            assert(state@.errors =~= target.errors);
            assert(state@.grids =~= target.grids);
            assert(state@ =~= target);
        }
    }
}

fn clear_terminal<H>(state: &mut State<H>, kind: ServiceKind, screen: Option<&mut TermHandle>)
    requires
        old(state)@.attached(kind) ==> screen is Some,
    ensures
        follows(
            old(state)@,
            Message::ClearTerminal(kind),
            lent(screen),
            final(state)@,
            Seq::empty(),
        ),
        screen matches Some(handle) ==> Some(*final(handle)) == step(
            old(state)@,
            Message::ClearTerminal(kind),
            lent(screen),
        ).screen,
        screen matches Some(handle) ==> clears(
            old(state)@,
            Message::ClearTerminal(kind),
            *handle,
            *final(handle),
        ),
{
    proof {
        reveal(step);
        reveal(clear_page);
    }
    let idx: usize = kind.index();
    if state.terminals[idx].is_some() {
        if let Some(handle) = screen {
            handle.clear();
        }
    }
    state.grids[idx] = None;
    state.scroll_offset[idx] = 0;
    state.prev_scrollback_total[idx] = 0;
    assert(state@.grids =~= old(state)@.grids.update(idx as int, None));
}

/// Moves the view of the page of `kind` by `delta` lines, towards earlier lines if positive, if it
/// has a terminal.
pub fn apply_scroll<H>(
    state: &mut State<H>,
    kind: ServiceKind,
    delta: i32,
    screen: Option<&mut TermHandle>,
)
    requires
        old(state)@.attached(kind) ==> screen is Some,
    ensures
        final(state)@ == scroll_page(old(state)@, kind, delta as int, lent(screen)).state,
        screen matches Some(handle) ==> Some(*final(handle)) == scroll_page(
            old(state)@,
            kind,
            delta as int,
            lent(screen),
        ).screen,
{
    proof {
        reveal(scroll_page);
    }
    if state.terminals[kind.index()].is_some() {
        if let Some(handle) = screen {
            scroll_attached(state, kind, delta, handle);
        }
    }
}

/// Whether a service has a terminal that is yet to be given the size. One without a terminal has
/// the size from now on.
fn settle_size<H>(state: &mut State<H>, kind: ServiceKind, size: (u16, u16)) -> (result: bool)
    ensures
        result == owed_size(old(state)@, kind, size),
        final(state)@ == if old(state)@.attached(kind) {
            old(state)@
        } else {
            old(state)@.with_applied(kind, size)
        },
{
    let idx: usize = kind.index();
    let (rows, cols) = state.applied_grid[idx];
    let current = rows == size.0 && cols == size.1;
    let attached = state.terminals[idx].is_some();
    if !attached {
        state.applied_grid[idx] = size;
    }
    attached && !current
}

fn tick<H>(
    state: &mut State<H>,
) -> (result: Vec<Effect>)
    ensures
        leads_to(old(state)@, Message::TermResizeTick, final(state)@, effect_views(result@)),
{
    proof {
        reveal(step);
        reveal(resize_tick);
    }
    let (rows, cols) = match state.pending_resize {
        Some(size) => size,
        None => return nothing(),
    };
    state.pending_resize = None;
    let size: (u16, u16) = (rows, cols);
    let ghost before = old(state)@;
    let mut targets: Vec<ServiceKind> = Vec::new();
    if settle_size(state, ServiceKind::Mysql, size) {
        targets.push(ServiceKind::Mysql);
    }
    if settle_size(state, ServiceKind::Auth, size) {
        targets.push(ServiceKind::Auth);
    }
    if settle_size(state, ServiceKind::World, size) {
        targets.push(ServiceKind::World);
    }
    proof {
        lemma_owing(before, size);
        assert(state@.applied_grid =~= resize_tick(before).state.applied_grid);
        assert(targets@ =~= owing(before, ServiceKind::SERVICES@, size));
    }
    if targets.len() > 0 {
        only(Effect::TryResize(targets, rows, cols))
    } else {
        nothing()
    }
}

/// Which services a size is owed to, one by one.
proof fn lemma_owing<H>(s: StateView<H>, size: (u16, u16))
    ensures
        owing(s, ServiceKind::SERVICES@, size) == owing_one(s, ServiceKind::Mysql, size) + owing_one(
            s,
            ServiceKind::Auth,
            size,
        ) + owing_one(s, ServiceKind::World, size),
{
    let services = ServiceKind::SERVICES@;
    let pred = |kind: ServiceKind| owed_size(s, kind, size);
    assert(services.drop_last().drop_last().drop_last() =~= Seq::empty());
    assert(services.drop_last().drop_last().last() == ServiceKind::Mysql);
    assert(services.drop_last().last() == ServiceKind::Auth);
    assert(services.last() == ServiceKind::World);
    reveal_with_fuel(Seq::filter, 4);
    assert(services.filter(pred) =~= owing_one(s, ServiceKind::Mysql, size) + owing_one(
        s,
        ServiceKind::Auth,
        size,
    ) + owing_one(s, ServiceKind::World, size));
}

spec fn owing_one<H>(s: StateView<H>, kind: ServiceKind, size: (u16, u16)) -> Seq<ServiceKind> {
    if owed_size(s, kind, size) {
        seq![kind]
    } else {
        Seq::empty()
    }
}

fn take_resize<H>(
    state: &mut State<H>,
    size: (u16, u16),
    outcomes: Vec<(ServiceKind, bool)>,
) -> (result: Vec<Effect>)
    ensures
        leads_to(
            old(state)@,
            Message::ResizeSent(size.0, size.1, outcomes),
            final(state)@,
            effect_views(result@),
        ),
{
    proof {
        reveal(step);
        reveal(resize_sent);
    }
    let mut refused = false;
    let mut i: usize = 0;
    while i < outcomes.len()
        invariant
            i <= outcomes.len(),
            refused == exists|j: int| 0 <= j < i && !(#[trigger] outcomes@[j]).1,
            state@ == (StateView { applied_grid: state@.applied_grid, ..old(state)@ }),
            state@.applied_grid.len() == 4,
            forall|slot: int|
                0 <= slot < 4 ==> #[trigger] state@.applied_grid[slot] == if exists|j: int|
                    0 <= j < i && (#[trigger] outcomes@[j]).0.slot() == slot && outcomes@[j].1 {
                    size
                } else {
                    old(state)@.applied_grid[slot]
                },
        decreases outcomes.len() - i,
    {
        let (kind, taken) = outcomes[i];
        let ghost before = state@;
        if taken {
            state.applied_grid[kind.index()] = size;
        } else {
            refused = true;
        }
        proof {
            assert(outcomes@[i as int] == (kind, taken));
            assert forall|slot: int| 0 <= slot < 4 implies #[trigger] state@.applied_grid[slot]
                == if exists|j: int|
                0 <= j < i + 1 && (#[trigger] outcomes@[j]).0.slot() == slot && outcomes@[j].1 {
                size
            } else {
                old(state)@.applied_grid[slot]
            } by {
                assert(before.applied_grid[slot] == before.applied_grid[slot]);
            }
        }
        i += 1;
    }
    assert(state@.applied_grid =~= resize_sent(old(state)@, size, outcomes@).state.applied_grid);
    if refused {
        state.pending_resize = Some(size);
        only(Effect::ScheduleResizeTick)
    } else {
        nothing()
    }
}

/// A service that has nothing to do waits for MySQL.
fn queue<H>(state: &mut State<H>, kind: ServiceKind)
    ensures
        final(state)@ == queued(old(state)@, kind),
{
    let idx: usize = kind.index();
    if matches!(state.status[idx], Status::Stopped | Status::Error) {
        state.status[idx] = Status::Waiting;
    }
}

fn start_everything<H>(
    state: &mut State<H>,
) -> (result: Vec<Effect>)
    ensures
        leads_to(old(state)@, Message::StartAll, final(state)@, effect_views(result@)),
{
    proof {
        reveal(step);
        reveal(start_all);
    }
    if let Some(missing) = state.config.first_unset_service() {
        state.sequence_active = false;
        state.sequence_message = sentence("一键启动需要先配置 ", missing.label());
        return nothing();
    }
    let mysql: usize = ServiceKind::Mysql.index();
    if state.status[mysql] != Status::Running && !state.desired[mysql] {
        state.desired[mysql] = true;
        state.status[mysql] = Status::Starting;
    }
    state.sequence_active = true;
    state.sequence_message = "正在启动 MySQL…".to_string();
    queue(state, ServiceKind::Auth);
    queue(state, ServiceKind::World);
    only(Effect::WaitMysqlReady)
}

/// A service that waits for MySQL starts.
fn release<H>(state: &mut State<H>, kind: ServiceKind)
    ensures
        final(state)@ == released(old(state)@, kind),
{
    let idx: usize = kind.index();
    if state.status[idx] == Status::Waiting {
        state.desired[idx] = true;
        state.status[idx] = Status::Starting;
    }
}

/// A service that waits for MySQL gives up.
fn dismiss<H>(state: &mut State<H>, kind: ServiceKind)
    ensures
        final(state)@ == dismissed(old(state)@, kind),
{
    let idx: usize = kind.index();
    if state.status[idx] == Status::Waiting {
        state.status[idx] = Status::Stopped;
    }
}

fn take_mysql<H>(state: &mut State<H>)
    ensures
        leads_to(old(state)@, Message::MysqlReady, final(state)@, Seq::empty()),
{
    proof {
        reveal(step);
        reveal(mysql_ready);
    }
    if !state.sequence_active {
        return ;
    }
    let mysql: usize = ServiceKind::Mysql.index();
    if state.status[mysql] == Status::Running || state.desired[mysql] {
        release(state, ServiceKind::Auth);
        release(state, ServiceKind::World);
        state.sequence_active = false;
        state.sequence_message = "MySQL 就绪,已启动 Auth/World".to_string();
    } else {
        state.sequence_active = false;
        state.sequence_message = "MySQL 未在运行,已中止一键启动".to_string();
    }
}

fn take_mysql_failure<H>(state: &mut State<H>, reason: String)
    ensures
        leads_to(old(state)@, Message::MysqlReadyFailed(reason), final(state)@, Seq::empty()),
{
    proof {
        reveal(step);
        reveal(mysql_failed);
    }
    let mysql: usize = ServiceKind::Mysql.index();
    let notice = sentence("[一键启动] ", reason.as_str());
    state.desired[mysql] = false;
    state.pids[mysql] = None;
    state.status[mysql] = Status::Error;
    state.sequence_active = false;
    state.sequence_message = reason;
    state.push_error(ServiceKind::Mysql, notice);
    dismiss(state, ServiceKind::Auth);
    dismiss(state, ServiceKind::World);
}

/// Tells a service to stop together with all others.
fn stop_with_all<H>(
    state: &mut State<H>,
    kind: ServiceKind,
) -> (result: Vec<Effect>)
    ensures
        final(state)@ == stopped_with_all(old(state)@, kind),
        effect_views(result@) == kill_with_all(old(state)@, kind),
{
    let idx: usize = kind.index();
    state.desired[idx] = false;
    match state.status[idx] {
        Status::Waiting | Status::Stopped | Status::Error => {
            state.status[idx] = Status::Stopped;
            nothing()
        },
        _ => match state.pids[idx] {
            Some(pid) => {
                state.status[idx] = Status::Stopping;
                only(Effect::KillTree(kind, pid))
            },
            None => {
                state.status[idx] = Status::Stopped;
                nothing()
            },
        },
    }
}

/// Tells every service to stop.
fn stop_all<H>(
    state: &mut State<H>,
) -> (result: Vec<Effect>)
    ensures
        final(state)@ == all_stopped(old(state)@),
        effect_views(result@) == all_kills(old(state)@),
{
    proof {
        reveal(all_stopped);
        reveal(all_kills);
    }
    state.sequence_active = false;
    state.sequence_message = String::new();
    state.restart_pending = [false, false, false, false];
    state.restart_marker = [false, false, false, false];
    assert(state@.restart_pending =~= Seq::new(4, |i: int| false));
    assert(state@.restart_marker =~= Seq::new(4, |i: int| false));
    assert(state@.sequence_message =~= Seq::empty());
    let mysql = stop_with_all(state, ServiceKind::Mysql);
    let auth = stop_with_all(state, ServiceKind::Auth);
    let world = stop_with_all(state, ServiceKind::World);
    both(both(mysql, auth), world)
}

/// Whether a service runs, is about to, or is on its way out.
fn is_engaged<H>(state: &State<H>, kind: ServiceKind) -> (result: bool)
    ensures
        result == engaged(state@, kind),
{
    let idx: usize = kind.index();
    state.desired[idx] || state.pids[idx].is_some() || matches!(
        state.status[idx],
        Status::Starting | Status::Running | Status::Stopping | Status::Waiting
    )
}

/// Tells a service to stop if it runs from a path that the draft replaces, and adds its name to
/// the list.
fn evict<H>(
    state: &mut State<H>,
    kind: ServiceKind,
    stopped: &mut Vec<String>,
) -> (result: Vec<Effect>)
    ensures
        final(state)@ == evicted(old(state)@, kind),
        effect_views(result@) == evicted_kill(old(state)@, kind),
        texts(final(stopped)@) == texts(old(stopped)@) + evicted_name(old(state)@, kind),
{
    let idx: usize = kind.index();
    if state.config.same_path(&state.config_draft, kind) || !is_engaged(state, kind) {
        assert(texts(stopped@) =~= texts(old(stopped)@) + evicted_name(old(state)@, kind));
        return nothing();
    }
    state.restart_pending[idx] = false;
    state.restart_marker[idx] = false;
    state.desired[idx] = false;
    stopped.push(kind.label().to_string());
    assert(texts(stopped@) =~= texts(old(stopped)@) + evicted_name(old(state)@, kind));
    match state.pids[idx] {
        Some(pid) => {
            state.status[idx] = Status::Stopping;
            only(Effect::KillTree(kind, pid))
        },
        None => {
            state.status[idx] = Status::Stopped;
            nothing()
        },
    }
}

fn take_saved<H>(
    state: &mut State<H>,
    outcome: Result<(), String>,
) -> (result: Vec<Effect>)
    ensures
        leads_to(old(state)@, Message::ConfigSaved(outcome), final(state)@, effect_views(result@)),
{
    proof {
        reveal(step);
        reveal(config_saved);
    }
    if let Err(reason) = outcome {
        state.config_message = Some(reason);
        return nothing();
    }
    let mut stopped: Vec<String> = Vec::new();
    assert(texts(stopped@) =~= Seq::empty());
    let mysql = evict(state, ServiceKind::Mysql, &mut stopped);
    let auth = evict(state, ServiceKind::Auth, &mut stopped);
    let world = evict(state, ServiceKind::World, &mut stopped);
    proof {
        let s = old(state)@;
        let names = evicted_name(s, ServiceKind::Mysql) + evicted_name(s, ServiceKind::Auth)
            + evicted_name(s, ServiceKind::World);
        assert(texts(stopped@) =~= names);
    }
    state.config = state.config_draft.clone();
    let mut message = sentence("已保存配置(已设置 ", decimal(state.config.set_count() as u64).as_str());
    message.append("/4)");
    if stopped.len() > 0 {
        message.append("; ");
        message.append(join(&stopped, "/").as_str());
        message.append(" 路径已变更, 已先停止旧进程, 请重新启动");
    }
    assert(message@ == saved_message(state@.config, texts(stopped@)));
    state.config_message = Some(message);
    both(both(mysql, auth), world)
}

fn edit<H>(state: &mut State<H>, kind: ServiceKind, path: String)
    ensures
        final(state)@ == edit_path(old(state)@, kind, path@),
{
    proof {
        reveal(edit_path);
    }
    state.config_draft.set_path(kind, path);
    state.config_message = None;
}

/// Whether a service has a process, or one on its way in or out.
fn is_occupied<H>(state: &State<H>, kind: ServiceKind) -> (result: bool)
    ensures
        result == occupied(state@, kind),
{
    let idx: usize = kind.index();
    state.status[idx].is_operational() || state.pids[idx].is_some()
}

fn take_close<H>(
    state: &mut State<H>,
    window: u64,
) -> (result: Vec<Effect>)
    ensures
        leads_to(
            old(state)@,
            Message::CloseRequested(window),
            final(state)@,
            effect_views(result@),
        ),
{
    proof {
        reveal(step);
        reveal(request_close);
    }
    state.close_window = Some(window);
    if is_occupied(state, ServiceKind::Mysql) || is_occupied(state, ServiceKind::Auth)
        || is_occupied(state, ServiceKind::World) {
        state.close_pending = true;
        nothing()
    } else {
        only(Effect::CloseWindow(Some(window)))
    }
}

fn take_confirmation<H>(
    state: &mut State<H>,
    yes: bool,
) -> (result: Vec<Effect>)
    ensures
        leads_to(old(state)@, Message::ConfirmClose(yes), final(state)@, effect_views(result@)),
{
    proof {
        reveal(step);
        reveal(all_stopped);
        reveal(all_kills);
        reveal(confirm_close);
    }
    state.close_pending = false;
    if yes {
        state.close_after_stop = true;
        let stop = stop_all(state);
        let close = maybe_close_after_stop(state);
        both(stop, close)
    } else {
        state.close_window = None;
        state.close_after_stop = false;
        nothing()
    }
}

/// The program whose screen [`update`] is to be lent for a message, if any.
pub fn screen_target<H>(state: &State<H>, message: &Message<H>) -> (result: Option<ServiceKind>)
    ensures
        result == screen_needed(state@, *message),
{
    let front = state.active_terminal;
    match message {
        Message::NavSelected(tab) => if *tab == NavTab::Terminal {
            attached(state, front)
        } else {
            None
        },
        Message::ServiceSelected(kind) => if is_backend(*kind) {
            attached(state, *kind)
        } else {
            None
        },
        Message::ServiceStopped(kind) => attached(state, *kind),
        Message::ProcessKilled(kind) => if !state.desired[kind.index()] {
            attached(state, *kind)
        } else {
            None
        },
        Message::ServiceTerminalReady(kind, _) => if state.desired[kind.index()] {
            Some(*kind)
        } else {
            None
        },
        Message::TerminalData(kind) => if state.active_nav == NavTab::Terminal && front == *kind {
            attached(state, *kind)
        } else {
            None
        },
        Message::TermKeyEvent(_) => if !state.close_pending && state.active_nav == NavTab::Terminal
            && state.status[front.index()] == Status::Running {
            attached(state, front)
        } else {
            None
        },
        Message::TermScroll(n) => if !state.close_pending && state.active_nav == NavTab::Terminal
            && *n != 0 {
            attached(state, front)
        } else {
            None
        },
        Message::TermPageScroll(n) => if !state.close_pending && state.active_nav
            == NavTab::Terminal && *n != 0 {
            attached(state, front)
        } else {
            None
        },
        Message::ClearTerminal(kind) => attached(state, *kind),
        _ => None,
    }
}

/// The program, if it has a terminal.
fn attached<H>(state: &State<H>, kind: ServiceKind) -> (result: Option<ServiceKind>)
    ensures
        result == if state@.attached(kind) {
            Some(kind)
        } else {
            None
        },
{
    if state.terminals[kind.index()].is_some() {
        Some(kind)
    } else {
        None
    }
}

fn select_page<H>(state: &mut State<H>, tab: NavTab, screen: Option<&mut TermHandle>)
    requires
        tab == NavTab::Terminal && old(state)@.attached(old(state)@.active_terminal) ==> screen
            is Some,
    ensures
        follows(
            old(state)@,
            Message::NavSelected(tab),
            lent(screen),
            final(state)@,
            seq![EffectView::ResetWheel],
        ),
        screen matches Some(handle) ==> Some(*final(handle)) == step(
            old(state)@,
            Message::NavSelected(tab),
            lent(screen),
        ).screen,
{
    proof {
        reveal(step);
    }
    state.active_nav = tab;
    if tab == NavTab::Terminal {
        let kind = state.active_terminal;
        refresh_grid(state, kind, screen);
    }
}

fn select_service<H>(
    state: &mut State<H>,
    kind: ServiceKind,
    screen: Option<&mut TermHandle>,
) -> (result: Vec<Effect>)
    requires
        kind.is_service() && old(state)@.attached(kind) ==> screen is Some,
    ensures
        follows(
            old(state)@,
            Message::ServiceSelected(kind),
            lent(screen),
            final(state)@,
            effect_views(result@),
        ),
        screen matches Some(handle) ==> Some(*final(handle)) == step(
            old(state)@,
            Message::ServiceSelected(kind),
            lent(screen),
        ).screen,
{
    proof {
        reveal(step);
    }
    if !is_backend(kind) {
        return nothing();
    }
    state.active_terminal = kind;
    refresh_grid(state, kind, screen);
    only(Effect::ResetWheel)
}

fn take_output<H>(state: &mut State<H>, kind: ServiceKind, screen: Option<&mut TermHandle>)
    requires
        old(state)@.active_nav == NavTab::Terminal && old(state)@.active_terminal == kind && old(
            state,
        )@.attached(kind) ==> screen is Some,
    ensures
        follows(
            old(state)@,
            Message::TerminalData(kind),
            lent(screen),
            final(state)@,
            Seq::empty(),
        ),
        screen matches Some(handle) ==> Some(*final(handle)) == step(
            old(state)@,
            Message::TerminalData(kind),
            lent(screen),
        ).screen,
{
    proof {
        reveal(step);
    }
    if state.active_nav == NavTab::Terminal && state.active_terminal == kind {
        refresh_grid(state, kind, screen);
    }
}

fn take_wheel<H>(
    state: &mut State<H>,
    n: i32,
    screen: Option<&mut TermHandle>,
) -> (result: Vec<Effect>)
    requires
        old(state)@.terminal_in_front() && n != 0 && old(state)@.attached(
            old(state)@.active_terminal,
        ) ==> screen is Some,
    ensures
        follows(
            old(state)@,
            Message::TermScroll(n),
            lent(screen),
            final(state)@,
            effect_views(result@),
        ),
        screen matches Some(handle) ==> Some(*final(handle)) == step(
            old(state)@,
            Message::TermScroll(n),
            lent(screen),
        ).screen,
{
    proof {
        reveal(step);
        reveal(scroll_page);
    }
    if state.close_pending || state.active_nav != NavTab::Terminal {
        return only(Effect::ResetWheel);
    }
    if n != 0 {
        let kind = state.active_terminal;
        apply_scroll(state, kind, n, screen);
    }
    nothing()
}

fn take_page<H>(state: &mut State<H>, n: i32, screen: Option<&mut TermHandle>)
    requires
        old(state)@.terminal_in_front() && n != 0 && old(state)@.attached(
            old(state)@.active_terminal,
        ) ==> screen is Some,
    ensures
        follows(old(state)@, Message::TermPageScroll(n), lent(screen), final(state)@, Seq::empty()),
        screen matches Some(handle) ==> Some(*final(handle)) == step(
            old(state)@,
            Message::TermPageScroll(n),
            lent(screen),
        ).screen,
{
    proof {
        reveal(step);
        reveal(scroll_page);
    }
    if !state.close_pending && state.active_nav == NavTab::Terminal && n != 0 {
        let kind = state.active_terminal;
        apply_scroll(state, kind, n, screen);
    }
}

fn stop_everything<H>(
    state: &mut State<H>,
) -> (result: Vec<Effect>)
    ensures
        leads_to(old(state)@, Message::StopAll, final(state)@, effect_views(result@)),
{
    proof {
        reveal(step);
    }
    stop_all(state)
}

fn save_draft<H>(
    state: &mut State<H>,
) -> (result: Vec<Effect>)
    ensures
        leads_to(old(state)@, Message::SaveConfig, final(state)@, effect_views(result@)),
{
    proof {
        reveal(step);
    }
    state.config_message = None;
    only(Effect::SaveConfig(state.config_draft.clone()))
}

fn reset_draft<H>(state: &mut State<H>)
    ensures
        leads_to(old(state)@, Message::ResetConfigDraft, final(state)@, Seq::empty()),
{
    proof {
        reveal(step);
    }
    state.config_draft = state.config.clone();
    state.config_message = Some("已还原未保存的修改".to_string());
}

fn take_path<H>(state: &mut State<H>, kind: ServiceKind, path: String)
    ensures
        leads_to(old(state)@, Message::PathEdited(kind, path), final(state)@, Seq::empty()),
{
    proof {
        reveal(step);
    }
    edit(state, kind, path);
}

fn take_pick<H>(state: &mut State<H>, kind: ServiceKind, picked: Option<String>)
    ensures
        leads_to(old(state)@, Message::PathBrowsed(kind, picked), final(state)@, Seq::empty()),
{
    proof {
        reveal(step);
    }
    if let Some(path) = picked {
        edit(state, kind, path);
    }
}

fn browse<H>(
    state: &mut State<H>,
    kind: ServiceKind,
) -> (result: Vec<Effect>)
    ensures
        leads_to(old(state)@, Message::BrowsePath(kind), final(state)@, effect_views(result@)),
{
    proof {
        reveal(step);
    }
    only(Effect::BrowsePath(kind))
}

fn take_window_size<H>(
    state: &mut State<H>,
    fit_rows: i64,
    fit_cols: i64,
) -> (result: Vec<Effect>)
    ensures
        leads_to(
            old(state)@,
            Message::WindowResized(fit_rows, fit_cols),
            final(state)@,
            effect_views(result@),
        ),
{
    proof {
        reveal(step);
    }
    state.pending_resize = Some(grid_size_for_window(fit_rows, fit_cols));
    only(Effect::ScheduleResizeTick)
}

/// Takes a message: changes the state, and gives what is left to do.
///
/// `screen` is the screen of the program that [`screen_target`] names for the message, and for
/// `ServiceTerminalReady` that of the terminal in the message.
pub fn update<H>(
    state: &mut State<H>,
    message: Message<H>,
    screen: Option<&mut TermHandle>,
) -> (result: Vec<Effect>)
    requires
        screen_needed(old(state)@, message) is Some ==> screen is Some,
        message matches Message::ServiceTerminalReady(kind, _) ==> old(state)@.wants(kind) && old(
            state,
        )@.restart_marker[kind.slot()] ==> sturdy(lent(screen)->0.emulator),
    ensures
        follows(old(state)@, message, lent(screen), final(state)@, effect_views(result@)),
        screen matches Some(handle) ==> Some(*final(handle)) == step(
            old(state)@,
            message,
            lent(screen),
        ).screen,
        screen matches Some(handle) ==> clears(old(state)@, message, *handle, *final(handle)),
{
    match message {
        Message::NavSelected(tab) => {
            select_page(state, tab, screen);
            only(Effect::ResetWheel)
        },
        Message::ServiceSelected(kind) => select_service(state, kind, screen),
        Message::BrowsePath(kind) => browse(state, kind),
        Message::PathEdited(kind, path) => {
            take_path(state, kind, path);
            nothing()
        },
        Message::PathBrowsed(kind, picked) => {
            take_pick(state, kind, picked);
            nothing()
        },
        Message::SaveConfig => save_draft(state),
        Message::ConfigSaved(outcome) => take_saved(state, outcome),
        Message::ResetConfigDraft => {
            reset_draft(state);
            nothing()
        },
        other => update_service(state, other, screen),
    }
}

/// Takes a message about one service, or hands it on.
fn update_service<H>(
    state: &mut State<H>,
    message: Message<H>,
    screen: Option<&mut TermHandle>,
) -> (result: Vec<Effect>)
    requires
        !(message is NavSelected)
            && !(message is ServiceSelected)
            && !(message is BrowsePath)
            && !(message is PathEdited)
            && !(message is PathBrowsed)
            && !(message is SaveConfig)
            && !(message is ConfigSaved)
            && !(message is ResetConfigDraft),
        screen_needed(old(state)@, message) is Some ==> screen is Some,
        message matches Message::ServiceTerminalReady(kind, _) ==> old(state)@.wants(kind) && old(
            state,
        )@.restart_marker[kind.slot()] ==> sturdy(lent(screen)->0.emulator),
    ensures
        follows(old(state)@, message, lent(screen), final(state)@, effect_views(result@)),
        screen matches Some(handle) ==> Some(*final(handle)) == step(
            old(state)@,
            message,
            lent(screen),
        ).screen,
        screen matches Some(handle) ==> clears(old(state)@, message, *handle, *final(handle)),
{
    match message {
        Message::StartService(kind) => start_one(state, kind),
        Message::StopService(kind) => stop_one(state, kind),
        Message::RestartService(kind) => restart_one(state, kind),
        Message::SetDesired(kind, desired) => {
            resume(state, kind, desired);
            nothing()
        },
        Message::ServiceStarted(kind, pid) => {
            take_start(state, kind, pid);
            nothing()
        },
        Message::ServiceStopped(kind) => take_stop(state, kind, screen),
        Message::ServiceStartFailed(kind, reason) => {
            take_failure(state, kind, reason);
            nothing()
        },
        Message::ProcessKilled(kind) => take_kill(state, kind, screen),
        other => update_all(state, other, screen),
    }
}

/// Takes a message about all services or the window, or hands it on.
fn update_all<H>(
    state: &mut State<H>,
    message: Message<H>,
    screen: Option<&mut TermHandle>,
) -> (result: Vec<Effect>)
    requires
        !(message is NavSelected)
            && !(message is ServiceSelected)
            && !(message is BrowsePath)
            && !(message is PathEdited)
            && !(message is PathBrowsed)
            && !(message is SaveConfig)
            && !(message is ConfigSaved)
            && !(message is ResetConfigDraft)
            && !(message is StartService)
            && !(message is StopService)
            && !(message is RestartService)
            && !(message is SetDesired)
            && !(message is ServiceStarted)
            && !(message is ServiceStopped)
            && !(message is ServiceStartFailed)
            && !(message is ProcessKilled),
        screen_needed(old(state)@, message) is Some ==> screen is Some,
        message matches Message::ServiceTerminalReady(kind, _) ==> old(state)@.wants(kind) && old(
            state,
        )@.restart_marker[kind.slot()] ==> sturdy(lent(screen)->0.emulator),
    ensures
        follows(old(state)@, message, lent(screen), final(state)@, effect_views(result@)),
        screen matches Some(handle) ==> Some(*final(handle)) == step(
            old(state)@,
            message,
            lent(screen),
        ).screen,
        screen matches Some(handle) ==> clears(old(state)@, message, *handle, *final(handle)),
{
    match message {
        Message::ClientLaunched(outcome) => {
            take_client(state, outcome);
            nothing()
        },
        Message::StartAll => start_everything(state),
        Message::StopAll => stop_everything(state),
        Message::MysqlReady => {
            take_mysql(state);
            nothing()
        },
        Message::MysqlReadyFailed(reason) => {
            take_mysql_failure(state, reason);
            nothing()
        },
        Message::CloseRequested(window) => take_close(state, window),
        Message::ConfirmClose(yes) => take_confirmation(state, yes),
        other => update_terminal(state, other, screen),
    }
}

/// Takes a message about a terminal.
fn update_terminal<H>(
    state: &mut State<H>,
    message: Message<H>,
    screen: Option<&mut TermHandle>,
) -> (result: Vec<Effect>)
    requires
        message is TerminalData
            || message is ServiceTerminalReady
            || message is ClearTerminal
            || message is TermKeyEvent
            || message is TermScroll
            || message is TermPageScroll
            || message is WindowResized
            || message is TermResizeTick
            || message is ResizeSent,
        screen_needed(old(state)@, message) is Some ==> screen is Some,
        message matches Message::ServiceTerminalReady(kind, _) ==> old(state)@.wants(kind) && old(
            state,
        )@.restart_marker[kind.slot()] ==> sturdy(lent(screen)->0.emulator),
    ensures
        follows(old(state)@, message, lent(screen), final(state)@, effect_views(result@)),
        screen matches Some(handle) ==> Some(*final(handle)) == step(
            old(state)@,
            message,
            lent(screen),
        ).screen,
        screen matches Some(handle) ==> clears(old(state)@, message, *handle, *final(handle)),
{
    match message {
        Message::TerminalData(kind) => {
            take_output(state, kind, screen);
            nothing()
        },
        Message::ServiceTerminalReady(kind, terminal) => {
            take_terminal(state, kind, terminal, screen);
            nothing()
        },
        Message::ClearTerminal(kind) => {
            clear_terminal(state, kind, screen);
            nothing()
        },
        Message::TermKeyEvent(event) => take_key(state, event, screen),
        Message::TermScroll(n) => take_wheel(state, n, screen),
        Message::TermPageScroll(n) => {
            take_page(state, n, screen);
            nothing()
        },
        Message::WindowResized(fit_rows, fit_cols) => take_window_size(state, fit_rows, fit_cols),
        Message::TermResizeTick => tick(state),
        Message::ResizeSent(rows, cols, outcomes) => take_resize(state, (rows, cols), outcomes),
        _ => nothing(),
    }
}

/// The events of the window that the launcher tells apart.
#[derive(Debug, Clone, Copy, PartialEq, Eq, Structural)]
pub enum WindowEvent {
    CloseRequested,
    Resized,
    KeyPressed,
    WheelTurned,
    Other,
}

/// Whether an event of the window becomes a message. One that a widget has taken, such as a key
/// typed into a field, does not.
pub fn forwards(event: WindowEvent, captured: bool) -> (result: bool)
    ensures
        result == (!captured && event != WindowEvent::Other),
{
    !captured && event != WindowEvent::Other
}

/// The recipes of a list.
pub open spec fn recipe_views(recipes: Seq<ServiceRecipe>) -> Seq<RecipeView> {
    recipes.map_values(|recipe: ServiceRecipe| recipe@)
}

/// Adds the service to the list if it is to run.
fn subscribe<H>(state: &State<H>, kind: ServiceKind, recipes: &mut Vec<ServiceRecipe>)
    ensures
        recipe_views(final(recipes)@) == recipe_views(old(recipes)@) + subscribed(state@, kind),
{
    if state.desired[kind.index()] && state.config.path_set(kind) {
        recipes.push(ServiceRecipe { kind, path: state.config.path_for(kind).to_string() });
    }
    assert(recipe_views(recipes@) =~= recipe_views(old(recipes)@) + subscribed(state@, kind));
}

/// The services that are to run. A service whose recipe leaves the list, or changes in it, is let
/// go.
pub fn subscription<H>(state: &State<H>) -> (result: Vec<ServiceRecipe>)
    ensures
        recipe_views(result@) == subscriptions(state@),
{
    let mut recipes: Vec<ServiceRecipe> = Vec::new();
    assert(recipe_views(recipes@) =~= Seq::empty());
    subscribe(state, ServiceKind::Mysql, &mut recipes);
    subscribe(state, ServiceKind::Auth, &mut recipes);
    subscribe(state, ServiceKind::World, &mut recipes);
    assert(recipe_views(recipes@) =~= subscriptions(state@));
    recipes
}

} // verus!
