//! What holds of the launcher as a whole, whatever messages it takes.
use vstd::prelude::*;

use crate::app::{EffectView, KeyEvent, Message, NavTab};
use crate::config::{ConfigView, first_unset_is_none_iff_all_set};
use crate::emulator::{Emulator, history, lines, screen_size};
use crate::model::{
    MAX_ERRORS, StateView, Step, all_kills, all_stopped, attach, clear_page, config_saved,
    confirm_close, detach, edit_path, halted, idle, initial, kill_with_all, mysql_failed,
    mysql_ready, no_process, note_client, note_failed, note_killed, note_started, note_stopped,
    owed_size, paging, press_key, refresh_page, refreshed, request_close, resize_sent, resize_tick,
    restart_service, resume_restart, screen_needed, scroll_page, start_all, start_service, step,
    stop_service, subscribed, subscriptions, up_to_date,
};
use crate::process::{RecipeView, clamped};
use crate::service::{ServiceKind, Status};
use crate::terminal::{
    TermHandle, fed, restart_marker, scrolled_view_is_anchored, shown_grid, snapshot,
};

pub mod journeys;
pub mod messages;
pub mod pages;

verus! {

/// What holds of each service: it is wanted exactly while it starts or runs, and it has no process
/// while it is stopped, waits or has failed.
pub open spec fn service_sound<H>(s: StateView<H>, kind: ServiceKind) -> bool {
    let status = s.status[kind.slot()];
    &&& s.wants(kind) <==> status == Status::Starting || status == Status::Running
    &&& idle(status) ==> s.pids[kind.slot()] is None
}

/// What holds of the game client: it is never supervised.
pub open spec fn client_free<H>(s: StateView<H>) -> bool {
    let slot = ServiceKind::Client.slot();
    &&& !s.desired[slot]
    &&& s.pids[slot] is None
    &&& !s.restart_pending[slot]
    &&& !s.restart_marker[slot]
    &&& s.terminals[slot] is None
}

/// What holds of each page: few enough notices, and, while there is a terminal, a view that does
/// not stand above the oldest line.
pub open spec fn page_sound<H>(s: StateView<H>, slot: int) -> bool {
    &&& s.errors[slot].len() <= MAX_ERRORS
    &&& s.terminals[slot] is Some ==> s.scroll_offset[slot] <= s.prev_scrollback_total[slot]
}

/// What holds of the launcher at all times.
pub open spec fn sound<H>(s: StateView<H>) -> bool {
    &&& s.shaped()
    &&& service_sound(s, ServiceKind::Mysql)
    &&& service_sound(s, ServiceKind::Auth)
    &&& service_sound(s, ServiceKind::World)
    &&& client_free(s)
    &&& page_sound(s, 0)
    &&& page_sound(s, 1)
    &&& page_sound(s, 2)
    &&& page_sound(s, 3)
}

/// A screen whose number of scrolled-off lines can be counted.
pub open spec fn countable(screen: Option<TermHandle>) -> bool {
    screen matches Some(handle) ==> 0 <= history(handle.emulator) <= usize::MAX
}

/// The launcher starts out sound.
pub proof fn initial_is_sound<H>(config: ConfigView)
    ensures
        sound(initial::<H>(config)),
{
}

proof fn lemma_refreshed<H>(s: StateView<H>, kind: ServiceKind, screen: TermHandle)
    requires
        sound(s),
        countable(Some(screen)),
    ensures
        sound(refreshed(s, kind, screen)),
{
}

proof fn lemma_refresh_page<H>(s: StateView<H>, kind: ServiceKind, screen: Option<TermHandle>)
    requires
        sound(s),
        s.attached(kind) ==> screen is Some,
        countable(screen),
    ensures
        sound(refresh_page(s, kind, screen).0),
{
    reveal(refresh_page);
    if s.attached(kind) {
        lemma_refreshed(s, kind, screen->0);
    }
}

proof fn lemma_scroll_page<H>(s: StateView<H>, delta: int, screen: Option<TermHandle>)
    requires
        sound(s),
        s.attached(s.active_terminal) ==> screen is Some,
        countable(screen),
        i32::MIN <= delta <= i32::MAX,
    ensures
        sound(scroll_page(s, s.active_terminal, delta, screen).state),
{
    reveal(scroll_page);
}

proof fn lemma_service<H>(s: StateView<H>, kind: ServiceKind)
    requires
        sound(s),
    ensures
        sound(start_service(s, kind).state),
        sound(stop_service(s, kind).state),
        sound(restart_service(s, kind).state),
        sound(resume_restart(s, kind)),
        forall|pid: u32| sound(#[trigger] note_started(s, kind, pid)),
{
    reveal(start_service);
    reveal(stop_service);
    reveal(restart_service);
    reveal(resume_restart);
    reveal(note_started);
}

proof fn lemma_failed<H>(s: StateView<H>, kind: ServiceKind, reason: Seq<char>)
    requires
        sound(s),
    ensures
        sound(note_failed(s, kind, reason)),
        sound(mysql_failed(s, reason)),
{
    reveal(note_failed);
    reveal(mysql_failed);
}

proof fn lemma_detach<H>(s: StateView<H>, kind: ServiceKind, screen: Option<TermHandle>)
    requires
        sound(s),
        s.attached(kind) ==> screen is Some,
        countable(screen),
    ensures
        sound(detach(s, kind, screen).0),
        detach(s, kind, screen).0.pids == s.pids.update(kind.slot(), None),
        detach(s, kind, screen).0.desired == s.desired,
        detach(s, kind, screen).0.status == s.status,
{
    reveal(refresh_page);
}

proof fn lemma_ended<H>(
    s: StateView<H>,
    kind: ServiceKind,
    screen: Option<TermHandle>,
    killed: bool,
)
    requires
        sound(s),
        s.attached(kind) && (killed ==> !s.wants(kind)) ==> screen is Some,
        countable(screen),
    ensures
        !killed ==> sound(note_stopped(s, kind, screen).state),
        killed ==> sound(note_killed(s, kind, screen).state),
{
    reveal(note_stopped);
    reveal(note_killed);
    if !killed || !s.wants(kind) {
        lemma_detach(s, kind, screen);
    }
}

proof fn lemma_all<H>(s: StateView<H>, yes: bool)
    requires
        sound(s),
    ensures
        sound(start_all(s).state),
        sound(all_stopped(s)),
        sound(mysql_ready(s)),
        sound(confirm_close(s, yes).state),
{
    reveal(start_all);
    reveal(all_stopped);
    reveal(mysql_ready);
    reveal(confirm_close);
}

proof fn lemma_saved<H>(s: StateView<H>, outcome: Result<(), String>)
    requires
        sound(s),
    ensures
        sound(config_saved(s, outcome).state),
{
    reveal(config_saved);
}

proof fn lemma_pages<H>(s: StateView<H>, message: Message<H>, screen: Option<TermHandle>)
    requires
        sound(s),
        countable(screen),
        screen_needed(s, message) is Some ==> screen is Some,
    ensures
        message matches Message::ServiceTerminalReady(kind, terminal) ==> sound(
            attach(s, kind, terminal, screen).state,
        ),
        message matches Message::ClearTerminal(kind) ==> sound(clear_page(s, kind, screen).state),
        message matches Message::TermKeyEvent(event) ==> sound(press_key(s, event, screen).state),
        sound(resize_tick(s).state),
        message matches Message::ResizeSent(rows, cols, outcomes) ==> sound(
            resize_sent(s, (rows, cols), outcomes@).state,
        ),
{
    reveal(attach);
    reveal(clear_page);
    reveal(press_key);
    reveal(resize_tick);
    reveal(resize_sent);
}

/// Every message keeps the launcher sound.
pub proof fn every_step_keeps_sound<H>(
    s: StateView<H>,
    message: Message<H>,
    screen: Option<TermHandle>,
)
    requires
        sound(s),
        countable(screen),
        screen_needed(s, message) is Some ==> screen is Some,
    ensures
        sound(step(s, message, screen).state),
{
    reveal(step);
    match message {
        Message::NavSelected(tab) => {
            if tab == NavTab::Terminal {
                lemma_refresh_page(StateView { active_nav: tab, ..s }, s.active_terminal, screen);
            }
        },
        Message::ServiceSelected(kind) => {
            if kind.is_service() {
                lemma_refresh_page(StateView { active_terminal: kind, ..s }, kind, screen);
            }
        },
        Message::StartService(kind) => lemma_service(s, kind),
        Message::StopService(kind) => lemma_service(s, kind),
        Message::RestartService(kind) => lemma_service(s, kind),
        Message::SetDesired(kind, _) => lemma_service(s, kind),
        Message::ServiceStarted(kind, _) => lemma_service(s, kind),
        Message::ServiceStopped(kind) => lemma_ended(s, kind, screen, false),
        Message::ProcessKilled(kind) => lemma_ended(s, kind, screen, true),
        Message::ServiceStartFailed(kind, reason) => lemma_failed(s, kind, reason@),
        Message::MysqlReadyFailed(reason) => lemma_failed(s, ServiceKind::Mysql, reason@),
        Message::TerminalData(kind) => {
            if s.active_nav == NavTab::Terminal && s.active_terminal == kind {
                lemma_refresh_page(s, kind, screen);
            }
        },
        Message::ClientLaunched(_) => {
            reveal(note_client);
        },
        Message::StartAll => lemma_all(s, true),
        Message::StopAll => lemma_all(s, true),
        Message::MysqlReady => lemma_all(s, true),
        Message::ConfirmClose(yes) => lemma_all(s, yes),
        Message::ConfigSaved(outcome) => lemma_saved(s, outcome),
        Message::PathEdited(_, _) | Message::PathBrowsed(_, _) => {
            reveal(edit_path);
        },
        Message::CloseRequested(_) => {
            reveal(request_close);
        },
        Message::TermScroll(n) => {
            if s.terminal_in_front() && n != 0 {
                lemma_scroll_page(s, n as int, screen);
            }
        },
        Message::TermPageScroll(n) => {
            if s.terminal_in_front() && n != 0 {
                lemma_scroll_page(s, n as int, screen);
            }
        },
        _ => lemma_pages(s, message, screen),
    }
}

/// What speaks for an effect.
spec fn justified<H>(
    s: StateView<H>,
    message: Message<H>,
    after: StateView<H>,
    effect: EffectView,
) -> bool {
    match effect {
        EffectView::SendInput(kind, _) => {
            &&& message is TermKeyEvent
            &&& s.takes_keys()
            &&& kind == s.active_terminal
            &&& after.scroll_offset[kind.slot()] == 0
        },
        EffectView::KillTree(kind, pid) => {
            &&& kind.is_service()
            &&& s.pids[kind.slot()] == Some(pid)
            &&& !after.wants(kind)
        },
        EffectView::CloseWindow(_) => no_process(after),
        EffectView::DelayRestart(kind) => after.restart_pending[kind.slot()],
        _ => true,
    }
}

/// Something speaks for every effect.
spec fn all_justified<H>(
    s: StateView<H>,
    message: Message<H>,
    after: StateView<H>,
    effects: Seq<EffectView>,
) -> bool {
    forall|i: int|
        0 <= i < effects.len() ==> justified(s, message, after, #[trigger] effects[i])
}

proof fn lemma_kills<H>(s: StateView<H>, i: int)
    requires
        s.shaped(),
        0 <= i < all_kills(s).len(),
    ensures
        all_kills(s)[i] matches EffectView::KillTree(kind, pid) && kind.is_service()
            && s.pids[kind.slot()] == Some(pid) && !all_stopped(s).wants(kind),
{
    reveal(all_kills);
    reveal(all_stopped);
}

proof fn lemma_stop_effects<H>(s: StateView<H>, message: Message<H>, yes: bool)
    requires
        s.shaped(),
    ensures
        all_justified(s, message, all_stopped(s), all_kills(s)),
        all_justified(s, message, confirm_close(s, yes).state, confirm_close(s, yes).effects),
{
    assert forall|i: int| 0 <= i < all_kills(s).len() implies justified(
        s,
        message,
        all_stopped(s),
        #[trigger] all_kills(s)[i],
    ) by {
        lemma_kills(s, i);
    }
    reveal(confirm_close);
    if yes {
        let asked = StateView { close_pending: false, close_after_stop: true, ..s };
        assert(all_kills(asked) == all_kills(s)) by {
            reveal(all_kills);
        }
        let outcome = confirm_close(s, yes);
        assert forall|i: int| 0 <= i < outcome.effects.len() implies justified(
            s,
            message,
            outcome.state,
            #[trigger] outcome.effects[i],
        ) by {
            if i < all_kills(s).len() {
                assert(outcome.effects[i] == all_kills(asked)[i]);
                lemma_kills(asked, i);
            }
        }
    }
}

proof fn lemma_saved_effects<H>(s: StateView<H>, message: Message<H>, outcome: Result<(), String>)
    requires
        s.shaped(),
    ensures
        all_justified(s, message, config_saved(s, outcome).state, config_saved(s, outcome).effects),
{
    reveal(config_saved);
}

proof fn lemma_ended_effects<H>(
    s: StateView<H>,
    message: Message<H>,
    kind: ServiceKind,
    screen: Option<TermHandle>,
)
    requires
        s.shaped(),
    ensures
        all_justified(
            s,
            message,
            note_stopped(s, kind, screen).state,
            note_stopped(s, kind, screen).effects,
        ),
        all_justified(
            s,
            message,
            note_killed(s, kind, screen).state,
            note_killed(s, kind, screen).effects,
        ),
{
    reveal(note_stopped);
    reveal(note_killed);
    reveal(refresh_page);
}

proof fn lemma_effects<H>(
    s: StateView<H>,
    message: Message<H>,
    screen: Option<TermHandle>,
    i: int,
)
    requires
        sound(s),
        0 <= i < step(s, message, screen).effects.len(),
    ensures
        justified(
            s,
            message,
            step(s, message, screen).state,
            step(s, message, screen).effects[i],
        ),
{
    reveal(step);
    match message {
        Message::StartService(_) => {
            reveal(start_service);
        },
        Message::StopService(_) => {
            reveal(stop_service);
        },
        Message::RestartService(_) => {
            reveal(restart_service);
        },
        Message::ServiceStopped(kind) => lemma_ended_effects(s, message, kind, screen),
        Message::ProcessKilled(kind) => lemma_ended_effects(s, message, kind, screen),
        Message::ServiceTerminalReady(_, _) => {
            reveal(attach);
        },
        Message::ClearTerminal(_) => {
            reveal(clear_page);
        },
        Message::StartAll => {
            reveal(start_all);
        },
        Message::StopAll => lemma_stop_effects(s, message, true),
        Message::ConfirmClose(yes) => lemma_stop_effects(s, message, yes),
        Message::ConfigSaved(outcome) => lemma_saved_effects(s, message, outcome),
        Message::CloseRequested(_) => {
            reveal(request_close);
            assert forall|slot: int| 0 <= slot < s.pids.len() implies #[trigger] s.pids[slot] is None by {
                assert(slot == ServiceKind::Mysql.slot() || slot == ServiceKind::Auth.slot() || slot
                    == ServiceKind::World.slot() || slot == ServiceKind::Client.slot());
            }
        },
        Message::TermKeyEvent(_) => {
            reveal(press_key);
        },
        Message::TermScroll(_) | Message::TermPageScroll(_) => {
            reveal(scroll_page);
        },
        Message::TermResizeTick => {
            reveal(resize_tick);
        },
        Message::ResizeSent(_, _, _) => {
            reveal(resize_sent);
        },
        _ => {},
    }
}

/// Input goes to a program only for a key press, while the terminal page is in front, nothing is
/// being asked, and the program runs in a terminal. The page is back at the live screen then.
pub proof fn input_goes_to_the_front_terminal<H>(
    s: StateView<H>,
    message: Message<H>,
    screen: Option<TermHandle>,
    kind: ServiceKind,
    bytes: Seq<u8>,
)
    requires
        sound(s),
        step(s, message, screen).effects.contains(EffectView::SendInput(kind, bytes)),
    ensures
        message is TermKeyEvent,
        s.active_nav == NavTab::Terminal,
        !s.close_pending,
        kind == s.active_terminal,
        s.status[kind.slot()] == Status::Running,
        s.attached(kind),
        step(s, message, screen).state.scroll_offset[kind.slot()] == 0,
{
    let effects = step(s, message, screen).effects;
    let i = choose|i: int| 0 <= i < effects.len() && effects[i] == EffectView::SendInput(kind, bytes);
    lemma_effects(s, message, screen, i);
}

/// A process is ended only if it is the service's own, and its service is not wanted any more.
pub proof fn kills_end_unwanted_processes<H>(
    s: StateView<H>,
    message: Message<H>,
    screen: Option<TermHandle>,
    kind: ServiceKind,
    pid: u32,
)
    requires
        sound(s),
        step(s, message, screen).effects.contains(EffectView::KillTree(kind, pid)),
    ensures
        kind.is_service(),
        s.pids[kind.slot()] == Some(pid),
        !step(s, message, screen).state.wants(kind),
{
    let effects = step(s, message, screen).effects;
    let i = choose|i: int| 0 <= i < effects.len() && effects[i] == EffectView::KillTree(kind, pid);
    lemma_effects(s, message, screen, i);
}

/// The window closes only once no process is left.
pub proof fn window_closes_after_the_last_process<H>(
    s: StateView<H>,
    message: Message<H>,
    screen: Option<TermHandle>,
    window: Option<u64>,
)
    requires
        sound(s),
        step(s, message, screen).effects.contains(EffectView::CloseWindow(window)),
    ensures
        no_process(step(s, message, screen).state),
{
    let effects = step(s, message, screen).effects;
    let i = choose|i: int| 0 <= i < effects.len() && effects[i] == EffectView::CloseWindow(window);
    lemma_effects(s, message, screen, i);
}

/// A restarted service comes back: its process is ended, a pause follows, and then it is started
/// again and marked so that its page says so.
pub proof fn restart_brings_the_service_back<H>(
    s: StateView<H>,
    kind: ServiceKind,
    pid: u32,
    screen: Option<TermHandle>,
    screen_then: Option<TermHandle>,
)
    requires
        sound(s),
        kind.is_service(),
        s.pids[kind.slot()] == Some(pid),
    ensures
        ({
            let asked = step(s, Message::RestartService(kind), screen);
            let ended = step(asked.state, Message::ProcessKilled(kind), screen_then);
            let back = step(ended.state, Message::SetDesired(kind, true), None);
            &&& asked.effects == seq![EffectView::KillTree(kind, pid)]
            &&& asked.state.status[kind.slot()] == Status::Stopping
            &&& ended.effects == seq![EffectView::DelayRestart(kind)]
            &&& back.state.wants(kind)
            &&& back.state.status[kind.slot()] == Status::Starting
            &&& back.state.restart_marker[kind.slot()]
            &&& !back.state.restart_pending[kind.slot()]
        }),
{
    reveal(step);
    reveal(restart_service);
    reveal(note_killed);
    reveal(refresh_page);
    reveal(resume_restart);
}

/// A restart that is called off, by stopping the service or everything, stays off: the end of its
/// pause changes nothing.
pub proof fn stopping_calls_a_restart_off<H>(
    s: StateView<H>,
    kind: ServiceKind,
    screen: Option<TermHandle>,
)
    requires
        sound(s),
        kind.is_service(),
    ensures
        ({
            let stopped = step(s, Message::StopService(kind), screen).state;
            &&& !stopped.wants(kind)
            &&& step(stopped, Message::SetDesired(kind, true), screen).state == stopped
        }),
        ({
            let stopped = step(s, Message::StopAll, screen).state;
            &&& !stopped.wants(kind)
            &&& step(stopped, Message::SetDesired(kind, true), screen).state == stopped
        }),
{
    reveal(step);
    reveal(stop_service);
    reveal(all_stopped);
    reveal(resume_restart);
}

/// What comes late, of a service that is not wanted any more, changes nothing.
pub proof fn late_starts_are_ignored<H>(
    s: StateView<H>,
    kind: ServiceKind,
    pid: u32,
    terminal: H,
    screen: Option<TermHandle>,
)
    requires
        !s.wants(kind),
    ensures
        step(s, Message::ServiceStarted(kind, pid), screen).state == s,
        step(s, Message::ServiceTerminalReady(kind, terminal), screen).state == s,
        step(s, Message::ServiceTerminalReady(kind, terminal), screen).screen == screen,
{
    reveal(step);
    reveal(note_started);
    reveal(attach);
}

/// Once everything is told to stop, no service is wanted, none is to be started again, every
/// process is being ended, and a service without one is stopped.
pub proof fn stopping_everything_leaves_nothing_wanted<H>(
    s: StateView<H>,
    kind: ServiceKind,
    screen: Option<TermHandle>,
)
    requires
        sound(s),
        kind.is_service(),
    ensures
        ({
            let stopped = step(s, Message::StopAll, screen);
            &&& !stopped.state.wants(kind)
            &&& !stopped.state.restart_pending[kind.slot()]
            &&& !stopped.state.sequence_active
            &&& subscriptions(stopped.state).len() == 0
            &&& stopped.state.status[kind.slot()] == halted(s.pids[kind.slot()])
            &&& s.pids[kind.slot()] matches Some(pid) ==> stopped.effects.contains(
                EffectView::KillTree(kind, pid),
            )
        }),
{
    reveal(step);
    reveal(all_stopped);
    reveal(all_kills);
    let effects = all_kills(s);
    let mysql = kill_with_all(s, ServiceKind::Mysql).len();
    let auth = kill_with_all(s, ServiceKind::Auth).len();
    let at = match kind {
        ServiceKind::Mysql => 0,
        ServiceKind::Auth => mysql as int,
        _ => (mysql + auth) as int,
    };
    if s.pids[kind.slot()] is Some {
        assert(effects[at] == EffectView::KillTree(kind, s.pids[kind.slot()]->0));
    }
}

/// With MySQL ready, the services that wait for it start, and the others stay as they are. If it
/// does not become ready, the services that wait for it are stopped.
pub proof fn waiting_services_follow_mysql<H>(
    s: StateView<H>,
    kind: ServiceKind,
    reason: String,
    screen: Option<TermHandle>,
)
    requires
        sound(s),
        kind == ServiceKind::Auth || kind == ServiceKind::World,
    ensures
        ({
            let ready = step(s, Message::MysqlReady, screen).state;
            let released = s.sequence_active && s.wants(ServiceKind::Mysql)
                && s.status[kind.slot()] == Status::Waiting;
            &&& released ==> ready.wants(kind) && ready.status[kind.slot()] == Status::Starting
            &&& !released ==> ready.status[kind.slot()] == s.status[kind.slot()] && (ready.wants(kind)
                == s.wants(kind))
        }),
        ({
            let failed = step(s, Message::MysqlReadyFailed(reason), screen).state;
            &&& failed.wants(kind) == s.wants(kind)
            &&& s.status[kind.slot()] == Status::Waiting ==> failed.status[kind.slot()]
                == Status::Stopped
            &&& s.status[kind.slot()] != Status::Waiting ==> failed.status[kind.slot()]
                == s.status[kind.slot()]
            &&& failed.status[ServiceKind::Mysql.slot()] == Status::Error
            &&& !failed.sequence_active
        }),
{
    reveal(step);
    reveal(mysql_ready);
    reveal(mysql_failed);
}

/// Nothing starts with everything else while a service has no path.
pub proof fn starting_everything_needs_every_path<H>(
    s: StateView<H>,
    kind: ServiceKind,
    screen: Option<TermHandle>,
)
    requires
        kind.is_service(),
        !s.config.has_path(kind),
    ensures
        ({
            let asked = step(s, Message::StartAll, screen);
            &&& asked.effects.len() == 0
            &&& asked.state.status == s.status
            &&& asked.state.desired == s.desired
            &&& !asked.state.sequence_active
        }),
{
    reveal(step);
    reveal(start_all);
    let services = ServiceKind::SERVICES@;
    first_unset_is_none_iff_all_set(s.config, services);
    assert(services[kind.slot()] == kind);
}

/// What runs is what is wanted and has a path.
pub proof fn subscriptions_are_wanted_and_configured<H>(s: StateView<H>, kind: ServiceKind)
    ensures
        subscriptions(s).contains(RecipeView { kind, path: s.config.path(kind) })
            <==> kind.is_service() && s.wants(kind) && s.config.has_path(kind),
{
    let recipes = subscriptions(s);
    let recipe = RecipeView { kind, path: s.config.path(kind) };
    if kind.is_service() && s.wants(kind) && s.config.has_path(kind) {
        let mysql = subscribed(s, ServiceKind::Mysql).len();
        let auth = subscribed(s, ServiceKind::Auth).len();
        let at = match kind {
            ServiceKind::Mysql => 0,
            ServiceKind::Auth => mysql as int,
            _ => (mysql + auth) as int,
        };
        assert(recipes[at] == recipe);
    }
}

/// The paths in force change only when a draft is saved, and then they are the draft.
pub proof fn paths_change_only_when_saved<H>(
    s: StateView<H>,
    message: Message<H>,
    screen: Option<TermHandle>,
)
    ensures
        match message {
            Message::ConfigSaved(Ok(_)) => step(s, message, screen).state.config == s.config_draft,
            _ => step(s, message, screen).state.config == s.config,
        },
{
    reveal(step);
    reveal(refresh_page);
    reveal(scroll_page);
    reveal(start_service);
    reveal(stop_service);
    reveal(restart_service);
    reveal(resume_restart);
    reveal(note_started);
    reveal(note_stopped);
    reveal(note_killed);
    reveal(note_failed);
    reveal(note_client);
    reveal(attach);
    reveal(clear_page);
    reveal(press_key);
    reveal(resize_tick);
    reveal(resize_sent);
    reveal(start_all);
    reveal(all_stopped);
    reveal(mysql_ready);
    reveal(mysql_failed);
    reveal(config_saved);
    reveal(edit_path);
    reveal(request_close);
    reveal(confirm_close);
}

/// Edits to the draft touch no path in force, and resetting the draft takes them all back.
pub proof fn reset_takes_edits_back<H>(
    s: StateView<H>,
    kind: ServiceKind,
    path: String,
    screen: Option<TermHandle>,
)
    ensures
        ({
            let edited = step(s, Message::PathEdited(kind, path), screen).state;
            let reset = step(edited, Message::ResetConfigDraft, screen).state;
            &&& edited.config == s.config
            &&& edited.config_draft.path(kind) == path@
            &&& reset.config == s.config
            &&& reset.config_draft == s.config
        }),
{
    reveal(step);
    reveal(edit_path);
}

/// Saving paths never moves a running service to another path: a service that is still wanted
/// afterwards has the path that it had before.
pub proof fn saving_moves_no_running_service<H>(
    s: StateView<H>,
    kind: ServiceKind,
    screen: Option<TermHandle>,
)
    requires
        sound(s),
        kind.is_service(),
    ensures
        ({
            let saved = step(s, Message::ConfigSaved(Ok(())), screen).state;
            &&& saved.wants(kind) ==> s.wants(kind) && saved.config.path(kind) == s.config.path(kind)
            &&& s.wants(kind) && s.config.path(kind) == s.config_draft.path(kind) ==> saved.wants(
                kind,
            )
        }),
{
    reveal(step);
    reveal(config_saved);
}

/// A service that has ended, by itself or because it was told to, keeps its last screen on the
/// page, and keeps its viewing position. It takes no more input.
pub proof fn ended_services_keep_their_last_screen<H>(
    s: StateView<H>,
    kind: ServiceKind,
    screen: TermHandle,
)
    requires
        sound(s),
        s.attached(kind),
        countable(Some(screen)),
    ensures
        ({
            let ended = step(s, Message::ServiceStopped(kind), Some(screen)).state;
            keeps_last_screen(s, ended, kind, screen)
        }),
        ({
            let ended = step(s, Message::ProcessKilled(kind), Some(screen)).state;
            !s.wants(kind) ==> keeps_last_screen(s, ended, kind, screen)
        }),
{
    reveal(step);
    reveal(note_stopped);
    reveal(note_killed);
    reveal(refresh_page);
}

/// What is left of a service that has ended: a live snapshot of its last screen, taken now or
/// earlier, and the viewing position.
pub open spec fn keeps_last_screen<H>(
    s: StateView<H>,
    ended: StateView<H>,
    kind: ServiceKind,
    screen: TermHandle,
) -> bool {
    let slot = kind.slot();
    &&& !ended.attached(kind)
    &&& ended.pids[slot] is None
    &&& ended.scroll_offset[slot] == s.scroll_offset[slot]
    &&& ended.grids[slot] matches Some(grid) && grid.version == screen.version && grid.offset == 0
    &&& ended.grids[slot] == Some(snapshot(screen, 0)) || ended.grids[slot] == s.grids[slot]
}

/// The viewing position stays when a service ends, whether it has a terminal or not.
pub proof fn ending_keeps_the_viewing_position<H>(
    s: StateView<H>,
    kind: ServiceKind,
    screen: Option<TermHandle>,
)
    requires
        s.shaped(),
    ensures
        step(s, Message::ServiceStopped(kind), screen).state.scroll_offset == s.scroll_offset,
        step(s, Message::ProcessKilled(kind), screen).state.scroll_offset == s.scroll_offset,
{
    reveal(step);
    reveal(note_stopped);
    reveal(note_killed);
    reveal(refresh_page);
}

/// A new terminal starts its page afresh, and a terminal that is emptied does too.
pub proof fn new_terminals_start_afresh<H>(
    s: StateView<H>,
    kind: ServiceKind,
    terminal: H,
    screen: TermHandle,
)
    requires
        sound(s),
        s.wants(kind),
    ensures
        ({
            let ready = step(s, Message::ServiceTerminalReady(kind, terminal), Some(screen));
            &&& ready.state.terminals[kind.slot()] == Some(terminal)
            &&& ready.state.grids[kind.slot()] is None
            &&& ready.state.scroll_offset[kind.slot()] == 0
            &&& ready.state.errors[kind.slot()].len() == 0
            &&& ready.state.applied_grid[kind.slot()] == screen_size(screen.emulator)
            &&& !ready.state.restart_marker[kind.slot()]
            &&& ready.screen == if s.restart_marker[kind.slot()] {
                Some(fed(screen, restart_marker()))
            } else {
                Some(screen)
            }
        }),
        ({
            let cleared = step(s, Message::ClearTerminal(kind), Some(screen)).state;
            &&& cleared.grids[kind.slot()] is None
            &&& cleared.scroll_offset[kind.slot()] == 0
            &&& cleared.terminals == s.terminals
        }),
{
    reveal(step);
    reveal(attach);
    reveal(clear_page);
}

/// A key that pages, Shift with Page Up or Page Down, never reaches the program, and leaves the
/// state to the paging that follows it.
pub proof fn paging_keys_stay_in_the_launcher<H>(
    s: StateView<H>,
    event: KeyEvent,
    screen: Option<TermHandle>,
)
    requires
        event matches KeyEvent::Pressed { key, modifiers, .. } && paging(key@, modifiers) != 0,
    ensures
        ({
            let pressed = step(s, Message::TermKeyEvent(event), screen);
            &&& pressed.state == s
            &&& s.takes_keys() ==> pressed.effects.len() == 1 && pressed.effects[0] is PageScroll
            &&& !s.takes_keys() ==> pressed.effects.len() == 0
        }),
{
    reveal(step);
    reveal(press_key);
}

/// Scrolling up and then down by as much, with no output in between, comes back to where the page
/// stood, as long as the top is not reached.
pub proof fn scrolling_there_and_back<H>(s: StateView<H>, lines: i32, screen: TermHandle)
    requires
        sound(s),
        countable(Some(screen)),
        s.attached(s.active_terminal),
        s.terminal_in_front(),
        s.prev_scrollback_total[s.active_terminal.slot()] == history(screen.emulator),
        0 < lines,
        s.scroll_offset[s.active_terminal.slot()] + lines <= history(screen.emulator),
    ensures
        ({
            let up = step(s, Message::TermScroll(lines), Some(screen));
            let down = step(up.state, Message::TermScroll((-lines) as i32), Some(screen));
            let slot = s.active_terminal.slot();
            &&& up.state.scroll_offset[slot] == s.scroll_offset[slot] + lines
            &&& down.state.scroll_offset[slot] == s.scroll_offset[slot]
        }),
{
    reveal(step);
    reveal(scroll_page);
}

/// A size that every terminal takes is in force for every service, and nothing is left to do.
pub proof fn sizes_reach_every_terminal<H>(
    s: StateView<H>,
    size: (u16, u16),
    outcomes: Vec<(ServiceKind, bool)>,
    kind: ServiceKind,
)
    requires
        sound(s),
        kind.is_service(),
        s.pending_resize == Some(size),
        forall|service: ServiceKind|
            service.is_service() && #[trigger] owed_size(s, service, size) ==> outcomes@.contains(
                (service, true),
            ),
        forall|i: int| 0 <= i < outcomes@.len() ==> (#[trigger] outcomes@[i]).1,
    ensures
        ({
            let told = step(s, Message::TermResizeTick, None).state;
            let done = step(told, Message::ResizeSent(size.0, size.1, outcomes), None);
            &&& done.state.applied_grid[kind.slot()] == size
            &&& done.state.pending_resize is None
            &&& done.effects.len() == 0
        }),
{
    reveal(step);
    reveal(resize_tick);
    reveal(resize_sent);
    let told = step(s, Message::TermResizeTick, None).state;
    if owed_size(s, kind, size) {
        let j = choose|j: int| 0 <= j < outcomes@.len() && outcomes@[j] == (kind, true);
        assert(outcomes@[j].0.slot() == kind.slot());
    }
    let done = step(told, Message::ResizeSent(size.0, size.1, outcomes), None);
    assert(told.applied_grid[kind.slot()] == size || owed_size(s, kind, size));
    assert(done.state.applied_grid[kind.slot()] == size);
}

/// A size that some terminal does not take is tried again.
pub proof fn refused_sizes_are_tried_again<H>(
    s: StateView<H>,
    size: (u16, u16),
    outcomes: Vec<(ServiceKind, bool)>,
    kind: ServiceKind,
)
    requires
        outcomes@.contains((kind, false)),
    ensures
        ({
            let sent = step(s, Message::ResizeSent(size.0, size.1, outcomes), None);
            &&& sent.state.pending_resize == Some(size)
            &&& sent.effects == seq![EffectView::ScheduleResizeTick]
        }),
{
    reveal(step);
    reveal(resize_sent);
    let j = choose|j: int| 0 <= j < outcomes@.len() && outcomes@[j] == (kind, false);
    assert(!outcomes@[j].1);
}

/// Of the notices of a program the newest is kept, whatever their number.
pub proof fn newest_notice_is_kept<H>(s: StateView<H>, kind: ServiceKind, notice: Seq<char>)
    requires
        sound(s),
    ensures
        s.noticed(kind, notice).errors[kind.slot()].last() == notice,
        0 < s.noticed(kind, notice).errors[kind.slot()].len() <= MAX_ERRORS,
{
}

/// A window that is asked to close while something runs asks back and stays open. Declining that
/// leaves the services as they are.
pub proof fn closing_asks_while_something_runs<H>(
    s: StateView<H>,
    window: u64,
    kind: ServiceKind,
    screen: Option<TermHandle>,
)
    requires
        kind.is_service(),
        s.status[kind.slot()].operational() || s.pids[kind.slot()] is Some,
    ensures
        ({
            let asked = step(s, Message::CloseRequested(window), screen);
            let declined = step(asked.state, Message::ConfirmClose(false), screen);
            &&& asked.effects.len() == 0
            &&& asked.state.close_pending
            &&& declined.effects.len() == 0
            &&& !declined.state.close_pending
            &&& declined.state.status == s.status
            &&& declined.state.desired == s.desired
            &&& declined.state.pids == s.pids
        }),
{
    reveal(step);
    reveal(request_close);
    reveal(confirm_close);
}

/// A page that looks at earlier lines stays on them while output comes in, as long as those lines
/// are kept and not written to.
pub proof fn scrolled_pages_stay_on_their_lines<H>(
    s: StateView<H>,
    before: Emulator,
    screen: TermHandle,
)
    requires
        sound(s),
        countable(Some(screen)),
        s.active_nav == NavTab::Terminal,
        s.attached(s.active_terminal),
        s.scroll_offset[s.active_terminal.slot()] > 0,
        s.prev_scrollback_total[s.active_terminal.slot()] == history(before),
        s.grids[s.active_terminal.slot()] matches Some(grid) ==> grid.version != screen.version,
        screen_size(screen.emulator) == screen_size(before),
        history(before) <= history(screen.emulator),
        ({
            let top = history(before) - s.scroll_offset[s.active_terminal.slot()];
            forall|i: int|
                top <= i < top + screen_size(before).0 ==> #[trigger] lines(screen.emulator)[i]
                    == lines(before)[i]
        }),
    ensures
        ({
            let kind = s.active_terminal;
            let seen = step(s, Message::TerminalData(kind), Some(screen)).state;
            &&& seen.grids[kind.slot()] matches Some(grid) && grid.rows == shown_grid(
                before,
                s.scroll_offset[kind.slot()] as int,
            )
            &&& seen.scroll_offset[kind.slot()] == s.scroll_offset[kind.slot()] + (history(
                screen.emulator,
            ) - history(before))
        }),
{
    reveal(step);
    reveal(refresh_page);
    let offset = s.scroll_offset[s.active_terminal.slot()] as int;
    scrolled_view_is_anchored(before, screen.emulator, offset);
}

/// Two states that agree on one program.
pub open spec fn agree_on<H>(a: StateView<H>, b: StateView<H>, kind: ServiceKind) -> bool {
    let slot = kind.slot();
    &&& a.status[slot] == b.status[slot]
    &&& a.desired[slot] == b.desired[slot]
    &&& a.pids[slot] == b.pids[slot]
    &&& a.restart_pending[slot] == b.restart_pending[slot]
    &&& a.restart_marker[slot] == b.restart_marker[slot]
    &&& a.terminals[slot] == b.terminals[slot]
    &&& a.grids[slot] == b.grids[slot]
    &&& a.scroll_offset[slot] == b.scroll_offset[slot]
    &&& a.prev_scrollback_total[slot] == b.prev_scrollback_total[slot]
    &&& a.errors[slot] == b.errors[slot]
    &&& a.applied_grid[slot] == b.applied_grid[slot]
}

/// The program that a message is about, if it is about one.
pub open spec fn about<H>(message: Message<H>) -> Option<ServiceKind> {
    match message {
        Message::StartService(kind) => Some(kind),
        Message::StopService(kind) => Some(kind),
        Message::RestartService(kind) => Some(kind),
        Message::SetDesired(kind, _) => Some(kind),
        Message::ServiceStarted(kind, _) => Some(kind),
        Message::ServiceStopped(kind) => Some(kind),
        Message::ServiceStartFailed(kind, _) => Some(kind),
        Message::ProcessKilled(kind) => Some(kind),
        Message::TerminalData(kind) => Some(kind),
        Message::ServiceTerminalReady(kind, _) => Some(kind),
        Message::ClearTerminal(kind) => Some(kind),
        _ => None,
    }
}

proof fn lemma_apart<H>(s: StateView<H>, kind: ServiceKind, other: ServiceKind)
    requires
        sound(s),
        kind != other,
    ensures
        agree_on(s, start_service(s, kind).state, other),
        agree_on(s, stop_service(s, kind).state, other),
        agree_on(s, restart_service(s, kind).state, other),
        agree_on(s, resume_restart(s, kind), other),
        forall|pid: u32| agree_on(s, #[trigger] note_started(s, kind, pid), other),
        forall|reason: Seq<char>| agree_on(s, #[trigger] note_failed(s, kind, reason), other),
{
    reveal(start_service);
    reveal(stop_service);
    reveal(restart_service);
    reveal(resume_restart);
    reveal(note_started);
    reveal(note_failed);
}

proof fn lemma_pages_apart<H>(
    s: StateView<H>,
    kind: ServiceKind,
    screen: Option<TermHandle>,
    other: ServiceKind,
)
    requires
        sound(s),
        kind != other,
    ensures
        agree_on(s, refresh_page(s, kind, screen).0, other),
        agree_on(s, clear_page(s, kind, screen).state, other),
        forall|terminal: H|
            agree_on(s, (#[trigger] attach(s, kind, terminal, screen)).state, other),
{
    reveal(refresh_page);
    reveal(clear_page);
    reveal(attach);
}

proof fn lemma_ends_apart<H>(
    s: StateView<H>,
    kind: ServiceKind,
    screen: Option<TermHandle>,
    other: ServiceKind,
)
    requires
        sound(s),
        kind != other,
    ensures
        agree_on(s, note_stopped(s, kind, screen).state, other),
        agree_on(s, note_killed(s, kind, screen).state, other),
{
    reveal(note_stopped);
    reveal(note_killed);
    reveal(refresh_page);
}

/// A message about one program leaves every other program as it is.
pub proof fn programs_do_not_disturb_each_other<H>(
    s: StateView<H>,
    message: Message<H>,
    screen: Option<TermHandle>,
    other: ServiceKind,
)
    requires
        sound(s),
        about(message) matches Some(kind) && kind != other,
    ensures
        agree_on(s, step(s, message, screen).state, other),
{
    reveal(step);
    let kind = about(message)->0;
    match message {
        Message::ServiceStopped(_) | Message::ProcessKilled(_) => lemma_ends_apart(
            s,
            kind,
            screen,
            other,
        ),
        Message::TerminalData(_) | Message::ServiceTerminalReady(_, _) | Message::ClearTerminal(
            _,
        ) => lemma_pages_apart(s, kind, screen, other),
        _ => lemma_apart(s, kind, other),
    }
}

/// A message that concerns no screen comes to the same whatever screen it is taken with, and
/// leaves that screen alone.
pub proof fn other_messages_leave_the_screen_alone<H>(
    s: StateView<H>,
    message: Message<H>,
    screen: Option<TermHandle>,
)
    requires
        screen_needed(s, message) is None,
    ensures
        step(s, message, screen) == (Step { screen, ..step(s, message, None) }),
{
    reveal(step);
    match message {
        Message::NavSelected(_) | Message::ServiceSelected(_) | Message::TerminalData(_) => {
            reveal(refresh_page);
        },
        Message::ServiceStopped(_) => {
            reveal(note_stopped);
            reveal(refresh_page);
        },
        Message::ProcessKilled(_) => {
            reveal(note_killed);
            reveal(refresh_page);
        },
        Message::ServiceTerminalReady(_, _) => {
            reveal(attach);
        },
        Message::ClearTerminal(_) => {
            reveal(clear_page);
        },
        Message::TermKeyEvent(_) => {
            reveal(press_key);
        },
        Message::TermScroll(_) | Message::TermPageScroll(_) => {
            reveal(scroll_page);
        },
        _ => {},
    }
}

/// A window that was confirmed to close does so when the last process ends, or at once if there
/// is none.
pub proof fn confirmed_windows_close_with_the_last_process<H>(
    s: StateView<H>,
    kind: ServiceKind,
    screen: Option<TermHandle>,
)
    requires
        sound(s),
        kind.is_service(),
    ensures
        no_process(s) ==> step(s, Message::ConfirmClose(true), screen).effects.contains(
            EffectView::CloseWindow(s.close_window),
        ),
        s.close_after_stop && !s.restart_pending[kind.slot()] && (forall|slot: int|
            0 <= slot < 4 && slot != kind.slot() ==> #[trigger] s.pids[slot] is None) ==> {
            &&& step(s, Message::ServiceStopped(kind), screen).effects == seq![
                EffectView::CloseWindow(s.close_window),
            ]
            &&& !s.wants(kind) ==> step(s, Message::ProcessKilled(kind), screen).effects == seq![
                EffectView::CloseWindow(s.close_window),
            ]
        },
{
    reveal(step);
    reveal(note_stopped);
    reveal(note_killed);
    reveal(refresh_page);
    reveal(confirm_close);
    if no_process(s) {
        let told = all_stopped(StateView { close_pending: false, close_after_stop: true, ..s });
        assert(told.pids == s.pids && told.close_after_stop && told.close_window
            == s.close_window) by {
            reveal(all_stopped);
        }
        assert forall|slot: int| 0 <= slot < told.pids.len() implies #[trigger] told.pids[slot]
            is None by {
            assert(s.pids[slot] is None);
        }
        let effects = step(s, Message::ConfirmClose(true), screen).effects;
        assert(effects.last() == EffectView::CloseWindow(s.close_window));
    }
}

/// Refreshing a page leaves it current: its snapshot has the version of its screen and stands at
/// the viewing position, which does not lie above the oldest line. A snapshot that was current
/// already is kept. A page without a terminal stays as it is, and so does everything else.
pub proof fn refreshed_pages_are_current<H>(
    s: StateView<H>,
    kind: ServiceKind,
    screen: Option<TermHandle>,
)
    requires
        sound(s),
        s.attached(kind) ==> screen is Some,
        countable(screen),
    ensures
        ({
            let slot = kind.slot();
            let seen = refresh_page(s, kind, screen).0;
            &&& !s.attached(kind) ==> seen == s
            &&& s.attached(kind) ==> {
                let offset = seen.scroll_offset[slot];
                &&& seen.grids[slot] matches Some(grid) && grid.version == screen->0.version
                    && grid.offset == offset
                &&& offset <= history(screen->0.emulator)
                &&& up_to_date(s.grids[slot], screen->0.version, offset as int) ==> seen.grids[slot]
                    == s.grids[slot]
                &&& !up_to_date(s.grids[slot], screen->0.version, offset as int)
                    ==> seen.grids[slot] == Some(snapshot(screen->0, offset as int))
            }
            &&& forall|other: ServiceKind| other != kind ==> #[trigger] agree_on(s, seen, other)
            &&& seen.status == s.status
            &&& seen.desired == s.desired
            &&& seen.pids == s.pids
            &&& seen.terminals == s.terminals
        }),
{
    reveal(refresh_page);
    assert forall|other: ServiceKind| other != kind implies #[trigger] agree_on(
        s,
        refresh_page(s, kind, screen).0,
        other,
    ) by {
        lemma_pages_apart(s, kind, screen, other);
    }
}

/// Scrolling moves the view by the lines asked for, within the lines that there are, and leaves
/// the page current. A page without a terminal stays as it is.
pub proof fn scrolling_stays_within_the_lines<H>(
    s: StateView<H>,
    kind: ServiceKind,
    delta: i32,
    screen: Option<TermHandle>,
)
    requires
        sound(s),
        s.attached(kind) ==> screen is Some && s.prev_scrollback_total[kind.slot()] == history(
            screen->0.emulator,
        ),
        countable(screen),
    ensures
        ({
            let slot = kind.slot();
            let moved = scroll_page(s, kind, delta as int, screen).state;
            &&& !s.attached(kind) ==> moved == s
            &&& s.attached(kind) ==> {
                let offset = clamped(
                    s.scroll_offset[slot] + delta,
                    0,
                    history(screen->0.emulator),
                );
                &&& moved.scroll_offset[slot] == offset
                &&& moved.grids[slot] matches Some(grid) && grid.version == screen->0.version
                    && grid.offset == offset
                &&& moved.grids[slot] == Some(snapshot(screen->0, offset)) || moved.grids[slot]
                    == s.grids[slot]
            }
        }),
{
    reveal(scroll_page);
}

} // verus!
