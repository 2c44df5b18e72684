//! What whole sequences of messages come to, and which processes they end.
use vstd::prelude::*;

use crate::app::{EffectView, Message, NavTab};
use crate::config::ConfigView;
use crate::laws::messages::{
    answering_the_question, mysql_lets_the_others_start, saved_paths_stop_what_runs_from_the_old,
    starting_a_program, starting_everything, stopping_a_service, stopping_everything,
};
use crate::laws::sound;
use crate::model::{
    StateView, all_kills, config_saved, evicted_kill, initial, kill_with_all, step, subscribed,
    subscriptions,
};
use crate::process::RecipeView;
use crate::service::{ServiceKind, Status};
use crate::terminal::TermHandle;

verus! {

/// What three lists hold together, where each holds one element at most and no two share any.
proof fn lemma_three(a: Seq<EffectView>, b: Seq<EffectView>, c: Seq<EffectView>, x: EffectView)
    requires
        a.len() <= 1,
        b.len() <= 1,
        c.len() <= 1,
        a.len() == 1 && b.len() == 1 ==> a[0] != b[0],
        a.len() == 1 && c.len() == 1 ==> a[0] != c[0],
        b.len() == 1 && c.len() == 1 ==> b[0] != c[0],
    ensures
        (a + b + c).contains(x) <==> a.contains(x) || b.contains(x) || c.contains(x),
        (a + b + c).no_duplicates(),
{
    let all = a + b + c;
    if a.contains(x) {
        assert(all[0] == x);
    }
    if b.contains(x) {
        assert(all[a.len() as int] == x);
    }
    if c.contains(x) {
        assert(all[(a.len() + b.len()) as int] == x);
    }
    if all.contains(x) {
        let i = choose|i: int| 0 <= i < all.len() && all[i] == x;
        if i < a.len() {
            assert(a[i] == x);
        } else if i < a.len() + b.len() {
            assert(b[i - a.len()] == x);
        } else {
            assert(c[i - a.len() - b.len()] == x);
        }
    }
}

/// Told to stop together, exactly the processes are ended of services that run or are on their way
/// in or out, each once, and nothing else is left to do.
pub proof fn stopping_everything_ends_every_process<H>(
    s: StateView<H>,
    kind: ServiceKind,
    pid: u32,
    screen: Option<TermHandle>,
)
    requires
        s.shaped(),
    ensures
        ({
            let effects = step(s, Message::StopAll, screen).effects;
            let slot = kind.slot();
            &&& effects.contains(EffectView::KillTree(kind, pid)) <==> kind != ServiceKind::Client
                && s.pids[slot] == Some(pid) && (s.status[slot] == Status::Starting
                || s.status[slot] == Status::Running || s.status[slot] == Status::Stopping)
            &&& effects.no_duplicates()
            &&& forall|i: int| 0 <= i < effects.len() ==> #[trigger] effects[i] is KillTree
        }),
{
    reveal(step);
    reveal(all_kills);
    let mysql = kill_with_all(s, ServiceKind::Mysql);
    let auth = kill_with_all(s, ServiceKind::Auth);
    let world = kill_with_all(s, ServiceKind::World);
    let x = EffectView::KillTree(kind, pid);
    lemma_three(mysql, auth, world, x);
    lemma_kill(s, ServiceKind::Mysql, x);
    lemma_kill(s, ServiceKind::Auth, x);
    lemma_kill(s, ServiceKind::World, x);
}

/// What is left to do for one service when everything is told to stop.
proof fn lemma_kill<H>(s: StateView<H>, service: ServiceKind, x: EffectView)
    ensures
        ({
            let slot = service.slot();
            kill_with_all(s, service).contains(x) <==> s.pids[slot] is Some && x
                == EffectView::KillTree(service, s.pids[slot]->0) && (s.status[slot]
                == Status::Starting || s.status[slot] == Status::Running || s.status[slot]
                == Status::Stopping)
        }),
{
    let kills = kill_with_all(s, service);
    if kills.len() > 0 {
        assert(kills[0] == EffectView::KillTree(service, s.pids[service.slot()]->0));
    }
}

/// Confirming to close ends every process of every service, and waits for the last of them to end
/// before the window closes. Without a process the window closes at once.
pub proof fn closing_ends_every_process<H>(
    s: StateView<H>,
    kind: ServiceKind,
    pid: u32,
    screen: Option<TermHandle>,
)
    requires
        sound(s),
    ensures
        ({
            let confirmed = step(s, Message::ConfirmClose(true), screen);
            let slot = kind.slot();
            let left = exists|i: int| 0 <= i < 4 && #[trigger] s.pids[i] is Some;
            &&& confirmed.effects.contains(EffectView::KillTree(kind, pid)) <==> s.pids[slot]
                == Some(pid)
            &&& confirmed.state.close_after_stop == left
            &&& confirmed.effects.contains(EffectView::CloseWindow(s.close_window)) == !left
            &&& confirmed.effects.no_duplicates()
            &&& s.pids[slot] is Some ==> confirmed.state.status[slot] == Status::Stopping
            &&& !confirmed.state.desired[slot]
        }),
{
    stopping_everything_ends_every_process(s, kind, pid, screen);
    stopping_everything(s, kind, screen);
    answering_the_question(s, screen);
    let stopped = step(s, Message::StopAll, screen).effects;
    let confirmed = step(s, Message::ConfirmClose(true), screen).effects;
    let close = EffectView::CloseWindow(s.close_window);
    let kill = EffectView::KillTree(kind, pid);
    if exists|i: int| 0 <= i < 4 && #[trigger] s.pids[i] is Some {
        assert(confirmed == stopped);
    } else {
        assert(confirmed == stopped.push(close));
        assert(confirmed[stopped.len() as int] == close);
        if confirmed.contains(kill) {
            let i = choose|i: int| 0 <= i < confirmed.len() && confirmed[i] == kill;
            assert(stopped[i] == kill);
        }
    }
}

/// Everything told to stop in a sound state: every process of every service is ended, whatever its
/// status.
pub proof fn stopping_everything_spares_no_process<H>(
    s: StateView<H>,
    kind: ServiceKind,
    pid: u32,
    screen: Option<TermHandle>,
)
    requires
        sound(s),
    ensures
        step(s, Message::StopAll, screen).effects.contains(EffectView::KillTree(kind, pid))
            <==> s.pids[kind.slot()] == Some(pid),
{
    stopping_everything_ends_every_process(s, kind, pid, screen);
}

/// Saving paths ends exactly the processes of the services whose path is replaced, each once, and
/// nothing else is left to do. Such a service stops and is not wanted any more.
pub proof fn saving_ends_what_runs_from_a_replaced_path<H>(
    s: StateView<H>,
    kind: ServiceKind,
    pid: u32,
    screen: Option<TermHandle>,
)
    requires
        s.shaped(),
    ensures
        ({
            let saved = step(s, Message::ConfigSaved(Ok(())), screen);
            let slot = kind.slot();
            let replaced = kind != ServiceKind::Client && s.pids[slot] == Some(pid)
                && s.config.path(kind) != s.config_draft.path(kind);
            &&& saved.effects.contains(EffectView::KillTree(kind, pid)) <==> replaced
            &&& replaced ==> saved.state.status[slot] == Status::Stopping
                && !saved.state.desired[slot] && !saved.state.restart_pending[slot]
            &&& saved.effects.no_duplicates()
            &&& forall|i: int|
                0 <= i < saved.effects.len() ==> #[trigger] saved.effects[i] is KillTree
        }),
{
    saved_paths_stop_what_runs_from_the_old(s, kind, screen);
    reveal(step);
    reveal(config_saved);
    let mysql = evicted_kill(s, ServiceKind::Mysql);
    let auth = evicted_kill(s, ServiceKind::Auth);
    let world = evicted_kill(s, ServiceKind::World);
    let x = EffectView::KillTree(kind, pid);
    lemma_three(mysql, auth, world, x);
    lemma_evicted_kill(s, ServiceKind::Mysql, x);
    lemma_evicted_kill(s, ServiceKind::Auth, x);
    lemma_evicted_kill(s, ServiceKind::World, x);
}

proof fn lemma_evicted_kill<H>(s: StateView<H>, service: ServiceKind, x: EffectView)
    ensures
        ({
            let slot = service.slot();
            evicted_kill(s, service).contains(x) <==> s.pids[slot] is Some && x
                == EffectView::KillTree(service, s.pids[slot]->0) && s.config.path(service)
                != s.config_draft.path(service)
        }),
{
    let kills = evicted_kill(s, service);
    if kills.len() > 0 {
        assert(kills[0] == EffectView::KillTree(service, s.pids[service.slot()]->0));
    }
}

/// Starting everything brings Auth and World up once MySQL is ready: with every path set, each of
/// them that was stopped, had failed or waited already is then wanted and starts, whether MySQL had
/// to be started for it or ran before. One that was on its way or ran stays as it is.
pub proof fn one_click_starts_what_does_not_run<H>(
    s: StateView<H>,
    kind: ServiceKind,
    screen: Option<TermHandle>,
)
    requires
        sound(s),
        s.config.has_path(ServiceKind::Mysql),
        s.config.has_path(ServiceKind::Auth),
        s.config.has_path(ServiceKind::World),
        kind == ServiceKind::Auth || kind == ServiceKind::World,
    ensures
        ({
            let asked = step(s, Message::StartAll, screen).state;
            let ready = step(asked, Message::MysqlReady, screen).state;
            let slot = kind.slot();
            let down = s.status[slot] == Status::Stopped || s.status[slot] == Status::Error
                || s.status[slot] == Status::Waiting;
            &&& asked.desired[0]
            &&& down ==> asked.status[slot] == Status::Waiting && !asked.desired[slot]
            &&& down ==> ready.status[slot] == Status::Starting && ready.desired[slot]
                && subscriptions(ready).contains(RecipeView { kind, path: s.config.path(kind) })
            &&& !down ==> ready.status[slot] == s.status[slot] && ready.desired[slot]
                == s.desired[slot]
            &&& !ready.sequence_active
        }),
{
    starting_everything(s, kind, screen);
    starting_everything(s, ServiceKind::Mysql, screen);
    let asked = step(s, Message::StartAll, screen).state;
    mysql_lets_the_others_start(asked, kind, screen);
    let ready = step(asked, Message::MysqlReady, screen).state;
    what_runs_is_what_is_wanted(ready, RecipeView { kind, path: s.config.path(kind) });
}

/// What runs is every service that is wanted and has a path, from the path in force, once each, and
/// nothing else.
pub proof fn what_runs_is_what_is_wanted<H>(s: StateView<H>, recipe: RecipeView)
    ensures
        subscriptions(s).contains(recipe) <==> recipe.kind != ServiceKind::Client
            && s.desired[recipe.kind.slot()] && s.config.has_path(recipe.kind) && recipe.path
            == s.config.path(recipe.kind),
        subscriptions(s).no_duplicates(),
{
    let recipes = subscriptions(s);
    let mysql = subscribed(s, ServiceKind::Mysql);
    let auth = subscribed(s, ServiceKind::Auth);
    let kind = recipe.kind;
    if kind != ServiceKind::Client && s.desired[kind.slot()] && s.config.has_path(kind)
        && recipe.path == s.config.path(kind) {
        let at = match kind {
            ServiceKind::Mysql => 0,
            ServiceKind::Auth => mysql.len() as int,
            _ => (mysql.len() + auth.len()) as int,
        };
        assert(recipes[at] == recipe);
    }
}

/// The launcher starts out with every program stopped and unwanted, nothing shown on any terminal
/// page, the paths that it was given in force and as the draft, and the home page in front.
pub proof fn the_launcher_starts_out_idle<H>(config: ConfigView, kind: ServiceKind)
    ensures
        ({
            let s = initial::<H>(config);
            let slot = kind.slot();
            &&& s.shaped()
            &&& s.config == config
            &&& s.config_draft == config
            &&& s.config_message is None
            &&& s.active_nav == NavTab::Home
            &&& s.active_terminal == ServiceKind::Mysql
            &&& s.status[slot] == Status::Stopped
            &&& !s.desired[slot]
            &&& s.pids[slot] is None
            &&& !s.restart_pending[slot]
            &&& !s.restart_marker[slot]
            &&& s.terminals[slot] is None
            &&& s.grids[slot] is None
            &&& s.scroll_offset[slot] == 0
            &&& s.prev_scrollback_total[slot] == 0
            &&& s.errors[slot].len() == 0
            &&& s.applied_grid[slot] == (0u16, 0u16)
            &&& s.pending_resize is None
            &&& !s.sequence_active
            &&& s.sequence_message.len() == 0
            &&& !s.close_pending
            &&& !s.close_after_stop
            &&& s.close_window is None
            &&& subscriptions(s).len() == 0
        }),
{
}

/// Started and then stopped before anything came of it, a service is stopped and not wanted, and
/// nothing is left of the start but what the settings page said. Stopped twice is stopped once.
pub proof fn stopping_takes_a_start_back<H>(
    s: StateView<H>,
    kind: ServiceKind,
    screen: Option<TermHandle>,
)
    requires
        sound(s),
        kind != ServiceKind::Client,
        s.config.path(kind).len() > 0,
        s.status[kind.slot()] == Status::Stopped,
        !s.restart_pending[kind.slot()],
        !s.restart_marker[kind.slot()],
    ensures
        ({
            let started = step(s, Message::StartService(kind), screen).state;
            let stopped = step(started, Message::StopService(kind), screen);
            &&& stopped.state == (StateView { config_message: None, ..s })
            &&& stopped.effects.len() == 0
            &&& step(stopped.state, Message::StopService(kind), screen).state == stopped.state
        }),
{
    starting_a_program(s, kind, screen);
    let started = step(s, Message::StartService(kind), screen).state;
    stopping_a_service(started, kind, screen);
    let stopped = step(started, Message::StopService(kind), screen).state;
    assert(stopped.status =~= s.status);
    assert(stopped.desired =~= s.desired);
    assert(stopped.restart_pending =~= s.restart_pending);
    assert(stopped.restart_marker =~= s.restart_marker);
    stopping_a_service(stopped, kind, screen);
    let again = step(stopped, Message::StopService(kind), screen).state;
    assert(again.status =~= stopped.status);
    assert(again.desired =~= stopped.desired);
    assert(again.restart_pending =~= stopped.restart_pending);
    assert(again.restart_marker =~= stopped.restart_marker);
}

} // verus!
