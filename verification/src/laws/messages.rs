//! What comes of each message, for every state: what it changes and to what, what is left to do,
//! and that everything else stays as it is.
use vstd::prelude::*;

use crate::app::{EffectView, Message};
use crate::config::{
    ConfigView, first_unset_is_none_iff_all_set, first_unset_is_the_first,
    set_paths_are_counted_one_by_one,
};
use crate::emulator::screen_size;
use crate::model::{
    MAX_ERRORS, StateView, all_stopped, attach, config_saved, confirm_close, detach, edit_path,
    evicted, evicted_name, mysql_failed, mysql_ready, note_client, note_failed, note_killed,
    note_started, note_stopped, owed_size, refresh_page, request_close, resize_sent, resize_tick,
    restart_service, resume_restart, start_all, start_service, step, stop_service,
};
use crate::service::{ServiceKind, Status};
use crate::terminal::{TermHandle, fed, restart_marker};
use crate::text::{decimal_digits, joined};

verus! {

/// There is no first service without a path exactly if each of the three has one.
pub(crate) proof fn lemma_all_paths(config: ConfigView)
    ensures
        config.first_unset(ServiceKind::SERVICES@) is None <==> config.has_path(ServiceKind::Mysql)
            && config.has_path(ServiceKind::Auth) && config.has_path(ServiceKind::World),
        config.first_unset(ServiceKind::SERVICES@) matches Some(kind) ==> kind
            != ServiceKind::Client && !config.has_path(kind),
{
    let services = ServiceKind::SERVICES@;
    first_unset_is_none_iff_all_set(config, services);
    assert(services[0] == ServiceKind::Mysql);
    assert(services[1] == ServiceKind::Auth);
    assert(services[2] == ServiceKind::World);
}

// Starting and stopping one program.

/// A service with a path starts: it is wanted, and on its way. The game client with a path is
/// launched from it and not supervised. Without a path nothing starts, and the settings page says
/// so.
pub proof fn starting_a_program<H>(
    s: StateView<H>,
    kind: ServiceKind,
    screen: Option<TermHandle>,
)
    requires
        s.shaped(),
    ensures
        ({
            let started = step(s, Message::StartService(kind), screen);
            let path = s.config.path(kind);
            let slot = kind.slot();
            &&& started.screen == screen
            &&& path.len() == 0 ==> {
                &&& started.effects.len() == 0
                &&& started.state == (StateView {
                    config_message: Some(kind.label_text() + " 路径为空,请先配置。"@),
                    ..s
                })
            }
            &&& path.len() > 0 && kind == ServiceKind::Client ==> {
                &&& started.effects == seq![EffectView::LaunchClient(path)]
                &&& started.state == (StateView { sequence_message: "正在启动客户端…"@, ..s })
            }
            &&& path.len() > 0 && kind != ServiceKind::Client ==> {
                &&& started.effects.len() == 0
                &&& started.state == (StateView {
                    config_message: None,
                    desired: s.desired.update(slot, true),
                    status: s.status.update(slot, Status::Starting),
                    ..s
                })
            }
        }),
{
    reveal(step);
    reveal(start_service);
}

/// A service told to stop is not wanted any more, and neither starts again nor says that it did.
/// Its process is ended if it has one, and it counts as stopping until then. A service that only
/// waited for MySQL is stopped at once. The game client is not told to stop.
pub proof fn stopping_a_service<H>(
    s: StateView<H>,
    kind: ServiceKind,
    screen: Option<TermHandle>,
)
    requires
        s.shaped(),
    ensures
        ({
            let told = step(s, Message::StopService(kind), screen);
            let slot = kind.slot();
            let ends = s.pids[slot] is Some && s.status[slot] != Status::Waiting;
            &&& told.screen == screen
            &&& kind == ServiceKind::Client ==> told.state == s && told.effects.len() == 0
            &&& kind != ServiceKind::Client ==> {
                &&& told.state == (StateView {
                    desired: s.desired.update(slot, false),
                    restart_pending: s.restart_pending.update(slot, false),
                    restart_marker: s.restart_marker.update(slot, false),
                    status: s.status.update(
                        slot,
                        if ends {
                            Status::Stopping
                        } else {
                            Status::Stopped
                        },
                    ),
                    ..s
                })
                &&& told.effects == if ends {
                    seq![EffectView::KillTree(kind, s.pids[slot]->0)]
                } else {
                    Seq::empty()
                }
            }
        }),
{
    reveal(step);
    reveal(stop_service);
}

/// A service told to restart is to start again once it has ended. Its process is ended if it has
/// one, and the pause begins at once if not. The game client is not told to restart.
pub proof fn restarting_a_service<H>(
    s: StateView<H>,
    kind: ServiceKind,
    screen: Option<TermHandle>,
)
    requires
        s.shaped(),
    ensures
        ({
            let told = step(s, Message::RestartService(kind), screen);
            let slot = kind.slot();
            &&& told.screen == screen
            &&& kind == ServiceKind::Client ==> told.state == s && told.effects.len() == 0
            &&& kind != ServiceKind::Client ==> {
                &&& told.state == (StateView {
                    desired: s.desired.update(slot, false),
                    restart_pending: s.restart_pending.update(slot, true),
                    status: s.status.update(slot, Status::Stopping),
                    ..s
                })
                &&& s.pids[slot] matches Some(pid) ==> told.effects == seq![
                    EffectView::KillTree(kind, pid),
                ]
                &&& s.pids[slot] is None ==> told.effects == seq![EffectView::DelayRestart(kind)]
            }
        }),
{
    reveal(step);
    reveal(restart_service);
    let told = step(s, Message::RestartService(kind), screen);
    if kind != ServiceKind::Client {
        assert(told.state.restart_marker =~= s.restart_marker);
    }
}

/// The end of a pause starts a service again exactly if its restart has not been called off, and
/// its page is to say so. Nothing else comes of it.
pub proof fn pauses_end_restarts<H>(
    s: StateView<H>,
    kind: ServiceKind,
    desired: bool,
    screen: Option<TermHandle>,
)
    requires
        s.shaped(),
    ensures
        ({
            let over = step(s, Message::SetDesired(kind, desired), screen);
            let slot = kind.slot();
            &&& over.screen == screen
            &&& over.effects.len() == 0
            &&& over.state == if desired && s.restart_pending[slot] {
                StateView {
                    desired: s.desired.update(slot, true),
                    restart_pending: s.restart_pending.update(slot, false),
                    restart_marker: s.restart_marker.update(slot, true),
                    status: s.status.update(slot, Status::Starting),
                    ..s
                }
            } else {
                s
            }
        }),
{
    reveal(step);
    reveal(resume_restart);
}

/// A service whose process has started runs, with that process, if it is still wanted.
pub proof fn started_services_run<H>(
    s: StateView<H>,
    kind: ServiceKind,
    pid: u32,
    screen: Option<TermHandle>,
)
    requires
        s.shaped(),
    ensures
        ({
            let noted = step(s, Message::ServiceStarted(kind, pid), screen);
            let slot = kind.slot();
            &&& noted.screen == screen
            &&& noted.effects.len() == 0
            &&& noted.state == if s.desired[slot] {
                StateView {
                    pids: s.pids.update(slot, Some(pid)),
                    status: s.status.update(slot, Status::Running),
                    ..s
                }
            } else {
                s
            }
        }),
{
    reveal(step);
    reveal(note_started);
}

/// A service that could not be started has failed, is not wanted any more and has neither a
/// process nor a terminal. The reason is its newest notice, and of more notices than are kept the
/// oldest goes.
pub proof fn failed_starts_leave_a_notice<H>(
    s: StateView<H>,
    kind: ServiceKind,
    reason: String,
    screen: Option<TermHandle>,
)
    requires
        s.shaped(),
        s.errors[kind.slot()].len() <= MAX_ERRORS,
    ensures
        ({
            let noted = step(s, Message::ServiceStartFailed(kind, reason), screen);
            let slot = kind.slot();
            let notices = noted.state.errors[slot];
            &&& noted.screen == screen
            &&& noted.effects.len() == 0
            &&& noted.state == (StateView {
                desired: s.desired.update(slot, false),
                pids: s.pids.update(slot, None),
                terminals: s.terminals.update(slot, None),
                restart_pending: s.restart_pending.update(slot, false),
                restart_marker: s.restart_marker.update(slot, false),
                status: s.status.update(slot, Status::Error),
                errors: s.errors.update(slot, notices),
                ..s
            })
            &&& added_notice(s.errors[slot], notices, "[启动失败] "@ + reason@)
        }),
{
    reveal(step);
    reveal(note_failed);
    lemma_noticed(s.errors[kind.slot()], "[启动失败] "@ + reason@);
}

/// The notices after one more: it is the last, those before it are the ones that were there, and
/// only where there were as many as are kept the oldest of them is gone.
pub open spec fn added_notice(
    before: Seq<Seq<char>>,
    after: Seq<Seq<char>>,
    notice: Seq<char>,
) -> bool {
    &&& after.len() > 0
    &&& after.last() == notice
    &&& before.len() < MAX_ERRORS ==> after.drop_last() == before
    &&& before.len() >= MAX_ERRORS ==> after.drop_last() == before.skip(
        before.len() - MAX_ERRORS + 1,
    )
}

proof fn lemma_noticed(before: Seq<Seq<char>>, notice: Seq<char>)
    requires
        before.len() <= MAX_ERRORS,
    ensures
        ({
            let all = before.push(notice);
            &&& before.len() < MAX_ERRORS ==> added_notice(before, all, notice)
            &&& before.len() == MAX_ERRORS ==> added_notice(before, all.skip(1), notice)
        }),
{
    let all = before.push(notice);
    assert(all.drop_last() =~= before);
    if before.len() == MAX_ERRORS {
        assert(all.skip(1).drop_last() =~= before.skip(1));
    }
}

/// A terminal that is ready is taken in if its service is still wanted. Its page starts at the
/// live screen with nothing shown, the notices go, its size is known, and a restarted service says
/// so on its screen, once.
pub proof fn ready_terminals_are_taken_in<H>(
    s: StateView<H>,
    kind: ServiceKind,
    terminal: H,
    screen: TermHandle,
)
    requires
        s.shaped(),
    ensures
        ({
            let taken = step(s, Message::ServiceTerminalReady(kind, terminal), Some(screen));
            let slot = kind.slot();
            &&& taken.effects.len() == 0
            &&& !s.desired[slot] ==> taken.state == s && taken.screen == Some(screen)
            &&& s.desired[slot] ==> {
                &&& taken.state == (StateView {
                    restart_marker: s.restart_marker.update(slot, false),
                    applied_grid: s.applied_grid.update(slot, screen_size(screen.emulator)),
                    terminals: s.terminals.update(slot, Some(terminal)),
                    grids: s.grids.update(slot, None),
                    scroll_offset: s.scroll_offset.update(slot, 0),
                    prev_scrollback_total: s.prev_scrollback_total.update(slot, 0),
                    errors: s.errors.update(slot, Seq::empty()),
                    ..s
                })
                &&& taken.screen == Some(
                    if s.restart_marker[slot] {
                        fed(screen, restart_marker())
                    } else {
                        screen
                    },
                )
            }
        }),
{
    reveal(step);
    reveal(attach);
}

/// A service that has ended has neither a process nor a terminal any more. It is stopped and not
/// wanted, unless it is to start again, for which the pause begins. The window closes if that was
/// waited for and no other process is left. The report that a process was ended counts only for a
/// service that is not wanted.
pub proof fn ended_services<H>(
    s: StateView<H>,
    kind: ServiceKind,
    killed: bool,
    screen: Option<TermHandle>,
)
    requires
        s.shaped(),
    ensures
        ({
            let ended = step(
                s,
                if killed {
                    Message::ProcessKilled(kind)
                } else {
                    Message::ServiceStopped(kind)
                },
                screen,
            );
            let slot = kind.slot();
            let again = s.restart_pending[slot];
            let last = forall|i: int| 0 <= i < 4 && i != slot ==> #[trigger] s.pids[i] is None;
            let closes = s.close_after_stop && !again && last;
            &&& killed && s.desired[slot] ==> ended.state == s && ended.effects.len() == 0
                && ended.screen == screen
            &&& !(killed && s.desired[slot]) ==> {
                &&& ended.state == (StateView {
                    pids: s.pids.update(slot, None),
                    terminals: s.terminals.update(slot, None),
                    status: if again {
                        s.status
                    } else {
                        s.status.update(slot, Status::Stopped)
                    },
                    desired: if again {
                        s.desired
                    } else {
                        s.desired.update(slot, false)
                    },
                    close_after_stop: s.close_after_stop && !closes,
                    close_window: if closes {
                        None
                    } else {
                        s.close_window
                    },
                    grids: s.grids.update(slot, ended.state.grids[slot]),
                    prev_scrollback_total: s.prev_scrollback_total.update(
                        slot,
                        ended.state.prev_scrollback_total[slot],
                    ),
                    ..s
                })
                &&& ended.effects == if again {
                    seq![EffectView::DelayRestart(kind)]
                } else if closes {
                    seq![EffectView::CloseWindow(s.close_window)]
                } else {
                    Seq::empty()
                }
                &&& s.terminals[slot] is None ==> ended.state.grids == s.grids
                    && ended.state.prev_scrollback_total == s.prev_scrollback_total && ended.screen
                    == screen
            }
        }),
{
    reveal(step);
    reveal(note_stopped);
    reveal(note_killed);
    lemma_detached(s, kind, screen);
    let slot = kind.slot();
    let left = s.pids.update(slot, None);
    if forall|i: int| 0 <= i < 4 && i != slot ==> #[trigger] s.pids[i] is None {
        assert(forall|i: int| 0 <= i < 4 ==> #[trigger] left[i] is None);
    } else {
        let i = choose|i: int| 0 <= i < 4 && i != slot && !(#[trigger] s.pids[i] is None);
        assert(!(left[i] is None));
    }
    if !s.desired[slot] {
        assert(s.desired.update(slot, false) =~= s.desired);
    }
}

/// What letting go of an ended process leaves alone.
proof fn lemma_detached<H>(s: StateView<H>, kind: ServiceKind, screen: Option<TermHandle>)
    requires
        s.shaped(),
    ensures
        ({
            let (gone, left) = detach(s, kind, screen);
            let slot = kind.slot();
            &&& gone == (StateView {
                pids: s.pids.update(slot, None),
                terminals: s.terminals.update(slot, None),
                grids: s.grids.update(slot, gone.grids[slot]),
                prev_scrollback_total: s.prev_scrollback_total.update(
                    slot,
                    gone.prev_scrollback_total[slot],
                ),
                ..s
            })
            &&& s.terminals[slot] is None ==> gone.grids == s.grids && gone.prev_scrollback_total
                == s.prev_scrollback_total && left == screen
        }),
{
    reveal(refresh_page);
    let gone = detach(s, kind, screen).0;
    let slot = kind.slot();
    assert(gone.scroll_offset =~= s.scroll_offset);
    assert(gone.grids =~= s.grids.update(slot, gone.grids[slot]));
    assert(gone.prev_scrollback_total =~= s.prev_scrollback_total.update(
        slot,
        gone.prev_scrollback_total[slot],
    ));
    assert(gone.pids =~= s.pids.update(slot, None));
    assert(gone.terminals =~= s.terminals.update(slot, None));
}

/// What came of launching the game client is told, with the reason if it failed.
pub proof fn launches_are_told<H>(
    s: StateView<H>,
    outcome: Result<(), String>,
    screen: Option<TermHandle>,
)
    ensures
        ({
            let told = step(s, Message::ClientLaunched(outcome), screen);
            &&& told.screen == screen
            &&& told.effects.len() == 0
            &&& told.state == (StateView { sequence_message: told.state.sequence_message, ..s })
            &&& outcome is Ok ==> told.state.sequence_message == "客户端已启动"@
            &&& outcome matches Err(reason) ==> told.state.sequence_message
                == "客户端启动失败: "@ + reason@
        }),
{
    reveal(step);
    reveal(note_client);
}

// Starting and stopping everything.

/// With every path set, starting everything starts MySQL, unless it runs or is on its way, and
/// waits for it. Auth and World, where they are stopped or have failed, wait for MySQL, whatever
/// MySQL's own status is. Every other status stays, and nothing but MySQL is wanted yet.
pub proof fn starting_everything<H>(
    s: StateView<H>,
    kind: ServiceKind,
    screen: Option<TermHandle>,
)
    requires
        s.shaped(),
        s.config.has_path(ServiceKind::Mysql),
        s.config.has_path(ServiceKind::Auth),
        s.config.has_path(ServiceKind::World),
    ensures
        ({
            let asked = step(s, Message::StartAll, screen);
            let slot = kind.slot();
            let begins = kind == ServiceKind::Mysql && s.status[slot] != Status::Running
                && !s.desired[slot];
            let waits = (kind == ServiceKind::Auth || kind == ServiceKind::World) && (s.status[slot]
                == Status::Stopped || s.status[slot] == Status::Error);
            &&& asked.screen == screen
            &&& asked.effects == seq![EffectView::WaitMysqlReady]
            &&& asked.state == (StateView {
                sequence_active: true,
                sequence_message: "正在启动 MySQL…"@,
                status: asked.state.status,
                desired: asked.state.desired,
                ..s
            })
            &&& asked.state.status.len() == 4 && asked.state.desired.len() == 4
            &&& asked.state.status[slot] == if begins {
                Status::Starting
            } else if waits {
                Status::Waiting
            } else {
                s.status[slot]
            }
            &&& asked.state.desired[slot] == (s.desired[slot] || begins)
        }),
{
    reveal(step);
    reveal(start_all);
    lemma_all_paths(s.config);
}

/// Without every path set, starting everything only says which path is missing, the first of them
/// in the order MySQL, Auth, World.
pub proof fn starting_everything_names_what_is_missing<H>(
    s: StateView<H>,
    screen: Option<TermHandle>,
)
    requires
        !(s.config.has_path(ServiceKind::Mysql) && s.config.has_path(ServiceKind::Auth)
            && s.config.has_path(ServiceKind::World)),
    ensures
        ({
            let asked = step(s, Message::StartAll, screen);
            &&& asked.screen == screen
            &&& asked.effects.len() == 0
            &&& asked.state == (StateView {
                sequence_active: false,
                sequence_message: asked.state.sequence_message,
                ..s
            })
            &&& asked.state.sequence_message == "一键启动需要先配置 "@ + (if !s.config.has_path(
                ServiceKind::Mysql,
            ) {
                ServiceKind::Mysql
            } else if !s.config.has_path(ServiceKind::Auth) {
                ServiceKind::Auth
            } else {
                ServiceKind::World
            }).label_text()
        }),
{
    reveal(step);
    reveal(start_all);
    lemma_all_paths(s.config);
    let services = ServiceKind::SERVICES@;
    let at = first_unset_is_the_first(s.config, services);
    assert(services[0] == ServiceKind::Mysql);
    assert(services[1] == ServiceKind::Auth);
    assert(services[2] == ServiceKind::World);
}

/// Once MySQL is ready, while everything is being started and MySQL runs or is wanted, each of
/// Auth and World that waits is wanted and starts. The others stay as they are. If MySQL is neither
/// running nor wanted, nothing starts.
pub proof fn mysql_lets_the_others_start<H>(
    s: StateView<H>,
    kind: ServiceKind,
    screen: Option<TermHandle>,
)
    requires
        s.shaped(),
    ensures
        ({
            let ready = step(s, Message::MysqlReady, screen);
            let slot = kind.slot();
            let up = s.status[0] == Status::Running || s.desired[0];
            let starts = s.sequence_active && up && (kind == ServiceKind::Auth || kind
                == ServiceKind::World) && s.status[slot] == Status::Waiting;
            &&& ready.screen == screen
            &&& ready.effects.len() == 0
            &&& !s.sequence_active ==> ready.state == s
            &&& s.sequence_active ==> ready.state == (StateView {
                sequence_active: false,
                sequence_message: if up {
                    "MySQL 就绪,已启动 Auth/World"@
                } else {
                    "MySQL 未在运行,已中止一键启动"@
                },
                status: ready.state.status,
                desired: ready.state.desired,
                ..s
            })
            &&& ready.state.status[slot] == if starts {
                Status::Starting
            } else {
                s.status[slot]
            }
            &&& ready.state.desired[slot] == (s.desired[slot] || starts)
        }),
{
    reveal(step);
    reveal(mysql_ready);
}

/// If MySQL does not become ready it has failed and is not wanted any more, with the reason as its
/// newest notice, and Auth and World do not wait any longer.
pub proof fn mysql_takes_the_waiting_with_it<H>(
    s: StateView<H>,
    kind: ServiceKind,
    reason: String,
    screen: Option<TermHandle>,
)
    requires
        s.shaped(),
        s.errors[0].len() <= MAX_ERRORS,
    ensures
        ({
            let failed = step(s, Message::MysqlReadyFailed(reason), screen);
            let slot = kind.slot();
            let notices = failed.state.errors[0];
            &&& failed.screen == screen
            &&& failed.effects.len() == 0
            &&& failed.state == (StateView {
                sequence_active: false,
                sequence_message: reason@,
                desired: s.desired.update(0, false),
                pids: s.pids.update(0, None),
                status: failed.state.status,
                errors: s.errors.update(0, notices),
                ..s
            })
            &&& failed.state.status[slot] == if kind == ServiceKind::Mysql {
                Status::Error
            } else if kind != ServiceKind::Client && s.status[slot] == Status::Waiting {
                Status::Stopped
            } else {
                s.status[slot]
            }
            &&& added_notice(s.errors[0], notices, "[一键启动] "@ + reason@)
        }),
{
    reveal(step);
    reveal(mysql_failed);
    lemma_noticed(s.errors[0], "[一键启动] "@ + reason@);
}

/// Told to stop together, by asking for that or by confirming to close, no service is wanted and
/// none is to start again. One with a process that runs or is on its way in or out stops, and every
/// other one is stopped.
pub proof fn stopping_everything<H>(
    s: StateView<H>,
    kind: ServiceKind,
    screen: Option<TermHandle>,
)
    requires
        s.shaped(),
    ensures
        ({
            let told = step(s, Message::StopAll, screen);
            let slot = kind.slot();
            let service = kind != ServiceKind::Client;
            let goes = s.pids[slot] is Some && (s.status[slot] == Status::Starting || s.status[slot]
                == Status::Running || s.status[slot] == Status::Stopping);
            &&& told.screen == screen
            &&& told.state == (StateView {
                sequence_active: false,
                sequence_message: Seq::empty(),
                restart_pending: told.state.restart_pending,
                restart_marker: told.state.restart_marker,
                status: told.state.status,
                desired: told.state.desired,
                ..s
            })
            &&& told.state.shaped()
            &&& !told.state.restart_pending[slot]
            &&& !told.state.restart_marker[slot]
            &&& told.state.desired[slot] == (s.desired[slot] && !service)
            &&& told.state.status[slot] == if !service {
                s.status[slot]
            } else if goes {
                Status::Stopping
            } else {
                Status::Stopped
            }
        }),
{
    reveal(step);
    reveal(all_stopped);
}

/// Confirming to close tells everything to stop just as asking for that does. The window closes at
/// once if there is no process, and otherwise once they have all ended. Declining takes back that
/// closing was asked for, and leaves the services alone.
pub proof fn answering_the_question<H>(s: StateView<H>, screen: Option<TermHandle>)
    requires
        s.shaped(),
    ensures
        ({
            let stopped = step(s, Message::StopAll, screen);
            let yes = step(s, Message::ConfirmClose(true), screen);
            let left = exists|i: int| 0 <= i < 4 && #[trigger] s.pids[i] is Some;
            &&& yes.screen == screen
            &&& yes.state == (StateView {
                close_pending: false,
                close_after_stop: left,
                close_window: if left {
                    s.close_window
                } else {
                    None
                },
                ..stopped.state
            })
            &&& yes.effects == if left {
                stopped.effects
            } else {
                stopped.effects.push(EffectView::CloseWindow(s.close_window))
            }
        }),
        ({
            let no = step(s, Message::ConfirmClose(false), screen);
            &&& no.screen == screen
            &&& no.effects.len() == 0
            &&& no.state == (StateView {
                close_pending: false,
                close_after_stop: false,
                close_window: None,
                ..s
            })
        }),
{
    reveal(step);
    reveal(confirm_close);
    reveal(all_stopped);
    let yes = step(s, Message::ConfirmClose(true), screen);
    let stopped = step(s, Message::StopAll, screen);
    assert(yes.state.pids == s.pids);
    if exists|i: int| 0 <= i < 4 && #[trigger] s.pids[i] is Some {
        let i = choose|i: int| 0 <= i < 4 && #[trigger] s.pids[i] is Some;
        assert(stopped.state.pids[i] is Some);
        assert(yes.effects =~= stopped.effects);
    } else {
        assert(forall|i: int| 0 <= i < 4 ==> #[trigger] stopped.state.pids[i] is None) by {
            assert(stopped.state.pids == s.pids);
        }
        assert(yes.effects =~= stopped.effects.push(EffectView::CloseWindow(s.close_window)));
    }
}

/// The window asks before it closes while any service has a process, or one on its way in or out,
/// and closes at once otherwise.
pub proof fn asking_to_close<H>(s: StateView<H>, window: u64, screen: Option<TermHandle>)
    requires
        s.shaped(),
    ensures
        ({
            let asked = step(s, Message::CloseRequested(window), screen);
            let busy = exists|i: int|
                0 <= i < 3 && (s.pids[i] is Some || #[trigger] s.status[i] == Status::Starting
                    || s.status[i] == Status::Running || s.status[i] == Status::Stopping);
            &&& asked.screen == screen
            &&& asked.state == (StateView {
                close_window: Some(window),
                close_pending: s.close_pending || busy,
                ..s
            })
            &&& asked.effects == if busy {
                Seq::empty()
            } else {
                seq![EffectView::CloseWindow(Some(window))]
            }
        }),
{
    reveal(step);
    reveal(request_close);
    let busy_at = |i: int| s.status[i].operational() || s.pids[i] is Some;
    assert(busy_at(0) ==> s.status[0] == s.status[0]);
    let asked = step(s, Message::CloseRequested(window), screen);
    let busy = exists|i: int|
        0 <= i < 3 && (s.pids[i] is Some || #[trigger] s.status[i] == Status::Starting
            || s.status[i] == Status::Running || s.status[i] == Status::Stopping);
    if busy {
        let i = choose|i: int|
            0 <= i < 3 && (s.pids[i] is Some || #[trigger] s.status[i] == Status::Starting
                || s.status[i] == Status::Running || s.status[i] == Status::Stopping);
        assert(busy_at(i));
        assert(i == 0 || i == 1 || i == 2);
    } else {
        assert(!busy_at(0) && !busy_at(1) && !busy_at(2)) by {
            assert(s.status[0] != Status::Starting);
            assert(s.status[1] != Status::Starting);
            assert(s.status[2] != Status::Starting);
        }
    }
}

// Settings.

/// Saving hands over the draft as it stands. Nothing else comes of asking for it.
pub proof fn saving_hands_over_the_draft<H>(s: StateView<H>, screen: Option<TermHandle>)
    ensures
        ({
            let asked = step(s, Message::SaveConfig, screen);
            &&& asked.screen == screen
            &&& asked.effects == seq![EffectView::SaveConfig(s.config_draft)]
            &&& asked.state == (StateView { config_message: None, ..s })
        }),
{
    reveal(step);
}

/// Editing one path in the draft, by typing or by picking a file, leaves the other paths and
/// everything else alone. Picking none changes nothing, resetting gives the paths in force, and
/// asking for a file only does that.
pub proof fn editing_the_draft<H>(
    s: StateView<H>,
    kind: ServiceKind,
    path: String,
    other: ServiceKind,
    screen: Option<TermHandle>,
)
    ensures
        ({
            let edited = step(s, Message::PathEdited(kind, path), screen);
            let picked = step(s, Message::PathBrowsed(kind, Some(path)), screen);
            let draft = edited.state.config_draft;
            &&& edited.screen == screen
            &&& edited.effects.len() == 0
            &&& edited.state == (StateView { config_draft: draft, config_message: None, ..s })
            &&& draft.path(other) == if other == kind {
                path@
            } else {
                s.config_draft.path(other)
            }
            &&& picked.state == edited.state
            &&& picked.effects.len() == 0
            &&& picked.screen == screen
        }),
        ({
            let none = step(s, Message::PathBrowsed(kind, None), screen);
            none.state == s && none.effects.len() == 0 && none.screen == screen
        }),
        ({
            let browse = step(s, Message::BrowsePath(kind), screen);
            browse.state == s && browse.effects == seq![EffectView::BrowsePath(kind)]
                && browse.screen == screen
        }),
        ({
            let reset = step(s, Message::ResetConfigDraft, screen);
            &&& reset.screen == screen
            &&& reset.effects.len() == 0
            &&& reset.state == (StateView {
                config_draft: s.config,
                config_message: Some("已还原未保存的修改"@),
                ..s
            })
        }),
{
    reveal(step);
    reveal(edit_path);
}

/// Paths that could not be saved change nothing but what the settings page says: the reason.
pub proof fn failed_saves_change_nothing<H>(
    s: StateView<H>,
    reason: String,
    screen: Option<TermHandle>,
)
    ensures
        ({
            let told = step(s, Message::ConfigSaved(Err(reason)), screen);
            &&& told.screen == screen
            &&& told.effects.len() == 0
            &&& told.state == (StateView { config_message: Some(reason@), ..s })
        }),
{
    reveal(step);
    reveal(config_saved);
}

/// Once the draft is saved it is in force. Each service whose path it replaces, and that is wanted,
/// has a process, or is anything but stopped or failed, is told to stop for good: one with a
/// process stops, one without is stopped. Every other program stays as it is.
pub proof fn saved_paths_stop_what_runs_from_the_old<H>(
    s: StateView<H>,
    kind: ServiceKind,
    screen: Option<TermHandle>,
)
    requires
        s.shaped(),
    ensures
        ({
            let saved = step(s, Message::ConfigSaved(Ok(())), screen);
            let slot = kind.slot();
            let told = kind != ServiceKind::Client && s.config.path(kind) != s.config_draft.path(
                kind,
            ) && (s.desired[slot] || s.pids[slot] is Some || !(s.status[slot] == Status::Stopped
                || s.status[slot] == Status::Error));
            &&& saved.screen == screen
            &&& saved.state == (StateView {
                config: s.config_draft,
                config_message: saved.state.config_message,
                status: saved.state.status,
                desired: saved.state.desired,
                restart_pending: saved.state.restart_pending,
                restart_marker: saved.state.restart_marker,
                ..s
            })
            &&& saved.state.shaped()
            &&& saved.state.desired[slot] == (s.desired[slot] && !told)
            &&& saved.state.restart_pending[slot] == (s.restart_pending[slot] && !told)
            &&& saved.state.restart_marker[slot] == (s.restart_marker[slot] && !told)
            &&& saved.state.status[slot] == if !told {
                s.status[slot]
            } else if s.pids[slot] is Some {
                Status::Stopping
            } else {
                Status::Stopped
            }
        }),
{
    reveal(step);
    reveal(config_saved);
    let mysql = evicted(s, ServiceKind::Mysql);
    let auth = evicted(mysql, ServiceKind::Auth);
    lemma_evicted(s, ServiceKind::Mysql);
    lemma_evicted(mysql, ServiceKind::Auth);
    lemma_evicted(auth, ServiceKind::World);
}

/// What the settings page says of saved paths: how many of the four programs have one, and which
/// services were told to stop because theirs was replaced, in order, if any were.
pub proof fn saved_paths_are_told<H>(s: StateView<H>, screen: Option<TermHandle>)
    requires
        s.shaped(),
    ensures
        ({
            let words = step(s, Message::ConfigSaved(Ok(())), screen).state.config_message;
            let one = |kind: ServiceKind|
                if s.config_draft.has_path(kind) {
                    1nat
                } else {
                    0
                };
            let count = one(ServiceKind::Mysql) + one(ServiceKind::Auth) + one(ServiceKind::World)
                + one(ServiceKind::Client);
            let told = |kind: ServiceKind|
                s.config.path(kind) != s.config_draft.path(kind) && (s.desired[kind.slot()]
                    || s.pids[kind.slot()] is Some || !(s.status[kind.slot()] == Status::Stopped
                    || s.status[kind.slot()] == Status::Error));
            let name = |kind: ServiceKind|
                if told(kind) {
                    seq![kind.label_text()]
                } else {
                    Seq::empty()
                };
            let names = name(ServiceKind::Mysql) + name(ServiceKind::Auth) + name(
                ServiceKind::World,
            );
            let saved = "已保存配置(已设置 "@ + decimal_digits(count) + "/4)"@;
            words == Some(
                if told(ServiceKind::Mysql) || told(ServiceKind::Auth) || told(
                    ServiceKind::World,
                ) {
                    saved + "; "@ + joined(names, "/"@)
                        + " 路径已变更, 已先停止旧进程, 请重新启动"@
                } else {
                    saved
                },
            )
        }),
{
    reveal(step);
    reveal(config_saved);
    set_paths_are_counted_one_by_one(s.config_draft);
    let told = |kind: ServiceKind|
        s.config.path(kind) != s.config_draft.path(kind) && (s.desired[kind.slot()]
            || s.pids[kind.slot()] is Some || !(s.status[kind.slot()] == Status::Stopped
            || s.status[kind.slot()] == Status::Error));
    let name = |kind: ServiceKind|
        if told(kind) {
            seq![kind.label_text()]
        } else {
            Seq::empty()
        };
    assert(evicted_name(s, ServiceKind::Mysql) =~= name(ServiceKind::Mysql));
    assert(evicted_name(s, ServiceKind::Auth) =~= name(ServiceKind::Auth));
    assert(evicted_name(s, ServiceKind::World) =~= name(ServiceKind::World));
}

/// Evicting a service touches nothing but the service, and there only what says whether it runs.
proof fn lemma_evicted<H>(s: StateView<H>, kind: ServiceKind)
    requires
        s.shaped(),
    ensures
        ({
            let t = evicted(s, kind);
            let slot = kind.slot();
            let told = s.config.path(kind) != s.config_draft.path(kind) && (s.desired[slot]
                || s.pids[slot] is Some || !(s.status[slot] == Status::Stopped || s.status[slot]
                == Status::Error));
            &&& t == (StateView {
                status: t.status,
                desired: t.desired,
                restart_pending: t.restart_pending,
                restart_marker: t.restart_marker,
                ..s
            })
            &&& t.shaped()
            &&& t.desired == s.desired.update(slot, s.desired[slot] && !told)
            &&& t.restart_pending == s.restart_pending.update(
                slot,
                s.restart_pending[slot] && !told,
            )
            &&& t.restart_marker == s.restart_marker.update(slot, s.restart_marker[slot] && !told)
            &&& t.status == s.status.update(
                slot,
                if !told {
                    s.status[slot]
                } else if s.pids[slot] is Some {
                    Status::Stopping
                } else {
                    Status::Stopped
                },
            )
        }),
{
    let t = evicted(s, kind);
    let slot = kind.slot();
    assert(s.status.update(slot, s.status[slot]) =~= s.status);
    assert(s.desired.update(slot, s.desired[slot]) =~= s.desired);
    assert(s.restart_pending.update(slot, s.restart_pending[slot]) =~= s.restart_pending);
    assert(s.restart_marker.update(slot, s.restart_marker[slot]) =~= s.restart_marker);
}

// Sizes.

/// A window of another size owes the terminals the size that fits it best, and it is looked at
/// again once the window has rested. Nothing else changes.
pub proof fn resized_windows_owe_a_size<H>(
    s: StateView<H>,
    fit_rows: i64,
    fit_cols: i64,
    screen: Option<TermHandle>,
)
    ensures
        ({
            let resized = step(s, Message::WindowResized(fit_rows, fit_cols), screen);
            let owed = resized.state.pending_resize;
            &&& resized.screen == screen
            &&& resized.effects == seq![EffectView::ScheduleResizeTick]
            &&& resized.state == (StateView { pending_resize: owed, ..s })
            &&& owed matches Some((rows, cols)) && 10 <= rows <= 60 && 40 <= cols <= 240
                && (10 <= fit_rows <= 60 ==> rows == fit_rows) && (fit_rows < 10 ==> rows == 10) && (
            fit_rows > 60 ==> rows == 60) && (40 <= fit_cols <= 240 ==> cols == fit_cols) && (
            fit_cols < 40 ==> cols == 40) && (fit_cols > 240 ==> cols == 240)
        }),
{
    reveal(step);
}

/// Once the window has rested, a service without a terminal has the size that is owed at once, and
/// every terminal that has another size is told it, all in one go. Nothing is owed then. Without a
/// size owed nothing happens.
pub proof fn rested_windows_tell_their_size<H>(
    s: StateView<H>,
    kind: ServiceKind,
    screen: Option<TermHandle>,
)
    requires
        s.shaped(),
    ensures
        ({
            let rested = step(s, Message::TermResizeTick, screen);
            let slot = kind.slot();
            &&& rested.screen == screen
            &&& s.pending_resize is None ==> rested.state == s && rested.effects.len() == 0
            &&& s.pending_resize matches Some(size) ==> {
                let told = kind != ServiceKind::Client && s.terminals[slot] is Some
                    && s.applied_grid[slot] != size;
                &&& rested.state == (StateView {
                    pending_resize: None,
                    applied_grid: rested.state.applied_grid,
                    ..s
                })
                &&& rested.state.applied_grid.len() == 4
                &&& rested.state.applied_grid[slot] == if kind != ServiceKind::Client
                    && s.terminals[slot] is None {
                    size
                } else {
                    s.applied_grid[slot]
                }
                &&& rested.effects.len() <= 1
                &&& told ==> rested.effects.len() == 1
                &&& rested.effects.len() == 1 ==> (rested.effects[0] matches EffectView::TryResize(
                    kinds,
                    rows,
                    cols,
                ) && (rows, cols) == size && kinds.contains(kind) == told && kinds.no_duplicates()
                    && kinds.len() > 0)
            }
        }),
{
    reveal(step);
    reveal(resize_tick);
    if s.pending_resize is Some {
        let size = s.pending_resize->0;
        let services = ServiceKind::SERVICES@;
        let pred = |kind: ServiceKind| owed_size(s, kind, size);
        assert(services.drop_last().drop_last().drop_last() =~= Seq::empty());
        assert(services.drop_last().drop_last().last() == ServiceKind::Mysql);
        assert(services.drop_last().last() == ServiceKind::Auth);
        assert(services.last() == ServiceKind::World);
        reveal_with_fuel(Seq::filter, 4);
        let one = |kind: ServiceKind|
            if pred(kind) {
                seq![kind]
            } else {
                Seq::empty()
            };
        let (a, b, c) = (one(ServiceKind::Mysql), one(ServiceKind::Auth), one(ServiceKind::World));
        let targets = services.filter(pred);
        assert(targets =~= a + b + c);
        if pred(kind) && kind != ServiceKind::Client {
            let at = match kind {
                ServiceKind::Mysql => 0,
                ServiceKind::Auth => a.len() as int,
                _ => (a.len() + b.len()) as int,
            };
            assert((a + b + c)[at] == kind);
        }
    }
}

/// What the terminals make of a size that they were told: those that took it have it, and if one
/// did not, the size is owed again and tried once more later.
pub proof fn told_sizes_are_noted<H>(
    s: StateView<H>,
    rows: u16,
    cols: u16,
    outcomes: Vec<(ServiceKind, bool)>,
    kind: ServiceKind,
    screen: Option<TermHandle>,
)
    requires
        s.shaped(),
    ensures
        ({
            let noted = step(s, Message::ResizeSent(rows, cols, outcomes), screen);
            let slot = kind.slot();
            let refused = exists|i: int| 0 <= i < outcomes@.len() && !(#[trigger] outcomes@[i]).1;
            &&& noted.screen == screen
            &&& noted.effects == if refused {
                seq![EffectView::ScheduleResizeTick]
            } else {
                Seq::empty()
            }
            &&& noted.state == (StateView {
                pending_resize: if refused {
                    Some((rows, cols))
                } else {
                    s.pending_resize
                },
                applied_grid: noted.state.applied_grid,
                ..s
            })
            &&& noted.state.applied_grid.len() == 4
            &&& noted.state.applied_grid[slot] == if outcomes@.contains((kind, true)) {
                (rows, cols)
            } else {
                s.applied_grid[slot]
            }
        }),
{
    reveal(step);
    reveal(resize_sent);
    if outcomes@.contains((kind, true)) {
        let j = choose|j: int| 0 <= j < outcomes@.len() && outcomes@[j] == (kind, true);
        assert(outcomes@[j].0.slot() == kind.slot() && outcomes@[j].1);
    }
    assert(forall|j: int|
        0 <= j < outcomes@.len() && (#[trigger] outcomes@[j]).0.slot() == kind.slot()
            && outcomes@[j].1 ==> outcomes@[j] == (kind, true));
}

} // verus!
