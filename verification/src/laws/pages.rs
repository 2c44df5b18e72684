//! What the messages about terminal pages come to: looking at a page, scrolling it, typing into it
//! and clearing it.
use vstd::prelude::*;

use crate::app::{EffectView, KeyEvent, Message, NavTab};
use crate::emulator::{application_keys, history, screen_size, scrolled};
use crate::input::{KeyView, Named, key_sequence};
use crate::laws::countable;
use crate::model::{
    StateView, clear_page, note_killed, note_stopped, press_key, refresh_page, screen_needed,
    scroll_page, step, text_view,
};
use crate::service::{ServiceKind, Status};
use crate::terminal::{TermHandle, cleared, snapshot};

verus! {

/// A page that is looked at, by opening the terminal page, by choosing its tab, or because its
/// program has written while it is in front, is brought up to date. Its snapshot has the version of
/// the screen and stands at the viewing position: the live screen stays live, and a view of earlier
/// lines moves up with what has scrolled off since, as far as there are lines. A snapshot that was
/// current already is kept. Nothing else changes but what is in front.
pub proof fn looking_at_a_page_brings_it_up_to_date<H>(
    s: StateView<H>,
    message: Message<H>,
    kind: ServiceKind,
    screen: TermHandle,
)
    requires
        s.shaped(),
        countable(Some(screen)),
        s.terminals[kind.slot()] is Some,
        match message {
            Message::NavSelected(tab) => tab == NavTab::Terminal && kind == s.active_terminal,
            Message::ServiceSelected(chosen) => chosen == kind && kind != ServiceKind::Client,
            Message::TerminalData(from) => from == kind && s.active_nav == NavTab::Terminal
                && s.active_terminal == kind,
            _ => false,
        },
    ensures
        ({
            let seen = step(s, message, Some(screen));
            let slot = kind.slot();
            let total = history(screen.emulator);
            let stood = s.scroll_offset[slot] as int;
            let prev = s.prev_scrollback_total[slot] as int;
            let offset = seen.state.scroll_offset[slot] as int;
            let current = s.grids[slot] matches Some(grid) && grid.version == screen.version
                && grid.offset == offset;
            &&& seen.state.active_terminal == kind
            &&& message is TerminalData || message is NavSelected ==> seen.state.active_nav
                == NavTab::Terminal
            &&& message is ServiceSelected ==> seen.state.active_nav == s.active_nav
            &&& seen.effects == if message is TerminalData {
                Seq::empty()
            } else {
                seq![EffectView::ResetWheel]
            }
            &&& stood == 0 ==> offset == 0
            &&& stood > 0 && total <= prev ==> offset == if stood <= total {
                stood
            } else {
                total
            }
            &&& stood > 0 && total > prev ==> offset == if stood + (total - prev) <= total {
                stood + (total - prev)
            } else {
                total
            }
            &&& seen.state.grids[slot] matches Some(grid) && grid.version == screen.version
                && grid.offset == offset
            &&& seen.state.grids[slot] == if current {
                s.grids[slot]
            } else {
                Some(snapshot(screen, offset))
            }
            &&& seen.state.prev_scrollback_total[slot] == total
            &&& seen.state == (StateView {
                active_nav: seen.state.active_nav,
                active_terminal: kind,
                grids: s.grids.update(slot, seen.state.grids[slot]),
                scroll_offset: s.scroll_offset.update(slot, offset as usize),
                prev_scrollback_total: s.prev_scrollback_total.update(slot, total as usize),
                ..s
            })
            &&& seen.screen == Some(
                TermHandle {
                    emulator: scrolled(
                        screen.emulator,
                        if current {
                            usize::MAX
                        } else {
                            0
                        },
                    ),
                    ..screen
                },
            )
        }),
{
    reveal(step);
    reveal(refresh_page);
    let seen = step(s, message, Some(screen));
    assert(seen.state.grids =~= s.grids.update(kind.slot(), seen.state.grids[kind.slot()]));
}

/// Looking at a page without a terminal only brings it in front. Choosing a page other than the
/// terminal page, output of a program in the background and choosing the game client refresh
/// nothing.
pub proof fn looking_elsewhere_refreshes_nothing<H>(
    s: StateView<H>,
    tab: NavTab,
    kind: ServiceKind,
    screen: Option<TermHandle>,
)
    requires
        s.shaped(),
    ensures
        tab != NavTab::Terminal || s.terminals[s.active_terminal.slot()] is None ==> {
            let chosen = step(s, Message::NavSelected(tab), screen);
            &&& chosen.state == (StateView { active_nav: tab, ..s })
            &&& chosen.effects == seq![EffectView::ResetWheel]
            &&& chosen.screen == screen
        },
        kind != ServiceKind::Client && s.terminals[kind.slot()] is None ==> {
            let chosen = step(s, Message::ServiceSelected(kind), screen);
            &&& chosen.state == (StateView { active_terminal: kind, ..s })
            &&& chosen.effects == seq![EffectView::ResetWheel]
            &&& chosen.screen == screen
        },
        ({
            let chosen = step(s, Message::ServiceSelected(ServiceKind::Client), screen);
            chosen.state == s && chosen.effects.len() == 0 && chosen.screen == screen
        }),
        s.active_nav != NavTab::Terminal || s.active_terminal != kind || s.terminals[kind.slot()]
            is None ==> {
            let wrote = step(s, Message::TerminalData(kind), screen);
            wrote.state == s && wrote.effects.len() == 0 && wrote.screen == screen
        },
{
    reveal(step);
    reveal(refresh_page);
}

/// Scrolling the front terminal by some lines, towards earlier ones if positive, moves its view by
/// as many, not above the oldest line and not below the live screen, and on with what has scrolled
/// off since the page was last looked at. The page is current then, and nothing else changes.
/// Paging moves it just so.
pub proof fn scrolling_moves_the_front_page<H>(s: StateView<H>, n: i32, screen: TermHandle)
    requires
        s.shaped(),
        countable(Some(screen)),
        !s.close_pending,
        s.active_nav == NavTab::Terminal,
        s.terminals[s.active_terminal.slot()] is Some,
        n != 0,
    ensures
        ({
            let moved = step(s, Message::TermScroll(n), Some(screen));
            let slot = s.active_terminal.slot();
            let total = history(screen.emulator);
            let wanted = s.scroll_offset[slot] + n;
            let asked = if wanted < 0 {
                0
            } else if n > 0 && wanted > total {
                total
            } else {
                wanted
            };
            let prev = s.prev_scrollback_total[slot] as int;
            let grown = if total > prev {
                total - prev
            } else {
                0
            };
            let offset = moved.state.scroll_offset[slot] as int;
            let current = s.grids[slot] matches Some(grid) && grid.version == screen.version
                && grid.offset == offset;
            &&& asked == 0 ==> offset == 0
            &&& asked > 0 ==> offset == if asked + grown <= total {
                asked + grown
            } else {
                total
            }
            &&& moved.effects.len() == 0
            &&& moved.state.grids[slot] == if current {
                s.grids[slot]
            } else {
                Some(snapshot(screen, offset))
            }
            &&& moved.state == (StateView {
                grids: s.grids.update(slot, moved.state.grids[slot]),
                scroll_offset: s.scroll_offset.update(slot, offset as usize),
                prev_scrollback_total: s.prev_scrollback_total.update(slot, total as usize),
                ..s
            })
            &&& moved.screen == Some(
                TermHandle {
                    emulator: scrolled(
                        screen.emulator,
                        if current {
                            usize::MAX
                        } else {
                            0
                        },
                    ),
                    ..screen
                },
            )
            &&& step(s, Message::TermPageScroll(n), Some(screen)) == moved
        }),
{
    reveal(step);
    reveal(scroll_page);
    let moved = step(s, Message::TermScroll(n), Some(screen));
    let slot = s.active_terminal.slot();
    assert(moved.state.grids =~= s.grids.update(slot, moved.state.grids[slot]));
    assert(moved.state.scroll_offset =~= s.scroll_offset.update(
        slot,
        moved.state.scroll_offset[slot],
    ));
}

/// Scrolling does nothing while a question is asked or another page is in front, for a program
/// without a terminal, and by no lines at all. The part of a line that the wheel has turned by is
/// forgotten unless the terminal page takes the scrolling.
pub proof fn scrolling_elsewhere_does_nothing<H>(
    s: StateView<H>,
    n: i32,
    screen: Option<TermHandle>,
)
    requires
        s.close_pending || s.active_nav != NavTab::Terminal || s.terminals[s.active_terminal.slot()]
            is None || n == 0,
    ensures
        ({
            let turned = step(s, Message::TermScroll(n), screen);
            let paged = step(s, Message::TermPageScroll(n), screen);
            &&& turned.state == s
            &&& turned.screen == screen
            &&& turned.effects == if s.close_pending || s.active_nav != NavTab::Terminal {
                seq![EffectView::ResetWheel]
            } else {
                Seq::empty()
            }
            &&& paged.state == s
            &&& paged.screen == screen
            &&& paged.effects.len() == 0
        }),
{
    reveal(step);
    reveal(scroll_page);
}

/// A key press goes to the front terminal while the terminal page is in front, nothing is asked,
/// and the program there runs in a terminal. Page Up and Page Down with Shift page by half a
/// screen, up or down, and by one line at least. Any other key sends the bytes that it stands for
/// in the mode that the program has asked for, and brings the view back to the live screen. A key
/// that stands for none does nothing.
pub proof fn key_presses_go_to_the_front_program<H>(
    s: StateView<H>,
    event: KeyEvent,
    screen: TermHandle,
)
    requires
        s.shaped(),
    ensures
        ({
            let pressed = step(s, Message::TermKeyEvent(event), Some(screen));
            let front = s.active_terminal;
            let slot = front.slot();
            let taken = !s.close_pending && s.active_nav == NavTab::Terminal && s.status[slot]
                == Status::Running && s.terminals[slot] is Some;
            &&& pressed.screen == Some(screen)
            &&& match event {
                KeyEvent::Pressed { key, text, modifiers } => if !taken {
                    pressed.state == s && pressed.effects.len() == 0
                } else if modifiers.shift && (key@ == KeyView::Named(Named::PageUp) || key@
                    == KeyView::Named(Named::PageDown)) {
                    let half = screen_size(screen.emulator).0 as int / 2;
                    let lines = if half >= 1 {
                        half
                    } else {
                        1
                    };
                    &&& pressed.state == s
                    &&& pressed.effects.len() == 1
                    &&& pressed.effects[0] matches EffectView::PageScroll(n) && n == if key@
                        == KeyView::Named(Named::PageUp) {
                        lines
                    } else {
                        -lines
                    }
                } else {
                    match key_sequence(
                        key@,
                        text_view(text),
                        modifiers,
                        application_keys(screen.emulator),
                    ) {
                        Some(bytes) => {
                            &&& pressed.effects == seq![EffectView::SendInput(front, bytes)]
                            &&& pressed.state == (StateView {
                                scroll_offset: s.scroll_offset.update(slot, 0),
                                ..s
                            })
                        },
                        None => pressed.state == s && pressed.effects.len() == 0,
                    }
                },
                KeyEvent::Other => pressed.state == s && pressed.effects.len() == 0,
            }
        }),
{
    reveal(step);
    reveal(press_key);
}

/// Clearing a terminal forgets what its page showed and where it stood, and clears its screen if
/// there is one. Nothing else changes.
pub proof fn clearing_a_terminal<H>(
    s: StateView<H>,
    kind: ServiceKind,
    screen: Option<TermHandle>,
)
    requires
        s.shaped(),
    ensures
        ({
            let done = step(s, Message::ClearTerminal(kind), screen);
            let slot = kind.slot();
            &&& done.effects.len() == 0
            &&& done.state == (StateView {
                grids: s.grids.update(slot, None),
                scroll_offset: s.scroll_offset.update(slot, 0),
                prev_scrollback_total: s.prev_scrollback_total.update(slot, 0),
                ..s
            })
            &&& done.screen == if s.terminals[slot] is Some {
                Some(cleared(screen->0))
            } else {
                screen
            }
        }),
{
    reveal(step);
    reveal(clear_page);
}

/// The page of a service that has ended shows the last screen, live: a snapshot of it, or the one
/// at hand if that shows it already. The screen itself is left as it was.
pub proof fn ended_services_show_their_last_screen<H>(
    s: StateView<H>,
    kind: ServiceKind,
    screen: TermHandle,
)
    requires
        s.shaped(),
        countable(Some(screen)),
        s.terminals[kind.slot()] is Some,
    ensures
        ({
            let slot = kind.slot();
            let stopped = step(s, Message::ServiceStopped(kind), Some(screen));
            let killed = step(s, Message::ProcessKilled(kind), Some(screen));
            let current = s.grids[slot] matches Some(grid) && grid.version == screen.version
                && grid.offset == 0;
            let shown = if current {
                s.grids[slot]
            } else {
                Some(snapshot(screen, 0))
            };
            let left = Some(
                TermHandle {
                    emulator: scrolled(
                        screen.emulator,
                        if current {
                            usize::MAX
                        } else {
                            0
                        },
                    ),
                    ..screen
                },
            );
            &&& stopped.state.grids[slot] == shown
            &&& stopped.state.prev_scrollback_total[slot] == history(screen.emulator)
            &&& stopped.screen == left
            &&& !s.desired[slot] ==> killed.state.grids[slot] == shown
                && killed.state.prev_scrollback_total[slot] == history(screen.emulator)
                && killed.screen == left
        }),
{
    reveal(step);
    reveal(note_stopped);
    reveal(note_killed);
    reveal(refresh_page);
}

/// The screen that a message is to be lent: that of the terminal that the message is about, or of
/// the front terminal for what is typed and scrolled and for opening the terminal page, as far as
/// there is a terminal and the message counts. A new terminal brings its own.
pub proof fn screens_are_lent_to_their_own_messages<H>(s: StateView<H>, message: Message<H>)
    ensures
        ({
            let front = s.active_terminal;
            let fronted = !s.close_pending && s.active_nav == NavTab::Terminal;
            let has = |kind: ServiceKind| s.terminals[kind.slot()] is Some;
            let lent = |kind: ServiceKind, counts: bool| screen_needed(s, message) == if counts {
                Some(kind)
            } else {
                None
            };
            match message {
                Message::NavSelected(tab) => lent(front, tab == NavTab::Terminal && has(front)),
                Message::ServiceSelected(kind) => lent(
                    kind,
                    kind != ServiceKind::Client && has(kind),
                ),
                Message::TerminalData(kind) => lent(
                    kind,
                    s.active_nav == NavTab::Terminal && front == kind && has(kind),
                ),
                Message::ServiceStopped(kind) => lent(kind, has(kind)),
                Message::ProcessKilled(kind) => lent(kind, !s.desired[kind.slot()] && has(kind)),
                Message::ServiceTerminalReady(kind, _) => lent(kind, s.desired[kind.slot()]),
                Message::ClearTerminal(kind) => lent(kind, has(kind)),
                Message::TermKeyEvent(_) => lent(
                    front,
                    fronted && s.status[front.slot()] == Status::Running && has(front),
                ),
                Message::TermScroll(n) => lent(front, fronted && n != 0 && has(front)),
                Message::TermPageScroll(n) => lent(front, fronted && n != 0 && has(front)),
                _ => screen_needed(s, message) is None,
            }
        }),
{
}

} // verus!
