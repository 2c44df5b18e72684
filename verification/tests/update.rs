use wow_launcher::app::{Effect, KeyEvent, Message, NavTab, State};
use wow_launcher::input::{Key, Modifiers, Named};
use wow_launcher::terminal::TermHandle;
use wow_launcher::update::{apply_scroll, refresh_grid, screen_target, subscription, update};
use wow_launcher::{Config, ServiceKind, Status};

const NONE: Modifiers = Modifiers { shift: false, control: false, alt: false };
const SHIFT: Modifiers = Modifiers { shift: true, control: false, alt: false };

fn configured() -> Config {
    Config {
        mysql_path: "mysqld.exe".to_string(),
        auth_path: "auth.exe".to_string(),
        world_path: "world.exe".to_string(),
        client_path: "wow.exe".to_string(),
    }
}

fn fresh() -> State<u8> {
    State::new(configured())
}

/// Takes a message that concerns no screen.
fn plain(state: &mut State<u8>, message: Message<u8>) -> Vec<Effect> {
    assert_eq!(screen_target(state, &message), None);
    update(state, message, None)
}

/// Takes a message that concerns the screen of `kind`.
fn with(
    state: &mut State<u8>,
    message: Message<u8>,
    kind: ServiceKind,
    screen: &mut TermHandle,
) -> Vec<Effect> {
    assert_eq!(screen_target(state, &message), Some(kind));
    update(state, message, Some(screen))
}

fn press(key: Key, text: Option<&str>, modifiers: Modifiers) -> Message<u8> {
    Message::TermKeyEvent(KeyEvent::Pressed {
        key,
        text: text.map(|s| s.to_string()),
        modifiers,
    })
}

/// A launcher with a running MySQL on the terminal page, and its screen.
fn running() -> (State<u8>, TermHandle) {
    let mut state = fresh();
    let mut screen = TermHandle::new(10, 40, 100);
    plain(&mut state, Message::StartService(ServiceKind::Mysql));
    plain(&mut state, Message::ServiceStarted(ServiceKind::Mysql, 11));
    with(
        &mut state,
        Message::ServiceTerminalReady(ServiceKind::Mysql, 1),
        ServiceKind::Mysql,
        &mut screen,
    );
    with(&mut state, Message::NavSelected(NavTab::Terminal), ServiceKind::Mysql, &mut screen);
    (state, screen)
}

/// Lets MySQL write some lines, and the page see them.
fn lines(state: &mut State<u8>, screen: &mut TermHandle, from: u32, to: u32) {
    for i in from..to {
        screen.feed(format!("line {i}\r\n").as_bytes());
    }
    with(state, Message::TerminalData(ServiceKind::Mysql), ServiceKind::Mysql, screen);
}

#[test]
fn the_launcher_starts_idle() {
    let state = fresh();
    assert_eq!(state.active_nav, NavTab::Home);
    assert_eq!(state.active_terminal, ServiceKind::Mysql);
    assert_eq!(state.status, [Status::Stopped; 4]);
    assert_eq!(state.desired, [false; 4]);
    assert_eq!(state.config.world_path, "world.exe");
    assert_eq!(state.config_draft.world_path, "world.exe");
    assert_eq!(state.sequence_message, "");
    assert!(subscription(&state).is_empty());
}

#[test]
fn starting_a_service_subscribes_it() {
    let mut state = fresh();
    state.config_message = Some("old".to_string());
    assert!(plain(&mut state, Message::StartService(ServiceKind::World)).is_empty());
    assert_eq!(state.status[2], Status::Starting);
    assert!(state.desired[2]);
    assert_eq!(state.config_message, None);
    let recipes = subscription(&state);
    assert_eq!(recipes.len(), 1);
    assert_eq!(recipes[0].kind, ServiceKind::World);
    assert_eq!(recipes[0].path, "world.exe");
    plain(&mut state, Message::ServiceStarted(ServiceKind::World, 9));
    assert_eq!(state.status[2], Status::Running);
    assert_eq!(state.pids[2], Some(9));
}

#[test]
fn starting_without_a_path_only_says_so() {
    let mut state: State<u8> = State::new(Config::default());
    assert!(plain(&mut state, Message::StartService(ServiceKind::Auth)).is_empty());
    assert_eq!(state.config_message.as_deref(), Some("Auth Server 路径为空,请先配置。"));
    assert_eq!(state.status, [Status::Stopped; 4]);
    assert!(!state.desired[1]);
}

#[test]
fn a_blank_path_starts_nothing() {
    let mut config = configured();
    config.auth_path = "   ".to_string();
    let mut state: State<u8> = State::new(config);
    plain(&mut state, Message::StartService(ServiceKind::Auth));
    assert_eq!(state.status[1], Status::Starting);
    assert!(subscription(&state).is_empty());
}

#[test]
fn the_client_is_launched_and_not_supervised() {
    let mut state = fresh();
    let effects = plain(&mut state, Message::StartService(ServiceKind::Client));
    assert!(matches!(effects.as_slice(), [Effect::LaunchClient(path)] if path == "wow.exe"));
    assert_eq!(state.sequence_message, "正在启动客户端…");
    assert_eq!(state.desired, [false; 4]);
    plain(&mut state, Message::ClientLaunched(Ok(())));
    assert_eq!(state.sequence_message, "客户端已启动");
    plain(&mut state, Message::ClientLaunched(Err("missing".to_string())));
    assert_eq!(state.sequence_message, "客户端启动失败: missing");
    assert!(plain(&mut state, Message::StopService(ServiceKind::Client)).is_empty());
    assert!(plain(&mut state, Message::RestartService(ServiceKind::Client)).is_empty());
    assert_eq!(state.status[3], Status::Stopped);
}

#[test]
fn stopping_ends_the_process_if_there_is_one() {
    let (mut state, mut screen) = running();
    let effects = plain(&mut state, Message::StopService(ServiceKind::Mysql));
    assert!(matches!(effects.as_slice(), [Effect::KillTree(ServiceKind::Mysql, 11)]));
    assert_eq!(state.status[0], Status::Stopping);
    assert!(!state.desired[0]);
    let effects = with(
        &mut state,
        Message::ProcessKilled(ServiceKind::Mysql),
        ServiceKind::Mysql,
        &mut screen,
    );
    assert!(effects.is_empty());
    assert_eq!(state.status[0], Status::Stopped);
    assert_eq!(state.pids[0], None);
    assert_eq!(state.terminals[0], None);
    assert!(state.grids[0].is_some());
    // Without a process there is nothing to end.
    plain(&mut state, Message::StartService(ServiceKind::Mysql));
    assert!(plain(&mut state, Message::StopService(ServiceKind::Mysql)).is_empty());
    assert_eq!(state.status[0], Status::Stopped);
}

#[test]
fn an_ended_service_keeps_its_last_screen() {
    let (mut state, mut screen) = running();
    lines(&mut state, &mut screen, 0, 30);
    with(&mut state, Message::TermScroll(5), ServiceKind::Mysql, &mut screen);
    assert_eq!(state.scroll_offset[0], 5);
    screen.feed(b"the end");
    let effects = with(
        &mut state,
        Message::ServiceStopped(ServiceKind::Mysql),
        ServiceKind::Mysql,
        &mut screen,
    );
    assert!(effects.is_empty());
    assert_eq!(state.status[0], Status::Stopped);
    assert!(!state.desired[0]);
    assert_eq!(state.terminals[0], None);
    assert_eq!(state.scroll_offset[0], 5);
    let grid = state.grids[0].as_ref().unwrap();
    assert_eq!(grid.offset, 0);
    assert_eq!(grid.version, screen.version);
    let last: String = grid.rows[9].iter().map(|run| run.text.as_str()).collect();
    assert!(last.starts_with("the end"));
    // The page is not refreshed any more.
    assert!(plain(&mut state, Message::TerminalData(ServiceKind::Mysql)).is_empty());
    assert!(plain(&mut state, Message::TermScroll(1)).is_empty());
}

#[test]
fn a_killed_service_keeps_its_viewing_position() {
    let (mut state, mut screen) = running();
    lines(&mut state, &mut screen, 0, 30);
    with(&mut state, Message::TermScroll(4), ServiceKind::Mysql, &mut screen);
    plain(&mut state, Message::StopService(ServiceKind::Mysql));
    screen.feed(b"bye");
    with(&mut state, Message::ProcessKilled(ServiceKind::Mysql), ServiceKind::Mysql, &mut screen);
    assert_eq!(state.scroll_offset[0], 4);
    assert_eq!(state.grids[0].as_ref().unwrap().offset, 0);
    assert_eq!(state.grids[0].as_ref().unwrap().version, screen.version);
    // A second report of the end changes nothing more.
    plain(&mut state, Message::ServiceStopped(ServiceKind::Mysql));
    assert_eq!(state.scroll_offset[0], 4);
    // A new terminal starts at the live screen.
    plain(&mut state, Message::StartService(ServiceKind::Mysql));
    let mut anew = TermHandle::new(10, 40, 100);
    let ready = Message::ServiceTerminalReady(ServiceKind::Mysql, 2);
    with(&mut state, ready, ServiceKind::Mysql, &mut anew);
    assert_eq!(state.scroll_offset[0], 0);
}

#[test]
fn a_refreshed_page_is_current() {
    let (mut state, mut screen) = running();
    lines(&mut state, &mut screen, 0, 30);
    with(&mut state, Message::TermScroll(7), ServiceKind::Mysql, &mut screen);
    screen.feed(b"more\r\n");
    with(&mut state, Message::TerminalData(ServiceKind::Mysql), ServiceKind::Mysql, &mut screen);
    let grid = state.grids[0].as_ref().unwrap();
    assert_eq!(grid.version, screen.version);
    assert_eq!(grid.offset, 8);
    assert_eq!(state.scroll_offset[0], 8);
}

#[test]
fn a_restart_pauses_and_comes_back_marked() {
    let (mut state, mut screen) = running();
    let effects = plain(&mut state, Message::RestartService(ServiceKind::Mysql));
    assert!(matches!(effects.as_slice(), [Effect::KillTree(ServiceKind::Mysql, 11)]));
    assert_eq!(state.status[0], Status::Stopping);
    let effects = with(
        &mut state,
        Message::ProcessKilled(ServiceKind::Mysql),
        ServiceKind::Mysql,
        &mut screen,
    );
    assert!(matches!(effects.as_slice(), [Effect::DelayRestart(ServiceKind::Mysql)]));
    assert_eq!(state.status[0], Status::Stopping);
    assert!(plain(&mut state, Message::SetDesired(ServiceKind::Mysql, true)).is_empty());
    assert_eq!(state.status[0], Status::Starting);
    assert!(state.desired[0]);
    assert!(state.restart_marker[0]);
    let mut anew = TermHandle::new(12, 50, 100);
    with(
        &mut state,
        Message::ServiceTerminalReady(ServiceKind::Mysql, 2),
        ServiceKind::Mysql,
        &mut anew,
    );
    assert!(!state.restart_marker[0]);
    assert_eq!(anew.version, 1);
    assert_eq!(anew.cursor_position(), (1, 0));
    assert_eq!(state.terminals[0], Some(2));
    assert_eq!(state.applied_grid[0], (12, 50));
    assert!(state.grids[0].is_none());
}

#[test]
fn a_restart_without_a_process_only_pauses() {
    let mut state = fresh();
    let effects = plain(&mut state, Message::RestartService(ServiceKind::Auth));
    assert!(matches!(effects.as_slice(), [Effect::DelayRestart(ServiceKind::Auth)]));
    assert_eq!(state.status[1], Status::Stopping);
    plain(&mut state, Message::SetDesired(ServiceKind::Auth, false));
    assert!(!state.desired[1]);
    plain(&mut state, Message::SetDesired(ServiceKind::Auth, true));
    assert!(state.desired[1]);
}

#[test]
fn stopping_calls_off_a_restart() {
    let mut state = fresh();
    plain(&mut state, Message::RestartService(ServiceKind::Auth));
    plain(&mut state, Message::StopService(ServiceKind::Auth));
    plain(&mut state, Message::SetDesired(ServiceKind::Auth, true));
    assert!(!state.desired[1]);
    assert_eq!(state.status[1], Status::Stopped);
    plain(&mut state, Message::RestartService(ServiceKind::Auth));
    plain(&mut state, Message::StopAll);
    plain(&mut state, Message::SetDesired(ServiceKind::Auth, true));
    assert!(!state.desired[1]);
}

#[test]
fn late_events_are_ignored() {
    let mut state = fresh();
    plain(&mut state, Message::StartService(ServiceKind::World));
    plain(&mut state, Message::StopService(ServiceKind::World));
    plain(&mut state, Message::ServiceStarted(ServiceKind::World, 5));
    assert_eq!(state.pids[2], None);
    assert_eq!(state.status[2], Status::Stopped);
    plain(&mut state, Message::ServiceTerminalReady(ServiceKind::World, 3));
    assert_eq!(state.terminals[2], None);
    // The end of an old process does not touch a service that was started anew.
    plain(&mut state, Message::StartService(ServiceKind::World));
    plain(&mut state, Message::ServiceStarted(ServiceKind::World, 6));
    plain(&mut state, Message::ProcessKilled(ServiceKind::World));
    assert_eq!(state.pids[2], Some(6));
    assert_eq!(state.status[2], Status::Running);
}

#[test]
fn a_failed_start_leaves_a_notice() {
    let (mut state, _screen) = running();
    plain(&mut state, Message::ServiceStartFailed(ServiceKind::Mysql, "no file".to_string()));
    assert_eq!(state.status[0], Status::Error);
    assert!(!state.desired[0]);
    assert_eq!(state.pids[0], None);
    assert_eq!(state.terminals[0], None);
    assert_eq!(state.errors[0], vec!["[启动失败] no file".to_string()]);
}

#[test]
fn the_oldest_notices_make_room() {
    let mut state = fresh();
    for i in 0..23 {
        plain(&mut state, Message::ServiceStartFailed(ServiceKind::Auth, format!("{i}")));
    }
    assert_eq!(state.errors[1].len(), 20);
    assert_eq!(state.errors[1][0], "[启动失败] 3");
    assert_eq!(state.errors[1][19], "[启动失败] 22");
    assert!(state.errors[0].is_empty());
}

#[test]
fn a_new_terminal_clears_the_notices() {
    let mut state = fresh();
    plain(&mut state, Message::ServiceStartFailed(ServiceKind::Auth, "x".to_string()));
    plain(&mut state, Message::StartService(ServiceKind::Auth));
    let mut screen = TermHandle::new(10, 40, 10);
    with(
        &mut state,
        Message::ServiceTerminalReady(ServiceKind::Auth, 4),
        ServiceKind::Auth,
        &mut screen,
    );
    assert!(state.errors[1].is_empty());
    assert_eq!(screen.version, 0);
}

#[test]
fn everything_starts_after_mysql() {
    let mut state = fresh();
    let effects = plain(&mut state, Message::StartAll);
    assert!(matches!(effects.as_slice(), [Effect::WaitMysqlReady]));
    assert!(state.sequence_active);
    assert_eq!(state.sequence_message, "正在启动 MySQL…");
    assert_eq!(state.status[0], Status::Starting);
    assert_eq!(state.status[1], Status::Waiting);
    assert_eq!(state.status[2], Status::Waiting);
    let recipes = subscription(&state);
    assert_eq!(recipes.len(), 1);
    assert_eq!(recipes[0].kind, ServiceKind::Mysql);
    // One of the two is called off while it waits.
    assert!(plain(&mut state, Message::StopService(ServiceKind::Auth)).is_empty());
    assert_eq!(state.status[1], Status::Stopped);
    plain(&mut state, Message::MysqlReady);
    assert_eq!(state.status[1], Status::Stopped);
    assert_eq!(state.status[2], Status::Starting);
    assert!(!state.sequence_active);
    assert_eq!(state.sequence_message, "MySQL 就绪,已启动 Auth/World");
    // A second answer comes too late.
    state.sequence_message = String::new();
    plain(&mut state, Message::MysqlReady);
    assert_eq!(state.sequence_message, "");
}

#[test]
fn everything_waits_in_vain_for_a_stopped_mysql() {
    let mut state = fresh();
    plain(&mut state, Message::StartAll);
    plain(&mut state, Message::StopService(ServiceKind::Mysql));
    plain(&mut state, Message::MysqlReady);
    assert_eq!(state.sequence_message, "MySQL 未在运行,已中止一键启动");
    assert_eq!(state.status[1], Status::Waiting);
    assert!(!state.sequence_active);
}

#[test]
fn everything_gives_up_with_mysql() {
    let mut state = fresh();
    plain(&mut state, Message::StartAll);
    plain(&mut state, Message::ServiceStarted(ServiceKind::Mysql, 3));
    plain(&mut state, Message::MysqlReadyFailed("timeout".to_string()));
    assert_eq!(state.status[0], Status::Error);
    assert_eq!(state.pids[0], None);
    assert_eq!(state.status[1], Status::Stopped);
    assert_eq!(state.status[2], Status::Stopped);
    assert_eq!(state.sequence_message, "timeout");
    assert_eq!(state.errors[0], vec!["[一键启动] timeout".to_string()]);
}

#[test]
fn everything_needs_every_path() {
    let mut config = configured();
    config.auth_path = " ".to_string();
    config.world_path = String::new();
    let mut state: State<u8> = State::new(config);
    assert!(plain(&mut state, Message::StartAll).is_empty());
    assert_eq!(state.sequence_message, "一键启动需要先配置 Auth Server");
    assert_eq!(state.status, [Status::Stopped; 4]);
    assert!(!state.sequence_active);
}

#[test]
fn a_running_mysql_is_left_alone_by_start_all() {
    let (mut state, _screen) = running();
    plain(&mut state, Message::StartAll);
    assert_eq!(state.status[0], Status::Running);
    assert_eq!(state.pids[0], Some(11));
}

#[test]
fn stopping_everything_ends_every_process() {
    let (mut state, _screen) = running();
    plain(&mut state, Message::StartService(ServiceKind::Auth));
    plain(&mut state, Message::StartService(ServiceKind::World));
    plain(&mut state, Message::ServiceStarted(ServiceKind::World, 33));
    let effects = plain(&mut state, Message::StopAll);
    assert!(matches!(
        effects.as_slice(),
        [Effect::KillTree(ServiceKind::Mysql, 11), Effect::KillTree(ServiceKind::World, 33)]
    ));
    assert_eq!(state.status[0], Status::Stopping);
    assert_eq!(state.status[1], Status::Stopped);
    assert_eq!(state.status[2], Status::Stopping);
    assert!(subscription(&state).is_empty());
}

#[test]
fn edits_stay_in_the_draft_until_saved() {
    let mut state = fresh();
    plain(&mut state, Message::PathEdited(ServiceKind::Auth, "new.exe".to_string()));
    assert_eq!(state.config.auth_path, "auth.exe");
    assert_eq!(state.config_draft.auth_path, "new.exe");
    plain(&mut state, Message::PathBrowsed(ServiceKind::World, None));
    assert_eq!(state.config_draft.world_path, "world.exe");
    plain(&mut state, Message::PathBrowsed(ServiceKind::World, Some("w2.exe".to_string())));
    assert_eq!(state.config_draft.world_path, "w2.exe");
    plain(&mut state, Message::ResetConfigDraft);
    assert_eq!(state.config_draft.auth_path, "auth.exe");
    assert_eq!(state.config_draft.world_path, "world.exe");
    assert_eq!(state.config_message.as_deref(), Some("已还原未保存的修改"));
    let effects = plain(&mut state, Message::BrowsePath(ServiceKind::Client));
    assert!(matches!(effects.as_slice(), [Effect::BrowsePath(ServiceKind::Client)]));
}

#[test]
fn saving_hands_the_draft_over() {
    let mut state = fresh();
    plain(&mut state, Message::PathEdited(ServiceKind::Client, "  ".to_string()));
    state.config_message = Some("old".to_string());
    let effects = plain(&mut state, Message::SaveConfig);
    assert!(matches!(
        effects.as_slice(),
        [Effect::SaveConfig(config)] if config.client_path == "  "
    ));
    assert_eq!(state.config_message, None);
    plain(&mut state, Message::ConfigSaved(Err("disk full".to_string())));
    assert_eq!(state.config_message.as_deref(), Some("disk full"));
    assert_eq!(state.config.client_path, "wow.exe");
    assert!(plain(&mut state, Message::ConfigSaved(Ok(()))).is_empty());
    assert_eq!(state.config.client_path, "  ");
    assert_eq!(state.config_message.as_deref(), Some("已保存配置(已设置 3/4)"));
}

#[test]
fn saving_stops_services_whose_path_changes() {
    let (mut state, _screen) = running();
    plain(&mut state, Message::StartService(ServiceKind::World));
    plain(&mut state, Message::StartService(ServiceKind::Auth));
    plain(&mut state, Message::PathEdited(ServiceKind::Mysql, "m2.exe".to_string()));
    plain(&mut state, Message::PathEdited(ServiceKind::World, "w2.exe".to_string()));
    let effects = plain(&mut state, Message::ConfigSaved(Ok(())));
    assert!(matches!(effects.as_slice(), [Effect::KillTree(ServiceKind::Mysql, 11)]));
    assert_eq!(state.status[0], Status::Stopping);
    assert_eq!(state.status[1], Status::Starting);
    assert_eq!(state.status[2], Status::Stopped);
    assert_eq!(
        state.config_message.as_deref(),
        Some(
            "已保存配置(已设置 4/4); MySQL/World Server 路径已变更, 已先停止旧进程, 请重新启动"
        )
    );
    let recipes = subscription(&state);
    assert_eq!(recipes.len(), 1);
    assert_eq!(recipes[0].path, "auth.exe");
}

#[test]
fn an_idle_window_closes_at_once() {
    let mut state = fresh();
    let effects = plain(&mut state, Message::CloseRequested(42));
    assert!(matches!(effects.as_slice(), [Effect::CloseWindow(Some(42))]));
    assert!(!state.close_pending);
}

#[test]
fn a_busy_window_asks_and_closes_after_the_last_process() {
    let (mut state, mut screen) = running();
    assert!(plain(&mut state, Message::CloseRequested(42)).is_empty());
    assert!(state.close_pending);
    // Keys and the wheel do nothing while the question stands.
    assert!(plain(&mut state, press(Key::Named(Named::Enter), None, NONE)).is_empty());
    let effects = plain(&mut state, Message::TermScroll(3));
    assert!(matches!(effects.as_slice(), [Effect::ResetWheel]));
    assert!(plain(&mut state, Message::ConfirmClose(false)).is_empty());
    assert!(!state.close_pending);
    assert_eq!(state.close_window, None);
    plain(&mut state, Message::CloseRequested(42));
    let effects = plain(&mut state, Message::ConfirmClose(true));
    assert!(matches!(effects.as_slice(), [Effect::KillTree(ServiceKind::Mysql, 11)]));
    let effects = with(
        &mut state,
        Message::ProcessKilled(ServiceKind::Mysql),
        ServiceKind::Mysql,
        &mut screen,
    );
    assert!(matches!(effects.as_slice(), [Effect::CloseWindow(Some(42))]));
    assert_eq!(state.close_window, None);
    assert!(!state.close_after_stop);
}

#[test]
fn a_window_with_nothing_to_end_closes_on_confirmation() {
    let mut state = fresh();
    plain(&mut state, Message::StartService(ServiceKind::Mysql));
    plain(&mut state, Message::CloseRequested(7));
    assert!(state.close_pending);
    let effects = plain(&mut state, Message::ConfirmClose(true));
    assert!(matches!(effects.as_slice(), [Effect::CloseWindow(Some(7))]));
}

#[test]
fn keys_go_to_the_front_terminal() {
    let (mut state, mut screen) = running();
    lines(&mut state, &mut screen, 0, 30);
    with(&mut state, Message::TermScroll(4), ServiceKind::Mysql, &mut screen);
    let message = press(Key::Character("q".to_string()), Some("q"), NONE);
    let effects = with(&mut state, message, ServiceKind::Mysql, &mut screen);
    assert!(matches!(
        effects.as_slice(),
        [Effect::SendInput(ServiceKind::Mysql, bytes)] if bytes == b"q"
    ));
    assert_eq!(state.scroll_offset[0], 0);
    // The cursor keys follow the mode of the program.
    screen.feed(b"\x1b[?1h");
    let message = press(Key::Named(Named::ArrowUp), None, NONE);
    let effects = with(&mut state, message, ServiceKind::Mysql, &mut screen);
    assert!(matches!(
        effects.as_slice(),
        [Effect::SendInput(ServiceKind::Mysql, bytes)] if bytes == b"\x1bOA"
    ));
    let message = press(Key::Named(Named::Other), None, NONE);
    assert!(with(&mut state, message, ServiceKind::Mysql, &mut screen).is_empty());
    let message = Message::TermKeyEvent(KeyEvent::Other);
    assert!(with(&mut state, message, ServiceKind::Mysql, &mut screen).is_empty());
}

#[test]
fn keys_go_nowhere_else() {
    let (mut state, mut screen) = running();
    let enter = || press(Key::Named(Named::Enter), None, NONE);
    plain(&mut state, Message::NavSelected(NavTab::Home));
    assert!(plain(&mut state, enter()).is_empty());
    with(&mut state, Message::NavSelected(NavTab::Terminal), ServiceKind::Mysql, &mut screen);
    plain(&mut state, Message::ServiceSelected(ServiceKind::Auth));
    assert!(plain(&mut state, enter()).is_empty());
    with(&mut state, Message::ServiceSelected(ServiceKind::Mysql), ServiceKind::Mysql, &mut screen);
    plain(&mut state, Message::StopService(ServiceKind::Mysql));
    assert!(plain(&mut state, enter()).is_empty());
}

#[test]
fn shifted_paging_keys_page_by_half_a_screen() {
    let (mut state, mut screen) = running();
    lines(&mut state, &mut screen, 0, 30);
    let message = press(Key::Named(Named::PageUp), None, SHIFT);
    let effects = with(&mut state, message, ServiceKind::Mysql, &mut screen);
    assert!(matches!(effects.as_slice(), [Effect::PageScroll(5)]));
    with(&mut state, Message::TermPageScroll(5), ServiceKind::Mysql, &mut screen);
    assert_eq!(state.scroll_offset[0], 5);
    let message = press(Key::Named(Named::PageDown), None, SHIFT);
    let effects = with(&mut state, message, ServiceKind::Mysql, &mut screen);
    assert!(matches!(effects.as_slice(), [Effect::PageScroll(-5)]));
    with(&mut state, Message::TermPageScroll(-5), ServiceKind::Mysql, &mut screen);
    assert_eq!(state.scroll_offset[0], 0);
    assert!(plain(&mut state, Message::TermPageScroll(0)).is_empty());
}

#[test]
fn scrolling_stops_at_both_ends() {
    let (mut state, mut screen) = running();
    lines(&mut state, &mut screen, 0, 30);
    let total = screen.scrollback_total();
    with(&mut state, Message::TermScroll(i32::MAX), ServiceKind::Mysql, &mut screen);
    assert_eq!(state.scroll_offset[0], total);
    with(&mut state, Message::TermScroll(-3), ServiceKind::Mysql, &mut screen);
    assert_eq!(state.scroll_offset[0], total - 3);
    with(&mut state, Message::TermScroll(i32::MIN), ServiceKind::Mysql, &mut screen);
    assert_eq!(state.scroll_offset[0], 0);
    assert!(plain(&mut state, Message::TermScroll(0)).is_empty());
}

#[test]
fn scrolling_takes_in_lines_that_the_page_has_not_seen() {
    let (mut state, mut screen) = running();
    for i in 0..15u8 {
        screen.feed(format!("line {i}\r\n").as_bytes());
    }
    assert_eq!(screen.scrollback_total(), 6);
    with(&mut state, Message::TermScroll(2), ServiceKind::Mysql, &mut screen);
    assert_eq!(state.scroll_offset[0], 6);
    assert_eq!(state.prev_scrollback_total[0], 6);
}

#[test]
fn a_scrolled_page_stays_on_its_lines() {
    let (mut state, mut screen) = running();
    lines(&mut state, &mut screen, 0, 30);
    with(&mut state, Message::TermScroll(6), ServiceKind::Mysql, &mut screen);
    let first = |state: &State<u8>| -> String {
        state.grids[0].as_ref().unwrap().rows[0].iter().map(|run| run.text.as_str()).collect()
    };
    let before = first(&state);
    lines(&mut state, &mut screen, 30, 34);
    assert_eq!(state.scroll_offset[0], 10);
    assert_eq!(first(&state), before);
}

#[test]
fn pages_in_the_background_are_not_refreshed() {
    let (mut state, mut screen) = running();
    plain(&mut state, Message::NavSelected(NavTab::Settings));
    let before = state.grids[0].as_ref().unwrap().version;
    screen.feed(b"news");
    assert!(plain(&mut state, Message::TerminalData(ServiceKind::Mysql)).is_empty());
    assert_eq!(state.grids[0].as_ref().unwrap().version, before);
    let effects = with(
        &mut state,
        Message::NavSelected(NavTab::Terminal),
        ServiceKind::Mysql,
        &mut screen,
    );
    assert!(matches!(effects.as_slice(), [Effect::ResetWheel]));
    assert_eq!(state.grids[0].as_ref().unwrap().version, before + 1);
}

#[test]
fn choosing_a_terminal() {
    let mut state = fresh();
    let effects = plain(&mut state, Message::ServiceSelected(ServiceKind::World));
    assert!(matches!(effects.as_slice(), [Effect::ResetWheel]));
    assert_eq!(state.active_terminal, ServiceKind::World);
    assert!(plain(&mut state, Message::ServiceSelected(ServiceKind::Client)).is_empty());
    assert_eq!(state.active_terminal, ServiceKind::World);
}

#[test]
fn scrolling_and_refreshing_by_themselves() {
    let (mut state, mut screen) = running();
    lines(&mut state, &mut screen, 0, 30);
    let total = screen.scrollback_total();
    for (delta, offset) in [(3, 3), (1000, total), (-5, total - 5), (5, total), (i32::MIN, 0)] {
        apply_scroll(&mut state, ServiceKind::Mysql, delta, Some(&mut screen));
        assert_eq!(state.scroll_offset[0], offset);
        let grid = state.grids[0].as_ref().unwrap();
        assert_eq!((grid.offset, grid.version), (offset, screen.version));
    }
    screen.feed(b"more\r\n");
    refresh_grid(&mut state, ServiceKind::Mysql, Some(&mut screen));
    assert_eq!(state.grids[0].as_ref().unwrap().version, screen.version);
    assert_eq!(state.prev_scrollback_total[0], total + 1);
    // A service without a terminal has nothing to scroll or to refresh.
    apply_scroll(&mut state, ServiceKind::World, 3, None);
    refresh_grid(&mut state, ServiceKind::World, None);
    assert_eq!(state.scroll_offset[2], 0);
    assert!(state.grids[2].is_none());
}

#[test]
fn clearing_a_terminal() {
    let (mut state, mut screen) = running();
    lines(&mut state, &mut screen, 0, 30);
    with(&mut state, Message::TermScroll(4), ServiceKind::Mysql, &mut screen);
    let version = screen.version;
    with(&mut state, Message::ClearTerminal(ServiceKind::Mysql), ServiceKind::Mysql, &mut screen);
    assert_eq!(screen.version, version + 1);
    assert_eq!(screen.cursor_position(), (0, 0));
    assert_eq!(screen.scrollback_total(), 0);
    assert!(state.grids[0].is_none());
    assert_eq!(state.scroll_offset[0], 0);
    assert_eq!(state.prev_scrollback_total[0], 0);
    // A service without a terminal forgets what it showed.
    assert!(plain(&mut state, Message::ClearTerminal(ServiceKind::World)).is_empty());
}

#[test]
fn sizes_are_told_once_the_window_rests() {
    let (mut state, _screen) = running();
    let effects = plain(&mut state, Message::WindowResized(30, 500));
    assert!(matches!(effects.as_slice(), [Effect::ScheduleResizeTick]));
    assert_eq!(state.pending_resize, Some((30, 240)));
    let effects = plain(&mut state, Message::TermResizeTick);
    assert!(matches!(
        effects.as_slice(),
        [Effect::TryResize(kinds, 30, 240)] if kinds == &vec![ServiceKind::Mysql]
    ));
    assert_eq!(state.pending_resize, None);
    assert_eq!(state.applied_grid, [(10, 40), (30, 240), (30, 240), (0, 0)]);
    // A terminal that does not take the size is tried again.
    let refused = vec![(ServiceKind::Mysql, false)];
    let effects = plain(&mut state, Message::ResizeSent(30, 240, refused));
    assert!(matches!(effects.as_slice(), [Effect::ScheduleResizeTick]));
    assert_eq!(state.pending_resize, Some((30, 240)));
    plain(&mut state, Message::TermResizeTick);
    let taken = vec![(ServiceKind::Mysql, true)];
    assert!(plain(&mut state, Message::ResizeSent(30, 240, taken)).is_empty());
    assert_eq!(state.applied_grid[0], (30, 240));
    // The same size again is nothing new.
    plain(&mut state, Message::WindowResized(30, 240));
    assert!(plain(&mut state, Message::TermResizeTick).is_empty());
    assert!(plain(&mut state, Message::TermResizeTick).is_empty());
}

#[test]
fn programs_keep_to_themselves() {
    let (mut state, mut screen) = running();
    lines(&mut state, &mut screen, 0, 30);
    with(&mut state, Message::TermScroll(3), ServiceKind::Mysql, &mut screen);
    plain(&mut state, Message::StartService(ServiceKind::Auth));
    plain(&mut state, Message::ServiceStarted(ServiceKind::Auth, 22));
    plain(&mut state, Message::RestartService(ServiceKind::Auth));
    plain(&mut state, Message::ServiceStartFailed(ServiceKind::World, "x".to_string()));
    plain(&mut state, Message::ClearTerminal(ServiceKind::World));
    assert_eq!(state.status[0], Status::Running);
    assert_eq!(state.pids[0], Some(11));
    assert_eq!(state.terminals[0], Some(1));
    assert_eq!(state.scroll_offset[0], 3);
    assert!(state.grids[0].is_some());
    assert!(state.errors[0].is_empty());
}

/// A sequence of numbers that looks random and is always the same.
struct Numbers(u64);

impl Numbers {
    fn below(&mut self, n: u64) -> u64 {
        self.0 = self.0.wrapping_mul(6364136223846793005).wrapping_add(1442695040888963407);
        (self.0 >> 33) % n
    }
}

#[test]
fn any_sequence_of_messages_keeps_the_launcher_sound() {
    let mut numbers = Numbers(2024);
    let mut state = fresh();
    let mut screens: Vec<TermHandle> = (0..4).map(|_| TermHandle::new(10, 40, 50)).collect();
    for turn in 0..20000u32 {
        let kind = ServiceKind::ALL[numbers.below(4) as usize];
        let message = match numbers.below(26) {
            0 => Message::StartService(kind),
            1 => Message::StopService(kind),
            2 => Message::RestartService(kind),
            3 => Message::SetDesired(kind, numbers.below(2) == 0),
            4 | 5 => Message::ServiceStarted(kind, turn),
            6 => Message::ServiceStopped(kind),
            7 => Message::ServiceStartFailed(kind, format!("{turn}")),
            8 => Message::ProcessKilled(kind),
            9 => Message::TerminalData(kind),
            10 | 11 => Message::ServiceTerminalReady(kind, turn as u8),
            12 => Message::StartAll,
            13 => Message::StopAll,
            14 => Message::MysqlReady,
            15 => Message::MysqlReadyFailed(format!("{turn}")),
            16 => Message::ConfigSaved(Ok(())),
            17 => Message::PathEdited(kind, format!("{}", numbers.below(3))),
            18 => Message::CloseRequested(1),
            19 => Message::ConfirmClose(numbers.below(2) == 0),
            20 => Message::ClearTerminal(kind),
            21 => press(Key::Named(Named::Enter), None, NONE),
            22 => Message::TermScroll(numbers.below(20) as i32 - 8),
            23 => Message::NavSelected(NavTab::Terminal),
            24 => Message::ServiceSelected(kind),
            _ => Message::WindowResized(30, 100),
        };
        for screen in screens.iter_mut() {
            if numbers.below(5) == 0 {
                screen.feed(format!("turn {turn}\r\n").as_bytes());
            }
        }
        let wants: Vec<bool> = state.desired.to_vec();
        let effects = match screen_target(&state, &message) {
            Some(target) => update(&mut state, message, Some(&mut screens[target.index()])),
            None => update(&mut state, message, None),
        };
        for kind in ServiceKind::SERVICES {
            let i = kind.index();
            let active = matches!(state.status[i], Status::Starting | Status::Running);
            assert_eq!(state.desired[i], active, "{turn}");
            if matches!(state.status[i], Status::Stopped | Status::Waiting | Status::Error) {
                assert_eq!(state.pids[i], None, "{turn}");
            }
        }
        assert!(!state.desired[3] && state.pids[3].is_none() && state.terminals[3].is_none());
        for i in 0..4 {
            assert!(state.errors[i].len() <= 20);
            if state.terminals[i].is_some() {
                assert!(state.scroll_offset[i] <= state.prev_scrollback_total[i]);
            }
        }
        for effect in effects {
            match effect {
                Effect::KillTree(kind, _) => assert!(!state.desired[kind.index()]),
                Effect::CloseWindow(_) => assert_eq!(state.pids, [None; 4]),
                Effect::SendInput(kind, bytes) => {
                    assert!(wants[kind.index()] && !bytes.is_empty());
                    assert_eq!(state.scroll_offset[kind.index()], 0);
                }
                _ => {}
            }
        }
    }
}
