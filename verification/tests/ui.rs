use wow_launcher::app::{Message, NavTab, State};
use wow_launcher::terminal::{CellRun, TermHandle};
use wow_launcher::theme::{
    accent_button_style, card_style, danger_button_style, ghost_button_style, hex,
    nav_button_style, sidebar_style, tab_button_style, ButtonStatus, Color, ACCENT, CARD_BORDER,
    DANGER, SUCCESS, TERM_MUTED, TERM_RED, WARNING,
};
use wow_launcher::ui::terminal_page::{draw_line, Body};
use wow_launcher::ui::{self, Look, Press};
use wow_launcher::update::{forwards, update, WindowEvent};
use wow_launcher::{Config, ServiceKind, Status};

fn configured() -> State<u8> {
    State::new(Config {
        mysql_path: "mysqld.exe".to_string(),
        auth_path: "auth.exe".to_string(),
        world_path: "world.exe".to_string(),
        client_path: String::new(),
    })
}

#[test]
fn the_side_bar_marks_the_front_page() {
    let mut state = configured();
    let window = ui::view(&state);
    assert_eq!(window.page, NavTab::Home);
    let labels: Vec<&str> = window.nav.iter().map(|entry| entry.label).collect();
    assert_eq!(labels, vec!["主页", "终端", "配置"]);
    let active: Vec<bool> = window.nav.iter().map(|entry| entry.active).collect();
    assert_eq!(active, vec![true, false, false]);
    assert_eq!(window.nav[0].color, Color::Gray(95));
    assert_eq!(window.nav[1].color, Color::Gray(72));
    assert!(window.note.is_none());
    assert!(window.dialog.is_none());
    state.active_nav = NavTab::Settings;
    state.sequence_message = "busy".to_string();
    state.close_pending = true;
    let window = ui::view(&state);
    assert_eq!(window.page, NavTab::Settings);
    assert!(window.nav[2].active && window.nav[2].tab == NavTab::Settings);
    assert_eq!(window.note.unwrap().text, "busy");
    let dialog = window.dialog.unwrap();
    assert_eq!(dialog.title, "服务仍在运行");
    assert_eq!(dialog.yes.press, Some(Press::Confirm(true)));
    assert_eq!(dialog.no.press, Some(Press::Confirm(false)));
    assert_eq!(dialog.no.look, Look::Outline);
}

#[test]
fn presses_send_their_messages() {
    let message: Message<u8> = Press::Restart(ServiceKind::World).message();
    assert!(matches!(message, Message::RestartService(ServiceKind::World)));
    let message: Message<u8> = Press::Start(ServiceKind::Auth).message();
    assert!(matches!(message, Message::StartService(ServiceKind::Auth)));
    let message: Message<u8> = Press::Stop(ServiceKind::Auth).message();
    assert!(matches!(message, Message::StopService(ServiceKind::Auth)));
    let message: Message<u8> = Press::Clear(ServiceKind::Mysql).message();
    assert!(matches!(message, Message::ClearTerminal(ServiceKind::Mysql)));
    let message: Message<u8> = Press::Confirm(true).message();
    assert!(matches!(message, Message::ConfirmClose(true)));
    let message: Message<u8> = Press::StartAll.message();
    assert!(matches!(message, Message::StartAll));
    let message: Message<u8> = Press::StopAll.message();
    assert!(matches!(message, Message::StopAll));
    let message: Message<u8> = Press::Save.message();
    assert!(matches!(message, Message::SaveConfig));
    let message: Message<u8> = Press::Reset.message();
    assert!(matches!(message, Message::ResetConfigDraft));
}

#[test]
fn the_home_page_offers_what_can_be_done() {
    let mut state = configured();
    let page = ui::home::view(&state);
    assert_eq!(page.start.press, Some(Press::StartAll));
    assert_eq!(page.stop.press, None);
    assert_eq!(page.running.text, "运行中服务: 0/3");
    assert_eq!(page.cards.len(), 4);
    state.status = [Status::Running, Status::Starting, Status::Running, Status::Stopped];
    let page = ui::home::view(&state);
    assert_eq!(page.running.text, "运行中服务: 2/3");
    assert_eq!(page.stop.press, Some(Press::StopAll));
    state.sequence_active = true;
    let page = ui::home::view(&state);
    assert_eq!(page.start.press, None);
    assert_eq!(page.stop.press, None);
    state.sequence_active = false;
    state.config.auth_path = " ".to_string();
    assert_eq!(ui::home::view(&state).start.press, None);
    state.status = [Status::Stopped, Status::Waiting, Status::Error, Status::Stopped];
    assert_eq!(ui::home::view(&state).stop.press, None);
}

#[test]
fn cards_follow_the_status() {
    let mut state = configured();
    state.status = [Status::Running, Status::Waiting, Status::Error, Status::Stopped];
    let cards = ui::home::view(&state).cards;
    let presses = |i: usize| -> Vec<Option<Press>> {
        cards[i].actions.iter().map(|button| button.press).collect()
    };
    assert_eq!(
        presses(0),
        vec![Some(Press::Stop(ServiceKind::Mysql)), Some(Press::Restart(ServiceKind::Mysql))]
    );
    assert_eq!(presses(1), vec![Some(Press::Stop(ServiceKind::Auth))]);
    assert_eq!(presses(2), vec![Some(Press::Start(ServiceKind::World))]);
    // The client has no path here.
    assert_eq!(presses(3), vec![None]);
    assert_eq!(cards[0].dot, hex(SUCCESS));
    assert_eq!(cards[1].dot, hex(WARNING));
    assert_eq!(cards[2].dot, hex(DANGER));
    assert_eq!(cards[3].dot, Color::Gray(72));
    assert_eq!(cards[0].status.as_ref().unwrap().text, "运行中");
    assert!(cards[3].status.is_none());
    assert_eq!(cards[0].path.text, "mysqld.exe");
    assert_eq!(cards[3].path.text, "未配置路径");
    assert_eq!(cards[3].name.text, "客户端");
    state.status[0] = Status::Stopping;
    state.status[1] = Status::Starting;
    let cards = ui::home::view(&state).cards;
    assert_eq!(cards[0].actions.len(), 2);
    assert_eq!(cards[1].actions[1].label, "重启");
}

#[test]
fn the_settings_page_shows_the_draft() {
    let mut state = configured();
    state.config_draft.mysql_path = "draft.exe".to_string();
    let page = ui::settings::view(&state);
    assert_eq!(page.rows.len(), 4);
    assert_eq!(page.rows[0].path, "draft.exe");
    assert_eq!(page.rows[0].badge.text, "已设置");
    assert_eq!(page.rows[0].badge.color, hex(SUCCESS));
    assert_eq!(page.rows[3].badge.text, "未设置");
    assert_eq!(page.rows[3].badge.color, hex(WARNING));
    assert_eq!(page.rows[1].placeholder, "auth_server 可执行文件路径");
    assert_eq!(page.save.press, Some(Press::Save));
    assert_eq!(page.reset.press, Some(Press::Reset));
    assert!(page.message.is_none());
    state.config_message = Some("saved".to_string());
    assert_eq!(ui::settings::view(&state).message.unwrap().text, "saved");
}

#[test]
fn the_terminal_page_waits_for_output() {
    let mut state = configured();
    state.active_terminal = ServiceKind::Auth;
    state.status[2] = Status::Error;
    let page = ui::terminal_page::view(&state);
    assert_eq!(page.tabs.len(), 3);
    assert!(!page.tabs[0].active && page.tabs[1].active);
    assert_eq!(page.tabs[1].name.color, Color::Gray(95));
    assert_eq!(page.tabs[0].dot, hex(CARD_BORDER));
    assert_eq!(page.tabs[2].dot, hex(DANGER));
    assert_eq!(page.clear.press, Some(Press::Clear(ServiceKind::Auth)));
    assert!(matches!(page.body, Body::Waiting(label) if label.text == "等待输出…"
        && label.color == hex(TERM_MUTED)));
}

#[test]
fn the_newest_notices_lie_over_the_screen() {
    let mut state = configured();
    let mut screen = TermHandle::new(10, 40, 10);
    update(&mut state, Message::StartService(ServiceKind::Mysql), None);
    update(&mut state, Message::ServiceTerminalReady(ServiceKind::Mysql, 1), Some(&mut screen));
    assert!(matches!(
        ui::terminal_page::view(&state).body,
        Body::Screen { rows, notices } if rows.is_empty() && notices.is_empty()
    ));
    for i in 0..5 {
        state.errors[0].push(format!("e{i}"));
    }
    match ui::terminal_page::view(&state).body {
        Body::Screen { notices, .. } => {
            assert_eq!(notices.len(), 5);
            assert_eq!(notices[0].text, "e0");
            assert_eq!(notices[0].color, hex(TERM_RED));
        }
        Body::Waiting(_) => panic!("a terminal is there"),
    }
    for i in 5..17 {
        state.errors[0].push(format!("e{i}"));
    }
    match ui::terminal_page::view(&state).body {
        Body::Screen { notices, .. } => {
            let texts: Vec<&str> = notices.iter().map(|label| label.text.as_str()).collect();
            assert_eq!(
                texts,
                vec!["… 另有 12 条更早的错误", "e12", "e13", "e14", "e15", "e16"]
            );
            assert_eq!(notices[0].color, hex(TERM_MUTED));
        }
        Body::Waiting(_) => panic!("a terminal is there"),
    }
}

#[test]
fn the_page_shows_every_row_of_the_front_snapshot() {
    let mut state = configured();
    let mut screen = TermHandle::new(10, 40, 10);
    update(&mut state, Message::StartService(ServiceKind::Mysql), None);
    update(&mut state, Message::ServiceTerminalReady(ServiceKind::Mysql, 1), Some(&mut screen));
    screen.feed(b"\x1b[?25lone\r\n\r\n\x1b[1mthree");
    state.active_nav = NavTab::Terminal;
    update(&mut state, Message::TerminalData(ServiceKind::Mysql), Some(&mut screen));
    for errors in [0, 1, 9] {
        state.errors[0] = vec!["e".to_string(); errors];
        match ui::terminal_page::view(&state).body {
            Body::Screen { rows, .. } => {
                assert_eq!(rows.len(), 10);
                assert_eq!(rows[0].len(), 1);
                assert_eq!(rows[0][0].text.trim_end(), "one");
                assert!(!rows[0][0].bold);
                assert!(rows[1].is_empty());
                assert_eq!(rows[2][0].text, "three");
                assert!(rows[2][0].bold);
                let lines: Vec<Vec<CellRun>> = rows.into_iter().map(draw_line).collect();
                assert_eq!(lines[0][0].text.trim_end(), "one");
                assert_eq!(lines[1].len(), 1);
                assert_eq!(lines[1][0].text, " ");
                assert_eq!(lines[1][0].bg, None);
            }
            Body::Waiting(_) => panic!("a terminal is there"),
        }
    }
}

#[test]
fn only_events_that_no_widget_has_taken_count() {
    let counted = [
        WindowEvent::CloseRequested,
        WindowEvent::Resized,
        WindowEvent::KeyPressed,
        WindowEvent::WheelTurned,
    ];
    for event in counted {
        assert!(forwards(event, false));
        assert!(!forwards(event, true));
    }
    assert!(!forwards(WindowEvent::Other, false));
    assert!(!forwards(WindowEvent::Other, true));
}

#[test]
fn buttons_change_with_the_pointer() {
    let accent = accent_button_style(ButtonStatus::Active);
    assert_eq!(accent.background, Some(Color::Rgb(0x60, 0xCD, 0xFF)));
    assert_eq!(accent.text_color, Color::Rgb(0, 0, 0));
    assert_eq!(
        accent_button_style(ButtonStatus::Hovered).background,
        Some(Color::Rgb(0x4D, 0xB4, 0xE0))
    );
    assert_eq!(
        accent_button_style(ButtonStatus::Pressed).background,
        Some(Color::Rgb(0x39, 0x8A, 0xAC))
    );
    let off = accent_button_style(ButtonStatus::Disabled);
    assert_eq!(off.background, Some(Color::Rgb(0x33, 0x33, 0x33)));
    assert_eq!(off.text_color, Color::Rgb(0x77, 0x77, 0x77));
    assert_eq!(danger_button_style(ButtonStatus::Disabled), off);
    assert_eq!(
        danger_button_style(ButtonStatus::Pressed).background,
        Some(Color::Rgb(0xB5, 0x5E, 0x3A))
    );
    let ghost = ghost_button_style(ButtonStatus::Active);
    assert_eq!(ghost.background, None);
    assert_eq!(ghost.border.color, Some(hex(CARD_BORDER)));
    assert_eq!(
        ghost_button_style(ButtonStatus::Disabled).text_color,
        Color::Rgb(0x66, 0x66, 0x66)
    );
    assert_eq!(
        ghost_button_style(ButtonStatus::Hovered).background,
        Some(Color::Rgb(0x33, 0x33, 0x33))
    );
    let tab = tab_button_style(true, ButtonStatus::Active);
    assert_eq!((tab.border.color, tab.border.width), (Some(hex(ACCENT)), 2));
    let nav = nav_button_style(true, ButtonStatus::Active);
    assert_eq!((nav.border.color, nav.border.width), (Some(hex(ACCENT)), 1));
    assert_eq!(nav_button_style(false, ButtonStatus::Active).background, None);
    assert_eq!(nav_button_style(false, ButtonStatus::Pressed).text_color, Color::Gray(72));
    assert_eq!(card_style().border.radius, 8);
    assert_eq!(sidebar_style().background, Color::Rgb(0x18, 0x18, 0x18));
}
