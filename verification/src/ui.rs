//! What the window shows, page by page.
use vstd::prelude::*;

use crate::app::{Message, NavTab, State};
use crate::model::StateView;
use crate::service::ServiceKind;
use crate::theme::{TEXT, TEXT_MUTED, Color};

pub mod home;
pub mod settings;
pub mod terminal_page;

verus! {

/// The looks of a button.
#[derive(Debug, Clone, Copy, PartialEq, Eq, Structural)]
pub enum Look {
    Accent,
    Danger,
    Outline,
}

/// What pressing a button asks for.
#[derive(Debug, Clone, Copy, PartialEq, Eq, Structural)]
pub enum Press {
    StartAll,
    StopAll,
    Start(ServiceKind),
    Stop(ServiceKind),
    Restart(ServiceKind),
    Save,
    Reset,
    Clear(ServiceKind),
    Confirm(bool),
}

impl Press {
    /// The message that the press sends.
    pub open spec fn sends<H>(self) -> Message<H> {
        match self {
            Press::StartAll => Message::StartAll,
            Press::StopAll => Message::StopAll,
            Press::Start(kind) => Message::StartService(kind),
            Press::Stop(kind) => Message::StopService(kind),
            Press::Restart(kind) => Message::RestartService(kind),
            Press::Save => Message::SaveConfig,
            Press::Reset => Message::ResetConfigDraft,
            Press::Clear(kind) => Message::ClearTerminal(kind),
            Press::Confirm(yes) => Message::ConfirmClose(yes),
        }
    }

    pub fn message<H>(self) -> (result: Message<H>)
        ensures
            result == self.sends::<H>(),
    {
        match self {
            Press::StartAll => Message::StartAll,
            Press::StopAll => Message::StopAll,
            Press::Start(kind) => Message::StartService(kind),
            Press::Stop(kind) => Message::StopService(kind),
            Press::Restart(kind) => Message::RestartService(kind),
            Press::Save => Message::SaveConfig,
            Press::Reset => Message::ResetConfigDraft,
            Press::Clear(kind) => Message::ClearTerminal(kind),
            Press::Confirm(yes) => Message::ConfirmClose(yes),
        }
    }
}

/// A button. One that asks for nothing is off.
#[derive(Debug)]
pub struct Button {
    pub label: &'static str,
    pub look: Look,
    pub press: Option<Press>,
}

/// What a [`Button`] holds.
pub struct ButtonView {
    pub label: Seq<char>,
    pub look: Look,
    pub press: Option<Press>,
}

impl View for Button {
    type V = ButtonView;

    open spec fn view(&self) -> ButtonView {
        ButtonView { label: self.label@, look: self.look, press: self.press }
    }
}

/// The buttons of a list.
pub open spec fn button_views(buttons: Seq<Button>) -> Seq<ButtonView> {
    buttons.map_values(|button: Button| button@)
}

/// Text in one colour.
#[derive(Debug)]
pub struct Label {
    pub text: String,
    pub color: Color,
}

/// What a [`Label`] holds.
pub struct LabelView {
    pub text: Seq<char>,
    pub color: Color,
}

impl View for Label {
    type V = LabelView;

    open spec fn view(&self) -> LabelView {
        LabelView { text: self.text@, color: self.color }
    }
}

/// The labels of a list.
pub open spec fn label_views(labels: Seq<Label>) -> Seq<LabelView> {
    labels.map_values(|label: Label| label@)
}

/// An entry of the side bar.
#[derive(Debug)]
pub struct NavEntry {
    pub tab: NavTab,
    pub label: &'static str,
    pub color: Color,
    pub active: bool,
}

/// What a [`NavEntry`] holds.
pub struct NavEntryView {
    pub tab: NavTab,
    pub label: Seq<char>,
    pub color: Color,
    pub active: bool,
}

impl View for NavEntry {
    type V = NavEntryView;

    open spec fn view(&self) -> NavEntryView {
        NavEntryView { tab: self.tab, label: self.label@, color: self.color, active: self.active }
    }
}

/// The question that the window asks before it closes on running services.
#[derive(Debug)]
pub struct Dialog {
    pub title: &'static str,
    pub question: &'static str,
    pub yes: Button,
    pub no: Button,
}

/// What a [`Dialog`] holds.
pub struct DialogView {
    pub title: Seq<char>,
    pub question: Seq<char>,
    pub yes: ButtonView,
    pub no: ButtonView,
}

impl View for Dialog {
    type V = DialogView;

    open spec fn view(&self) -> DialogView {
        DialogView {
            title: self.title@,
            question: self.question@,
            yes: self.yes@,
            no: self.no@,
        }
    }
}

/// The window around its pages.
#[derive(Debug)]
pub struct Window {
    /// The page in front.
    pub page: NavTab,
    pub nav: Vec<NavEntry>,
    /// What is going on, below the entries of the side bar.
    pub note: Option<Label>,
    /// The question over everything else.
    pub dialog: Option<Dialog>,
}

/// What a [`Window`] holds.
#[verifier::ext_equal]
pub struct WindowView {
    pub page: NavTab,
    pub nav: Seq<NavEntryView>,
    pub note: Option<LabelView>,
    pub dialog: Option<DialogView>,
}

impl View for Window {
    type V = WindowView;

    open spec fn view(&self) -> WindowView {
        WindowView {
            page: self.page,
            nav: self.nav@.map_values(|entry: NavEntry| entry@),
            note: match self.note {
                Some(note) => Some(note@),
                None => None,
            },
            dialog: match self.dialog {
                Some(dialog) => Some(dialog@),
                None => None,
            },
        }
    }
}

/// The entry of a page in the side bar.
pub open spec fn entry_shown(tab: NavTab, label: Seq<char>, front: NavTab) -> NavEntryView {
    NavEntryView {
        tab,
        label,
        color: Color::Gray(
            if tab == front {
                TEXT
            } else {
                TEXT_MUTED
            },
        ),
        active: tab == front,
    }
}

/// The question before closing.
pub open spec fn dialog_shown() -> DialogView {
    DialogView {
        title: "服务仍在运行"@,
        question:
            "MySQL / Auth / World 正在运行。关闭启动器将无法再管理它们, 若直接退出可能残留进程。"@,
        yes: ButtonView {
            label: "是, 停止服务并退出"@,
            look: Look::Accent,
            press: Some(Press::Confirm(true)),
        },
        no: ButtonView {
            label: "否, 取消"@,
            look: Look::Outline,
            press: Some(Press::Confirm(false)),
        },
    }
}

/// The window in a state.
pub open spec fn window_shown<H>(s: StateView<H>) -> WindowView {
    WindowView {
        page: s.active_nav,
        nav: seq![
            entry_shown(NavTab::Home, "主页"@, s.active_nav),
            entry_shown(NavTab::Terminal, "终端"@, s.active_nav),
            entry_shown(NavTab::Settings, "配置"@, s.active_nav),
        ],
        note: if s.sequence_message.len() > 0 {
            Some(LabelView { text: s.sequence_message, color: Color::Gray(TEXT_MUTED) })
        } else {
            None
        },
        dialog: if s.close_pending {
            Some(dialog_shown())
        } else {
            None
        },
    }
}

fn nav_entry(tab: NavTab, label: &'static str, front: NavTab) -> (result: NavEntry)
    ensures
        result@ == entry_shown(tab, label@, front),
{
    let active = tab == front;
    NavEntry {
        tab,
        label,
        color: Color::Gray(
            if active {
                TEXT
            } else {
                TEXT_MUTED
            },
        ),
        active,
    }
}

fn close_dialog() -> (result: Dialog)
    ensures
        result@ == dialog_shown(),
{
    Dialog {
        title: "服务仍在运行",
        question:
            "MySQL / Auth / World 正在运行。关闭启动器将无法再管理它们, 若直接退出可能残留进程。",
        yes: Button {
            label: "是, 停止服务并退出",
            look: Look::Accent,
            press: Some(Press::Confirm(true)),
        },
        no: Button { label: "否, 取消", look: Look::Outline, press: Some(Press::Confirm(false)) },
    }
}

/// What the window shows around its pages.
pub fn view<H>(state: &State<H>) -> (result: Window)
    ensures
        result@ == window_shown(state@),
{
    let front = state.active_nav;
    let nav: Vec<NavEntry> = vec![
        nav_entry(NavTab::Home, "主页", front),
        nav_entry(NavTab::Terminal, "终端", front),
        nav_entry(NavTab::Settings, "配置", front),
    ];
    let note = if state.sequence_message.as_str().is_empty() {
        None
    } else {
        Some(Label { text: state.sequence_message.clone(), color: Color::Gray(TEXT_MUTED) })
    };
    let dialog = if state.close_pending {
        Some(close_dialog())
    } else {
        None
    };
    let window = Window { page: front, nav, note, dialog };
    assert(window@.nav =~= window_shown(state@).nav);
    window
}

/// The side bar lists the three pages in order and marks the one in front alone. What is going on
/// is told below it, word for word, if there is anything to tell. The question whether to close is
/// over everything exactly while it is asked.
pub proof fn the_window_shows_what_is_in_front<H>(s: StateView<H>, i: int)
    requires
        0 <= i < 3,
    ensures
        ({
            let window = window_shown(s);
            let entry = window.nav[i];
            let tabs = seq![NavTab::Home, NavTab::Terminal, NavTab::Settings];
            let labels = seq!["主页"@, "终端"@, "配置"@];
            &&& window.page == s.active_nav
            &&& window.nav.len() == 3
            &&& entry.tab == tabs[i]
            &&& entry.label == labels[i]
            &&& entry.active <==> entry.tab == s.active_nav
            &&& entry.color == Color::Gray(
                if entry.active {
                    TEXT
                } else {
                    TEXT_MUTED
                },
            )
            &&& s.sequence_message.len() == 0 ==> window.note is None
            &&& s.sequence_message.len() > 0 ==> window.note == Some(
                LabelView { text: s.sequence_message, color: Color::Gray(TEXT_MUTED) },
            )
            &&& window.dialog is Some <==> s.close_pending
            &&& window.dialog matches Some(dialog) ==> dialog.yes.press == Some(
                Press::Confirm(true),
            ) && dialog.yes.label == "是, 停止服务并退出"@ && dialog.no.press == Some(
                Press::Confirm(false),
            ) && dialog.no.label == "否, 取消"@ && dialog.title == "服务仍在运行"@
        }),
{
}

/// Pressing a button asks for what the button is for.
pub proof fn presses_ask_for_what_they_say<H>(kind: ServiceKind, yes: bool)
    ensures
        Press::StartAll.sends::<H>() == Message::<H>::StartAll,
        Press::StopAll.sends::<H>() == Message::<H>::StopAll,
        Press::Start(kind).sends::<H>() == Message::<H>::StartService(kind),
        Press::Stop(kind).sends::<H>() == Message::<H>::StopService(kind),
        Press::Restart(kind).sends::<H>() == Message::<H>::RestartService(kind),
        Press::Save.sends::<H>() == Message::<H>::SaveConfig,
        Press::Reset.sends::<H>() == Message::<H>::ResetConfigDraft,
        Press::Clear(kind).sends::<H>() == Message::<H>::ClearTerminal(kind),
        Press::Confirm(yes).sends::<H>() == Message::<H>::ConfirmClose(yes),
{
}

} // verus!
