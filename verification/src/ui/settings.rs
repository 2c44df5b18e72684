//! The settings page: the path of each program, as a draft until it is saved.
use vstd::prelude::*;

use crate::app::State;
use crate::model::StateView;
use crate::service::ServiceKind;
use crate::theme::{SUCCESS, TEXT_MUTED, WARNING, Color, hex, hex_color};
use crate::ui::{Button, ButtonView, Label, LabelView, Look, Press};

verus! {

/// The row of a program.
#[derive(Debug)]
pub struct PathRow {
    pub kind: ServiceKind,
    pub name: Label,
    /// Shown in the field while it is empty.
    pub placeholder: &'static str,
    pub path: String,
    /// Whether the path is set.
    pub badge: Label,
}

/// What a [`PathRow`] holds.
pub struct PathRowView {
    pub kind: ServiceKind,
    pub name: LabelView,
    pub placeholder: Seq<char>,
    pub path: Seq<char>,
    pub badge: LabelView,
}

impl View for PathRow {
    type V = PathRowView;

    open spec fn view(&self) -> PathRowView {
        PathRowView {
            kind: self.kind,
            name: self.name@,
            placeholder: self.placeholder@,
            path: self.path@,
            badge: self.badge@,
        }
    }
}

/// The settings page.
#[derive(Debug)]
pub struct SettingsPage {
    pub rows: Vec<PathRow>,
    pub reset: Button,
    pub save: Button,
    /// What came of the last action.
    pub message: Option<Label>,
}

/// What a [`SettingsPage`] holds.
#[verifier::ext_equal]
pub struct SettingsPageView {
    pub rows: Seq<PathRowView>,
    pub reset: ButtonView,
    pub save: ButtonView,
    pub message: Option<LabelView>,
}

impl View for SettingsPage {
    type V = SettingsPageView;

    open spec fn view(&self) -> SettingsPageView {
        SettingsPageView {
            rows: self.rows@.map_values(|row: PathRow| row@),
            reset: self.reset@,
            save: self.save@,
            message: match self.message {
                Some(message) => Some(message@),
                None => None,
            },
        }
    }
}

/// The row of a program.
pub open spec fn row_shown<H>(s: StateView<H>, kind: ServiceKind) -> PathRowView {
    PathRowView {
        kind,
        name: LabelView { text: kind.label_text(), color: Color::Gray(TEXT_MUTED) },
        placeholder: kind.placeholder_text(),
        path: s.config_draft.path(kind),
        badge: if s.config_draft.has_path(kind) {
            LabelView { text: "已设置"@, color: hex_color(SUCCESS) }
        } else {
            LabelView { text: "未设置"@, color: hex_color(WARNING) }
        },
    }
}

/// The settings page in a state.
pub open spec fn settings_shown<H>(s: StateView<H>) -> SettingsPageView {
    SettingsPageView {
        rows: seq![
            row_shown(s, ServiceKind::Mysql),
            row_shown(s, ServiceKind::Auth),
            row_shown(s, ServiceKind::World),
            row_shown(s, ServiceKind::Client),
        ],
        reset: ButtonView { label: "还原"@, look: Look::Outline, press: Some(Press::Reset) },
        save: ButtonView { label: "保存配置"@, look: Look::Accent, press: Some(Press::Save) },
        message: match s.config_message {
            Some(text) => Some(LabelView { text, color: Color::Gray(TEXT_MUTED) }),
            None => None,
        },
    }
}

fn path_row<H>(state: &State<H>, kind: ServiceKind) -> (result: PathRow)
    ensures
        result@ == row_shown(state@, kind),
{
    let badge = if state.config_draft.path_set(kind) {
        Label { text: "已设置".to_string(), color: hex(SUCCESS) }
    } else {
        Label { text: "未设置".to_string(), color: hex(WARNING) }
    };
    PathRow {
        kind,
        name: Label { text: kind.label().to_string(), color: Color::Gray(TEXT_MUTED) },
        placeholder: kind.placeholder(),
        path: state.config_draft.path_for(kind).to_string(),
        badge,
    }
}

/// What the settings page shows.
pub fn view<H>(state: &State<H>) -> (result: SettingsPage)
    ensures
        result@ == settings_shown(state@),
{
    let rows: Vec<PathRow> = vec![
        path_row(state, ServiceKind::Mysql),
        path_row(state, ServiceKind::Auth),
        path_row(state, ServiceKind::World),
        path_row(state, ServiceKind::Client),
    ];
    let message = match &state.config_message {
        Some(text) => Some(Label { text: text.clone(), color: Color::Gray(TEXT_MUTED) }),
        None => None,
    };
    let page = SettingsPage {
        rows,
        reset: Button { label: "还原", look: Look::Outline, press: Some(Press::Reset) },
        save: Button { label: "保存配置", look: Look::Accent, press: Some(Press::Save) },
        message,
    };
    assert(page@.rows =~= settings_shown(state@).rows);
    page
}

/// The settings page has a row for each program with the path of the draft, and says of each
/// whether it is set. It always offers to reset and to save, and passes on what came of the last
/// action.
pub proof fn settings_show_the_draft<H>(s: StateView<H>, kind: ServiceKind)
    ensures
        ({
            let page = settings_shown(s);
            let row = page.rows[kind.slot()];
            &&& page.rows.len() == 4
            &&& row.kind == kind
            &&& row.name.text == kind.label_text()
            &&& row.placeholder == kind.placeholder_text()
            &&& row.path == s.config_draft.path(kind)
            &&& s.config_draft.has_path(kind) ==> row.badge.text == "已设置"@ && row.badge.color
                == hex_color(SUCCESS)
            &&& !s.config_draft.has_path(kind) ==> row.badge.text == "未设置"@ && row.badge.color
                == hex_color(WARNING)
            &&& page.reset.press == Some(Press::Reset) && page.reset.label == "还原"@
            &&& page.save.press == Some(Press::Save) && page.save.label == "保存配置"@
            &&& s.config_message is None ==> page.message is None
            &&& s.config_message matches Some(text) ==> (page.message matches Some(label)
                && label.text == text)
        }),
{
}

} // verus!
