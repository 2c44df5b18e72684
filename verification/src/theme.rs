//! The launcher's colours and the looks of its buttons and panels.
use vstd::prelude::*;

use crate::service::Status;

verus! {

/// A colour, as red, green and blue bytes or as a grey level in percent.
#[derive(Debug, Clone, Copy, PartialEq, Eq, Structural)]
pub enum Color {
    Rgb(u8, u8, u8),
    Gray(u8),
}

pub const BG: u32 = 0x1F1F1F;

pub const SIDEBAR: u32 = 0x181818;

pub const CARD: u32 = 0x2B2B2B;

pub const CARD_BORDER: u32 = 0x3D3D3D;

pub const ACCENT: u32 = 0x60CDFF;

pub const ACCENT_HOVERED: u32 = 0x4DB4E0;

pub const ACCENT_PRESSED: u32 = 0x398AAC;

pub const ACCENT_SOFT: u32 = 0x2A4766;

pub const SUCCESS: u32 = 0x6FCE9A;

pub const DANGER: u32 = 0xFF9974;

pub const DANGER_HOVERED: u32 = 0xE07A4F;

pub const DANGER_PRESSED: u32 = 0xB55E3A;

pub const WARNING: u32 = 0xFFC97A;

/// Behind a pointed-at plain button, and behind every filled button that is off.
pub const SOFT: u32 = 0x333333;

pub const DISABLED_TEXT: u32 = 0x777777;

pub const DISABLED_GHOST_TEXT: u32 = 0x666666;

/// The grey of ordinary text, in percent.
pub const TEXT: u8 = 95;

/// The grey of secondary text, in percent.
pub const TEXT_MUTED: u8 = 72;

pub const BLACK: u32 = 0x000000;

pub const TERM_BG: u32 = 0x16161E;

pub const TERM_DEFAULT: u32 = 0xC0CAF5;

pub const TERM_MUTED: u32 = 0x9AA5CE;

pub const TERM_RED: u32 = 0xF7768E;

/// Stands in for black text, which would be invisible on [`TERM_BG`].
pub const TERM_FG_BLACK: u32 = 0x565F89;

/// The sixteen colours that terminal programs select by number.
pub const TERM_ANSI: [u32; 16] = [
    0x16161E,
    0xF7768E,
    0x9ECE6A,
    0xE0AF68,
    0x7AA2F7,
    0xBB9AF7,
    0x7DCFFF,
    0xC0CAF5,
    0x414868,
    0xFF7A93,
    0xB9F27C,
    0xFF9E64,
    0x7AA2F7,
    0xBB9AF7,
    0x7DCFFF,
    0xFFFFFF,
];

/// The colour written `0xRRGGBB`.
pub open spec fn hex_color(value: u32) -> Color {
    Color::Rgb(
        (value / 0x10000 % 0x100) as u8,
        (value / 0x100 % 0x100) as u8,
        (value % 0x100) as u8,
    )
}

pub fn hex(value: u32) -> (result: Color)
    ensures
        result == hex_color(value),
{
    Color::Rgb(
        (value / 0x10000 % 0x100) as u8,
        (value / 0x100 % 0x100) as u8,
        (value % 0x100) as u8,
    )
}

/// How the pointer stands to a button.
#[derive(Debug, Clone, Copy, PartialEq, Eq, Structural)]
pub enum ButtonStatus {
    Active,
    Hovered,
    Pressed,
    Disabled,
}

/// The outline of a button or panel. Without a colour it only rounds the corners.
#[derive(Debug, Clone, Copy, PartialEq, Eq, Structural)]
pub struct Border {
    pub color: Option<Color>,
    pub width: u8,
    pub radius: u8,
}

/// The look of a button.
#[derive(Debug, Clone, Copy, PartialEq, Eq, Structural)]
pub struct ButtonStyle {
    pub background: Option<Color>,
    pub text_color: Color,
    pub border: Border,
}

/// The look of a panel.
#[derive(Debug, Clone, Copy, PartialEq, Eq, Structural)]
pub struct PanelStyle {
    pub background: Color,
    pub text_color: Color,
    pub border: Border,
}

/// No outline and square corners.
pub open spec fn plain_border() -> Border {
    Border { color: None, width: 0, radius: 0 }
}

/// No outline and rounded corners.
pub open spec fn round_border() -> Border {
    Border { color: None, width: 0, radius: 6 }
}

/// An outline of the given colour and width with rounded corners.
pub open spec fn outline(color: Color, width: u8) -> Border {
    Border { color: Some(color), width, radius: 6 }
}

/// A plain button is tinted while the pointer is on it.
pub open spec fn tint(status: ButtonStatus) -> Option<Color> {
    if status == ButtonStatus::Hovered || status == ButtonStatus::Pressed {
        Some(hex_color(SOFT))
    } else {
        None
    }
}

/// A filled button with black text, which looks the same whatever its colour while it is off.
pub open spec fn filled(
    status: ButtonStatus,
    resting: u32,
    hovered: u32,
    pressed: u32,
) -> ButtonStyle {
    let (background, text) = match status {
        ButtonStatus::Disabled => (SOFT, DISABLED_TEXT),
        ButtonStatus::Hovered => (hovered, BLACK),
        ButtonStatus::Pressed => (pressed, BLACK),
        ButtonStatus::Active => (resting, BLACK),
    };
    ButtonStyle {
        background: Some(hex_color(background)),
        text_color: hex_color(text),
        border: round_border(),
    }
}

/// A button that marks one choice out of several: outlined if chosen, plain if not.
pub open spec fn choice(
    chosen: bool,
    status: ButtonStatus,
    background: u32,
    width: u8,
) -> ButtonStyle {
    if chosen {
        ButtonStyle {
            background: Some(hex_color(background)),
            text_color: Color::Gray(TEXT),
            border: outline(hex_color(ACCENT), width),
        }
    } else {
        ButtonStyle {
            background: tint(status),
            text_color: Color::Gray(TEXT_MUTED),
            border: plain_border(),
        }
    }
}

/// The look of a card on a page.
pub fn card_style() -> (result: PanelStyle)
    ensures
        result == (PanelStyle {
            background: hex_color(CARD),
            text_color: Color::Gray(TEXT),
            border: Border { color: Some(hex_color(CARD_BORDER)), width: 1, radius: 8 },
        }),
{
    PanelStyle {
        background: hex(CARD),
        text_color: Color::Gray(TEXT),
        border: Border { color: Some(hex(CARD_BORDER)), width: 1, radius: 8 },
    }
}

/// The look of the bar at the side.
pub fn sidebar_style() -> (result: PanelStyle)
    ensures
        result == (PanelStyle {
            background: hex_color(SIDEBAR),
            text_color: Color::Gray(TEXT),
            border: plain_border(),
        }),
{
    PanelStyle {
        background: hex(SIDEBAR),
        text_color: Color::Gray(TEXT),
        border: Border { color: None, width: 0, radius: 0 },
    }
}

fn soft_hover(status: ButtonStatus) -> (result: Option<Color>)
    ensures
        result == tint(status),
{
    match status {
        ButtonStatus::Hovered | ButtonStatus::Pressed => Some(hex(SOFT)),
        ButtonStatus::Active | ButtonStatus::Disabled => None,
    }
}

fn filled_style(status: ButtonStatus, resting: u32, hovered: u32, pressed: u32) -> (result:
    ButtonStyle)
    ensures
        result == filled(status, resting, hovered, pressed),
{
    let border = Border { color: None, width: 0, radius: 6 };
    let background: u32 = match status {
        ButtonStatus::Disabled => {
            return ButtonStyle {
                background: Some(hex(SOFT)),
                text_color: hex(DISABLED_TEXT),
                border,
            };
        },
        ButtonStatus::Hovered => hovered,
        ButtonStatus::Pressed => pressed,
        ButtonStatus::Active => resting,
    };
    ButtonStyle { background: Some(hex(background)), text_color: hex(BLACK), border }
}

fn choice_style(chosen: bool, status: ButtonStatus, background: u32, width: u8) -> (result:
    ButtonStyle)
    ensures
        result == choice(chosen, status, background, width),
{
    if chosen {
        ButtonStyle {
            background: Some(hex(background)),
            text_color: Color::Gray(TEXT),
            border: Border { color: Some(hex(ACCENT)), width, radius: 6 },
        }
    } else {
        ButtonStyle {
            background: soft_hover(status),
            text_color: Color::Gray(TEXT_MUTED),
            border: Border { color: None, width: 0, radius: 0 },
        }
    }
}

/// A page button of the side bar.
pub fn nav_button_style(active: bool, status: ButtonStatus) -> (result: ButtonStyle)
    ensures
        result == choice(active, status, ACCENT_SOFT, 1),
{
    choice_style(active, status, ACCENT_SOFT, 1)
}

/// A button for the main action of a group.
pub fn accent_button_style(status: ButtonStatus) -> (result: ButtonStyle)
    ensures
        result == filled(status, ACCENT, ACCENT_HOVERED, ACCENT_PRESSED),
{
    filled_style(status, ACCENT, ACCENT_HOVERED, ACCENT_PRESSED)
}

/// A button that stops something.
pub fn danger_button_style(status: ButtonStatus) -> (result: ButtonStyle)
    ensures
        result == filled(status, DANGER, DANGER_HOVERED, DANGER_PRESSED),
{
    filled_style(status, DANGER, DANGER_HOVERED, DANGER_PRESSED)
}

/// An outlined button for a secondary action.
pub fn ghost_button_style(status: ButtonStatus) -> (result: ButtonStyle)
    ensures
        result == (ButtonStyle {
            background: tint(status),
            text_color: if status == ButtonStatus::Disabled {
                hex_color(DISABLED_GHOST_TEXT)
            } else {
                Color::Gray(TEXT)
            },
            border: outline(hex_color(CARD_BORDER), 1),
        }),
{
    let border = Border { color: Some(hex(CARD_BORDER)), width: 1, radius: 6 };
    if status == ButtonStatus::Disabled {
        return ButtonStyle { background: None, text_color: hex(DISABLED_GHOST_TEXT), border };
    }
    ButtonStyle { background: soft_hover(status), text_color: Color::Gray(TEXT), border }
}

/// A tab of the terminal page.
pub fn tab_button_style(active: bool, status: ButtonStatus) -> (result: ButtonStyle)
    ensures
        result == choice(active, status, CARD, 2),
{
    choice_style(active, status, CARD, 2)
}

/// The colour of the dot that shows a status, given the colour for a stopped program.
pub open spec fn dot(status: Status, stopped: Color) -> Color {
    match status {
        Status::Running => hex_color(SUCCESS),
        Status::Starting => hex_color(WARNING),
        Status::Stopping => hex_color(WARNING),
        Status::Waiting => hex_color(WARNING),
        Status::Error => hex_color(DANGER),
        Status::Stopped => stopped,
    }
}

pub fn dot_color(status: Status, stopped: Color) -> (result: Color)
    ensures
        result == dot(status, stopped),
{
    match status {
        Status::Running => hex(SUCCESS),
        Status::Starting | Status::Stopping | Status::Waiting => hex(WARNING),
        Status::Error => hex(DANGER),
        Status::Stopped => stopped,
    }
}

/// A colour has the red, green and blue that it is written with.
pub proof fn colors_are_written_in_hex(value: u32)
    requires
        value < 0x1000000,
    ensures
        hex_color(value) matches Color::Rgb(r, g, b) && r * 0x10000 + g * 0x100 + b == value,
{
}

/// The dot is green while a program runs, amber while it is on its way in or out or waits, red if
/// it has failed, and has no colour of its own while it is stopped.
pub proof fn dots_tell_the_status(status: Status, stopped: Color)
    ensures
        dot(status, stopped) == if status == Status::Running {
            hex_color(SUCCESS)
        } else if status == Status::Error {
            hex_color(DANGER)
        } else if status == Status::Stopped {
            stopped
        } else {
            hex_color(WARNING)
        },
{
}

/// A filled button shows one colour at rest, one under the pointer and one while pressed, with
/// black text on each, and looks the same whatever its colours while it is off.
pub proof fn filled_buttons_follow_the_pointer(
    status: ButtonStatus,
    resting: u32,
    hovered: u32,
    pressed: u32,
)
    ensures
        ({
            let style = filled(status, resting, hovered, pressed);
            let (background, text) = if status == ButtonStatus::Active {
                (resting, BLACK)
            } else if status == ButtonStatus::Hovered {
                (hovered, BLACK)
            } else if status == ButtonStatus::Pressed {
                (pressed, BLACK)
            } else {
                (SOFT, DISABLED_TEXT)
            };
            &&& style.background == Some(hex_color(background))
            &&& style.text_color == hex_color(text)
            &&& style.border.color is None && style.border.width == 0 && style.border.radius == 6
        }),
{
}

/// A choice that is made is outlined and stands out whatever the pointer does. One that is not is
/// plain, and tinted only while the pointer is on it.
pub proof fn choices_stand_out(chosen: bool, status: ButtonStatus, background: u32, width: u8)
    ensures
        ({
            let style = choice(chosen, status, background, width);
            let pointed = status == ButtonStatus::Hovered || status == ButtonStatus::Pressed;
            &&& chosen ==> style.background == Some(hex_color(background)) && style.text_color
                == Color::Gray(TEXT) && style.border.color == Some(hex_color(ACCENT))
                && style.border.width == width && style.border.radius == 6
            &&& !chosen ==> style.text_color == Color::Gray(TEXT_MUTED) && style.border.color is None
                && style.border.width == 0 && style.border.radius == 0 && style.background
                == if pointed {
                Some(hex_color(SOFT))
            } else {
                None
            }
            &&& tint(status) == if pointed {
                Some(hex_color(SOFT))
            } else {
                None
            }
            &&& plain_border().color is None && plain_border().width == 0 && plain_border().radius
                == 0
            &&& outline(hex_color(background), width).color == Some(hex_color(background))
            &&& outline(hex_color(background), width).width == width
            &&& outline(hex_color(background), width).radius == 6
        }),
{
}

} // verus!
