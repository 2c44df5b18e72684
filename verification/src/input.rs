//! Keyboard input: the bytes that a key press sends to the program in a terminal.
use vstd::prelude::*;

use crate::text::{
    contains_control, decimal_bytes, decimal_digits, decimals_are_distinct, has_control, is_control,
};

verus! {

/// The keys that are known by name. All keys that send nothing of their own are one.
#[derive(Debug, Clone, Copy, PartialEq, Eq, Structural)]
pub enum Named {
    Enter,
    Backspace,
    Tab,
    Escape,
    Space,
    ArrowUp,
    ArrowDown,
    ArrowRight,
    ArrowLeft,
    Home,
    End,
    Insert,
    Delete,
    PageUp,
    PageDown,
    F1,
    F2,
    F3,
    F4,
    F5,
    F6,
    F7,
    F8,
    F9,
    F10,
    F11,
    F12,
    Other,
}

/// A key: one with a name, one that stands for text, or an unknown one.
#[derive(Debug)]
pub enum Key {
    Named(Named),
    Character(String),
    Unidentified,
}

/// What a [`Key`] holds.
pub enum KeyView {
    Named(Named),
    Character(Seq<char>),
    Unidentified,
}

impl View for Key {
    type V = KeyView;

    open spec fn view(&self) -> KeyView {
        match self {
            Key::Named(named) => KeyView::Named(*named),
            Key::Character(s) => KeyView::Character(s@),
            Key::Unidentified => KeyView::Unidentified,
        }
    }
}

/// The modifier keys that are held down.
#[derive(Debug, Clone, Copy, PartialEq, Eq, Structural)]
pub struct Modifiers {
    pub shift: bool,
    pub control: bool,
    pub alt: bool,
}

/// How a named key is encoded.
#[derive(Debug, Clone, Copy, PartialEq, Eq, Structural)]
pub enum KeyCode {
    /// One byte, whatever the modifiers.
    Byte(u8),
    /// A cursor key, by the letter that ends its sequence.
    Cursor(u8),
    /// A function key, by the letter that ends its sequence.
    Function(u8),
    /// A key with a number, whose sequence ends in a tilde.
    Numbered(u8),
}

/// The code of each named key that has one.
pub open spec fn code_of(named: Named) -> Option<KeyCode> {
    match named {
        Named::Enter => Some(KeyCode::Byte(0x0d)),
        Named::Backspace => Some(KeyCode::Byte(0x7f)),
        Named::Tab => Some(KeyCode::Byte(0x09)),
        Named::Escape => Some(KeyCode::Byte(0x1b)),
        Named::ArrowUp => Some(KeyCode::Cursor(0x41)),
        Named::ArrowDown => Some(KeyCode::Cursor(0x42)),
        Named::ArrowRight => Some(KeyCode::Cursor(0x43)),
        Named::ArrowLeft => Some(KeyCode::Cursor(0x44)),
        Named::Home => Some(KeyCode::Cursor(0x48)),
        Named::End => Some(KeyCode::Cursor(0x46)),
        Named::Insert => Some(KeyCode::Numbered(2)),
        Named::Delete => Some(KeyCode::Numbered(3)),
        Named::PageUp => Some(KeyCode::Numbered(5)),
        Named::PageDown => Some(KeyCode::Numbered(6)),
        Named::F1 => Some(KeyCode::Function(0x50)),
        Named::F2 => Some(KeyCode::Function(0x51)),
        Named::F3 => Some(KeyCode::Function(0x52)),
        Named::F4 => Some(KeyCode::Function(0x53)),
        Named::F5 => Some(KeyCode::Numbered(15)),
        Named::F6 => Some(KeyCode::Numbered(17)),
        Named::F7 => Some(KeyCode::Numbered(18)),
        Named::F8 => Some(KeyCode::Numbered(19)),
        Named::F9 => Some(KeyCode::Numbered(20)),
        Named::F10 => Some(KeyCode::Numbered(21)),
        Named::F11 => Some(KeyCode::Numbered(23)),
        Named::F12 => Some(KeyCode::Numbered(24)),
        Named::Space => None,
        Named::Other => None,
    }
}

/// The number that stands for the held modifiers in a sequence, if any is held.
pub open spec fn modifier_value(mods: Modifiers) -> Option<u8> {
    let m = 1 + (if mods.shift {
        1int
    } else {
        0
    }) + (if mods.alt {
        2int
    } else {
        0
    }) + (if mods.control {
        4int
    } else {
        0
    });
    if m > 1 {
        Some(m as u8)
    } else {
        None
    }
}

/// `n` in decimal, as bytes.
pub open spec fn number(n: u8) -> Seq<u8> {
    decimal_digits(n as nat).map_values(|c: char| c as u8)
}

/// The sequence of a cursor key: `ESC [ 1 ; m X` with modifiers, and without them `ESC O X` where
/// application cursor keys are asked for and `ESC [ X` otherwise.
pub open spec fn cursor_sequence(letter: u8, app_cursor: bool, m: Option<u8>) -> Seq<u8> {
    match m {
        Some(m) => seq![0x1b, 0x5b, 0x31, 0x3b] + number(m) + seq![letter],
        None => if app_cursor {
            seq![0x1b, 0x4f, letter]
        } else {
            seq![0x1b, 0x5b, letter]
        },
    }
}

/// The sequence of a numbered key: `ESC [ n ~`, or `ESC [ n ; m ~` with modifiers.
pub open spec fn tilde_sequence(n: u8, m: Option<u8>) -> Seq<u8> {
    match m {
        Some(m) => seq![0x1b, 0x5b] + number(n) + seq![0x3b] + number(m) + seq![0x7e],
        None => seq![0x1b, 0x5b] + number(n) + seq![0x7e],
    }
}

/// The sequence of a named key.
pub open spec fn code_sequence(code: KeyCode, app_cursor: bool, m: Option<u8>) -> Seq<u8> {
    match code {
        KeyCode::Byte(b) => seq![b],
        KeyCode::Cursor(letter) => cursor_sequence(letter, app_cursor, m),
        KeyCode::Function(letter) => cursor_sequence(letter, true, m),
        KeyCode::Numbered(n) => tilde_sequence(n, m),
    }
}

/// The control character that a character stands for while the control key is held.
pub open spec fn control_code(c: char) -> Option<u8> {
    if 'a' <= c <= 'z' || 'A' <= c <= 'Z' {
        Some((c as u32 % 32) as u8)
    } else if c == '@' {
        Some(0x00)
    } else if c == '[' {
        Some(0x1b)
    } else if c == '\\' {
        Some(0x1c)
    } else if c == ']' {
        Some(0x1d)
    } else if c == '^' {
        Some(0x1e)
    } else if c == '_' || c == '/' {
        Some(0x1f)
    } else {
        None
    }
}

/// A text that can be sent as it is.
pub open spec fn printable(s: Seq<char>) -> bool {
    s.len() > 0 && !has_control(s)
}

/// The text that a key press stands for: the text that came with it, or else the key's own
/// character, or a space for the space key.
pub open spec fn typed_text(key: KeyView, text: Option<Seq<char>>) -> Option<Seq<char>> {
    if text is Some && printable(text->0) {
        text
    } else if text is None && key is Character && printable(key->Character_0) {
        Some(key->Character_0)
    } else if key == KeyView::Named(Named::Space) {
        Some(seq![' '])
    } else {
        None
    }
}

/// The bytes of the typed text, after an escape byte while the alt key is held.
pub open spec fn text_sequence(key: KeyView, text: Option<Seq<char>>, mods: Modifiers) -> Option<
    Seq<u8>,
> {
    match typed_text(key, text) {
        Some(s) => Some(
            (if mods.alt {
                seq![0x1bu8]
            } else {
                Seq::empty()
            }) + vstd::utf8::encode_utf8(s),
        ),
        None => None,
    }
}

/// The bytes that a key press sends, if it sends any.
pub open spec fn key_sequence(
    key: KeyView,
    text: Option<Seq<char>>,
    mods: Modifiers,
    app_cursor: bool,
) -> Option<Seq<u8>> {
    match key {
        KeyView::Named(named) => if mods.shift && (named == Named::PageUp || named
            == Named::PageDown) {
            None
        } else if mods.control && named == Named::Space {
            Some(seq![0x00u8])
        } else {
            match code_of(named) {
                Some(code) => Some(code_sequence(code, app_cursor, modifier_value(mods))),
                None => text_sequence(key, text, mods),
            }
        },
        KeyView::Character(s) => if mods.control && s.len() == 1 && control_code(s[0]) is Some {
            Some(seq![control_code(s[0])->0])
        } else {
            text_sequence(key, text, mods)
        },
        KeyView::Unidentified => text_sequence(key, text, mods),
    }
}

/// The view of an optional text.
pub open spec fn optional_text(text: Option<&str>) -> Option<Seq<char>> {
    match text {
        Some(s) => Some(s@),
        None => None,
    }
}

/// The view of optional bytes.
pub open spec fn optional_bytes(bytes: Option<Vec<u8>>) -> Option<Seq<u8>> {
    match bytes {
        Some(bytes) => Some(bytes@),
        None => None,
    }
}

fn named_code(named: Named) -> (result: Option<KeyCode>)
    ensures
        result == code_of(named),
{
    match named {
        Named::Enter => Some(KeyCode::Byte(0x0d)),
        Named::Backspace => Some(KeyCode::Byte(0x7f)),
        Named::Tab => Some(KeyCode::Byte(0x09)),
        Named::Escape => Some(KeyCode::Byte(0x1b)),
        Named::ArrowUp => Some(KeyCode::Cursor(0x41)),
        Named::ArrowDown => Some(KeyCode::Cursor(0x42)),
        Named::ArrowRight => Some(KeyCode::Cursor(0x43)),
        Named::ArrowLeft => Some(KeyCode::Cursor(0x44)),
        Named::Home => Some(KeyCode::Cursor(0x48)),
        Named::End => Some(KeyCode::Cursor(0x46)),
        Named::Insert => Some(KeyCode::Numbered(2)),
        Named::Delete => Some(KeyCode::Numbered(3)),
        Named::PageUp => Some(KeyCode::Numbered(5)),
        Named::PageDown => Some(KeyCode::Numbered(6)),
        Named::F1 => Some(KeyCode::Function(0x50)),
        Named::F2 => Some(KeyCode::Function(0x51)),
        Named::F3 => Some(KeyCode::Function(0x52)),
        Named::F4 => Some(KeyCode::Function(0x53)),
        Named::F5 => Some(KeyCode::Numbered(15)),
        Named::F6 => Some(KeyCode::Numbered(17)),
        Named::F7 => Some(KeyCode::Numbered(18)),
        Named::F8 => Some(KeyCode::Numbered(19)),
        Named::F9 => Some(KeyCode::Numbered(20)),
        Named::F10 => Some(KeyCode::Numbered(21)),
        Named::F11 => Some(KeyCode::Numbered(23)),
        Named::F12 => Some(KeyCode::Numbered(24)),
        Named::Space | Named::Other => None,
    }
}

/// The number that a sequence gives the held modifiers by, if any is held.
pub fn modifier_param(mods: Modifiers) -> (result: Option<u8>)
    ensures
        result == modifier_value(mods),
{
    let mut m: u8 = 1;
    if mods.shift {
        m += 1;
    }
    if mods.alt {
        m += 2;
    }
    if mods.control {
        m += 4;
    }
    if m > 1 {
        Some(m)
    } else {
        None
    }
}

/// The sequence of a cursor key.
pub fn csi_or_ss3(letter: u8, app_cursor: bool, m: Option<u8>) -> (result: Vec<u8>)
    ensures
        result@ == cursor_sequence(letter, app_cursor, m),
{
    let mut bytes: Vec<u8> = Vec::new();
    bytes.push(0x1b);
    match m {
        Some(m) => {
            bytes.push(0x5b);
            bytes.push(0x31);
            bytes.push(0x3b);
            let mut digits = decimal_bytes(m);
            bytes.append(&mut digits);
        },
        None => {
            bytes.push(if app_cursor {
                0x4f
            } else {
                0x5b
            });
        },
    }
    bytes.push(letter);
    assert(bytes@ =~= cursor_sequence(letter, app_cursor, m));
    bytes
}

/// The sequence of a numbered key.
pub fn tilde(n: u8, m: Option<u8>) -> (result: Vec<u8>)
    ensures
        result@ == tilde_sequence(n, m),
{
    let mut bytes: Vec<u8> = Vec::new();
    bytes.push(0x1b);
    bytes.push(0x5b);
    let mut digits = decimal_bytes(n);
    bytes.append(&mut digits);
    if let Some(m) = m {
        bytes.push(0x3b);
        let mut digits = decimal_bytes(m);
        bytes.append(&mut digits);
    }
    bytes.push(0x7e);
    assert(bytes@ =~= tilde_sequence(n, m));
    bytes
}

/// The sequence of a function key with a letter.
pub fn fn_key(letter: u8, m: Option<u8>) -> (result: Vec<u8>)
    ensures
        result@ == cursor_sequence(letter, true, m),
{
    csi_or_ss3(letter, true, m)
}

fn control_byte(c: char) -> (result: Option<u8>)
    ensures
        result == control_code(c),
{
    if ('a' <= c && c <= 'z') || ('A' <= c && c <= 'Z') {
        Some((c as u32 % 32) as u8)
    } else if c == '@' {
        Some(0x00)
    } else if c == '[' {
        Some(0x1b)
    } else if c == '\\' {
        Some(0x1c)
    } else if c == ']' {
        Some(0x1d)
    } else if c == '^' {
        Some(0x1e)
    } else if c == '_' || c == '/' {
        Some(0x1f)
    } else {
        None
    }
}

fn is_printable(s: &str) -> (result: bool)
    ensures
        result == printable(s@),
{
    !s.is_empty() && !contains_control(s)
}

fn encode_text(key: &Key, text: Option<&str>, mods: Modifiers) -> (result: Option<Vec<u8>>)
    ensures
        optional_bytes(result) == text_sequence(key@, optional_text(text), mods),
{
    proof {
        reveal_strlit(" ");
        assert(" "@ =~= seq![' ']);
    }
    let typed: Option<&str> = match (text, key) {
        (Some(s), _) if is_printable(s) => Some(s),
        (None, Key::Character(k)) if is_printable(k.as_str()) => Some(k.as_str()),
        (_, Key::Named(Named::Space)) => Some(" "),
        _ => None,
    };
    assert(optional_text(typed) == typed_text(key@, optional_text(text)));
    match typed {
        Some(s) => {
            let mut bytes: Vec<u8> = Vec::new();
            if mods.alt {
                bytes.push(0x1b);
            }
            let mut rest = s.as_bytes_vec();
            bytes.append(&mut rest);
            assert(optional_bytes(Some(bytes))->0 =~= text_sequence(
                key@,
                optional_text(text),
                mods,
            )->0);
            Some(bytes)
        },
        None => None,
    }
}

/// The bytes that a key press sends to the program in a terminal, or nothing for a key that the
/// program does not get: paging with the shift key held, and keys that stand for no text.
///
/// `text` is the text that the platform gives for the key press, and `app_cursor` tells whether
/// the program has asked for application cursor keys.
pub fn encode_key(key: &Key, text: Option<&str>, mods: Modifiers, app_cursor: bool) -> (result:
    Option<Vec<u8>>)
    ensures
        optional_bytes(result) == key_sequence(key@, optional_text(text), mods, app_cursor),
{
    match key {
        Key::Named(named) => {
            if mods.shift && (*named == Named::PageUp || *named == Named::PageDown) {
                return None;
            }
            if mods.control && *named == Named::Space {
                let bytes: Vec<u8> = vec![0x00];
                assert(bytes@ =~= seq![0x00u8]);
                return Some(bytes);
            }
            let m = modifier_param(mods);
            match named_code(*named) {
                Some(KeyCode::Byte(b)) => {
                    let bytes: Vec<u8> = vec![b];
                    assert(bytes@ =~= seq![b]);
                    Some(bytes)
                },
                Some(KeyCode::Cursor(letter)) => Some(csi_or_ss3(letter, app_cursor, m)),
                Some(KeyCode::Function(letter)) => Some(fn_key(letter, m)),
                Some(KeyCode::Numbered(n)) => Some(tilde(n, m)),
                None => encode_text(key, text, mods),
            }
        },
        Key::Character(s) => {
            if mods.control && s.as_str().unicode_len() == 1 {
                if let Some(b) = control_byte(s.as_str().get_char(0)) {
                    let bytes: Vec<u8> = vec![b];
                    assert(bytes@ =~= seq![b]);
                    return Some(bytes);
                }
            }
            encode_text(key, text, mods)
        },
        Key::Unidentified => encode_text(key, text, mods),
    }
}

/// Page Up and Page Down with Shift send nothing: they are for paging in the launcher.
pub proof fn shifted_paging_keys_send_nothing(
    named: Named,
    text: Option<Seq<char>>,
    mods: Modifiers,
    app_cursor: bool,
)
    requires
        named == Named::PageUp || named == Named::PageDown,
        mods.shift,
    ensures
        key_sequence(KeyView::Named(named), text, mods, app_cursor) is None,
{
}

/// With a modifier held, no key depends on whether application cursor keys are asked for.
pub proof fn modified_keys_ignore_the_mode(key: KeyView, text: Option<Seq<char>>, mods: Modifiers)
    requires
        mods.shift || mods.control || mods.alt,
    ensures
        key_sequence(key, text, mods, true) == key_sequence(key, text, mods, false),
{
}

/// Only the arrow keys, Home and End depend on whether application cursor keys are asked for.
pub proof fn only_cursor_keys_know_the_mode(key: KeyView, text: Option<Seq<char>>, mods: Modifiers)
    requires
        key matches KeyView::Named(named) ==> !(code_of(named) matches Some(KeyCode::Cursor(_))),
    ensures
        key_sequence(key, text, mods, true) == key_sequence(key, text, mods, false),
{
}

/// A letter with the control key held sends its place in the alphabet, in either case.
pub proof fn control_letters_send_their_place(
    c: char,
    text: Option<Seq<char>>,
    mods: Modifiers,
    app_cursor: bool,
)
    requires
        'a' <= c <= 'z',
        mods.control,
    ensures
        ({
            let upper = (c as u32 - 32) as char;
            let place = seq![(c as u32 - 'a' as u32 + 1) as u8];
            &&& key_sequence(KeyView::Character(seq![c]), text, mods, app_cursor) == Some(place)
            &&& key_sequence(KeyView::Character(seq![upper]), text, mods, app_cursor) == Some(place)
        }),
{
}

/// With the alt key held, text is sent as without it, after an escape byte.
pub proof fn alt_puts_an_escape_before_text(
    key: KeyView,
    text: Option<Seq<char>>,
    shift: bool,
    app_cursor: bool,
)
    requires
        key matches KeyView::Named(named) ==> code_of(named) is None,
    ensures
        ({
            let plain = key_sequence(
                key,
                text,
                (Modifiers { shift, control: false, alt: false }),
                app_cursor,
            );
            let escaped = key_sequence(
                key,
                text,
                (Modifiers { shift, control: false, alt: true }),
                app_cursor,
            );
            match plain {
                Some(bytes) => escaped == Some(seq![0x1bu8] + bytes),
                None => escaped is None,
            }
        }),
{
    match typed_text(key, text) {
        Some(s) => {
            let bytes = vstd::utf8::encode_utf8(s);
            assert(Seq::<u8>::empty() + bytes =~= bytes);
        },
        None => {},
    }
}

/// A key press that sends anything sends at least one byte.
pub proof fn sent_input_is_not_empty(
    key: KeyView,
    text: Option<Seq<char>>,
    mods: Modifiers,
    app_cursor: bool,
)
    ensures
        key_sequence(key, text, mods, app_cursor) matches Some(bytes) ==> bytes.len() > 0,
{
    match typed_text(key, text) {
        Some(s) => {
            reveal_with_fuel(vstd::utf8::encode_utf8, 2);
        },
        None => {},
    }
}

/// The number for the held modifiers: none if none is held, and otherwise one more than the sum of
/// one for shift, two for alt and four for control. Different modifiers have different numbers.
pub proof fn modifier_values_are_distinct(a: Modifiers, b: Modifiers)
    ensures
        modifier_value(a) is None <==> !a.shift && !a.alt && !a.control,
        modifier_value(a) matches Some(m) ==> 2 <= m <= 8 && m == 1 + (if a.shift {
            1int
        } else {
            0
        }) + (if a.alt {
            2int
        } else {
            0
        }) + (if a.control {
            4int
        } else {
            0
        }),
        modifier_value(a) == modifier_value(b) <==> a == b,
{
}

/// The bytes of a number are digits, and different numbers have different bytes.
proof fn lemma_number(a: u8, b: u8)
    ensures
        number(a).len() > 0,
        forall|i: int| 0 <= i < number(a).len() ==> 0x30 <= #[trigger] number(a)[i] <= 0x39,
        number(a) == number(b) ==> a == b,
{
    let (x, y) = (decimal_digits(a as nat), decimal_digits(b as nat));
    decimals_are_distinct(a as nat, b as nat);
    decimals_are_distinct(b as nat, a as nat);
    assert forall|i: int| 0 <= i < number(a).len() implies 0x30 <= #[trigger] number(a)[i]
        <= 0x39 by {
        assert('0' <= x[i] <= '9');
    }
    if number(a) == number(b) {
        assert(x.len() == number(a).len() && y.len() == number(b).len());
        assert forall|i: int| 0 <= i < x.len() implies x[i] == y[i] by {
            assert('0' <= x[i] <= '9');
            assert('0' <= y[i] <= '9');
            assert(number(a)[i] == number(b)[i]);
        }
        assert(x =~= y);
    }
}

/// Keys with different numbers, or with different modifiers, send different sequences.
pub proof fn tilde_sequences_are_distinct(n1: u8, m1: Option<u8>, n2: u8, m2: Option<u8>)
    ensures
        tilde_sequence(n1, m1) == tilde_sequence(n2, m2) <==> n1 == n2 && m1 == m2,
{
    let (s1, s2) = (tilde_sequence(n1, m1), tilde_sequence(n2, m2));
    if s1 == s2 {
        let (d1, d2) = (number(n1), number(n2));
        let (l1, l2) = (d1.len() as int, d2.len() as int);
        lemma_number(n1, n2);
        lemma_number(n2, n1);
        // The byte after the number ends it, for it is no digit.
        assert(s1[2 + l1] == 0x3b || s1[2 + l1] == 0x7e);
        assert(s2[2 + l2] == 0x3b || s2[2 + l2] == 0x7e);
        if l1 < l2 {
            assert(s2[2 + l1] == d2[l1]);
        }
        if l2 < l1 {
            assert(s1[2 + l2] == d1[l2]);
        }
        assert forall|i: int| 0 <= i < l1 implies d1[i] == d2[i] by {
            assert(s1[2 + i] == d1[i]);
            assert(s2[2 + i] == d2[i]);
        }
        assert(d1 =~= d2);
        let after = 2 + l1;
        assert(s1[after] == if m1 is Some {
            0x3bu8
        } else {
            0x7eu8
        });
        assert(s2[after] == if m2 is Some {
            0x3bu8
        } else {
            0x7eu8
        });
        if m1 is Some {
            let (e1, e2) = (number(m1->0), number(m2->0));
            lemma_number(m1->0, m2->0);
            assert(s1.len() == after + 1 + e1.len() + 1);
            assert(s2.len() == after + 1 + e2.len() + 1);
            assert forall|i: int| 0 <= i < e1.len() implies e1[i] == e2[i] by {
                assert(s1[after + 1 + i] == e1[i]);
                assert(s2[after + 1 + i] == e2[i]);
            }
            assert(e1 =~= e2);
        }
    }
}

/// A cursor key with modifiers sends one sequence in both modes, with the number of the modifiers.
/// Without modifiers the mode decides.
pub proof fn cursor_sequences_by_mode(letter: u8, m: u8)
    ensures
        cursor_sequence(letter, true, Some(m)) == seq![0x1bu8, 0x5b, 0x31, 0x3b] + number(m)
            + seq![letter],
        cursor_sequence(letter, false, Some(m)) == cursor_sequence(letter, true, Some(m)),
        cursor_sequence(letter, true, None) == seq![0x1bu8, 0x4f, letter],
        cursor_sequence(letter, false, None) == seq![0x1bu8, 0x5b, letter],
{
}

/// The function keys with letters send what a cursor key with that letter sends where application
/// cursor keys are asked for, in either mode.
pub proof fn function_keys_are_like_application_cursor_keys(
    letter: u8,
    app_cursor: bool,
    m: Option<u8>,
)
    ensures
        code_sequence(KeyCode::Function(letter), app_cursor, m) == cursor_sequence(letter, true, m),
        code_sequence(KeyCode::Function(letter), app_cursor, m) == code_sequence(
            KeyCode::Cursor(letter),
            true,
            m,
        ),
{
}

/// A key without a sequence of its own sends the text that the platform gives for the press, as it
/// is, with shift and without: a capital is a capital, and a shifted symbol that symbol. Alt puts
/// an escape byte before it. With control the same holds where the press stands for no control
/// character.
pub proof fn text_presses_send_their_text(
    key: KeyView,
    text: Seq<char>,
    mods: Modifiers,
    app_cursor: bool,
)
    requires
        key matches KeyView::Named(named) ==> named == Named::Other || named == Named::Space,
        text.len() > 0,
        forall|i: int| 0 <= i < text.len() ==> !is_control(#[trigger] text[i]),
        mods.control ==> key != KeyView::Named(Named::Space) && (key matches KeyView::Character(s)
            ==> s.len() != 1 || stands_for_no_control(s[0])),
    ensures
        key_sequence(key, Some(text), mods, app_cursor) == Some(
            if mods.alt {
                seq![0x1bu8] + vstd::utf8::encode_utf8(text)
            } else {
                vstd::utf8::encode_utf8(text)
            },
        ),
{
    let bytes = vstd::utf8::encode_utf8(text);
    assert(Seq::<u8>::empty() + bytes =~= bytes);
}

/// A character that control turns into nothing else: neither a letter nor one of the seven symbols
/// that stand for a control character.
pub open spec fn stands_for_no_control(c: char) -> bool {
    &&& !('a' <= c <= 'z')
    &&& !('A' <= c <= 'Z')
    &&& c != '@'
    &&& c != '['
    &&& c != '\\'
    &&& c != ']'
    &&& c != '^'
    &&& c != '_'
    &&& c != '/'
}

/// Without a text from the platform, a character key sends its own characters, and the space key a
/// space. Alt puts an escape byte before them. Shift makes no difference, and neither does control
/// where the key stands for no control character. Other keys without a sequence of their own send
/// nothing.
pub proof fn presses_without_text_send_the_key(own: Seq<char>, mods: Modifiers, app_cursor: bool)
    requires
        mods.control ==> own.len() != 1 || stands_for_no_control(own[0]),
    ensures
        ({
            let escaped = |bytes: Seq<u8>|
                if mods.alt {
                    seq![0x1bu8] + bytes
                } else {
                    bytes
                };
            &&& own.len() > 0 && (forall|i: int|
                0 <= i < own.len() ==> !is_control(#[trigger] own[i])) ==> key_sequence(
                KeyView::Character(own),
                None,
                mods,
                app_cursor,
            ) == Some(escaped(vstd::utf8::encode_utf8(own)))
            &&& own.len() == 0 || (exists|i: int|
                0 <= i < own.len() && is_control(#[trigger] own[i])) ==> key_sequence(
                KeyView::Character(own),
                None,
                mods,
                app_cursor,
            ) is None
            &&& !mods.control ==> key_sequence(
                KeyView::Named(Named::Space),
                None,
                mods,
                app_cursor,
            ) == Some(escaped(vstd::utf8::encode_utf8(seq![' '])))
            &&& key_sequence(KeyView::Named(Named::Other), None, mods, app_cursor) is None
            &&& key_sequence(KeyView::Unidentified, None, mods, app_cursor) is None
        }),
{
    let bytes = vstd::utf8::encode_utf8(own);
    assert(Seq::<u8>::empty() + bytes =~= bytes);
    let space = vstd::utf8::encode_utf8(seq![' ']);
    assert(Seq::<u8>::empty() + space =~= space);
}

/// A text from the platform that is empty or holds a control character is not sent, and the key's
/// own character is not sent in its place. Only the space key still sends what it sends without a
/// text.
pub proof fn control_characters_are_not_sent_as_text(
    key: KeyView,
    text: Seq<char>,
    mods: Modifiers,
    app_cursor: bool,
)
    requires
        key matches KeyView::Named(named) ==> named == Named::Other || named == Named::Space,
        text.len() == 0 || exists|i: int| 0 <= i < text.len() && is_control(#[trigger] text[i]),
        mods.control ==> (key matches KeyView::Character(s) ==> s.len() != 1
            || stands_for_no_control(s[0])),
    ensures
        key != KeyView::Named(Named::Space) ==> key_sequence(key, Some(text), mods, app_cursor)
            is None,
        key == KeyView::Named(Named::Space) ==> key_sequence(key, Some(text), mods, app_cursor)
            == key_sequence(key, None, mods, app_cursor),
{
}

/// With control held, the space key and the seven symbols that stand for a control character send
/// that one byte, whatever else is held and whatever text came with the press.
pub proof fn control_symbols_send_one_byte(
    text: Option<Seq<char>>,
    mods: Modifiers,
    app_cursor: bool,
)
    requires
        mods.control,
    ensures
        ({
            let sent = |c: char|
                key_sequence(KeyView::Character(seq![c]), text, mods, app_cursor);
            &&& key_sequence(KeyView::Named(Named::Space), text, mods, app_cursor) == Some(
                seq![0x00u8],
            )
            &&& sent('@') == Some(seq![0x00u8])
            &&& sent('[') == Some(seq![0x1bu8])
            &&& sent('\\') == Some(seq![0x1cu8])
            &&& sent(']') == Some(seq![0x1du8])
            &&& sent('^') == Some(seq![0x1eu8])
            &&& sent('_') == Some(seq![0x1fu8])
            &&& sent('/') == Some(seq![0x1fu8])
        }),
{
}

/// Enter, Backspace, Tab and Escape send their one byte, whatever is held, whatever text came with
/// the press and whatever mode the program has asked for.
pub proof fn editing_keys_send_their_byte(
    text: Option<Seq<char>>,
    mods: Modifiers,
    app_cursor: bool,
)
    ensures
        key_sequence(KeyView::Named(Named::Enter), text, mods, app_cursor) == Some(seq![0x0du8]),
        key_sequence(KeyView::Named(Named::Backspace), text, mods, app_cursor) == Some(
            seq![0x7fu8],
        ),
        key_sequence(KeyView::Named(Named::Tab), text, mods, app_cursor) == Some(seq![0x09u8]),
        key_sequence(KeyView::Named(Named::Escape), text, mods, app_cursor) == Some(seq![0x1bu8]),
{
}

/// The arrow keys, Home and End send their letter: after `ESC [ 1 ;` and the number of the held
/// modifiers, or without any after `ESC O` where application cursor keys are asked for and after
/// `ESC [` otherwise. F1 to F4 send theirs as if application cursor keys were always asked for. No
/// text makes a difference.
pub proof fn lettered_keys_send_their_letter(
    named: Named,
    letter: u8,
    text: Option<Seq<char>>,
    mods: Modifiers,
    app_cursor: bool,
)
    requires
        match named {
            Named::ArrowUp => letter == 0x41,
            Named::ArrowDown => letter == 0x42,
            Named::ArrowRight => letter == 0x43,
            Named::ArrowLeft => letter == 0x44,
            Named::Home => letter == 0x48,
            Named::End => letter == 0x46,
            Named::F1 => letter == 0x50,
            Named::F2 => letter == 0x51,
            Named::F3 => letter == 0x52,
            Named::F4 => letter == 0x53,
            _ => false,
        },
    ensures
        ({
            let function = named == Named::F1 || named == Named::F2 || named == Named::F3 || named
                == Named::F4;
            let held = 1 + (if mods.shift {
                1int
            } else {
                0
            }) + (if mods.alt {
                2int
            } else {
                0
            }) + (if mods.control {
                4int
            } else {
                0
            });
            key_sequence(KeyView::Named(named), text, mods, app_cursor) == Some(
                if held > 1 {
                    seq![0x1bu8, 0x5b, 0x31, 0x3b, (0x30 + held) as u8, letter]
                } else if app_cursor || function {
                    seq![0x1bu8, 0x4f, letter]
                } else {
                    seq![0x1bu8, 0x5b, letter]
                },
            )
        }),
{
    if mods.shift || mods.alt || mods.control {
        let m = modifier_value(mods)->0;
        lemma_digit(m);
        assert(seq![0x1bu8, 0x5b, 0x31, 0x3b] + number(m) + seq![letter] =~= seq![
            0x1bu8,
            0x5b,
            0x31,
            0x3b,
            (0x30 + m) as u8,
            letter,
        ]);
    }
}

/// A number below ten is written with one digit.
proof fn lemma_digit(n: u8)
    requires
        n < 10,
    ensures
        number(n) == seq![(0x30 + n) as u8],
{
    assert(number(n) =~= seq![(0x30 + n) as u8]);
}

/// Insert, Delete, Page Up, Page Down and F5 to F12 send their number between `ESC [` and a tilde,
/// with a semicolon and the number of the held modifiers after it if any is held. Page Up and Page
/// Down send nothing with shift. Neither a text nor the mode makes a difference.
pub proof fn numbered_keys_send_their_number(
    named: Named,
    n: u8,
    text: Option<Seq<char>>,
    mods: Modifiers,
    app_cursor: bool,
)
    requires
        match named {
            Named::Insert => n == 2,
            Named::Delete => n == 3,
            Named::PageUp => n == 5,
            Named::PageDown => n == 6,
            Named::F5 => n == 15,
            Named::F6 => n == 17,
            Named::F7 => n == 18,
            Named::F8 => n == 19,
            Named::F9 => n == 20,
            Named::F10 => n == 21,
            Named::F11 => n == 23,
            Named::F12 => n == 24,
            _ => false,
        },
    ensures
        ({
            let sent = key_sequence(KeyView::Named(named), text, mods, app_cursor);
            let held = 1 + (if mods.shift {
                1int
            } else {
                0
            }) + (if mods.alt {
                2int
            } else {
                0
            }) + (if mods.control {
                4int
            } else {
                0
            });
            let digits = if n < 10 {
                seq![(0x30 + n) as u8]
            } else {
                seq![(0x30 + n / 10) as u8, (0x30 + n % 10) as u8]
            };
            if mods.shift && (named == Named::PageUp || named == Named::PageDown) {
                sent is None
            } else if held > 1 {
                sent == Some(
                    seq![0x1bu8, 0x5b] + digits + seq![0x3bu8, (0x30 + held) as u8, 0x7e],
                )
            } else {
                sent == Some(seq![0x1bu8, 0x5b] + digits + seq![0x7eu8])
            }
        }),
{
    if n < 10 {
        lemma_digit(n);
    } else {
        lemma_two_digits(n);
    }
    if mods.shift || mods.alt || mods.control {
        let m = modifier_value(mods)->0;
        lemma_digit(m);
        assert(seq![0x1bu8, 0x5b] + number(n) + seq![0x3bu8] + number(m) + seq![0x7eu8]
            =~= seq![0x1bu8, 0x5b] + number(n) + seq![0x3bu8, (0x30 + m) as u8, 0x7e]);
    }
}

proof fn lemma_two_digits(n: u8)
    requires
        10 <= n < 100,
    ensures
        number(n) == seq![(0x30 + n / 10) as u8, (0x30 + n % 10) as u8],
{
    reveal_with_fuel(decimal_digits, 2);
    let (tens, ones) = (n as nat / 10, n as nat % 10);
    assert(decimal_digits(n as nat) =~= seq![crate::text::digit(tens), crate::text::digit(ones)]);
    assert(number(n) =~= seq![(0x30 + n / 10) as u8, (0x30 + n % 10) as u8]);
}

/// What is there is read as it is, and nothing as nothing: the text of a key press, and the bytes
/// that are sent for it.
pub proof fn optional_values_are_read_as_they_are(text: &str, bytes: Vec<u8>)
    ensures
        optional_text(Some(text)) == Some(text@),
        optional_text(None) is None,
        optional_bytes(Some(bytes)) == Some(bytes@),
        optional_bytes(None) is None,
{
}

} // verus!
