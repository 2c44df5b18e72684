use wow_launcher::input::{
    csi_or_ss3, encode_key, fn_key, modifier_param, tilde, Key, Modifiers, Named,
};

const NONE: Modifiers = Modifiers { shift: false, control: false, alt: false };
const CTRL: Modifiers = Modifiers { shift: false, control: true, alt: false };
const SHIFT: Modifiers = Modifiers { shift: true, control: false, alt: false };
const ALT: Modifiers = Modifiers { shift: false, control: false, alt: true };

fn enc(key: Key, text: Option<&str>, mods: Modifiers, app_cursor: bool) -> Option<Vec<u8>> {
    encode_key(&key, text, mods, app_cursor)
}

fn character(s: &str) -> Key {
    Key::Character(s.to_string())
}

#[test]
fn enter_sends_cr() {
    assert_eq!(enc(Key::Named(Named::Enter), Some("\r"), NONE, false), Some(b"\r".to_vec()));
}

#[test]
fn ctrl_c_sends_etx() {
    assert_eq!(enc(character("c"), None, CTRL, false), Some(vec![0x03]));
}

#[test]
fn ctrl_specials() {
    assert_eq!(enc(character("["), Some("["), CTRL, false), Some(vec![0x1b]));
    assert_eq!(enc(character("_"), Some("_"), CTRL, false), Some(vec![0x1f]));
}

#[test]
fn arrow_up_csi_mode() {
    assert_eq!(enc(Key::Named(Named::ArrowUp), None, NONE, false), Some(b"\x1b[A".to_vec()));
}

#[test]
fn arrow_up_ss3_mode() {
    assert_eq!(enc(Key::Named(Named::ArrowDown), None, NONE, true), Some(b"\x1bOB".to_vec()));
}

#[test]
fn ctrl_arrow_parameterized_csi() {
    assert_eq!(enc(Key::Named(Named::ArrowUp), None, CTRL, true), Some(b"\x1b[1;5A".to_vec()));
}

#[test]
fn f8_sends_csi_19_tilde() {
    assert_eq!(enc(Key::Named(Named::F8), None, NONE, false), Some(b"\x1b[19~".to_vec()));
}

#[test]
fn shift_f5_parameterized() {
    assert_eq!(enc(Key::Named(Named::F5), None, SHIFT, false), Some(b"\x1b[15;2~".to_vec()));
}

#[test]
fn shift_pgup_never_encoded_locally_intercepted_by_update() {
    assert_eq!(enc(Key::Named(Named::PageUp), None, SHIFT, false), None);
}

#[test]
fn plain_pgup_sent_to_remote() {
    assert_eq!(enc(Key::Named(Named::PageUp), None, NONE, false), Some(b"\x1b[5~".to_vec()));
}

#[test]
fn utf8_text_passthrough() {
    assert_eq!(enc(character("é"), Some("é"), NONE, false), Some("é".as_bytes().to_vec()));
}

#[test]
fn alt_prefixes_escape() {
    assert_eq!(enc(character("x"), Some("x"), ALT, false), Some(b"\x1bx".to_vec()));
}

#[test]
fn backspace_and_tab() {
    assert_eq!(enc(Key::Named(Named::Backspace), None, NONE, false), Some(b"\x7f".to_vec()));
    assert_eq!(enc(Key::Named(Named::Tab), None, NONE, false), Some(b"\t".to_vec()));
}

#[test]
fn every_named_key_without_modifiers() {
    let table: Vec<(Named, &[u8])> = vec![
        (Named::Enter, b"\r"),
        (Named::Backspace, b"\x7f"),
        (Named::Tab, b"\t"),
        (Named::Escape, b"\x1b"),
        (Named::ArrowUp, b"\x1b[A"),
        (Named::ArrowDown, b"\x1b[B"),
        (Named::ArrowRight, b"\x1b[C"),
        (Named::ArrowLeft, b"\x1b[D"),
        (Named::Home, b"\x1b[H"),
        (Named::End, b"\x1b[F"),
        (Named::Insert, b"\x1b[2~"),
        (Named::Delete, b"\x1b[3~"),
        (Named::PageUp, b"\x1b[5~"),
        (Named::PageDown, b"\x1b[6~"),
        (Named::F1, b"\x1bOP"),
        (Named::F2, b"\x1bOQ"),
        (Named::F3, b"\x1bOR"),
        (Named::F4, b"\x1bOS"),
        (Named::F5, b"\x1b[15~"),
        (Named::F6, b"\x1b[17~"),
        (Named::F7, b"\x1b[18~"),
        (Named::F8, b"\x1b[19~"),
        (Named::F9, b"\x1b[20~"),
        (Named::F10, b"\x1b[21~"),
        (Named::F11, b"\x1b[23~"),
        (Named::F12, b"\x1b[24~"),
        (Named::Space, b" "),
    ];
    for (named, bytes) in table {
        assert_eq!(enc(Key::Named(named), None, NONE, false), Some(bytes.to_vec()), "{named:?}");
    }
    assert_eq!(enc(Key::Named(Named::Other), None, NONE, false), None);
}

#[test]
fn numbered_keys_send_distinct_sequences() {
    let numbered = [
        Named::Insert,
        Named::Delete,
        Named::PageUp,
        Named::PageDown,
        Named::F5,
        Named::F6,
        Named::F7,
        Named::F8,
        Named::F9,
        Named::F10,
        Named::F11,
        Named::F12,
    ];
    let mut sent: Vec<Vec<u8>> = Vec::new();
    for named in numbered {
        for held in 0..8u8 {
            let mods =
                Modifiers { shift: held & 1 != 0, alt: held & 2 != 0, control: held & 4 != 0 };
            if let Some(bytes) = enc(Key::Named(named), None, mods, false) {
                assert!(!sent.contains(&bytes), "{named:?} {mods:?}");
                sent.push(bytes);
            }
        }
    }
    // The two paging keys send nothing with shift.
    assert_eq!(sent.len(), 12 * 8 - 2 * 4);
}

#[test]
fn function_keys_ignore_the_cursor_mode() {
    for named in [Named::F1, Named::F2, Named::F3, Named::F4] {
        let plain = enc(Key::Named(named), None, NONE, false);
        assert_eq!(plain, enc(Key::Named(named), None, NONE, true));
        assert_eq!(plain.unwrap()[..2], *b"\x1bO");
    }
}

#[test]
fn sequences_by_number_and_letter() {
    assert_eq!(modifier_param(NONE), None);
    assert_eq!(modifier_param(Modifiers { shift: true, alt: true, control: true }), Some(8));
    assert_eq!(csi_or_ss3(b'A', false, None), b"\x1b[A");
    assert_eq!(csi_or_ss3(b'A', true, None), b"\x1bOA");
    assert_eq!(csi_or_ss3(b'A', true, Some(5)), b"\x1b[1;5A");
    assert_eq!(csi_or_ss3(b'A', false, Some(5)), b"\x1b[1;5A");
    assert_eq!(tilde(3, None), b"\x1b[3~");
    assert_eq!(tilde(200, Some(8)), b"\x1b[200;8~");
    assert_eq!(fn_key(b'P', None), b"\x1bOP");
    assert_eq!(fn_key(b'P', Some(2)), b"\x1b[1;2P");
}

#[test]
fn modifiers_add_up() {
    for (shift, alt, control, m) in [
        (true, false, false, '2'),
        (false, true, false, '3'),
        (true, true, false, '4'),
        (false, false, true, '5'),
        (true, false, true, '6'),
        (false, true, true, '7'),
        (true, true, true, '8'),
    ] {
        let mods = Modifiers { shift, control, alt };
        let arrow = format!("\x1b[1;{m}D").into_bytes();
        assert_eq!(enc(Key::Named(Named::ArrowLeft), None, mods, false), Some(arrow.clone()));
        assert_eq!(enc(Key::Named(Named::ArrowLeft), None, mods, true), Some(arrow));
        let f2 = format!("\x1b[1;{m}Q").into_bytes();
        assert_eq!(enc(Key::Named(Named::F2), None, mods, false), Some(f2));
        let delete = format!("\x1b[3;{m}~").into_bytes();
        assert_eq!(enc(Key::Named(Named::Delete), None, mods, false), Some(delete));
    }
}

#[test]
fn shifted_page_down_sends_nothing_with_other_modifiers_either() {
    let mods = Modifiers { shift: true, control: true, alt: true };
    assert_eq!(enc(Key::Named(Named::PageDown), Some("x"), mods, true), None);
}

#[test]
fn control_letters_of_both_cases() {
    for (i, c) in ('a'..='z').enumerate() {
        let place = vec![i as u8 + 1];
        assert_eq!(enc(character(&c.to_string()), None, CTRL, false), Some(place.clone()));
        let upper = c.to_ascii_uppercase().to_string();
        assert_eq!(enc(character(&upper), Some("?"), CTRL, true), Some(place));
    }
}

#[test]
fn control_symbols_and_other_characters() {
    for (s, byte) in [("@", 0x00), ("\\", 0x1c), ("]", 0x1d), ("^", 0x1e), ("/", 0x1f)] {
        assert_eq!(enc(character(s), None, CTRL, false), Some(vec![byte]));
    }
    assert_eq!(enc(Key::Named(Named::Space), Some(" "), CTRL, false), Some(vec![0x00]));
    // Other characters go as text, and so does anything longer than one character.
    assert_eq!(enc(character("1"), Some("1"), CTRL, false), Some(b"1".to_vec()));
    assert_eq!(enc(character("ab"), None, CTRL, false), Some(b"ab".to_vec()));
    assert_eq!(enc(character("é"), None, CTRL, false), Some("é".as_bytes().to_vec()));
}

#[test]
fn text_decides_what_is_typed() {
    // The text that came with the press wins over the key.
    assert_eq!(enc(character("a"), Some("ä"), NONE, false), Some("ä".as_bytes().to_vec()));
    // Without a text the key's own character is sent.
    assert_eq!(enc(character("中"), None, NONE, false), Some("中".as_bytes().to_vec()));
    // A text of control characters is not sent, and the key's character does not stand in.
    assert_eq!(enc(character("a"), Some("\u{1}"), NONE, false), None);
    assert_eq!(enc(character("a"), Some(""), NONE, false), None);
    assert_eq!(enc(character(""), None, NONE, false), None);
    assert_eq!(enc(character("\u{85}"), None, NONE, false), None);
    // A space goes out whatever the text.
    assert_eq!(enc(Key::Named(Named::Space), Some("\u{1}"), NONE, false), Some(b" ".to_vec()));
    assert_eq!(enc(Key::Unidentified, None, NONE, false), None);
    assert_eq!(enc(Key::Unidentified, Some("z"), ALT, false), Some(b"\x1bz".to_vec()));
    assert_eq!(enc(Key::Named(Named::Space), None, ALT, false), Some(b"\x1b ".to_vec()));
}
