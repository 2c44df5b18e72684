use wow_launcher::text::{blank, contains_control, decimal, decimal_bytes, join};

#[test]
fn blank_agrees_with_trimming_on_every_character() {
    for n in 0..=0x10FFFFu32 {
        if let Some(c) = char::from_u32(n) {
            let s = c.to_string();
            assert_eq!(blank(&s), s.trim().is_empty(), "{n:#x}");
        }
    }
}

#[test]
fn control_characters_agree_on_every_character() {
    for n in 0..=0x10FFFFu32 {
        if let Some(c) = char::from_u32(n) {
            let s = c.to_string();
            assert_eq!(contains_control(&s), c.is_control(), "{n:#x}");
        }
    }
}

#[test]
fn blank_looks_at_the_whole_text() {
    assert!(blank(""));
    assert!(blank(" \t\u{3000}\r\n"));
    assert!(!blank("  x  "));
    assert!(!blank(" x"));
    assert!(contains_control("ab\u{7f}"));
    assert!(!contains_control("ab c"));
    assert!(!contains_control(""));
}

#[test]
fn decimal_numbers() {
    for n in [0u64, 7, 10, 99, 100, 4321, 4294967295, u64::MAX] {
        assert_eq!(decimal(n), n.to_string());
    }
    for n in 0..=255u8 {
        assert_eq!(decimal_bytes(n), n.to_string().into_bytes());
    }
}

#[test]
fn decimal_numbers_are_distinct() {
    let mut written: Vec<String> = Vec::new();
    for n in 0..300u64 {
        let text = decimal(n);
        assert!(!text.is_empty() && text.bytes().all(|b| b.is_ascii_digit()));
        assert!(!written.contains(&text));
        written.push(text);
    }
}

#[test]
fn joined_texts() {
    assert_eq!(join(&vec![], "/"), "");
    assert_eq!(join(&vec!["a".to_string()], "/"), "a");
    let three = vec!["MySQL".to_string(), "Auth Server".to_string(), "".to_string()];
    assert_eq!(join(&three, "/"), "MySQL/Auth Server/");
}
