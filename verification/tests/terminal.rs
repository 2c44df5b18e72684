use wow_launcher::emulator::TermColor;
use wow_launcher::terminal::{
    map_bg, map_color, map_fg, snapshot_grid, CellRun, GridSnapshot, TermHandle,
};
use wow_launcher::theme::{hex, Color, TERM_ANSI, TERM_BG, TERM_DEFAULT, TERM_FG_BLACK};

fn text_of(row: &Vec<CellRun>) -> String {
    row.iter().map(|run| run.text.as_str()).collect()
}

/// The rows without the spaces at their ends.
fn shown(snap: &GridSnapshot) -> Vec<String> {
    snap.rows.iter().map(|row| text_of(row).trim_end().to_string()).collect()
}

#[test]
fn cursor_on_blank_cell_renders_solid_block() {
    let mut h = TermHandle::new(5, 20, 100);
    h.feed(b"AC> ");
    assert_eq!(h.cursor_position(), (0, 4));
    assert!(!h.hide_cursor());
    let snap = snapshot_grid(&mut h, 0);
    let row = &snap.rows[0];
    let last = row.last().expect("cursor run");
    assert_eq!(last.text, "\u{2588}", "{row:?}");
    assert_eq!(last.fg, hex(TERM_DEFAULT));
}

#[test]
fn cursor_only_renders_on_live_screen_and_history_needs_scrollback() {
    let mut h = TermHandle::new(5, 20, 300);
    for i in 0..12u8 {
        h.feed(format!("LINE-{i:02}").as_bytes());
        h.feed(b"\r\n");
    }

    let total = h.scrollback_total();
    assert!(total >= 1, "{total}");

    let live = snapshot_grid(&mut h, 0);
    let has_cursor_block =
        live.rows.last().unwrap().iter().any(|r| r.text.contains("\u{2588}"));
    assert!(has_cursor_block);
    let live_first = text_of(&live.rows[0]);
    let live_had_earliest = live_first.contains("LINE-00")
        || live.rows[1..].iter().flatten().any(|r| r.text.contains("LINE-00"));
    assert!(!live_had_earliest);

    let hist = snapshot_grid(&mut h, total);
    let no_cursor = hist.rows.iter().flatten().all(|r| !r.text.contains("\u{2588}"));
    assert!(no_cursor);
    let hist_all: String = shown(&hist).concat();
    assert!(hist_all.contains("LINE-00") || hist_all.contains("LINE-01"), "{hist_all:?}");
    let hist_first = text_of(&hist.rows[0]);
    assert_ne!(hist_first, live_first);
}

#[test]
fn a_new_terminal_is_blank() {
    let mut h = TermHandle::new(3, 8, 10);
    assert_eq!(h.size(), (3, 8));
    assert_eq!(h.cursor_position(), (0, 0));
    assert!(!h.hide_cursor());
    assert!(!h.application_cursor());
    assert_eq!(h.version, 0);
    assert_eq!(h.scrollback_total(), 0);
    let snap = snapshot_grid(&mut h, 7);
    assert_eq!(snap.offset, 0);
    assert_eq!(snap.version, 0);
    assert_eq!(snap.cursor, Some((0, 0)));
    assert_eq!(shown(&snap), vec!["\u{2588}".to_string(), String::new(), String::new()]);
}

#[test]
fn output_moves_the_version_and_the_modes() {
    let mut h = TermHandle::new(4, 10, 10);
    h.feed(b"\x1b[?1h\x1b[?25l");
    assert_eq!(h.version, 1);
    assert!(h.application_cursor());
    assert!(h.hide_cursor());
    // A hidden cursor is not drawn, and the snapshot has none.
    let snap = snapshot_grid(&mut h, 0);
    assert_eq!(shown(&snap).concat(), "");
    assert_eq!(snap.cursor, None);
    assert_eq!(snap.version, 1);
    h.feed(b"\x1b[?1l\x1b[?25h");
    assert!(!h.application_cursor());
    assert!(!h.hide_cursor());
    assert_eq!(h.version, 2);
}

#[test]
fn the_version_wraps_around() {
    let mut h = TermHandle::new(4, 10, 10);
    h.version = u64::MAX;
    h.feed(b"x");
    assert_eq!(h.version, 0);
}

#[test]
fn equal_cells_are_one_run_and_styles_split_runs() {
    let mut h = TermHandle::new(3, 30, 10);
    h.feed(b"\x1b[?25lab\x1b[1mcd\x1b[4mef\x1b[0m\x1b[31mgh\x1b[42mij\x1b[0m k");
    let snap = snapshot_grid(&mut h, 0);
    let row = &snap.rows[0];
    let texts: Vec<&str> = row.iter().map(|run| run.text.as_str()).collect();
    assert_eq!(&texts[..5], &["ab", "cd", "ef", "gh", "ij"]);
    assert!(texts[5].starts_with(" k"));
    assert!(!row[0].bold && row[1].bold && row[2].bold);
    assert!(!row[1].underline && row[2].underline && !row[3].underline);
    assert_eq!(row[0].fg, hex(TERM_DEFAULT));
    assert_eq!(row[0].bg, None);
    assert_eq!(row[3].fg, hex(TERM_ANSI[1]));
    assert_eq!(row[4].bg, Some(hex(TERM_ANSI[2])));
}

#[test]
fn a_row_ends_with_its_last_visible_run() {
    let mut h = TermHandle::new(3, 10, 10);
    // Spaces in front stay, spaces at the end go, and spaces on a colour stay.
    h.feed(b"\x1b[?25l  a\r\n   \r\nb\x1b[44m  \x1b[0m");
    let snap = snapshot_grid(&mut h, 0);
    assert!(text_of(&snap.rows[0]).starts_with("  a"));
    assert!(snap.rows[1].is_empty());
    assert_eq!(text_of(&snap.rows[2]), "b  ");
    assert_eq!(snap.rows[2].len(), 2);
}

#[test]
fn the_cursor_splits_a_run() {
    let mut h = TermHandle::new(2, 10, 10);
    h.feed(b"abc\x1b[1;2H");
    let snap = snapshot_grid(&mut h, 0);
    let texts: Vec<&str> = snap.rows[0].iter().map(|run| run.text.as_str()).collect();
    assert_eq!(texts[0], "a");
    assert_eq!(texts[1], "\u{2588}");
    assert!(texts[2].starts_with('c'));
    assert_eq!(snap.cursor, Some((0, 1)));
}

#[test]
fn colours_by_number() {
    let cases: Vec<(u8, Color)> = vec![
        (1, Color::Rgb(0xF7, 0x76, 0x8E)),
        (15, Color::Rgb(0xFF, 0xFF, 0xFF)),
        (16, Color::Rgb(0, 0, 0)),
        (17, Color::Rgb(0, 0, 95)),
        (21, Color::Rgb(0, 0, 255)),
        (22, Color::Rgb(0, 95, 0)),
        (59, Color::Rgb(95, 95, 95)),
        (110, Color::Rgb(135, 175, 215)),
        (231, Color::Rgb(255, 255, 255)),
        (232, Color::Rgb(8, 8, 8)),
        (244, Color::Rgb(128, 128, 128)),
        (255, Color::Rgb(238, 238, 238)),
    ];
    for (idx, color) in cases {
        let mut h = TermHandle::new(2, 10, 10);
        h.feed(format!("\x1b[?25l\x1b[38;5;{idx};48;5;{idx}mx").as_bytes());
        let snap = snapshot_grid(&mut h, 0);
        assert_eq!(snap.rows[0][0].fg, color, "{idx}");
        assert_eq!(snap.rows[0][0].bg, Some(color), "{idx}");
    }
}

#[test]
fn black_text_is_drawn_in_grey_and_true_colours_as_they_are() {
    let mut h = TermHandle::new(2, 20, 10);
    h.feed(b"\x1b[?25l\x1b[30;40mx\x1b[38;2;1;2;3my");
    let snap = snapshot_grid(&mut h, 0);
    assert_eq!(snap.rows[0][0].fg, hex(TERM_FG_BLACK));
    assert_eq!(snap.rows[0][0].bg, Some(hex(TERM_ANSI[0])));
    assert_eq!(snap.rows[0][1].fg, Color::Rgb(1, 2, 3));
}

#[test]
fn black_is_replaced_in_front_alone() {
    assert_eq!(map_fg(TermColor::Idx(0)), hex(TERM_FG_BLACK));
    assert_eq!(map_bg(TermColor::Idx(0)), Some(hex(TERM_ANSI[0])));
    assert_eq!(map_color(TermColor::Idx(0)), hex(TERM_ANSI[0]));
    assert_eq!(map_fg(TermColor::Default), hex(TERM_DEFAULT));
    assert_eq!(map_bg(TermColor::Default), None);
    for n in 1..=255u8 {
        assert_eq!(map_fg(TermColor::Idx(n)), map_color(TermColor::Idx(n)));
        assert_eq!(map_bg(TermColor::Idx(n)), Some(map_color(TermColor::Idx(n))));
    }
    assert_eq!(map_fg(TermColor::Rgb(1, 2, 3)), Color::Rgb(1, 2, 3));
}

#[test]
fn inverse_swaps_the_colours() {
    let mut h = TermHandle::new(2, 20, 10);
    h.feed(b"\x1b[?25l\x1b[7mx\x1b[31;42my");
    let snap = snapshot_grid(&mut h, 0);
    assert_eq!(snap.rows[0][0].fg, hex(TERM_BG));
    assert_eq!(snap.rows[0][0].bg, Some(hex(TERM_DEFAULT)));
    assert_eq!(snap.rows[0][1].fg, hex(TERM_ANSI[2]));
    assert_eq!(snap.rows[0][1].bg, Some(hex(TERM_ANSI[1])));
}

#[test]
fn history_is_limited_and_snapshots_go_back_to_the_live_screen() {
    let mut h = TermHandle::new(2, 10, 3);
    for i in 0..9u8 {
        h.feed(format!("{i}\r\n").as_bytes());
    }
    assert_eq!(h.scrollback_total(), 3);
    let top = snapshot_grid(&mut h, 100);
    assert_eq!(top.offset, 3);
    assert_eq!(top.cursor, None);
    assert_eq!(shown(&top), vec!["5".to_string(), "6".to_string()]);
    let one = snapshot_grid(&mut h, 1);
    assert_eq!(shown(&one), vec!["7".to_string(), "8".to_string()]);
    let live = snapshot_grid(&mut h, 0);
    assert_eq!(shown(&live), vec!["8".to_string(), "\u{2588}".to_string()]);
}

#[test]
fn a_view_moved_up_with_the_output_shows_the_same_lines() {
    let mut h = TermHandle::new(2, 10, 100);
    for i in 0..6u8 {
        h.feed(format!("{i}\r\n").as_bytes());
    }
    let before = snapshot_grid(&mut h, 3);
    let total = h.scrollback_total();
    for i in 6..10u8 {
        h.feed(format!("{i}\r\n").as_bytes());
    }
    let grown = h.scrollback_total() - total;
    assert_eq!(grown, 4);
    let after = snapshot_grid(&mut h, 3 + grown);
    assert_eq!(shown(&before), shown(&after));
}

#[test]
fn resizing_keeps_lines_and_moves_the_cursor_inside() {
    let mut h = TermHandle::new(4, 10, 10);
    h.feed(b"\x1b[?25labc\r\ndef\r\n\r\nghijkl");
    h.resize(2, 20);
    assert_eq!(h.size(), (2, 20));
    assert_eq!(h.version, 2);
    assert_eq!(h.cursor_position(), (1, 6));
    let snap = snapshot_grid(&mut h, 0);
    assert_eq!(snap.rows.len(), 2);
    assert_eq!(text_of(&snap.rows[0]).trim_end(), "abc");
    assert_eq!(text_of(&snap.rows[1]).trim_end(), "def");
    h.resize(2, 2);
    assert_eq!(h.cursor_position(), (1, 1));
    let snap = snapshot_grid(&mut h, 0);
    assert_eq!(text_of(&snap.rows[0]), "ab");
}

#[test]
fn clearing_empties_the_screen() {
    let mut h = TermHandle::new(3, 10, 10);
    h.feed(b"abc\r\ndef");
    h.clear();
    assert_eq!(h.version, 2);
    assert_eq!(h.cursor_position(), (0, 0));
    let snap = snapshot_grid(&mut h, 0);
    assert_eq!(shown(&snap), vec!["\u{2588}".to_string(), String::new(), String::new()]);
}

#[test]
fn clearing_drops_the_scrolled_off_lines() {
    let mut h = TermHandle::new(3, 10, 4);
    for i in 0..8u8 {
        h.feed(format!("{i}\r\n").as_bytes());
    }
    assert_eq!(h.scrollback_total(), 4);
    h.clear();
    assert_eq!(h.scrollback_total(), 0);
    let top = snapshot_grid(&mut h, 4);
    assert_eq!(top.offset, 0);
    assert_eq!(shown(&top), vec!["\u{2588}".to_string(), String::new(), String::new()]);
    // As many lines as before are kept from here on.
    for i in 0..8u8 {
        h.feed(format!("{i}\r\n").as_bytes());
    }
    assert_eq!(h.scrollback_total(), 4);
}

#[test]
fn clearing_keeps_the_style_and_the_modes() {
    let mut h = TermHandle::new(3, 10, 10);
    h.feed(b"\x1b[?1h\x1b[?25l\x1b[1;4;31;44mabc");
    h.clear();
    assert!(h.application_cursor());
    assert!(h.hide_cursor());
    assert_eq!(h.cursor_position(), (0, 0));
    h.feed(b"x");
    let snap = snapshot_grid(&mut h, 0);
    let run = &snap.rows[0][0];
    assert_eq!(run.text.trim_end(), "x");
    assert!(run.bold && run.underline);
    assert_eq!(run.fg, hex(TERM_ANSI[1]));
    assert_eq!(run.bg, Some(hex(TERM_ANSI[4])));
    // Without any of them, none is set.
    let mut h = TermHandle::new(3, 10, 10);
    h.feed(b"abc");
    h.clear();
    assert!(!h.application_cursor());
    assert!(!h.hide_cursor());
    h.feed(b"x");
    let snap = snapshot_grid(&mut h, 0);
    assert!(!snap.rows[0][0].bold);
    assert_eq!(snap.rows[0][0].bg, None);
}

#[test]
fn clearing_mends_a_narrowed_screen() {
    let mut h = TermHandle::new(3, 10, 10);
    h.feed("中中中中中".as_bytes());
    h.resize(3, 5);
    h.clear();
    h.feed("a中b中".as_bytes());
    assert_eq!(h.size(), (3, 5));
    assert_eq!(shown(&snapshot_grid(&mut h, 0))[0].replace(' ', ""), "a中b");
    // The smallest of screens can be cleared, too.
    let mut h = TermHandle::new(1, 1, 0);
    h.clear();
    assert_eq!(h.cursor_position(), (0, 0));
}

#[test]
fn ascii_output_goes_on_after_narrowing() {
    let mut h = TermHandle::new(5, 20, 10);
    h.feed(b"abcdefghijklmnop");
    h.resize(2, 4);
    h.feed(b"\r\nxyzuvw");
    let snap = snapshot_grid(&mut h, 0);
    assert_eq!(shown(&snap)[0], "xyzu");
    assert_eq!(shown(&snap)[1], "vw\u{2588}");
}

#[test]
fn the_widest_character_fits_into_three_columns() {
    let mut h = TermHandle::new(2, 3, 0);
    h.feed("ab\u{17D8}".as_bytes());
    h.feed("\u{17D8}中\tx".as_bytes());
    assert_eq!(h.size(), (2, 3));
}

#[test]
fn clearing_and_marking_keep_the_size() {
    let mut h = TermHandle::new(24, 80, 5);
    h.clear();
    h.mark_restarted();
    assert_eq!(h.size(), (24, 80));
    h.resize(24, 100);
    h.feed("中".as_bytes());
    assert_eq!(h.cursor_position(), (1, 2));
}

#[test]
fn runs_next_to_the_cursor_are_as_long_as_they_can_be() {
    let mut h = TermHandle::new(2, 12, 10);
    h.feed(b"abcdefghijkl\x1b[1;5H");
    let snap = snapshot_grid(&mut h, 0);
    let texts: Vec<&str> = snap.rows[0].iter().map(|run| run.text.as_str()).collect();
    assert_eq!(texts, vec!["abcd", "\u{2588}", "fghijkl"]);
}

#[test]
fn a_restart_is_marked_in_yellow() {
    let mut h = TermHandle::new(3, 40, 10);
    h.mark_restarted();
    assert_eq!(h.version, 1);
    let snap = snapshot_grid(&mut h, 0);
    let row = &snap.rows[0];
    assert!(row[0].text.contains("已"), "{row:?}");
    assert!(text_of(row).starts_with("--- "));
    assert_eq!(row[0].fg, hex(TERM_ANSI[3]));
    assert_eq!(h.cursor_position(), (1, 0));
}
