use vedit::document::load_rows;
use vedit::editor::EditorConfig;
use vedit::editor::EditorMode;
use vedit::keys::EditorKey;
use vedit::step::EditorAction;

fn editor(text: &str, rows: u16, cols: u16) -> EditorConfig {
    let content: Vec<char> = text.chars().collect();
    EditorConfig::new(load_rows(&content), rows, cols).unwrap()
}

fn row_text(ed: &EditorConfig, ix: usize) -> String {
    ed.rows[ix].chars.iter().collect()
}

#[test]
fn new_rejects_tiny_terminals() {
    let content: Vec<char> = "abc".chars().collect();
    assert!(EditorConfig::new(load_rows(&content), 1, 80).is_none());
    assert!(EditorConfig::new(load_rows(&content), 24, 10).is_none());
    assert!(EditorConfig::new(load_rows(&content), 24, 11).is_some());
}

#[test]
fn initial_state() {
    let ed = editor("abc\nde", 24, 80);
    // Two rows: the gutter is one digit plus four columns wide.
    assert_eq!(ed.cx_base, 5);
    assert_eq!(ed.cx, 5);
    assert_eq!(ed.cy, 1);
    assert_eq!(ed.rowoff, 0);
    assert_eq!(ed.coloff, 0);
    assert!(!ed.rightted);
    assert!(matches!(ed.mode, EditorMode::Normal));
}

#[test]
fn sticky_column_down_then_up() {
    // Document ["abc", "de"], cursor at row 0 col 2 (on 'c').
    let mut ed = editor("abc\nde", 24, 80);
    ed.handle_key(EditorKey::ArrowRight);
    ed.handle_key(EditorKey::ArrowRight);
    assert_eq!(ed.cx, 7);  // buffer column 2
    // Down: lands on row 1, clamped to the Normal-mode right limit of
    // "de" (index 1, the 'e').
    ed.handle_key(EditorKey::ArrowDown);
    assert_eq!(ed.cy, 2);
    assert_eq!(ed.cx, 6);  // buffer column 1
    // Up: the sticky column restores buffer column 2.
    ed.handle_key(EditorKey::ArrowUp);
    assert_eq!(ed.cy, 1);
    assert_eq!(ed.cx, 7);
}

#[test]
fn insert_mode_right_limit_is_one_more_than_normal() {
    let mut ed = editor("abc\nde", 24, 80);
    let normal_limit = ed.curr_right_limit();
    ed.mode = EditorMode::Insert;
    let insert_limit = ed.curr_right_limit();
    assert_eq!(insert_limit, normal_limit + 1);
}

#[test]
fn end_then_left_clears_the_latch() {
    let mut ed = editor("abcdef\nxy", 24, 80);
    ed.handle_key(EditorKey::EndKey);
    assert!(ed.rightted);
    ed.handle_key(EditorKey::ArrowLeft);
    assert!(!ed.rightted);
    // With the latch cleared, Down no longer clamps to the end of the
    // next row: the preferred column (set by Left) is kept if it fits.
    let preferred = ed.cx;
    ed.handle_key(EditorKey::ArrowDown);
    ed.handle_key(EditorKey::ArrowUp);
    assert_eq!(ed.cx, preferred);
}

#[test]
fn quit_command_terminates() {
    let mut ed = editor("abc", 24, 80);
    assert_eq!(ed.handle_key(EditorKey::K(b':')), EditorAction::Continue);
    assert!(matches!(ed.mode, EditorMode::Command { .. }));
    assert_eq!(ed.handle_key(EditorKey::K(b'q')), EditorAction::Continue);
    assert_eq!(ed.handle_key(EditorKey::K(b'\r')), EditorAction::Quit);
    assert!(matches!(ed.mode, EditorMode::Normal));
}

#[test]
fn write_command_saves_once_and_clears_the_buffer() {
    let mut ed = editor("abc", 24, 80);
    ed.handle_key(EditorKey::K(b':'));
    ed.handle_key(EditorKey::K(b'w'));
    let mut saves = 0;
    match ed.handle_key(EditorKey::K(b'\r')) {
        EditorAction::Save => saves += 1,
        _ => {}
    }
    assert_eq!(saves, 1);
    assert!(matches!(ed.mode, EditorMode::Normal));
    // Re-entering Command mode starts from an empty buffer.
    ed.handle_key(EditorKey::K(b':'));
    match &ed.mode {
        EditorMode::Command { cmd, cmdix } => {
            assert!(cmd.is_empty());
            assert_eq!(*cmdix, 0);
        }
        _ => panic!("expected Command mode"),
    }
}

#[test]
fn unknown_command_is_ignored() {
    let mut ed = editor("abc", 24, 80);
    ed.handle_key(EditorKey::K(b':'));
    ed.handle_key(EditorKey::K(b'x'));
    assert_eq!(ed.handle_key(EditorKey::K(b'\r')), EditorAction::Continue);
    assert!(matches!(ed.mode, EditorMode::Normal));
}

#[test]
fn command_line_editing() {
    let mut ed = editor("abc", 24, 80);
    ed.handle_key(EditorKey::K(b':'));
    ed.handle_key(EditorKey::K(b'a'));
    ed.handle_key(EditorKey::K(b'c'));
    ed.handle_key(EditorKey::ArrowLeft);
    ed.handle_key(EditorKey::K(b'b'));
    match &ed.mode {
        EditorMode::Command { cmd, cmdix } => {
            assert_eq!(cmd.iter().collect::<String>(), "abc");
            assert_eq!(*cmdix, 2);
        }
        _ => panic!("expected Command mode"),
    }
    ed.handle_key(EditorKey::Backspace);
    match &ed.mode {
        EditorMode::Command { cmd, .. } => {
            assert_eq!(cmd.iter().collect::<String>(), "ac");
        }
        _ => panic!("expected Command mode"),
    }
}

#[test]
fn insert_mode_edits_the_document() {
    let mut ed = editor("abc", 24, 80);
    ed.handle_key(EditorKey::K(b'i'));
    assert!(matches!(ed.mode, EditorMode::Insert));
    ed.handle_key(EditorKey::K(b'X'));
    assert_eq!(row_text(&ed, 0), "Xabc");
    assert_eq!(ed.cx, ed.cx_base + 1);
    // ESC returns to Normal mode.
    ed.handle_key(EditorKey::K(0x1b));
    assert!(matches!(ed.mode, EditorMode::Normal));
}

#[test]
fn insert_at_end_appends() {
    let mut ed = editor("ab", 24, 80);
    ed.handle_key(EditorKey::K(b'i'));
    ed.handle_key(EditorKey::EndKey);
    ed.handle_key(EditorKey::K(b'z'));
    assert_eq!(row_text(&ed, 0), "abz");
}

#[test]
fn delete_and_backspace() {
    let mut ed = editor("abc", 24, 80);
    ed.handle_key(EditorKey::ArrowRight);
    ed.handle_key(EditorKey::DelKey);
    assert_eq!(row_text(&ed, 0), "ac");
    ed.handle_key(EditorKey::Backspace);
    assert_eq!(row_text(&ed, 0), "c");
    assert_eq!(ed.cx, ed.cx_base);
    // Backspace at buffer column zero is a silent no-op.
    ed.handle_key(EditorKey::Backspace);
    assert_eq!(row_text(&ed, 0), "c");
}

#[test]
fn vertical_moves_clamp_at_document_edges() {
    let mut ed = editor("a\nb", 24, 80);
    ed.handle_key(EditorKey::ArrowUp);
    assert_eq!(ed.cy, 1);
    assert_eq!(ed.rowoff, 0);
    ed.handle_key(EditorKey::ArrowDown);
    assert_eq!(ed.cy, 2);
    ed.handle_key(EditorKey::ArrowDown);
    // Only two rows: a further Down keeps the cursor on the last row.
    assert_eq!(ed.rowoff + ed.cy - 1, 1);
}

#[test]
fn page_moves_clamp_at_document_edges() {
    let text = (1..=100).map(|i| format!("line{}", i)).collect::<Vec<_>>().join("\n");
    let mut ed = editor(&text, 10, 80);
    ed.handle_key(EditorKey::PageDown);
    assert_eq!(ed.cy, 9);
    assert_eq!(ed.rowoff + ed.cy - 1, 9);
    ed.handle_key(EditorKey::PageUp);
    assert_eq!(ed.cy, 1);
    assert_eq!(ed.rowoff, 0);
    for _ in 0..20 {
        ed.handle_key(EditorKey::PageDown);
    }
    assert_eq!(ed.rowoff + ed.cy - 1, 99);
    for _ in 0..20 {
        ed.handle_key(EditorKey::PageUp);
    }
    assert_eq!(ed.rowoff + ed.cy - 1, 0);
}

#[test]
fn resize_reports_a_change_exactly_once() {
    let mut ed = editor("abc", 24, 80);
    // Same size: no change, no re-query needed.
    assert!(!ed.apply_winsize(24, 80));
    // The width changes between frames: exactly this call asks for one
    // cursor re-query.
    assert!(ed.apply_winsize(24, 100));
    assert_eq!(ed.screencols, 100);
    assert!(!ed.apply_winsize(24, 100));
    // A zero or unusable size is ignored.
    assert!(!ed.apply_winsize(0, 0));
    assert_eq!(ed.screenrows, 24);
}

#[test]
fn cursor_reply_resynchronizes_and_clamps() {
    let mut ed = editor("abcdef\nxy\nzz\nqq", 24, 80);
    let reply: Vec<u8> = b"\x1b[3;7R".to_vec();
    ed.handle_cursor_reply(&reply);
    assert_eq!(ed.cy, 3);
    assert_eq!(ed.cx, 7);
    // Out-of-range coordinates are clamped into the document and screen.
    let reply: Vec<u8> = b"\x1b[999;999R".to_vec();
    ed.handle_cursor_reply(&reply);
    assert_eq!(ed.cy, 4);
    assert_eq!(ed.cx, 80);
    // A malformed reply leaves the cursor untouched.
    let before = (ed.cy, ed.cx);
    let reply: Vec<u8> = b"garbage".to_vec();
    ed.handle_cursor_reply(&reply);
    assert_eq!((ed.cy, ed.cx), before);
}

#[test]
fn right_at_screen_edge_scrolls_horizontally() {
    let mut ed = editor("abcdefghij", 10, 12);
    // Gutter is 5 columns, so 7 text columns fit on screen.
    for _ in 0..7 {
        ed.handle_key(EditorKey::ArrowRight);
    }
    assert_eq!(ed.cx, 12);
    assert_eq!(ed.coloff, 0);
    // At the right screen edge with more row off-screen, a further Right
    // scrolls the viewport instead of moving the cursor.
    ed.handle_key(EditorKey::ArrowRight);
    assert_eq!(ed.cx, 12);
    assert_eq!(ed.coloff, 1);
    // Left at the gutter edge scrolls back.
    let mut back = 0;
    while ed.cx > ed.cx_base {
        ed.handle_key(EditorKey::ArrowLeft);
        back += 1;
        assert!(back < 100);
    }
    ed.handle_key(EditorKey::ArrowLeft);
    assert_eq!(ed.coloff, 0);
}

#[test]
fn end_scrolls_the_final_segment_into_view() {
    let mut ed = editor("abcdefghij", 10, 12);
    ed.handle_key(EditorKey::EndKey);
    // 7 text columns: the offset puts the row's tail on screen and the
    // cursor sits one past the last character.
    assert_eq!(ed.coloff, 3);
    assert_eq!(ed.cx, 12);
    assert!(ed.rightted);
    ed.handle_key(EditorKey::HomeKey);
    assert_eq!(ed.coloff, 0);
    assert_eq!(ed.cx, ed.cx_base);
    assert!(!ed.rightted);
}

#[test]
fn insert_key_toggles_between_normal_and_insert() {
    let mut ed = editor("abc", 24, 80);
    ed.handle_key(EditorKey::Insert);
    assert!(matches!(ed.mode, EditorMode::Insert));
    ed.handle_key(EditorKey::Insert);
    assert!(matches!(ed.mode, EditorMode::Normal));
}

#[test]
fn vertical_keys_are_ignored_in_command_mode() {
    let mut ed = editor("abc\nde", 24, 80);
    ed.handle_key(EditorKey::K(b':'));
    let before = (ed.cy, ed.cx, ed.rowoff, ed.coloff);
    ed.handle_key(EditorKey::ArrowUp);
    ed.handle_key(EditorKey::ArrowDown);
    assert_eq!((ed.cy, ed.cx, ed.rowoff, ed.coloff), before);
    assert!(matches!(ed.mode, EditorMode::Command { .. }));
}
