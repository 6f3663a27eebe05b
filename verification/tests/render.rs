use vedit::document::load_rows;
use vedit::editor::EditorConfig;
use vedit::editor::EditorMode;
use vedit::escapes::bg_color;
use vedit::escapes::fg_color;
use vedit::keys::EditorKey;
use vedit::terminal::parse_cursor_reply;

fn editor(text: &str, rows: u16, cols: u16) -> EditorConfig {
    let content: Vec<char> = text.chars().collect();
    EditorConfig::new(load_rows(&content), rows, cols).unwrap()
}

#[test]
fn color_sequences_are_exact() {
    assert_eq!(bg_color(250, 238, 209), "\x1b[48;2;250;238;209m");
    assert_eq!(bg_color(96, 115, 116), "\x1b[48;2;96;115;116m");
    assert_eq!(fg_color(0, 0, 0), "\x1b[38;2;0;0;0m");
    assert_eq!(fg_color(7, 42, 250), "\x1b[38;2;7;42;250m");
}

#[test]
fn mode_labels() {
    assert_eq!(EditorMode::Normal.label(), "normal");
    assert_eq!(EditorMode::Insert.label(), "insert");
    let cmd = EditorMode::Command { cmd: Vec::new(), cmdix: 0 };
    assert_eq!(cmd.label(), "");
}

#[test]
fn frame_shape_in_normal_mode() {
    let ed = editor("abc\nde", 10, 40);
    let frame = ed.render_frame();
    // Hide cursor and home first, show cursor last: the terminal never
    // sees a half-drawn frame.
    assert!(frame.starts_with("\x1b[?25l\x1b[H"));
    assert!(frame.ends_with("\x1b[?25h"));
    // Both rows are present, with their 1-based line numbers.
    assert!(frame.contains(" 1 "));
    assert!(frame.contains("abc"));
    assert!(frame.contains(" 2 "));
    assert!(frame.contains("de"));
    // The status line shows the mode.
    assert!(frame.contains("normal"));
    // Tildes fill the space below the document.
    assert!(frame.contains("\x1b[K~\r\n"));
    // The cursor is repositioned to its screen coordinate before showing.
    let tail = format!("\x1b[{};{}H\x1b[?25h", ed.cy, ed.cx);
    assert!(frame.ends_with(&tail));
}

#[test]
fn frame_clips_text_to_the_visible_region() {
    let mut ed = editor("abcdefghij", 10, 12);
    // Gutter is 5 columns; 7 text columns fit, so the row is clipped.
    let frame = ed.render_frame();
    assert!(frame.contains("abcdefg"));
    assert!(!frame.contains("abcdefgh"));
    // After End, the final segment of the row is on screen instead.
    ed.handle_key(EditorKey::EndKey);
    let frame = ed.render_frame();
    assert!(frame.contains("defghij"));
    assert!(!frame.contains("cdefghij"));
}

#[test]
fn frame_shows_the_command_line() {
    let mut ed = editor("abc", 10, 40);
    ed.handle_key(EditorKey::K(b':'));
    ed.handle_key(EditorKey::K(b'w'));
    ed.handle_key(EditorKey::K(b'q'));
    let frame = ed.render_frame();
    assert!(frame.contains(": wq"));
    assert!(!frame.contains("normal"));
    // The cursor sits in the command line, after the typed text.
    let tail = format!("\x1b[{};{}H\x1b[?25h", ed.screenrows, 2 + 3);
    assert!(frame.ends_with(&tail));
}

#[test]
fn cursor_reply_parser() {
    assert_eq!(parse_cursor_reply(&b"\x1b[12;34R".to_vec()), Some((12, 34)));
    assert_eq!(parse_cursor_reply(&b"junk\x1b[7;9Rtail".to_vec()), Some((7, 9)));
    assert_eq!(parse_cursor_reply(&b"\x1b[;34R".to_vec()), None);
    assert_eq!(parse_cursor_reply(&b"\x1b[12;R".to_vec()), None);
    assert_eq!(parse_cursor_reply(&b"\x1b[12;34".to_vec()), None);
    assert_eq!(parse_cursor_reply(&b"no report here".to_vec()), None);
    assert_eq!(parse_cursor_reply(&b"".to_vec()), None);
    // A second field terminated by the wrong marker is malformed.
    assert_eq!(parse_cursor_reply(&b"\x1b[12;34X".to_vec()), None);
}
